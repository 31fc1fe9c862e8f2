//! What holds of every session, whatever the workers report and in whatever
//! order: stated over the session's view and proved once.

use crate::bar::Phase;
use crate::session::{slot_of, SessionView, STARTING_MESSAGE};
use crate::terminal::GLYPH_COUNT;
use crate::totals::{lemma_total_update, total_of};
use vstd::prelude::*;

verus! {

/// One progress report: a segment's index and its absolute byte count.
pub struct Report {
    pub bar_idx: int,
    pub progress: u64,
}

/// The session after a run of progress reports, applied in order.
pub open spec fn after_updates(start: SessionView, reports: Seq<Report>) -> SessionView
    decreases reports.len(),
{
    if reports.len() == 0 {
        start
    } else {
        after_updates(start, reports.drop_last()).after_update(
            reports.last().bar_idx,
            reports.last().progress,
        )
    }
}

/// A progress report keeps the session's invariant. With a counter for the
/// segment, the counter then holds the reported value and every other counter
/// is as before; without one, the session is as before.
pub proof fn law_update_keeps_invariant(session: SessionView, bar_idx: int, progress: u64)
    requires
        session.well_formed(),
    ensures
        session.after_update(bar_idx, progress).well_formed(),
        session.after_update(bar_idx, progress).global_position() == total_of(
            session.after_update(bar_idx, progress).totals,
        ),
        0 <= bar_idx < session.totals.len() ==> session.after_update(bar_idx, progress).totals
            == session.totals.update(bar_idx, progress),
        !(0 <= bar_idx < session.totals.len()) ==> session.after_update(bar_idx, progress)
            == session,
{
}

/// After every one of a run of progress reports, whatever their indices and
/// values, the global bar stands at the sum of the counters.
pub proof fn law_global_bar_is_sum(start: SessionView, reports: Seq<Report>, n: int)
    requires
        start.well_formed(),
        0 <= n <= reports.len(),
    ensures
        after_updates(start, reports.take(n)).well_formed(),
        after_updates(start, reports.take(n)).global_position() == total_of(
            after_updates(start, reports.take(n)).totals,
        ),
    decreases n,
{
    if n > 0 {
        law_global_bar_is_sum(start, reports, n - 1);
        assert(reports.take(n).drop_last() =~= reports.take(n - 1));
        law_update_keeps_invariant(
            after_updates(start, reports.take(n - 1)),
            reports.take(n).last().bar_idx,
            reports.take(n).last().progress,
        );
    }
}

/// The sum that the global bar shows is that of the latest report of each
/// segment: a report changes the sum by the difference to the segment's
/// previous count.
pub proof fn law_update_moves_sum_by_difference(session: SessionView, bar_idx: int, progress: u64)
    requires
        session.well_formed(),
        0 <= bar_idx < session.totals.len(),
    ensures
        session.after_update(bar_idx, progress).global_position() == session.global_position()
            - session.totals[bar_idx] + progress,
{
    lemma_total_update(session.totals, bar_idx, progress);
}

/// Finishing a bar that exists prints the given closing line in its place,
/// whether or not the bar had finished before, and marks it finished. It
/// changes nothing else: not the counters, not the position of any bar, and
/// no other bar at all.
pub proof fn law_finish_touches_one_bar(session: SessionView, slot: int, text: Seq<char>)
    requires
        session.well_formed(),
        session.has_bar(slot),
    ensures
        session.after_finish(slot, text).well_formed(),
        session.after_finish(slot, text).bars[slot].finished(),
        session.after_finish(slot, text).bars[slot].closing() == Some(text),
        session.after_finish(slot, text).bars[slot].closings == session.bars[slot].closings.push(
            text,
        ),
        session.after_finish(slot, text).totals == session.totals,
        session.after_finish(slot, text).bars.len() == session.bars.len(),
        forall|other: int|
            0 <= other < session.bars.len() ==> (#[trigger] session.after_finish(
                slot,
                text,
            ).bars[other]).position == session.bars[other].position,
        forall|other: int|
            0 <= other < session.bars.len() && other != slot ==> #[trigger] session.after_finish(
                slot,
                text,
            ).bars[other] == session.bars[other],
{
}

/// Setting up and starting a bar keep the session's invariant and leave the
/// counters and every bar's position as they were.
pub proof fn law_lifecycle_keeps_progress(session: SessionView, bar_idx: int)
    requires
        session.well_formed(),
    ensures
        session.after_setting_up(bar_idx).well_formed(),
        session.after_start(bar_idx).well_formed(),
        session.after_setting_up(bar_idx).totals == session.totals,
        session.after_start(bar_idx).totals == session.totals,
        session.after_setting_up(bar_idx).global_position() == session.global_position(),
        session.after_start(bar_idx).global_position() == session.global_position(),
{
}

/// Setting up a bar that exists shows the starting message and ticks the bar
/// once; the bar stays pending, its progress display as it was. Starting it
/// clears and hides the message, shows the progress display and ticks the bar
/// once, so that a bar that has not finished is then active.
pub proof fn law_lifecycle_steps(session: SessionView, bar_idx: int)
    requires
        session.well_formed(),
        session.has_bar(slot_of(bar_idx)),
    ensures
        session.after_setting_up(bar_idx).bars[slot_of(bar_idx)].message == STARTING_MESSAGE@,
        session.after_setting_up(bar_idx).bars[slot_of(bar_idx)].show_progress
            == session.bars[slot_of(bar_idx)].show_progress,
        session.after_setting_up(bar_idx).bars[slot_of(bar_idx)].glyph_index == (
        session.bars[slot_of(bar_idx)].glyph_index + 1) % (GLYPH_COUNT as nat),
        session.after_start(bar_idx).bars[slot_of(bar_idx)].message.len() == 0,
        !session.after_start(bar_idx).bars[slot_of(bar_idx)].show_message,
        session.after_start(bar_idx).bars[slot_of(bar_idx)].show_progress,
        session.after_start(bar_idx).bars[slot_of(bar_idx)].glyph_index == (
        session.bars[slot_of(bar_idx)].glyph_index + 1) % (GLYPH_COUNT as nat),
        !session.bars[slot_of(bar_idx)].finished() ==> session.after_start(
            bar_idx,
        ).bars[slot_of(bar_idx)].phase() == Phase::Active,
        session.after_setting_up(bar_idx).lines == session.lines,
        session.after_start(bar_idx).lines == session.lines,
{
}

/// The layout of the display is fixed at setup: no report and no lifecycle
/// step adds, removes or reorders a line, a bar or a counter, and none
/// changes the header or the size of a bar.
pub proof fn law_layout_is_fixed(
    session: SessionView,
    bar_idx: int,
    progress: u64,
    slot: int,
    text: Seq<char>,
)
    requires
        session.well_formed(),
    ensures
        same_layout(session, session.after_setting_up(bar_idx)),
        same_layout(session, session.after_start(bar_idx)),
        same_layout(session, session.after_update(bar_idx, progress)),
        same_layout(session, session.after_finish(slot, text)),
{
}

/// Whether two sessions have the same header, lines, number of counters and
/// bars, and the same size of each bar.
pub open spec fn same_layout(before: SessionView, after: SessionView) -> bool {
    &&& after.header == before.header
    &&& after.lines == before.lines
    &&& after.totals.len() == before.totals.len()
    &&& after.bars.len() == before.bars.len()
    &&& forall|slot: int|
        0 <= slot < before.bars.len() ==> (#[trigger] after.bars[slot]).size
            == before.bars[slot].size
}

/// An index whose bar the registry does not hold is tolerated: setting up,
/// starting and finishing leave the session exactly as it was, and a progress
/// report for it touches no child bar. If the index has no counter either,
/// which is so for every index but zero, the report changes nothing at all.
pub proof fn law_absent_bar_is_skipped(
    session: SessionView,
    bar_idx: int,
    progress: u64,
    text: Seq<char>,
)
    requires
        session.well_formed(),
        !session.has_bar(slot_of(bar_idx)),
    ensures
        session.after_setting_up(bar_idx) == session,
        session.after_start(bar_idx) == session,
        session.after_finish(slot_of(bar_idx), text) == session,
        session.after_update(bar_idx, progress).bars.len() == session.bars.len(),
        forall|slot: int|
            1 <= slot < session.bars.len() ==> #[trigger] session.after_update(
                bar_idx,
                progress,
            ).bars[slot] == session.bars[slot],
        bar_idx != 0 ==> session.after_update(bar_idx, progress) == session,
{
}

} // verus!
