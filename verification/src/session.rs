//! A download session's display: the bar registry, the totals tracker, and
//! the entry points through which download workers report progress.
//!
//! Slot 0 of the registry is the global bar. A session of two or more
//! segments has one child bar per segment, in the order the segments were
//! declared; a session of fewer has none. The totals tracker always has one
//! counter per segment, and at least one.

use crate::bar::{Bar, BarView, PENDING_MESSAGE};
use crate::terminal::{add_line, open_screen, share_screen, Screen};
use crate::totals::{lemma_total_update, lemma_total_zeros, total, total_of, zeros};
use vstd::prelude::*;
use vstd::string::StringExecFns;

verus! {

/// The closing line of a bar whose download went through.
pub const COMPLETE_MESSAGE: &'static str = "Download Complete!";

/// The closing line of a bar whose download failed.
pub const FAILED_MESSAGE: &'static str = "Download Failed!";

/// The message of a child bar whose segment is being set up.
pub const STARTING_MESSAGE: &'static str = "Starting... ";

/// The registry slot of the global bar.
pub const GLOBAL_SLOT: usize = 0;

/// The registry slot of segment `bar_idx`'s child bar: segments count from
/// zero, and the global bar comes first.
pub open spec fn slot_of(bar_idx: int) -> int {
    bar_idx + 1
}

/// The header line of a session: the label behind a fixed prefix.
pub open spec fn header_line(label: Seq<char>) -> Seq<char> {
    "Downloading: "@ + label
}

/// The child bars of a session over segments of the given sizes: none for
/// fewer than two segments, else one pending bar per segment.
pub open spec fn child_bars(lengths: Seq<u64>) -> Seq<BarView> {
    if lengths.len() > 1 {
        Seq::new(
            lengths.len(),
            |i: int| BarView::fresh(lengths[i] as nat, Some(PENDING_MESSAGE@)),
        )
    } else {
        Seq::empty()
    }
}

/// One line of the display, as the screen stacks them from the top.
pub enum Line {
    /// A line of text.
    Text(Seq<char>),
    /// The bar at this slot of the registry.
    Bar(int),
}

/// The lines of the child bars of a session over segments of the given
/// sizes, in the order of the segments.
pub open spec fn child_lines(lengths: Seq<u64>) -> Seq<Line> {
    if lengths.len() > 1 {
        Seq::new(lengths.len(), |i: int| Line::Bar(slot_of(i)))
    } else {
        Seq::empty()
    }
}

/// The number of counters of a session over `segments` segments.
pub open spec fn counter_count(segments: nat) -> nat {
    if segments > 1 {
        segments
    } else {
        1
    }
}

/// What a session shows and tracks.
pub struct SessionView {
    /// The header line.
    pub header: Seq<char>,
    /// The lines of the display, from the top, in the order in which they
    /// were handed to the screen.
    pub lines: Seq<Line>,
    /// The bar registry: the global bar, then the child bars.
    pub bars: Seq<BarView>,
    /// The totals tracker: the bytes done of each segment.
    pub totals: Seq<u64>,
}

impl SessionView {
    /// A session as `start_pbr` sets it up: the header line on top, the
    /// global bar below it, a blank line, then the child bars.
    pub open spec fn opened(label: Seq<char>, lengths: Seq<u64>) -> SessionView {
        SessionView {
            header: header_line(label),
            lines: seq![
                Line::Text(header_line(label)),
                Line::Bar(GLOBAL_SLOT as int),
                Line::Text(Seq::empty()),
            ] + child_lines(lengths),
            bars: seq![BarView::fresh(total_of(lengths), None)] + child_bars(lengths),
            totals: zeros(counter_count(lengths.len())),
        }
    }

    /// The invariant of a session: there is a global bar; a single counter
    /// has no child bar, two or more have one each; the global bar stands at
    /// the sum of the counters; and each child bar stands at its segment's
    /// counter.
    pub open spec fn well_formed(self) -> bool {
        &&& self.totals.len() >= 1
        &&& self.bars.len() == 1 + if self.totals.len() > 1 {
            self.totals.len()
        } else {
            0
        }
        &&& self.bars[0].position == total_of(self.totals)
        &&& forall|i: int|
            0 <= i < self.totals.len() && slot_of(i) < self.bars.len() ==> self.bars[slot_of(
                i,
            )].position == #[trigger] self.totals[i]
    }

    /// Whether the registry has a bar at `slot`.
    pub open spec fn has_bar(self, slot: int) -> bool {
        0 <= slot < self.bars.len()
    }

    /// The position of the global bar.
    pub open spec fn global_position(self) -> nat {
        self.bars[0].position
    }

    /// The session with the bar at `slot` replaced, if there is one.
    pub open spec fn with_bar(self, slot: int, bar: BarView) -> SessionView {
        if self.has_bar(slot) {
            SessionView { bars: self.bars.update(slot, bar), ..self }
        } else {
            self
        }
    }

    /// The session after `setting_up_bar(bar_idx)`.
    pub open spec fn after_setting_up(self, bar_idx: int) -> SessionView {
        let slot = slot_of(bar_idx);
        self.with_bar(slot, self.bars[slot].announced(STARTING_MESSAGE@))
    }

    /// The session after `start_bar(bar_idx)`.
    pub open spec fn after_start(self, bar_idx: int) -> SessionView {
        let slot = slot_of(bar_idx);
        self.with_bar(slot, self.bars[slot].activated())
    }

    /// The session after the bar at `slot` was finished with `text`.
    pub open spec fn after_finish(self, slot: int, text: Seq<char>) -> SessionView {
        self.with_bar(slot, self.bars[slot].finished_with(text))
    }

    /// The session after `update_bar(bar_idx, progress)`: the segment's
    /// counter and child bar stand at `progress`, and the global bar at the
    /// new sum. An index without a counter changes nothing.
    pub open spec fn after_update(self, bar_idx: int, progress: u64) -> SessionView {
        if 0 <= bar_idx < self.totals.len() {
            let slot = slot_of(bar_idx);
            let moved = self.with_bar(slot, self.bars[slot].moved_to(progress as nat));
            let totals = self.totals.update(bar_idx, progress);
            SessionView {
                bars: moved.bars.update(0, moved.bars[0].moved_to(total_of(totals))),
                totals,
                ..self
            }
        } else {
            self
        }
    }

    /// Whether `update_bar(bar_idx, progress)` leaves a sum that fits in 64
    /// bits.
    pub open spec fn can_update(self, bar_idx: int, progress: u64) -> bool {
        0 <= bar_idx < self.totals.len() ==> total_of(self.totals.update(bar_idx, progress))
            <= u64::MAX
    }
}

/// One line of the display, as a session records it.
#[derive(Debug)]
pub enum Row {
    /// A line of text.
    Text(String),
    /// The bar at this slot of the registry.
    Bar(usize),
}

impl View for Row {
    type V = Line;

    open spec fn view(&self) -> Line {
        match self {
            Row::Text(text) => Line::Text(text@),
            Row::Bar(slot) => Line::Bar(*slot as int),
        }
    }
}

/// What the rows of a display show, line by line.
pub open spec fn row_views(rows: Seq<Row>) -> Seq<Line> {
    Seq::new(rows.len(), |i: int| rows[i]@)
}

/// What the bars of a registry show, slot by slot.
pub open spec fn bar_views(bars: Seq<Bar>) -> Seq<BarView> {
    Seq::new(bars.len(), |i: int| bars[i]@)
}

/// The display of one download session.
pub struct Session {
    screen: Screen,
    header: String,
    lines: Vec<Row>,
    bars: Vec<Bar>,
    totals: Vec<u64>,
}

impl View for Session {
    type V = SessionView;

    closed spec fn view(&self) -> SessionView {
        SessionView {
            header: self.header@,
            lines: row_views(self.lines@),
            bars: bar_views(self.bars@),
            totals: self.totals@,
        }
    }
}

impl Session {
    /// The invariant that `start_pbr` establishes and every entry point keeps.
    pub open spec fn wf(&self) -> bool {
        self@.well_formed()
    }

    /// The header line.
    pub fn header(&self) -> (header: &str)
        ensures
            header@ == self@.header,
    {
        self.header.as_str()
    }

    /// The lines of the display, from the top.
    pub fn lines(&self) -> (lines: &Vec<Row>)
        ensures
            row_views(lines@) == self@.lines,
    {
        &self.lines
    }

    /// The number of bars in the registry, the global bar included.
    pub fn bar_count(&self) -> (count: usize)
        ensures
            count == self@.bars.len(),
    {
        self.bars.len()
    }

    /// The bar at registry slot `slot`, if there is one.
    pub fn bar(&self, slot: usize) -> (bar: Option<&Bar>)
        ensures
            match bar {
                Some(b) => self@.has_bar(slot as int) && b@ == self@.bars[slot as int],
                None => !self@.has_bar(slot as int),
            },
    {
        if slot < self.bars.len() {
            Some(&self.bars[slot])
        } else {
            None
        }
    }

    /// The totals tracker: the bytes done of each segment.
    pub fn totals(&self) -> (totals: &Vec<u64>)
        ensures
            totals@ == self@.totals,
    {
        &self.totals
    }

    /// The position of the global bar.
    pub fn global_position(&self) -> (position: u64)
        requires
            self.wf(),
        ensures
            position == self@.global_position(),
            position == total_of(self@.totals),
    {
        self.bars[GLOBAL_SLOT].position()
    }

    /// The screen that the session paints on: the one that `start_pbr`
    /// opened for it. No entry point ever exchanges it.
    pub closed spec fn painted_on(&self) -> Screen {
        self.screen
    }

    /// A handle to the display that the session paints on. Its multi-bar's
    /// blocking `listen` loop repaints the terminal; the owner of the
    /// terminal runs it on a thread of its own.
    pub fn screen(&self) -> (screen: Screen)
        ensures
            screen == self.painted_on(),
    {
        share_screen(&self.screen)
    }
}

/// The registry slot of segment `bar_idx`'s child bar, or `None` where the
/// slot's number does not fit in a `usize` (no registry is that long).
pub fn child_slot(bar_idx: usize) -> (slot: Option<usize>)
    ensures
        match slot {
            Some(s) => s == slot_of(bar_idx as int),
            None => slot_of(bar_idx as int) > usize::MAX,
        },
{
    bar_idx.checked_add(1)
}

/// Hands a line of text to the screen, below the lines handed over so far.
fn print_line(screen: &Screen, lines: &mut Vec<Row>, text: String)
    ensures
        row_views(final(lines)@) == row_views(old(lines)@).push(Line::Text(text@)),
{
    add_line(screen, text.as_str());
    lines.push(Row::Text(text));
    assert(row_views(lines@) =~= row_views(old(lines)@).push(Line::Text(text@)));
}

/// Builds a bar below the lines handed to the screen so far, ticks it once,
/// and appends it to the registry.
fn build_bar(
    screen: &Screen,
    lines: &mut Vec<Row>,
    bars: &mut Vec<Bar>,
    size: u64,
    message: Option<String>,
)
    ensures
        row_views(final(lines)@) == row_views(old(lines)@).push(Line::Bar(old(bars)@.len() as int)),
        bar_views(final(bars)@) == bar_views(old(bars)@).push(
            BarView::fresh(
                size as nat,
                match message {
                    Some(text) => Some(text@),
                    None => None,
                },
            ),
        ),
{
    let bar = Bar::build(screen, size, message);
    lines.push(Row::Bar(bars.len()));
    bars.push(bar);
    assert(row_views(lines@) =~= row_views(old(lines)@).push(Line::Bar(old(bars)@.len() as int)));
    assert(bar_views(bars@) =~= bar_views(old(bars)@).push(bar@));
}

/// Appends the global bar: no message, progress display shown from the start.
fn build_global_bar(screen: &Screen, lines: &mut Vec<Row>, bars: &mut Vec<Bar>, size: u64)
    ensures
        row_views(final(lines)@) == row_views(old(lines)@).push(Line::Bar(old(bars)@.len() as int)),
        bar_views(final(bars)@) == bar_views(old(bars)@).push(BarView::fresh(size as nat, None)),
{
    build_bar(screen, lines, bars, size, None);
}

/// Appends a segment's child bar, pending: its message shown, its progress
/// display hidden. Appends the segment's counter, at zero.
fn build_child_bar(
    screen: &Screen,
    lines: &mut Vec<Row>,
    bars: &mut Vec<Bar>,
    totals: &mut Vec<u64>,
    size: u64,
)
    ensures
        row_views(final(lines)@) == row_views(old(lines)@).push(Line::Bar(old(bars)@.len() as int)),
        bar_views(final(bars)@) == bar_views(old(bars)@).push(
            BarView::fresh(size as nat, Some(PENDING_MESSAGE@)),
        ),
        final(totals)@ == old(totals)@.push(0u64),
{
    build_bar(screen, lines, bars, size, Some(PENDING_MESSAGE.to_owned()));
    totals.push(0);
}

/// Sets up the display of a download. From the top: a header line with
/// `file_name`, the global bar sized to the sum of `lengths`, a blank line,
/// and, for two or more segments, one pending child bar per segment. Every
/// bar is ticked once as it is built. Every counter starts at zero. The
/// sum of `lengths` must fit in 64 bits.
///
/// Nothing reaches the terminal until the listener of [`Session::screen`]
/// runs.
pub fn start_pbr(file_name: &str, lengths: Vec<u64>) -> (session: Session)
    requires
        total_of(lengths@) <= u64::MAX,
    ensures
        session@ == SessionView::opened(file_name@, lengths@),
        session.wf(),
{
    let screen = open_screen();
    let header = "Downloading: ".to_owned().concat(file_name);
    let mut lines: Vec<Row> = Vec::new();
    let mut bars: Vec<Bar> = Vec::new();
    let mut totals: Vec<u64> = Vec::new();
    print_line(&screen, &mut lines, header.clone());

    let total_length = total(&lengths);
    build_global_bar(&screen, &mut lines, &mut bars, total_length);
    print_line(&screen, &mut lines, String::new());
    let ghost top = seq![
        Line::Text(header_line(file_name@)),
        Line::Bar(GLOBAL_SLOT as int),
        Line::Text(Seq::empty()),
    ];
    assert(row_views(lines@) =~= top);

    if lengths.len() > 1 {
        let mut i: usize = 0;
        while i < lengths.len()
            invariant
                i <= lengths.len(),
                lengths.len() > 1,
                totals@ == zeros(i as nat),
                bar_views(bars@) == seq![BarView::fresh(total_of(lengths@), None)] + child_bars(
                    lengths@,
                ).take(i as int),
                row_views(lines@) == top + child_lines(lengths@).take(i as int),
            decreases lengths.len() - i,
        {
            build_child_bar(&screen, &mut lines, &mut bars, &mut totals, lengths[i]);
            assert(totals@ =~= zeros((i + 1) as nat));
            assert(bar_views(bars@) =~= seq![BarView::fresh(total_of(lengths@), None)]
                + child_bars(lengths@).take(i + 1));
            assert(row_views(lines@) =~= top + child_lines(lengths@).take(i + 1));
            i = i + 1;
        }
        assert(child_bars(lengths@).take(i as int) =~= child_bars(lengths@));
        assert(child_lines(lengths@).take(i as int) =~= child_lines(lengths@));
    } else {
        totals.push(0);
        assert(totals@ =~= zeros(1));
        assert(bar_views(bars@) =~= seq![BarView::fresh(total_of(lengths@), None)] + child_bars(
            lengths@,
        ));
        assert(row_views(lines@) =~= top + child_lines(lengths@));
    }
    proof {
        lemma_total_zeros(counter_count(lengths@.len()));
    }
    Session { screen, header, lines, bars, totals }
}

/// Marks segment `bar_idx` as being set up: its child bar shows
/// "Starting... " and is ticked once. Without such a bar nothing happens.
pub fn setting_up_bar(session: &mut Session, bar_idx: usize)
    requires
        old(session).wf(),
    ensures
        final(session)@ == old(session)@.after_setting_up(bar_idx as int),
        final(session).wf(),
        final(session).painted_on() == old(session).painted_on(),
{
    let count = session.bars.len();
    if let Some(slot) = child_slot(bar_idx) {
        if slot < count {
            session.bars[slot].announce(STARTING_MESSAGE);
            assert(bar_views(session.bars@) =~= bar_views(old(session).bars@).update(
                slot as int,
                session.bars@[slot as int]@,
            ));
        }
    }
}

/// Marks segment `bar_idx` as under way: its child bar drops its message,
/// shows its progress display, which was hidden while it was pending, and is
/// ticked once. Without such a bar nothing happens.
pub fn start_bar(session: &mut Session, bar_idx: usize)
    requires
        old(session).wf(),
    ensures
        final(session)@ == old(session)@.after_start(bar_idx as int),
        old(session)@.has_bar(slot_of(bar_idx as int)) ==> final(session)@.bars[slot_of(
            bar_idx as int,
        )].show_progress && !final(session)@.bars[slot_of(bar_idx as int)].show_message,
        final(session).wf(),
        final(session).painted_on() == old(session).painted_on(),
{
    let count = session.bars.len();
    if let Some(slot) = child_slot(bar_idx) {
        if slot < count {
            session.bars[slot].activate();
            assert(bar_views(session.bars@) =~= bar_views(old(session).bars@).update(
                slot as int,
                session.bars@[slot as int]@,
            ));
        }
    }
}

/// Finishes the bar at registry slot `act_bar`: `message` replaces its line.
/// Without such a bar nothing happens. Finishing a bar twice prints its
/// closing line twice.
pub fn finish_bar_with_message(session: &mut Session, act_bar: usize, message: &str)
    requires
        old(session).wf(),
    ensures
        final(session)@ == old(session)@.after_finish(act_bar as int, message@),
        final(session).wf(),
        final(session).painted_on() == old(session).painted_on(),
{
    if act_bar < session.bars.len() {
        session.bars[act_bar].finish(message);
        assert(bar_views(session.bars@) =~= bar_views(old(session).bars@).update(
            act_bar as int,
            session.bars@[act_bar as int]@,
        ));
    }
}

/// Finishes the global bar with "Download Complete!".
pub fn success_global_bar(session: &mut Session)
    requires
        old(session).wf(),
    ensures
        final(session)@ == old(session)@.after_finish(GLOBAL_SLOT as int, COMPLETE_MESSAGE@),
        final(session).wf(),
        final(session).painted_on() == old(session).painted_on(),
{
    finish_bar_with_message(session, GLOBAL_SLOT, COMPLETE_MESSAGE);
}

/// Finishes segment `bar_idx`'s child bar with "Download Complete!". Without
/// such a bar nothing happens.
pub fn success_bar(session: &mut Session, bar_idx: usize)
    requires
        old(session).wf(),
    ensures
        final(session)@ == old(session)@.after_finish(slot_of(bar_idx as int), COMPLETE_MESSAGE@),
        final(session).wf(),
        final(session).painted_on() == old(session).painted_on(),
{
    // The registry's length fits in a `usize`: a slot beyond that holds no bar.
    assert(session@.bars.len() == session.bars.len());
    if let Some(slot) = child_slot(bar_idx) {
        finish_bar_with_message(session, slot, COMPLETE_MESSAGE);
    }
}

/// Finishes segment `bar_idx`'s child bar with "Download Failed!". Without
/// such a bar nothing happens.
pub fn fail_bar(session: &mut Session, bar_idx: usize)
    requires
        old(session).wf(),
    ensures
        final(session)@ == old(session)@.after_finish(slot_of(bar_idx as int), FAILED_MESSAGE@),
        final(session).wf(),
        final(session).painted_on() == old(session).painted_on(),
{
    // The registry's length fits in a `usize`: a slot beyond that holds no bar.
    assert(session@.bars.len() == session.bars.len());
    if let Some(slot) = child_slot(bar_idx) {
        finish_bar_with_message(session, slot, FAILED_MESSAGE);
    }
}

/// Whether `update_bar(session, bar_idx, progress)` may be called: whether
/// the counters would still add up within 64 bits.
pub fn can_update(session: &Session, bar_idx: usize, progress: u64) -> (fits: bool)
    requires
        session.wf(),
    ensures
        fits == session@.can_update(bar_idx as int, progress),
{
    if bar_idx < session.totals.len() {
        proof {
            lemma_total_update(session.totals@, bar_idx as int, 0);
            lemma_total_update(session.totals@, bar_idx as int, progress);
        }
        let others = session.bars[GLOBAL_SLOT].position() - session.totals[bar_idx];
        progress <= u64::MAX - others
    } else {
        true
    }
}

/// Reports that segment `bar_idx` has `progress` bytes done in all (an
/// absolute count, not an increment): the segment's counter and its child
/// bar, if it has one, move to `progress`, and the global bar moves to the
/// sum of all counters. Each bar that moves is ticked once. An index without
/// a counter changes nothing.
pub fn update_bar(session: &mut Session, bar_idx: usize, progress: u64)
    requires
        old(session).wf(),
        old(session)@.can_update(bar_idx as int, progress),
    ensures
        final(session)@ == old(session)@.after_update(bar_idx as int, progress),
        final(session).wf(),
        final(session).painted_on() == old(session).painted_on(),
        final(session)@.global_position() == total_of(final(session)@.totals),
{
    if bar_idx >= session.totals.len() {
        return ;
    }
    let slot = bar_idx + 1;
    if slot < session.bars.len() {
        session.bars[slot].move_to(progress);
    }
    session.totals[bar_idx] = progress;

    let total_progress = total(&session.totals);
    session.bars[GLOBAL_SLOT].move_to(total_progress);
    assert(session@.bars =~= old(session)@.after_update(bar_idx as int, progress).bars);
}

} // verus!
