//! The boundary to the `pbr` terminal library.
//!
//! Everything in this module is taken on trust: the verifier does not look
//! inside `pbr`, so each function below states in its contract only what
//! `pbr`'s source shows, and its comment says what that is.
//!
//! A bar sends what it paints through a channel to the multi-bar that made it,
//! and panics when that multi-bar no longer exists. A [`BarHandle`] is only
//! ever made by [`add_bar`], which stores a handle to the multi-bar beside
//! the bar, so no bar outlives its multi-bar.
//!
//! A bar picks the glyph it shows by an index that only `tick` brings back
//! into range, and `pbr` indexes the glyph list with it whenever it paints,
//! also when a bar is finished without a `tick` before. A new bar stands at
//! index 1 of `pbr`'s four default glyphs. [`set_glyphs`] therefore takes
//! lists of exactly [`GLYPH_COUNT`] glyphs and no others: the list never
//! gets shorter, so the index is within the list after every call.

use pbr::{MultiBar, Pipe, ProgressBar, Units};
use std::io::Stdout;
use std::sync::Arc;
use std::time::Duration;
use vstd::prelude::*;

verus! {

/// A shared `pbr::MultiBar` on standard output: the screen that owns the
/// terminal lines. Its blocking `listen` loop does the actual painting and is
/// run by whoever owns the terminal, on a thread of its own.
///
/// `pbr` declares its types over `std::io::Write`, a trait the verifier does
/// not know, so the multi-bar is held in a struct the verifier does not open.
#[verifier::external_body]
pub struct Screen {
    pub multibar: Arc<MultiBar<Stdout>>,
}

/// A `pbr::ProgressBar` that belongs to a [`Screen`]: one bar line of it,
/// with a handle to the multi-bar that it sends its paintings to. Held in a
/// struct the verifier does not open, for the same reason.
#[verifier::external_body]
pub struct BarHandle {
    bar: ProgressBar<Pipe>,
    #[allow(dead_code)]
    multibar: Arc<MultiBar<Stdout>>,
}

/// How a bar renders its numbers.
#[derive(Clone, Copy, Debug, PartialEq, Eq, Structural)]
pub enum UnitFormat {
    /// Plain counts.
    Count,
    /// Human-scaled byte counts (`KB`, `MB`, ...).
    Bytes,
}

/// The longest refresh interval that may be handed to a bar, in
/// milliseconds: one hour.
pub const MAX_REFRESH_MILLIS: u64 = 3_600_000;

/// The number of glyphs in every glyph list that a bar is given. It is not
/// below the four of `pbr`'s default list, so no list shortens the one
/// before it.
pub const GLYPH_COUNT: usize = 16;

/// `MultiBar::new`: a multi-bar that writes to standard output. It holds no
/// lines yet and prints nothing until its listener runs.
#[verifier::external_body]
pub(crate) fn open_screen() -> (screen: Screen) {
    Screen { multibar: Arc::new(MultiBar::new()) }
}

/// `Arc::clone`: a second handle to the same multi-bar. std documents that
/// the clone points to the allocation of its source; a screen is nothing but
/// that pointer, so the clone equals the screen it was made from.
#[verifier::external_body]
pub(crate) fn share_screen(screen: &Screen) -> (shared: Screen)
    ensures
        shared == *screen,
{
    Screen { multibar: Arc::clone(&screen.multibar) }
}

/// `MultiBar::println`: appends a line of text below the lines added so far.
/// Nothing comes back.
#[verifier::external_body]
pub(crate) fn add_line(screen: &Screen, text: &str) {
    screen.multibar.println(text);
}

/// `MultiBar::create_bar`: appends a bar with the given maximum below the
/// lines added so far and ticks it once. The new bar is at position zero
/// and unfinished; its public `total` field, handed back with it, holds the
/// maximum it was made with.
#[verifier::external_body]
pub(crate) fn add_bar(screen: &Screen, total: u64) -> (made: (BarHandle, u64))
    ensures
        made.1 == total,
{
    let bar = screen.multibar.create_bar(total);
    let size = bar.total;
    (BarHandle { bar, multibar: Arc::clone(&screen.multibar) }, size)
}

/// `ProgressBar::set_max_refresh_rate`, with an interval in milliseconds.
/// `pbr` moves the instant at which the bar was last painted back by the
/// interval; its clock arithmetic fails only on intervals of centuries, far
/// above the bound.
#[verifier::external_body]
pub(crate) fn throttle(handle: &mut BarHandle, millis: u64)
    requires
        millis <= MAX_REFRESH_MILLIS,
{
    handle.bar.set_max_refresh_rate(Some(Duration::from_millis(millis)));
}

/// `ProgressBar::tick_format`: the bar cycles through the characters of
/// `glyphs`, one per tick. `pbr` keeps the index of the current glyph as it
/// is, divides by the number of glyphs on every tick, and indexes the list
/// whenever it paints. The list must have exactly `GLYPH_COUNT` glyphs: the
/// index, which is below the length of the list before, is then below the
/// length of this one too.
#[verifier::external_body]
pub(crate) fn set_glyphs(handle: &mut BarHandle, glyphs: &str)
    requires
        glyphs@.len() == GLYPH_COUNT,
{
    handle.bar.tick_format(glyphs);
}

/// `ProgressBar::set_units`.
#[verifier::external_body]
pub(crate) fn set_unit_format(handle: &mut BarHandle, format: UnitFormat) {
    match format {
        UnitFormat::Count => handle.bar.set_units(Units::Default),
        UnitFormat::Bytes => handle.bar.set_units(Units::Bytes),
    }
}

/// `ProgressBar::message`: the text shown in front of the bar's numbers.
#[verifier::external_body]
pub(crate) fn set_message(handle: &mut BarHandle, text: &str) {
    handle.bar.message(text);
}

/// Assigns `ProgressBar::show_message`, a public field, and reads it back.
#[verifier::external_body]
pub(crate) fn set_message_shown(handle: &mut BarHandle, shown: bool) -> (now_shown: bool)
    ensures
        now_shown == shown,
{
    handle.bar.show_message = shown;
    handle.bar.show_message
}

/// Assigns `ProgressBar::show_bar`, a public field, and reads it back.
#[verifier::external_body]
pub(crate) fn set_bar_shown(handle: &mut BarHandle, shown: bool) -> (now_shown: bool)
    ensures
        now_shown == shown,
{
    handle.bar.show_bar = shown;
    handle.bar.show_bar
}

/// Assigns `ProgressBar::show_counter`, a public field, and reads it back.
#[verifier::external_body]
pub(crate) fn set_counter_shown(handle: &mut BarHandle, shown: bool) -> (now_shown: bool)
    ensures
        now_shown == shown,
{
    handle.bar.show_counter = shown;
    handle.bar.show_counter
}

/// Assigns `ProgressBar::show_percent`, a public field, and reads it back.
#[verifier::external_body]
pub(crate) fn set_percent_shown(handle: &mut BarHandle, shown: bool) -> (now_shown: bool)
    ensures
        now_shown == shown,
{
    handle.bar.show_percent = shown;
    handle.bar.show_percent
}

/// Assigns `ProgressBar::show_speed`, a public field, and reads it back.
#[verifier::external_body]
pub(crate) fn set_speed_shown(handle: &mut BarHandle, shown: bool) -> (now_shown: bool)
    ensures
        now_shown == shown,
{
    handle.bar.show_speed = shown;
    handle.bar.show_speed
}

/// Assigns `ProgressBar::show_time_left`, a public field, and reads it back.
#[verifier::external_body]
pub(crate) fn set_time_left_shown(handle: &mut BarHandle, shown: bool) -> (now_shown: bool)
    ensures
        now_shown == shown,
{
    handle.bar.show_time_left = shown;
    handle.bar.show_time_left
}

/// `ProgressBar::tick`: moves the bar one glyph on. `pbr` then paints the
/// bar if its position is within its size and its refresh interval has
/// passed.
#[verifier::external_body]
pub(crate) fn tick(handle: &mut BarHandle) {
    handle.bar.tick();
}

/// `ProgressBar::set`: stores `position` as the bar's current value, ticks
/// the bar, and returns the stored value.
#[verifier::external_body]
pub(crate) fn push_position(handle: &mut BarHandle, position: u64) -> (stored: u64)
    ensures
        stored == position,
{
    handle.bar.set(position)
}

/// `ProgressBar::finish_print`: marks the bar finished, replaces its line by
/// `text` and tells the multi-bar that the bar is done. Returns the bar's
/// public `is_finish` flag, which `pbr` has set by then.
#[verifier::external_body]
pub(crate) fn finish_with_line(handle: &mut BarHandle, text: &str) -> (finished: bool)
    ensures
        finished,
{
    handle.bar.finish_print(text);
    handle.bar.is_finish
}

} // verus!
