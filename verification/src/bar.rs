//! One progress bar: what the display shows of it, as plain values, next to
//! the handle through which the terminal library paints it.

use crate::terminal::{
    add_bar, finish_with_line, push_position, set_bar_shown, set_counter_shown, set_glyphs,
    set_message, set_message_shown, set_percent_shown, set_speed_shown, set_time_left_shown,
    set_unit_format, throttle, tick, BarHandle, Screen, UnitFormat, GLYPH_COUNT,
};
use vstd::prelude::*;

verus! {

/// A bar is painted at most once in this many milliseconds.
pub const REFRESH_MILLIS: u64 = 200;

/// The animated fill: one glyph per tick, in this order.
pub const FILL_GLYPHS: &'static str = "▏▎▍▌▋▊▉██▉▊▋▌▍▎▏";

/// The message of a child bar whose segment has not begun.
pub const PENDING_MESSAGE: &'static str = "Pending... ";

/// Where a bar stands in its life.
#[derive(Clone, Copy, Debug, PartialEq, Eq, Structural)]
pub enum Phase {
    /// Not begun: the bar hides its numbers.
    Pending,
    /// Under way: the bar shows its numbers.
    Active,
    /// Over: a closing line has replaced the bar.
    Finished,
}

/// What the display shows of one bar.
pub struct BarView {
    /// The maximum, in bytes.
    pub size: nat,
    /// The position last reported, in bytes.
    pub position: nat,
    /// The message last set.
    pub message: Seq<char>,
    /// Whether the message is shown.
    pub show_message: bool,
    /// Whether the progress display is shown: the bar itself, the counter,
    /// the percentage, the speed and the time left.
    pub show_progress: bool,
    /// The closing lines printed in place of the bar, oldest first: one for
    /// every time the bar was finished.
    pub closings: Seq<Seq<char>>,
    /// The least time between two paintings of the bar, in milliseconds.
    pub refresh_millis: nat,
    /// The glyphs of the animated fill.
    pub glyphs: Seq<char>,
    /// The index of the glyph that the bar is at. Every tick moves it one
    /// glyph on, and from the last glyph back to the first.
    pub glyph_index: nat,
    /// How the numbers are rendered.
    pub units: UnitFormat,
}

impl BarView {
    /// A bar as the screen adds it and this crate sets it up: at zero,
    /// unfinished, throttled, with the animated fill and byte units. With a
    /// message, the message is shown and the progress display hidden;
    /// without, the progress display is shown alone. The screen has ticked
    /// the bar once, which leaves it at its second glyph.
    pub open spec fn configured(size: nat, message: Option<Seq<char>>) -> BarView {
        BarView {
            size,
            position: 0,
            message: match message {
                Some(text) => text,
                None => Seq::empty(),
            },
            show_message: message is Some,
            show_progress: message is None,
            closings: Seq::empty(),
            refresh_millis: REFRESH_MILLIS as nat,
            glyphs: FILL_GLYPHS@,
            glyph_index: 1,
            units: UnitFormat::Bytes,
        }
    }

    /// A bar as it is built: set up, then ticked once.
    pub open spec fn fresh(size: nat, message: Option<Seq<char>>) -> BarView {
        BarView::configured(size, message).ticked()
    }

    /// The bar after one tick: one glyph on. A tick asks the terminal
    /// library to paint the bar; whether it does is up to its throttle.
    pub open spec fn ticked(self) -> BarView {
        BarView { glyph_index: (self.glyph_index + 1) % (GLYPH_COUNT as nat), ..self }
    }

    /// The bar with a new message, ticked once.
    pub open spec fn announced(self, text: Seq<char>) -> BarView {
        BarView { message: text, ..self }.ticked()
    }

    /// The bar with its message cleared and hidden and its progress display
    /// shown, ticked once.
    pub open spec fn activated(self) -> BarView {
        BarView {
            message: Seq::empty(),
            show_message: false,
            show_progress: true,
            ..self
        }.ticked()
    }

    /// The bar at a new position, ticked once.
    pub open spec fn moved_to(self, position: nat) -> BarView {
        BarView { position, ..self }.ticked()
    }

    /// The bar replaced by a closing line once more: the line is printed
    /// whether or not the bar had finished before.
    pub open spec fn finished_with(self, text: Seq<char>) -> BarView {
        BarView { closings: self.closings.push(text), ..self }
    }

    /// Whether a closing line has replaced the bar.
    pub open spec fn finished(self) -> bool {
        self.closings.len() > 0
    }

    /// The closing line that stands in place of the bar: the last one printed.
    pub open spec fn closing(self) -> Option<Seq<char>> {
        if self.closings.len() > 0 {
            Some(self.closings.last())
        } else {
            None
        }
    }

    /// Where the bar stands in its life.
    pub open spec fn phase(self) -> Phase {
        if self.finished() {
            Phase::Finished
        } else if self.show_progress {
            Phase::Active
        } else {
            Phase::Pending
        }
    }
}

/// What a list of texts holds, text by text.
pub open spec fn text_views(texts: Seq<String>) -> Seq<Seq<char>> {
    Seq::new(texts.len(), |i: int| texts[i]@)
}

/// The animated fill has as many glyphs as a bar takes.
pub proof fn lemma_glyph_count()
    ensures
        FILL_GLYPHS@.len() == GLYPH_COUNT,
{
    reveal_strlit("▏▎▍▌▋▊▉██▉▊▋▌▍▎▏");
}

/// One bar of a session.
pub struct Bar {
    handle: BarHandle,
    size: u64,
    position: u64,
    message: String,
    show_message: bool,
    show_progress: bool,
    closings: Vec<String>,
    refresh_millis: u64,
    glyph_index: usize,
    units: UnitFormat,
}

impl View for Bar {
    type V = BarView;

    closed spec fn view(&self) -> BarView {
        BarView {
            size: self.size as nat,
            position: self.position as nat,
            message: self.message@,
            show_message: self.show_message,
            show_progress: self.show_progress,
            closings: text_views(self.closings@),
            refresh_millis: self.refresh_millis as nat,
            glyphs: FILL_GLYPHS@,
            glyph_index: (self.glyph_index % GLYPH_COUNT) as nat,
            units: self.units,
        }
    }
}

/// Shows or hides the progress display of a bar: the bar itself, the
/// counter, the percentage, the speed and the time left. Returns whether all
/// of them are shown afterwards.
fn set_progress_shown(handle: &mut BarHandle, shown: bool) -> (now_shown: bool)
    ensures
        now_shown == shown,
{
    let bar = set_bar_shown(handle, shown);
    let counter = set_counter_shown(handle, shown);
    let percent = set_percent_shown(handle, shown);
    let speed = set_speed_shown(handle, shown);
    let time_left = set_time_left_shown(handle, shown);
    bar && counter && percent && speed && time_left
}

/// The index of the glyph after the one at `index`.
fn next_glyph(index: usize) -> (next: usize)
    ensures
        next == ((index % GLYPH_COUNT) + 1) % (GLYPH_COUNT as int),
        next < GLYPH_COUNT,
{
    (index % GLYPH_COUNT + 1) % GLYPH_COUNT
}

impl Bar {
    /// Adds a bar of the given size below the lines that `screen` holds:
    /// throttled, with the animated fill and byte units. With a message the
    /// bar is pending: it shows the message and hides its progress display.
    /// The bar is ticked once when its setup is complete.
    pub(crate) fn build(screen: &Screen, size: u64, message: Option<String>) -> (bar: Bar)
        ensures
            bar@ == BarView::fresh(
                size as nat,
                match message {
                    Some(text) => Some(text@),
                    None => None,
                },
            ),
    {
        let (mut handle, size) = add_bar(screen, size);
        throttle(&mut handle, REFRESH_MILLIS);
        proof {
            lemma_glyph_count();
        }
        set_glyphs(&mut handle, FILL_GLYPHS);
        set_unit_format(&mut handle, UnitFormat::Bytes);
        let (message, show_message, show_progress) = match message {
            Some(text) => {
                let message_shown = set_message_shown(&mut handle, true);
                let progress_shown = set_progress_shown(&mut handle, false);
                set_message(&mut handle, text.as_str());
                (text, message_shown, progress_shown)
            },
            None => {
                let message_shown = set_message_shown(&mut handle, false);
                let progress_shown = set_progress_shown(&mut handle, true);
                (String::new(), message_shown, progress_shown)
            },
        };
        let mut bar = Bar {
            handle,
            size,
            position: 0,
            message,
            show_message,
            show_progress,
            closings: Vec::new(),
            refresh_millis: REFRESH_MILLIS,
            glyph_index: 1,
            units: UnitFormat::Bytes,
        };
        assert(text_views(bar.closings@) =~= Seq::<Seq<char>>::empty());
        bar.tick();
        bar
    }

    /// Ticks the bar once.
    fn tick(&mut self)
        ensures
            final(self)@ == old(self)@.ticked(),
    {
        tick(&mut self.handle);
        self.glyph_index = next_glyph(self.glyph_index);
    }

    /// The maximum, in bytes.
    pub fn size(&self) -> (size: u64)
        ensures
            size == self@.size,
    {
        self.size
    }

    /// The position last reported, in bytes.
    pub fn position(&self) -> (position: u64)
        ensures
            position == self@.position,
    {
        self.position
    }

    /// The message last set.
    pub fn message(&self) -> (message: &str)
        ensures
            message@ == self@.message,
    {
        self.message.as_str()
    }

    /// Whether the message is shown.
    pub fn shows_message(&self) -> (shown: bool)
        ensures
            shown == self@.show_message,
    {
        self.show_message
    }

    /// Whether the progress display is shown: the bar itself and its numbers.
    pub fn shows_progress(&self) -> (shown: bool)
        ensures
            shown == self@.show_progress,
    {
        self.show_progress
    }

    /// Whether a closing line has replaced the bar.
    pub fn is_finished(&self) -> (finished: bool)
        ensures
            finished == self@.finished(),
    {
        self.closings.len() > 0
    }

    /// How many times the bar was finished, and so how many closing lines
    /// were printed in its place.
    pub fn finish_count(&self) -> (count: usize)
        ensures
            count == self@.closings.len(),
    {
        self.closings.len()
    }

    /// The closing line that stands in place of the bar, once it has finished.
    pub fn closing_line(&self) -> (line: Option<&str>)
        ensures
            match line {
                Some(text) => self@.closing() == Some(text@),
                None => self@.closing() is None,
            },
    {
        let count = self.closings.len();
        if count > 0 {
            Some(self.closings[count - 1].as_str())
        } else {
            None
        }
    }

    /// The least time between two paintings of the bar, in milliseconds.
    pub fn refresh_millis(&self) -> (millis: u64)
        ensures
            millis == self@.refresh_millis,
    {
        self.refresh_millis
    }

    /// The glyphs of the animated fill.
    pub fn glyphs(&self) -> (glyphs: &str)
        ensures
            glyphs@ == self@.glyphs,
    {
        FILL_GLYPHS
    }

    /// The index of the glyph that the bar is at.
    pub fn glyph_index(&self) -> (index: usize)
        ensures
            index == self@.glyph_index,
    {
        self.glyph_index % GLYPH_COUNT
    }

    /// How the numbers are rendered.
    pub fn units(&self) -> (units: UnitFormat)
        ensures
            units == self@.units,
    {
        self.units
    }

    /// Where the bar stands in its life.
    pub fn phase(&self) -> (phase: Phase)
        ensures
            phase == self@.phase(),
    {
        if self.closings.len() > 0 {
            Phase::Finished
        } else if self.show_progress {
            Phase::Active
        } else {
            Phase::Pending
        }
    }

    /// Shows `text` as the bar's message and ticks the bar once.
    pub(crate) fn announce(&mut self, text: &str)
        ensures
            final(self)@ == old(self)@.announced(text@),
    {
        set_message(&mut self.handle, text);
        self.message = text.to_owned();
        self.tick();
    }

    /// Clears and hides the message, shows the progress display, and ticks
    /// the bar once.
    pub(crate) fn activate(&mut self)
        ensures
            final(self)@ == old(self)@.activated(),
    {
        set_message(&mut self.handle, "");
        self.message = String::new();
        self.show_message = set_message_shown(&mut self.handle, false);
        self.show_progress = set_progress_shown(&mut self.handle, true);
        self.tick();
    }

    /// Moves the bar to `position`, which ticks it once.
    pub(crate) fn move_to(&mut self, position: u64)
        ensures
            final(self)@ == old(self)@.moved_to(position as nat),
    {
        self.position = push_position(&mut self.handle, position);
        self.glyph_index = next_glyph(self.glyph_index);
    }

    /// Finishes the bar: `text` is printed in place of its line, also where
    /// a closing line stands there already.
    pub(crate) fn finish(&mut self, text: &str)
        ensures
            final(self)@ == old(self)@.finished_with(text@),
    {
        let finished = finish_with_line(&mut self.handle, text);
        if finished {
            self.closings.push(text.to_owned());
        }
        assert(text_views(self.closings@) =~= text_views(old(self).closings@).push(text@));
    }
}

} // verus!
