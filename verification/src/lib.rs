//! A multi-bar terminal progress display for a segmented download: one
//! global bar for the whole transfer and one child bar per segment.

pub mod bar;
pub mod laws;
pub mod session;
pub mod terminal;
pub mod totals;

pub use session::{
    can_update, fail_bar, finish_bar_with_message, setting_up_bar, start_bar, start_pbr,
    success_bar, success_global_bar, update_bar, Session,
};
