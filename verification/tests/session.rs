use download_progress::bar::Phase;
use download_progress::session::{can_update, child_slot, Row};
use download_progress::terminal::UnitFormat;
use download_progress::totals::checked_total;
use download_progress::{
    fail_bar, finish_bar_with_message, setting_up_bar, start_bar, start_pbr, success_bar,
    success_global_bar, update_bar, Session,
};

fn sum(session: &Session) -> u64 {
    session.totals().iter().sum()
}

#[test]
fn single_segment_session() {
    let mut session = start_pbr("file.bin", vec![100]);
    assert_eq!(session.totals(), &vec![0]);
    assert_eq!(session.bar_count(), 1);
    assert!(session.bar(1).is_none());

    update_bar(&mut session, 0, 50);
    assert_eq!(session.global_position(), 50);
    assert_eq!(session.totals(), &vec![50]);

    update_bar(&mut session, 1, 10);
    assert_eq!(session.global_position(), 50);
    assert_eq!(session.totals(), &vec![50]);
    assert_eq!(session.bar_count(), 1);
}

#[test]
fn two_segment_session() {
    let mut session = start_pbr("file.bin", vec![100, 200]);
    assert_eq!(session.bar_count(), 3);
    assert_eq!(session.totals().len(), 2);
    assert_eq!(session.totals(), &vec![0, 0]);

    update_bar(&mut session, 0, 40);
    assert_eq!(session.global_position(), 40);
    update_bar(&mut session, 1, 60);
    assert_eq!(session.global_position(), 100);
    assert_eq!(session.bar(1).unwrap().position(), 40);
    assert_eq!(session.bar(2).unwrap().position(), 60);
}

#[test]
fn header_line_carries_the_label() {
    let session = start_pbr("ubuntu.iso", vec![10, 20, 30]);
    assert_eq!(session.header(), "Downloading: ubuntu.iso");
    let session = start_pbr("", vec![1]);
    assert_eq!(session.header(), "Downloading: ");
}

#[test]
fn global_bar_is_sized_to_the_sum() {
    let session = start_pbr("f", vec![100, 200, 4000]);
    let global = session.bar(0).unwrap();
    assert_eq!(global.size(), 4300);
    assert_eq!(global.position(), 0);
    assert_eq!(global.message(), "");
    assert!(!global.shows_message());
    assert!(global.shows_progress());
    assert_eq!(global.phase(), Phase::Active);
    assert!(!global.is_finished());
    assert_eq!(global.finish_count(), 0);
    assert_eq!(global.closing_line(), None);
    assert_eq!(global.glyph_index(), 2);
}

#[test]
fn child_bars_start_pending_in_segment_order() {
    let session = start_pbr("f", vec![100, 200, 4000]);
    let sizes = [100u64, 200, 4000];
    for (idx, size) in sizes.iter().enumerate() {
        let child = session.bar(idx + 1).unwrap();
        assert_eq!(child.size(), *size);
        assert_eq!(child.position(), 0);
        assert_eq!(child.message(), "Pending... ");
        assert!(child.shows_message());
        assert!(!child.shows_progress());
        assert_eq!(child.phase(), Phase::Pending);
        assert!(!child.is_finished());
        assert_eq!(child.glyph_index(), 2);
    }
    assert!(session.bar(4).is_none());
}

#[test]
fn every_bar_is_throttled_animated_and_in_bytes() {
    let session = start_pbr("f", vec![100, 200]);
    for slot in 0..3 {
        let bar = session.bar(slot).unwrap();
        assert_eq!(bar.refresh_millis(), 200);
        assert_eq!(bar.glyphs(), "▏▎▍▌▋▊▉██▉▊▋▌▍▎▏");
        assert_eq!(bar.glyphs().chars().count(), 16);
        assert_eq!(bar.units(), UnitFormat::Bytes);
    }
}

#[test]
fn no_segments_still_has_one_counter() {
    let mut session = start_pbr("f", vec![]);
    assert_eq!(session.bar_count(), 1);
    assert_eq!(session.totals(), &vec![0]);
    assert_eq!(session.bar(0).unwrap().size(), 0);
    update_bar(&mut session, 0, 7);
    assert_eq!(session.global_position(), 7);
}

#[test]
fn global_bar_equals_sum_after_every_update() {
    let mut session = start_pbr("f", vec![1000, 2000, 3000]);
    assert_eq!(session.global_position(), sum(&session));
    let reports: [(usize, u64); 8] =
        [(0, 10), (2, 500), (1, 7), (0, 5), (2, 3000), (7, 99), (1, 2000), (0, 1000)];
    let expected: [u64; 8] = [10, 510, 517, 512, 3012, 3012, 5005, 6000];
    for (report, want) in reports.iter().zip(expected.iter()) {
        update_bar(&mut session, report.0, report.1);
        assert_eq!(session.global_position(), sum(&session));
        assert_eq!(session.global_position(), *want);
    }
    assert_eq!(session.totals(), &vec![1000, 2000, 3000]);
}

#[test]
fn update_is_absolute_not_a_delta() {
    let mut session = start_pbr("f", vec![100, 100]);
    update_bar(&mut session, 0, 30);
    update_bar(&mut session, 0, 30);
    assert_eq!(session.global_position(), 30);
    update_bar(&mut session, 0, 20);
    assert_eq!(session.global_position(), 20);
    assert_eq!(session.bar(1).unwrap().position(), 20);
}

#[test]
fn update_may_pass_the_segment_size() {
    let mut session = start_pbr("f", vec![10, 10]);
    update_bar(&mut session, 1, 25);
    assert_eq!(session.bar(2).unwrap().position(), 25);
    assert_eq!(session.global_position(), 25);
    update_bar(&mut session, 0, 1);
    assert_eq!(session.global_position(), 26);
}

#[test]
fn setting_up_shows_starting_message() {
    let mut session = start_pbr("f", vec![100, 200]);
    setting_up_bar(&mut session, 1);
    let child = session.bar(2).unwrap();
    assert_eq!(child.message(), "Starting... ");
    assert!(child.shows_message());
    assert!(!child.shows_progress());
    assert_eq!(child.phase(), Phase::Pending);
    assert_eq!(child.glyph_index(), 3);
    assert_eq!(session.bar(1).unwrap().glyph_index(), 2);
    assert_eq!(session.bar(1).unwrap().message(), "Pending... ");
    assert_eq!(session.bar(0).unwrap().message(), "");
}

#[test]
fn start_clears_message_and_activates() {
    let mut session = start_pbr("f", vec![100, 200]);
    setting_up_bar(&mut session, 0);
    start_bar(&mut session, 0);
    let child = session.bar(1).unwrap();
    assert_eq!(child.message(), "");
    assert!(!child.shows_message());
    assert!(child.shows_progress());
    assert_eq!(child.phase(), Phase::Active);
    assert_eq!(child.glyph_index(), 4);
    assert_eq!(session.bar(2).unwrap().phase(), Phase::Pending);
    assert!(!session.bar(2).unwrap().shows_progress());
}

#[test]
fn start_without_setting_up_shows_the_numbers() {
    let mut session = start_pbr("f", vec![100, 200]);
    start_bar(&mut session, 1);
    let child = session.bar(2).unwrap();
    assert!(child.shows_progress());
    assert!(!child.shows_message());
    assert_eq!(child.phase(), Phase::Active);
    assert_eq!(child.glyph_index(), 3);
}

#[test]
fn display_lines_run_from_header_to_last_child() {
    let session = start_pbr("ubuntu.iso", vec![10, 20, 30]);
    let lines = session.lines();
    assert_eq!(lines.len(), 6);
    match &lines[0] {
        Row::Text(text) => assert_eq!(text, "Downloading: ubuntu.iso"),
        other => panic!("the header is not on top: {:?}", other),
    }
    assert!(matches!(lines[1], Row::Bar(0)));
    match &lines[2] {
        Row::Text(text) => assert_eq!(text, ""),
        other => panic!("no blank line below the global bar: {:?}", other),
    }
    assert!(matches!(lines[3], Row::Bar(1)));
    assert!(matches!(lines[4], Row::Bar(2)));
    assert!(matches!(lines[5], Row::Bar(3)));

    let single = start_pbr("one", vec![10]);
    assert_eq!(single.lines().len(), 3);
    assert!(matches!(single.lines()[1], Row::Bar(0)));
}

#[test]
fn every_update_ticks_the_segment_and_the_global_bar() {
    let mut session = start_pbr("f", vec![100, 200]);
    update_bar(&mut session, 0, 1);
    assert_eq!(session.bar(0).unwrap().glyph_index(), 3);
    assert_eq!(session.bar(1).unwrap().glyph_index(), 3);
    assert_eq!(session.bar(2).unwrap().glyph_index(), 2);
    for round in 0..15u64 {
        update_bar(&mut session, 1, round);
    }
    assert_eq!(session.bar(0).unwrap().glyph_index(), 2);
    assert_eq!(session.bar(1).unwrap().glyph_index(), 3);
    assert_eq!(session.bar(2).unwrap().glyph_index(), 1);
    update_bar(&mut session, 1, 0);
    assert_eq!(session.bar(2).unwrap().glyph_index(), 2);
    update_bar(&mut session, 7, 0);
    assert_eq!(session.bar(0).unwrap().glyph_index(), 3);
}

#[test]
fn success_finishes_one_bar_only() {
    let mut session = start_pbr("f", vec![100, 200, 300]);
    update_bar(&mut session, 0, 40);
    update_bar(&mut session, 1, 60);
    update_bar(&mut session, 2, 5);
    success_bar(&mut session, 1);

    let done = session.bar(2).unwrap();
    assert!(done.is_finished());
    assert_eq!(done.phase(), Phase::Finished);
    assert_eq!(done.closing_line(), Some("Download Complete!"));
    assert_eq!(done.position(), 60);

    assert_eq!(session.totals(), &vec![40, 60, 5]);
    assert_eq!(session.global_position(), 105);
    assert_eq!(session.bar(1).unwrap().position(), 40);
    assert_eq!(session.bar(3).unwrap().position(), 5);
    assert!(!session.bar(0).unwrap().is_finished());
    assert!(!session.bar(1).unwrap().is_finished());
    assert!(!session.bar(3).unwrap().is_finished());
}

#[test]
fn fail_finishes_with_failure_line() {
    let mut session = start_pbr("f", vec![100, 200]);
    fail_bar(&mut session, 0);
    let failed = session.bar(1).unwrap();
    assert!(failed.is_finished());
    assert_eq!(failed.closing_line(), Some("Download Failed!"));
    assert_eq!(session.totals(), &vec![0, 0]);
    assert!(!session.bar(2).unwrap().is_finished());
}

#[test]
fn success_global_finishes_slot_zero() {
    let mut session = start_pbr("f", vec![100, 200]);
    update_bar(&mut session, 0, 100);
    update_bar(&mut session, 1, 200);
    success_global_bar(&mut session);
    let global = session.bar(0).unwrap();
    assert!(global.is_finished());
    assert_eq!(global.closing_line(), Some("Download Complete!"));
    assert_eq!(session.global_position(), 300);
    assert!(!session.bar(1).unwrap().is_finished());
}

#[test]
fn finishing_twice_is_accepted() {
    let mut session = start_pbr("f", vec![100, 200]);
    success_bar(&mut session, 0);
    assert_eq!(session.bar(1).unwrap().finish_count(), 1);
    success_bar(&mut session, 0);
    assert_eq!(session.bar(1).unwrap().finish_count(), 2);
    assert_eq!(session.bar(1).unwrap().closing_line(), Some("Download Complete!"));
    fail_bar(&mut session, 0);
    assert_eq!(session.bar(1).unwrap().finish_count(), 3);
    assert_eq!(session.bar(1).unwrap().closing_line(), Some("Download Failed!"));
    success_bar(&mut session, 0);
    assert_eq!(session.bar(1).unwrap().finish_count(), 4);
    assert_eq!(session.bar(1).unwrap().closing_line(), Some("Download Complete!"));
    assert!(session.bar(1).unwrap().is_finished());
    assert_eq!(session.bar(2).unwrap().finish_count(), 0);
    assert_eq!(session.bar(0).unwrap().finish_count(), 0);
}

#[test]
fn finish_with_custom_line_addresses_registry_slots() {
    let mut session = start_pbr("f", vec![100, 200]);
    finish_bar_with_message(&mut session, 2, "Cancelled");
    assert_eq!(session.bar(2).unwrap().closing_line(), Some("Cancelled"));
    assert!(!session.bar(1).unwrap().is_finished());
    finish_bar_with_message(&mut session, 3, "Cancelled");
    assert_eq!(session.bar_count(), 3);
}

#[test]
fn absent_bars_are_skipped_without_panic() {
    let mut session = start_pbr("f", vec![100, 200]);
    update_bar(&mut session, 0, 40);
    for idx in [2usize, 3, 100, usize::MAX - 1, usize::MAX] {
        setting_up_bar(&mut session, idx);
        start_bar(&mut session, idx);
        update_bar(&mut session, idx, 77);
        success_bar(&mut session, idx);
        fail_bar(&mut session, idx);
    }
    assert_eq!(session.bar_count(), 3);
    assert_eq!(session.totals(), &vec![40, 0]);
    assert_eq!(session.global_position(), 40);
    for slot in 0..3 {
        assert!(!session.bar(slot).unwrap().is_finished());
    }
    assert_eq!(session.bar(1).unwrap().message(), "Pending... ");
    assert_eq!(session.bar(2).unwrap().message(), "Pending... ");
}

#[test]
fn single_segment_lifecycle_hooks_are_skipped() {
    let mut session = start_pbr("f", vec![100]);
    setting_up_bar(&mut session, 0);
    start_bar(&mut session, 0);
    update_bar(&mut session, 0, 100);
    success_bar(&mut session, 0);
    fail_bar(&mut session, 0);
    assert_eq!(session.bar_count(), 1);
    let global = session.bar(0).unwrap();
    assert!(!global.is_finished());
    assert_eq!(global.message(), "");
    assert_eq!(session.global_position(), 100);
    success_global_bar(&mut session);
    assert!(session.bar(0).unwrap().is_finished());
}

#[test]
fn child_slot_is_index_plus_one() {
    assert_eq!(child_slot(0), Some(1));
    assert_eq!(child_slot(41), Some(42));
    assert_eq!(child_slot(usize::MAX - 1), Some(usize::MAX));
    assert_eq!(child_slot(usize::MAX), None);
}

#[test]
fn checked_total_adds_up_or_reports_overflow() {
    assert_eq!(checked_total(&vec![]), Some(0));
    assert_eq!(checked_total(&vec![100, 200, 4000]), Some(4300));
    assert_eq!(checked_total(&vec![u64::MAX]), Some(u64::MAX));
    assert_eq!(checked_total(&vec![u64::MAX - 1, 1]), Some(u64::MAX));
    assert_eq!(checked_total(&vec![u64::MAX, 1]), None);
    assert_eq!(checked_total(&vec![1, u64::MAX, 0]), None);
}

#[test]
fn can_update_guards_the_sum() {
    let mut session = start_pbr("f", vec![100, 200]);
    assert!(can_update(&session, 0, u64::MAX));
    update_bar(&mut session, 0, u64::MAX);
    assert_eq!(session.global_position(), u64::MAX);
    assert!(!can_update(&session, 1, 1));
    assert!(can_update(&session, 1, 0));
    assert!(can_update(&session, 0, 5));
    assert!(can_update(&session, 9, u64::MAX));
    update_bar(&mut session, 0, u64::MAX - 1);
    assert!(can_update(&session, 1, 1));
    assert!(!can_update(&session, 1, 2));
    update_bar(&mut session, 1, 1);
    assert_eq!(session.global_position(), u64::MAX);
}

#[test]
fn screen_handles_share_the_session_multibar() {
    let mut session = start_pbr("f", vec![10, 20]);
    let first = session.screen();
    let second = session.screen();
    assert!(std::sync::Arc::ptr_eq(&first.multibar, &second.multibar));

    update_bar(&mut session, 0, 5);
    setting_up_bar(&mut session, 1);
    start_bar(&mut session, 1);
    success_bar(&mut session, 0);
    fail_bar(&mut session, 1);
    success_global_bar(&mut session);
    let later = session.screen();
    assert!(std::sync::Arc::ptr_eq(&first.multibar, &later.multibar));

    let other = start_pbr("g", vec![10, 20]);
    assert!(!std::sync::Arc::ptr_eq(&first.multibar, &other.screen().multibar));
}

#[test]
fn listener_ends_once_every_bar_has_finished() {
    let mut session = start_pbr("f", vec![10, 20]);
    let screen = session.screen();
    setting_up_bar(&mut session, 0);
    start_bar(&mut session, 0);
    update_bar(&mut session, 0, 10);
    update_bar(&mut session, 1, 20);
    success_bar(&mut session, 0);
    fail_bar(&mut session, 1);
    success_global_bar(&mut session);
    screen.multibar.listen();
    assert_eq!(session.global_position(), 30);
}
