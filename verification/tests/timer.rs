use bjj_lib::MatchTimer;
use std::time::{Duration, Instant};

fn wait_millis(millis: u64) {
    let begun = Instant::now();
    while begun.elapsed() < Duration::from_millis(millis) {
        std::hint::spin_loop();
    }
}

#[test]
fn default_timer_is_stopped_with_five_minutes() {
    let timer = MatchTimer::default();
    assert!(!timer.is_running());
    assert_eq!(timer.duration_seconds(), 300);
    assert_eq!(timer.elapsed_milliseconds(), 0);
    assert_eq!(timer.running_for(), 0);
    assert_eq!(timer.remaining(), 300_000);
    assert!(!timer.is_complete());
}

#[test]
fn stopped_timer_ignores_the_clock() {
    let timer = MatchTimer::with_duration(10);
    assert_eq!(timer.remaining_after(0), 10_000);
    assert_eq!(timer.remaining_after(4_000), 10_000);
    assert_eq!(timer.remaining_after(u128::MAX), 10_000);
    assert_eq!(timer.remaining(), 10_000);
}

#[test]
fn running_timer_counts_the_open_interval() {
    let mut timer = MatchTimer::with_duration(10);
    timer.start();
    assert!(timer.is_running());
    assert_eq!(timer.remaining_after(0), 10_000);
    assert_eq!(timer.remaining_after(1), 9_999);
    assert_eq!(timer.remaining_after(2_500), 7_500);
    assert_eq!(timer.remaining_after(10_000), 0);
    assert_eq!(timer.remaining_after(10_001), 0);
}

#[test]
fn closed_intervals_count_by_whole_seconds() {
    let mut timer = MatchTimer::with_duration(10);
    timer.start();
    timer.stop_after(2_500);
    assert!(!timer.is_running());
    assert_eq!(timer.elapsed_milliseconds(), 2_500);
    assert_eq!(timer.remaining(), 8_000);
    timer.start();
    assert_eq!(timer.remaining_after(700), 7_300);
    timer.stop_after(700);
    assert_eq!(timer.elapsed_milliseconds(), 3_200);
    assert_eq!(timer.remaining(), 7_000);
}

#[test]
fn stop_on_a_stopped_timer_changes_nothing() {
    let mut timer = MatchTimer::with_duration(10);
    timer.stop();
    assert!(!timer.is_running());
    assert_eq!(timer.elapsed_milliseconds(), 0);
    timer.stop_after(9_000);
    assert_eq!(timer.elapsed_milliseconds(), 0);
    assert_eq!(timer.remaining(), 10_000);
}

#[test]
fn start_on_a_running_timer_keeps_the_open_interval() {
    let mut timer = MatchTimer::with_duration(10);
    timer.start();
    wait_millis(60);
    timer.start();
    assert!(timer.is_running());
    assert!(timer.running_for() >= 60);
    timer.stop();
    assert!(timer.elapsed_milliseconds() >= 60);
}

#[test]
fn stop_folds_the_clock_reading_in() {
    let mut timer = MatchTimer::with_duration(10);
    timer.start();
    wait_millis(30);
    timer.stop();
    assert!(!timer.is_running());
    assert_eq!(timer.running_for(), 0);
    let folded = timer.elapsed_milliseconds();
    assert!(folded >= 30);
    wait_millis(30);
    assert_eq!(timer.elapsed_milliseconds(), folded);
    assert_eq!(timer.remaining(), 10_000);
}

#[test]
fn remaining_stops_at_zero_and_stays_there() {
    let mut timer = MatchTimer::with_duration(1);
    timer.start();
    assert_eq!(timer.remaining_after(5_000), 0);
    assert!(timer.is_complete_after(5_000));
    timer.stop_after(5_000);
    assert_eq!(timer.remaining(), 0);
    assert!(timer.is_complete());
    timer.start();
    assert_eq!(timer.remaining_after(0), 0);
    assert_eq!(timer.remaining(), 0);
    timer.stop();
    assert_eq!(timer.remaining(), 0);
    assert!(timer.is_complete());
}

#[test]
fn elapsed_stops_at_the_largest_number() {
    let mut timer = MatchTimer::with_duration(1);
    timer.start();
    timer.stop_after(u128::MAX);
    assert_eq!(timer.elapsed_milliseconds(), u128::MAX);
    timer.start();
    timer.stop_after(5);
    assert_eq!(timer.elapsed_milliseconds(), u128::MAX);
    assert_eq!(timer.remaining(), 0);
}

#[test]
fn zero_length_timer_is_complete_at_once() {
    let timer = MatchTimer::with_duration(0);
    assert_eq!(timer.remaining(), 0);
    assert!(timer.is_complete());
}

#[test]
fn longest_timer_does_not_overflow() {
    let mut timer = MatchTimer::with_duration(u32::MAX);
    assert_eq!(timer.remaining(), 4_294_967_295_000);
    timer.start();
    assert_eq!(timer.remaining_after(295_000), 4_294_967_000_000);
}

#[test]
fn five_second_match_ends_after_five_seconds() {
    let mut timer = MatchTimer::with_duration(5);
    timer.start();
    assert_eq!(timer.remaining_after(4_999), 1);
    assert!(!timer.is_complete_after(4_999));
    assert_eq!(timer.remaining_after(5_000), 0);
    assert!(timer.is_complete_after(5_000));
    assert_eq!(timer.remaining_after(5_300), 0);
    assert!(timer.is_complete_after(5_300));
}

#[test]
fn five_second_match_ends_by_the_clock() {
    let mut timer = MatchTimer::with_duration(5);
    timer.start();
    assert!(!timer.is_complete());
    wait_millis(5_050);
    assert_eq!(timer.remaining(), 0);
    assert!(timer.is_complete());
}

#[test]
fn time_while_stopped_does_not_count() {
    let mut timer = MatchTimer::with_duration(300);
    timer.start();
    assert_eq!(timer.remaining_after(2_000), 298_000);
    timer.stop_after(2_000);
    assert_eq!(timer.remaining_after(3_000), 298_000);
    timer.start();
    assert_eq!(timer.remaining_after(1_000), 297_000);
    timer.stop_after(1_000);
    assert_eq!(timer.elapsed_milliseconds(), 3_000);
    assert_eq!(timer.remaining(), 297_000);
}

#[test]
fn time_while_stopped_does_not_count_by_the_clock() {
    let mut timer = MatchTimer::with_duration(300);
    timer.start();
    wait_millis(2_000);
    timer.stop();
    let after_first = timer.remaining();
    wait_millis(3_000);
    assert_eq!(timer.remaining(), after_first);
    timer.start();
    wait_millis(1_000);
    let left = timer.remaining();
    let run = timer.elapsed_milliseconds() + timer.running_for();
    assert!(left <= 297_000);
    assert!(left > 295_000);
    assert!(run >= 3_000);
    assert!(run < 5_000);
}

#[test]
fn timer_text_is_the_milliseconds_left() {
    let mut timer = MatchTimer::default();
    assert_eq!(timer.to_text(), "300000");
    timer.start();
    assert_eq!(timer.to_text_after(1_234), "298766");
    timer.stop_after(300_000);
    assert_eq!(timer.to_text(), "0");
}
