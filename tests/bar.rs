use pbar::{BarStatus, ProgressBar, ProgressBarContext, ProgressBarStyle, TimeFormat, TimeSpan, UnitFormat};
use std::sync::mpsc;

fn lines_drawn(output: &str) -> usize {
    output.matches('\r').count()
}

#[test]
fn set_to_total_finishes_and_clamps() {
    let mut bar = ProgressBar::stdout(100);
    assert_eq!(bar.set(100, false), 100);
    assert_eq!(bar.context().current, 100);
    assert_ne!(bar.context().status, BarStatus::InProgress);

    let mut over = ProgressBar::stdout(100);
    assert_eq!(over.set(150, false), 100);
    assert_eq!(over.context().status, BarStatus::DoneVisible);

    let mut under = ProgressBar::stdout(100);
    assert_eq!(under.set(40, false), 40);
    assert_eq!(under.context().status, BarStatus::InProgress);
}

#[test]
fn finished_bar_ignores_counter_changes() {
    let mut bar = ProgressBar::stdout(10);
    bar.finish();
    let _ = bar.take_output();
    assert_eq!(bar.set(3, true), 10);
    assert_eq!(bar.add(5), 10);
    assert_eq!(bar.increase(), 10);
    assert_eq!(bar.take_output(), "");
}

#[test]
fn add_saturates() {
    let mut bar = ProgressBar::stdout(u64::MAX);
    assert_eq!(bar.add(u64::MAX - 1), u64::MAX - 1);
    assert_eq!(bar.add(u64::MAX), u64::MAX);
    assert_eq!(bar.context().status, BarStatus::DoneVisible);
}

#[test]
fn zero_total_is_complete() {
    let ctxt = ProgressBarContext::new(0);
    assert_eq!(ctxt.percent(), (1, 1));
    assert!(ctxt.is_finish());
    let mut bar = ProgressBar::stdout(0);
    let mut style = ProgressBarStyle::customizable();
    style.percent();
    bar.set_style(style);
    let _ = bar.take_output();
    assert_eq!(bar.set(0, false), 0);
    assert_eq!(bar.take_output(), "\r 100% ");
}

#[test]
fn nothing_done_means_zero_percent_and_zero_speed() {
    let mut ctxt = ProgressBarContext::new(100);
    assert_eq!(ctxt.percent(), (0, 100));
    assert_eq!(ctxt.speed(), 0);
    ctxt.last_refresh_time = TimeSpan::new(10, 0);
    assert_eq!(ctxt.percent(), (0, 100));
    assert_eq!(ctxt.speed(), 0);
    assert_eq!(ctxt.time_left().as_nanos(), 0);
}

#[test]
fn derived_times_and_speed() {
    let mut ctxt = ProgressBarContext::new(100);
    ctxt.current = 25;
    ctxt.last_refresh_time = TimeSpan::new(10, 0);
    assert_eq!(ctxt.current(), (25, 100));
    assert_eq!(ctxt.time_elapsed().as_secs(), 10);
    assert_eq!(ctxt.time_left().as_secs(), 30);
    assert_eq!(ctxt.time_total().as_secs(), 40);
    // 2.5 per second rounds to the even 2, 3.5 to 4
    assert_eq!(ctxt.speed(), 2);
    ctxt.current = 35;
    assert_eq!(ctxt.speed(), 4);
    ctxt.current = 100;
    assert_eq!(ctxt.time_left().as_nanos(), 0);
    assert_eq!(ctxt.time_total().as_secs(), 10);
    assert!(ctxt.is_finish());
}

#[test]
fn time_left_of_a_slow_start_saturates() {
    let mut ctxt = ProgressBarContext::new(u64::MAX);
    ctxt.current = 1;
    ctxt.last_refresh_time = TimeSpan::new(u64::MAX, 0);
    assert_eq!(ctxt.time_left().as_secs(), u64::MAX);
    ctxt.last_refresh_time = TimeSpan::new(0, 1);
    assert_eq!(ctxt.time_left().as_nanos(), (u64::MAX - 1) as u128);
    let mut short = ProgressBarContext::new(1001);
    short.current = 1;
    short.last_refresh_time = TimeSpan::new(2, 0);
    assert_eq!(short.time_left().as_secs(), 2000);
}

#[test]
fn line_layout() {
    let mut bar = ProgressBar::stdout(200);
    let mut style = ProgressBarStyle::customizable();
    style.counter(None, None).percent().bar("[=>.]", Some(10)).str("|");
    bar.set_title("job:").set_style(style);
    let _ = bar.take_output();
    bar.set(100, true);
    assert_eq!(bar.take_output(), "\rjob: 100 / 200  50% [=====>....] | ");
    bar.set(200, false);
    assert_eq!(bar.take_output(), "\rjob: 200 / 200 100% [==========] | ");
}

#[test]
fn counter_units_and_delimiter() {
    let mut bar = ProgressBar::stdout(2048);
    let mut style = ProgressBarStyle::customizable();
    style.counter(Some(String::from("of")), Some(UnitFormat::Bytes));
    bar.set_style(style);
    let _ = bar.take_output();
    bar.set(512, true);
    assert_eq!(bar.take_output(), "\r 512B of 2.0KiB ");
}

#[test]
fn malformed_glyphs_fall_back_to_the_default() {
    let mut bar = ProgressBar::stdout(4);
    let mut style = ProgressBarStyle::customizable();
    style.bar("ab", Some(4));
    bar.set_style(style);
    let _ = bar.take_output();
    bar.set(1, true);
    assert_eq!(bar.take_output(), "\r [#>--] ");
}

#[test]
fn time_cells_are_padded() {
    let mut bar = ProgressBar::stdout(4);
    let mut style = ProgressBarStyle::customizable();
    style.time_left(Some(TimeFormat::Fmt2)).str("|").time_elapsed(None).str("|").time_total(None).str("|").speed(None);
    bar.set_style(style);
    let _ = bar.take_output();
    bar.finish();
    let out = bar.take_output();
    assert!(out.starts_with("\r 0s         | "));
    assert!(out.contains("it/s "));
}

#[test]
fn finish_with_msg_writes_below() {
    let mut bar = ProgressBar::stdout(3);
    bar.finish_with_msg("Done...");
    let out = bar.take_output();
    assert_eq!(lines_drawn(&out), 2);
    assert!(out.ends_with("\nDone..."));
    assert_eq!(bar.context().current, 3);
}

#[test]
fn finish_and_clear_pads_to_the_width() {
    let mut bar = ProgressBar::stdout(3);
    bar.set_width(10);
    bar.finish_and_clear("done");
    let out = bar.take_output();
    assert!(out.ends_with("\rdone      "));
    assert_eq!(bar.context().status, BarStatus::DoneClear);
    // a message wider than the line is not cut
    let mut narrow = ProgressBar::stdout(3);
    narrow.set_width(2);
    narrow.finish_and_clear("done");
    assert!(narrow.take_output().ends_with("\rdone"));
}

#[test]
fn finish_twice_is_finish_once() {
    let mut bar = ProgressBar::stdout(5);
    bar.finish();
    let first = bar.take_output();
    assert_eq!(lines_drawn(&first), 2);
    bar.finish();
    assert_eq!(bar.take_output(), "");

    let (tx, rx) = mpsc::channel();
    let mut relayed = ProgressBar::channel(5, 0, tx);
    relayed.finish();
    relayed.finish();
    let msgs: Vec<_> = rx.try_iter().collect();
    assert_eq!(msgs.len(), 2);
    assert!(!msgs[0].1.done);
    assert!(msgs[1].1.done);
    assert_eq!(msgs.iter().filter(|m| m.1.done).count(), 1);
}

#[test]
fn throttled_run_draws_first_and_last() {
    let mut bar = ProgressBar::stdout(10);
    bar.set_refresh_rate(TimeSpan::new(3600, 0));
    for _ in 0..10 {
        bar.increase();
    }
    let out = bar.take_output();
    assert_eq!(lines_drawn(&out), 2);

    let (tx, rx) = mpsc::channel();
    let mut relayed = ProgressBar::channel(10, 7, tx);
    relayed.set_refresh_rate(TimeSpan::new(3600, 0));
    for _ in 0..10 {
        relayed.increase();
    }
    let msgs: Vec<_> = rx.try_iter().collect();
    assert_eq!(msgs.len(), 2);
    assert_eq!(msgs[0].0, 7);
    assert!(!msgs[0].1.done);
    assert!(msgs[0].1.line.starts_with("\r 0 / 10   0% "));
    assert!(msgs[1].1.done);
    assert!(msgs[1].1.line.starts_with("\r 10 / 10 100% "));
    assert_eq!(relayed.take_output(), "");
}

#[test]
fn forced_and_unthrottled_updates_draw() {
    let mut bar = ProgressBar::stdout(10);
    bar.set_refresh_rate(TimeSpan::new(3600, 0));
    bar.set(1, false);
    bar.set(2, false);
    bar.set(3, true);
    assert_eq!(lines_drawn(&bar.take_output()), 2);

    let mut eager = ProgressBar::stdout(10);
    eager.set_refresh_rate(TimeSpan::zero());
    for _ in 0..5 {
        eager.increase();
    }
    assert_eq!(lines_drawn(&eager.take_output()), 6);
    assert!(eager.context().last_refresh_time.as_nanos() > 0);
}

#[test]
fn update_at_follows_the_interval() {
    let mut bar = ProgressBar::stdout(10);
    assert_eq!(lines_drawn(&bar.take_output()), 1);
    bar.set_refresh_rate(TimeSpan::new(1, 0));
    assert!(!bar.update_at(false, TimeSpan::new(0, 500_000_000)));
    assert_eq!(bar.take_output(), "");
    assert!(bar.update_at(false, TimeSpan::new(5, 0)));
    assert!(!bar.update_at(false, TimeSpan::new(5, 500_000_000)));
    assert!(bar.update_at(false, TimeSpan::new(6, 0)));
    assert!(bar.update_at(true, TimeSpan::new(6, 1)));
    assert_eq!(bar.context().last_refresh_time, TimeSpan::new(6, 1));
}

#[test]
fn a_new_bar_draws_its_zero_percent_line_once() {
    let bar = ProgressBar::stdout(10);
    let mut bar = bar;
    let out = bar.take_output();
    assert_eq!(lines_drawn(&out), 1);
    assert!(out.starts_with("\r 0 / 10   0% [>"));
    bar.set_refresh_rate(TimeSpan::new(3600, 0));
    bar.set(5, false);
    assert_eq!(bar.take_output(), "");
}
