use pbar::{MultiProgressBar, ProgressBarDrawInfo};

#[test]
fn three_bars_repaint_whole_blocks_until_all_done() {
    let mut multi = MultiProgressBar::stdout();
    let mut bars = vec![multi.attach(1000), multi.attach(1000), multi.attach(1000)];
    for bar in bars.iter_mut() {
        for _ in 0..1000 {
            bar.increase();
        }
    }
    let mut frames = Vec::new();
    while let Some(frame) = multi.listen() {
        frames.push(frame);
    }
    assert!(multi.is_done());
    assert!(frames.len() >= 3);
    for (k, frame) in frames.iter().enumerate() {
        let block = if k == 0 {
            frame.as_str()
        } else {
            assert!(frame.starts_with("\x1b[3A"));
            &frame[4..]
        };
        assert_eq!(block.matches('\n').count(), 3);
        assert!(block.ends_with('\n'));
        for line in block.split_terminator('\n') {
            assert!(line.starts_with('\r'));
        }
    }
    let last = frames.last().unwrap();
    assert_eq!(last.matches("1000 / 1000 100%").count(), 3);
}

#[test]
fn no_bars_join_at_once() {
    let mut multi = MultiProgressBar::stdout();
    assert!(multi.is_done());
    assert!(multi.listen().is_none());
    let mut err = MultiProgressBar::stderr();
    assert!(err.listen().is_none());
}

#[test]
fn messages_overwrite_their_slot() {
    let mut multi = MultiProgressBar::stdout();
    let _a = multi.attach(10);
    let _b = multi.attach(10);
    let first = multi.handle_message(1, ProgressBarDrawInfo { line: String::from("b1"), done: false });
    assert_eq!(first, "\r\n\rb1\n");
    let second = multi.handle_message(0, ProgressBarDrawInfo { line: String::from("a1"), done: true });
    assert_eq!(second, "\x1b[2A\ra1\n\rb1\n");
    assert!(!multi.is_done());
    // the same done message twice counts once; a later line keeps the flag
    let again = multi.handle_message(0, ProgressBarDrawInfo { line: String::from("a1"), done: true });
    assert_eq!(again, second);
    assert!(!multi.is_done());
    multi.handle_message(0, ProgressBarDrawInfo { line: String::from("a2"), done: false });
    let last = multi.handle_message(1, ProgressBarDrawInfo { line: String::from("b2"), done: true });
    assert_eq!(last, "\x1b[2A\ra2\n\rb2\n");
    assert!(multi.is_done());
    assert!(multi.listen().is_none());
}

#[test]
fn message_for_no_slot_is_dropped() {
    let mut multi = MultiProgressBar::stdout();
    let _a = multi.attach(1);
    let frame = multi.handle_message(5, ProgressBarDrawInfo { line: String::from("x"), done: true });
    assert_eq!(frame, "");
    assert!(!multi.is_done());
}
