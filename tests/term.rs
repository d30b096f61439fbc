use pbar::{move_cursor_down, move_cursor_up, ProgressBarTarget, Term, TERM_DEFAULT_WIDTH};

#[test]
fn cursor_sequences() {
    let term = Term::stdout();
    assert_eq!(term.move_cursor_up(3), "\x1b[3A");
    assert_eq!(term.move_cursor_down(12), "\x1b[12B");
    assert_eq!(move_cursor_up(&Term::stderr(), 1), "\x1b[1A");
    assert_eq!(move_cursor_down(&term, 0), "\x1b[0B");
    assert!(!term.is_stderr());
    assert!(Term::stderr().is_stderr());
}

#[test]
fn width_falls_back_without_a_terminal() {
    let target = ProgressBarTarget::stdout();
    assert_eq!(target.terminal_width(None), TERM_DEFAULT_WIDTH);
    assert_eq!(target.terminal_width(None), 79);
    assert_eq!(target.terminal_width(Some((0, 0))), 0);
    assert_eq!(target.terminal_width(Some((120, 40))), 120);
    let (tx, _rx) = std::sync::mpsc::channel();
    assert_eq!(ProgressBarTarget::channel(0, tx).terminal_width(Some((120, 40))), 0);
}

#[test]
fn targets_route_lines() {
    let term = ProgressBarTarget::stderr();
    assert_eq!(term.move_cursor_up(2), "\x1b[2A");
    assert_eq!(term.draw("abc"), "abc");
    assert!(term.terminal().is_some());

    let mut term = term;
    let mut out = String::from(">");
    let info = pbar::ProgressBarDrawInfo { line: String::from("bar"), done: false };
    assert!(term.handle_draw_info(info, &mut out));
    assert_eq!(out, ">bar");

    let (tx, rx) = std::sync::mpsc::channel();
    let mut relay = ProgressBarTarget::channel(4, tx);
    assert!(relay.terminal().is_none());
    assert_eq!(relay.move_cursor_up(2), "");
    assert_eq!(relay.draw("abc"), "");
    let info = pbar::ProgressBarDrawInfo { line: String::from("line"), done: true };
    let mut out = String::new();
    assert!(relay.handle_draw_info(info, &mut out));
    assert_eq!(out, "");
    let (index, got) = rx.try_recv().unwrap();
    assert_eq!(index, 4);
    assert_eq!(got.line, "line");
    assert!(got.done);
    drop(rx);
    let info = pbar::ProgressBarDrawInfo { line: String::from("lost"), done: false };
    assert!(!relay.handle_draw_info(info, &mut out));
}
