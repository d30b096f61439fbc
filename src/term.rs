use vstd::prelude::*;

use crate::text::{dec_digits, push_decimal};

verus! {

/// The width reported where no terminal answers.
pub const TERM_DEFAULT_WIDTH: usize = 79;

/// The height reported where no terminal answers.
pub const TERM_DEFAULT_HEIGHT: usize = 5;

#[derive(Clone, Copy, PartialEq, Eq, Debug)]
enum TermTargetKind {
    Stdout,
    Stderr,
}

/// One of the process's two terminal streams.
#[derive(Clone, Copy, PartialEq, Eq, Debug)]
pub struct Term {
    kind: TermTargetKind,
}

/// The control sequence that moves the cursor `n` lines up.
pub open spec fn cursor_up_text(n: nat) -> Seq<char> {
    seq!['\x1b', '['] + dec_digits(n) + seq!['A']
}

/// The control sequence that moves the cursor `n` lines down.
pub open spec fn cursor_down_text(n: nat) -> Seq<char> {
    seq!['\x1b', '['] + dec_digits(n) + seq!['B']
}

impl Term {
    /// Whether this is the error stream.
    pub closed spec fn writes_stderr(&self) -> bool {
        self.kind == TermTargetKind::Stderr
    }

    /// The standard output stream.
    pub fn stdout() -> (r: Term)
        ensures
            !r.writes_stderr(),
    {
        Term { kind: TermTargetKind::Stdout }
    }

    /// The standard error stream.
    pub fn stderr() -> (r: Term)
        ensures
            r.writes_stderr(),
    {
        Term { kind: TermTargetKind::Stderr }
    }

    /// Whether this is the error stream.
    pub fn is_stderr(&self) -> (r: bool)
        ensures
            r == self.writes_stderr(),
    {
        match self.kind {
            TermTargetKind::Stdout => false,
            TermTargetKind::Stderr => true,
        }
    }

    /// The bytes that move the cursor `n` lines up.
    pub fn move_cursor_up(&self, n: usize) -> (r: String)
        ensures
            r@ == cursor_up_text(n as nat),
    {
        move_cursor_up(self, n)
    }

    /// The bytes that move the cursor `n` lines down.
    pub fn move_cursor_down(&self, n: usize) -> (r: String)
        ensures
            r@ == cursor_down_text(n as nat),
    {
        move_cursor_down(self, n)
    }
}

/// The ANSI sequence that moves the cursor of `term` `n` lines up.
pub fn move_cursor_up(term: &Term, n: usize) -> (r: String)
    ensures
        r@ == cursor_up_text(n as nat),
{
    let mut out = String::new();
    out.push('\x1b');
    out.push('[');
    push_decimal(&mut out, n as u128);
    out.push('A');
    assert(out@ =~= cursor_up_text(n as nat));
    out
}

/// The ANSI sequence that moves the cursor of `term` `n` lines down.
pub fn move_cursor_down(term: &Term, n: usize) -> (r: String)
    ensures
        r@ == cursor_down_text(n as nat),
{
    let mut out = String::new();
    out.push('\x1b');
    out.push('[');
    push_decimal(&mut out, n as u128);
    out.push('B');
    assert(out@ =~= cursor_down_text(n as nat));
    out
}

} // verus!
