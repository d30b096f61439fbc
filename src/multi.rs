use vstd::prelude::*;
use vstd::string::*;

use crate::bar::{is_fresh, terminal_bytes, ProgressBar, ProgressBarDrawInfo, ProgressBarTarget, TargetModel};
use crate::sys::MessageQueue;
use crate::term::cursor_up_text;

verus! {

/// Draws several bars as one block of lines, one line per bar, repainting
/// the whole block each time a bar sends a new line.
pub struct MultiProgressBar {
    target: ProgressBarTarget,
    bars: Vec<String>,
    done: Vec<bool>,
    first: bool,
    queue: MessageQueue,
}

/// What a coordinator is, for proofs.
pub struct MultiView {
    pub target: TargetModel,
    /// The last line of each slot, in the order the bars were attached.
    pub slots: Seq<Seq<char>>,
    /// Whether each slot's bar has reported that it finished.
    pub done: Seq<bool>,
    /// Whether no block has been painted yet.
    pub first: bool,
}

impl View for MultiProgressBar {
    type V = MultiView;

    closed spec fn view(&self) -> MultiView {
        MultiView {
            target: self.target@,
            slots: self.bars@.map_values(|s: String| s@),
            done: self.done@,
            first: self.first,
        }
    }
}

impl MultiView {
    /// One done flag per slot.
    pub open spec fn wf(&self) -> bool {
        self.slots.len() == self.done.len()
    }

    /// Whether every attached bar has finished; true with none attached.
    pub open spec fn all_done(&self) -> bool {
        forall|i: int| 0 <= i < self.done.len() ==> self.done[i]
    }
}

/// The lines of a block, each after a carriage return and before a newline.
pub open spec fn block_text(slots: Seq<Seq<char>>) -> Seq<char>
    decreases slots.len(),
{
    if slots.len() == 0 {
        Seq::empty()
    } else {
        block_text(slots.drop_last()) + seq!['\r'] + slots.last() + seq!['\n']
    }
}

/// The bytes of a repaint of `m`: back up over the previous block unless
/// this is the first, then the whole block.
pub open spec fn frame_text(m: MultiView, first: bool) -> Seq<char> {
    (if first {
        Seq::empty()
    } else {
        terminal_bytes(m.target, cursor_up_text(m.slots.len()))
    }) + terminal_bytes(m.target, block_text(m.slots))
}

/// `m` after the message `(index, line, done)`: the slot takes the line,
/// and is marked done if the message says so; a message for no slot is
/// dropped.
pub open spec fn after_message(m: MultiView, index: usize, line: Seq<char>, done: bool) -> MultiView {
    if index < m.slots.len() {
        MultiView {
            slots: m.slots.update(index as int, line),
            done: if done {
                m.done.update(index as int, true)
            } else {
                m.done
            },
            first: false,
            ..m
        }
    } else {
        m
    }
}

/// The repaint that the message `(index, line, done)` causes in `m`.
pub open spec fn repaint(m: MultiView, index: usize, line: Seq<char>, done: bool) -> Seq<char> {
    if index < m.slots.len() {
        frame_text(after_message(m, index, line, done), m.first)
    } else {
        Seq::empty()
    }
}

impl MultiProgressBar {
    fn with_target(target: ProgressBarTarget) -> (r: MultiProgressBar)
        ensures
            r@ == (MultiView {
                target: target@,
                slots: Seq::empty(),
                done: Seq::empty(),
                first: true,
            }),
    {
        let queue = MessageQueue::new();
        let r = MultiProgressBar { target, bars: Vec::new(), done: Vec::new(), first: true, queue };
        assert(r@.slots =~= Seq::empty());
        r
    }

    /// A coordinator that paints on standard output, with no bars yet.
    pub fn stdout() -> (r: MultiProgressBar)
        ensures
            r@ == (MultiView {
                target: TargetModel::Terminal,
                slots: Seq::empty(),
                done: Seq::empty(),
                first: true,
            }),
            r@.wf(),
            r@.all_done(),
    {
        MultiProgressBar::with_target(ProgressBarTarget::stdout())
    }

    /// A coordinator that paints on standard error, with no bars yet.
    pub fn stderr() -> (r: MultiProgressBar)
        ensures
            r@ == (MultiView {
                target: TargetModel::Terminal,
                slots: Seq::empty(),
                done: Seq::empty(),
                first: true,
            }),
            r@.wf(),
            r@.all_done(),
    {
        MultiProgressBar::with_target(ProgressBarTarget::stderr())
    }

    /// Adds a slot for a bar counting to `total` and gives that bar, which
    /// sends its lines here tagged with the slot's index, its 0% line first.
    pub fn attach(&mut self, total: u64) -> (bar: ProgressBar)
        requires
            old(self)@.wf(),
        ensures
            final(self)@ == (MultiView {
                slots: old(self)@.slots.push(Seq::empty()),
                done: old(self)@.done.push(false),
                ..old(self)@
            }),
            is_fresh(bar@, total, Seq::empty()),
            bar@.target == TargetModel::Relay(old(self)@.slots.len() as usize),
    {
        let index = self.bars.len();
        self.bars.push(String::new());
        self.done.push(false);
        assert(self@.slots =~= old(self)@.slots.push(Seq::empty()));
        ProgressBar::channel(total, index, self.queue.sender())
    }

    /// Whether every attached bar has finished; true with none attached.
    pub fn is_done(&self) -> (r: bool)
        requires
            self@.wf(),
        ensures
            r == self@.all_done(),
    {
        let n = self.done.len();
        let mut i: usize = 0;
        while i < n
            invariant
                n == self.done@.len(),
                i <= n,
                forall|j: int| 0 <= j < i ==> self.done@[j],
            decreases n - i,
        {
            if !self.done[i] {
                assert(!self@.done[i as int]);
                return false;
            }
            i = i + 1;
        }
        true
    }

    /// Takes the message `(index, info)` and gives the repaint it causes.
    pub fn handle_message(&mut self, index: usize, info: ProgressBarDrawInfo) -> (frame: String)
        requires
            old(self)@.wf(),
        ensures
            final(self)@ == after_message(old(self)@, index, info.line@, info.done),
            frame@ == repaint(old(self)@, index, info.line@, info.done),
    {
        if index >= self.bars.len() {
            return String::new();
        }
        let ghost line = info.line@;
        let first = self.first;
        self.bars.set(index, info.line);
        if info.done {
            self.done.set(index, true);
        }
        self.first = false;
        assert(self@.slots =~= old(self)@.slots.update(index as int, line));
        assert(self@ == after_message(old(self)@, index, line, info.done));
        let mut out = if first {
            String::new()
        } else {
            self.target.move_cursor_up(self.bars.len())
        };
        let block = self.block();
        let painted = self.target.draw(block.as_str());
        out.append(painted.as_str());
        out
    }

    /// Every slot's line, each after a carriage return and before a newline.
    fn block(&self) -> (r: String)
        ensures
            r@ == block_text(self@.slots),
    {
        let n = self.bars.len();
        let mut out = String::new();
        let mut i: usize = 0;
        while i < n
            invariant
                n == self.bars@.len(),
                i <= n,
                out@ == block_text(self@.slots.subrange(0, i as int)),
            decreases n - i,
        {
            out.push('\r');
            out.append(self.bars[i].as_str());
            out.push('\n');
            proof {
                let s = self@.slots;
                assert(s.subrange(0, i + 1).drop_last() =~= s.subrange(0, i as int));
            }
            i = i + 1;
            assert(out@ =~= block_text(self@.slots.subrange(0, i as int)));
        }
        assert(self@.slots.subrange(0, n as int) =~= self@.slots);
        out
    }

    /// Waits for the next line from an attached bar and gives the repaint
    /// it causes; `None`, at once and with nothing changed, exactly when
    /// every bar has finished (so at once with none attached).
    pub fn listen(&mut self) -> (frame: Option<String>)
        requires
            old(self)@.wf(),
        ensures
            final(self)@.wf(),
            frame is None <==> old(self)@.all_done(),
            frame is None ==> final(self)@ == old(self)@,
            frame matches Some(f) ==> exists|index: usize, line: Seq<char>, done: bool|
                final(self)@ == after_message(old(self)@, index, line, done) && f@ == repaint(
                    old(self)@,
                    index,
                    line,
                    done,
                ),
    {
        if self.is_done() {
            return None;
        }
        let (index, info) = self.queue.receive();
        let ghost line = info.line@;
        let ghost done = info.done;
        let frame = self.handle_message(index, info);
        assert(self@ == after_message(old(self)@, index, line, done));
        Some(frame)
    }

    /// Where the block is painted.
    pub fn target(&self) -> (r: &ProgressBarTarget)
        ensures
            r@ == self@.target,
    {
        &self.target
    }
}

/// A finished bar is counted once: a message applied twice leaves the
/// slots, their done flags and the repaint state as applying it once.
pub proof fn lemma_message_idempotent(m: MultiView, index: usize, line: Seq<char>, done: bool)
    requires
        m.wf(),
    ensures
        after_message(after_message(m, index, line, done), index, line, done) == after_message(
            m,
            index,
            line,
            done,
        ),
{
    let once = after_message(m, index, line, done);
    if index < m.slots.len() {
        assert(once.slots.update(index as int, line) =~= once.slots);
        if done {
            assert(once.done.update(index as int, true) =~= once.done);
        }
    }
}

/// Bars need no order among themselves: messages for two different slots
/// leave the same state whichever arrives first.
pub proof fn lemma_messages_commute(
    m: MultiView,
    i: usize,
    a: Seq<char>,
    a_done: bool,
    j: usize,
    b: Seq<char>,
    b_done: bool,
)
    requires
        m.wf(),
        i != j,
    ensures
        after_message(after_message(m, i, a, a_done), j, b, b_done) == after_message(
            after_message(m, j, b, b_done),
            i,
            a,
            a_done,
        ),
{
    let ab = after_message(after_message(m, i, a, a_done), j, b, b_done);
    let ba = after_message(after_message(m, j, b, b_done), i, a, a_done);
    assert(ab.slots =~= ba.slots);
    assert(ab.done =~= ba.done);
}

/// A message never changes the number of slots, and changes no slot but
/// its own: a bar that finishes early keeps its line in the block.
pub proof fn lemma_message_keeps_other_slots(
    m: MultiView,
    index: usize,
    line: Seq<char>,
    done: bool,
    other: int,
)
    requires
        m.wf(),
        0 <= other < m.slots.len(),
        other != index,
    ensures
        after_message(m, index, line, done).wf(),
        after_message(m, index, line, done).slots.len() == m.slots.len(),
        after_message(m, index, line, done).slots[other] == m.slots[other],
        after_message(m, index, line, done).done[other] == m.done[other],
{
}

} // verus!
