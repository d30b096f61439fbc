use std::sync::mpsc::{Receiver, Sender};
use std::time::Instant;
use vstd::prelude::*;

use crate::bar::ProgressBarDrawInfo;

verus! {

/// Relies on `String::push`: the character is appended at the end of the
/// string.
pub assume_specification[ String::push ](s: &mut String, ch: char)
    ensures
        final(s)@ == old(s)@.push(ch),
;

/// A reading of the monotonic clock, opaque to proofs.
#[verifier::external_type_specification]
#[verifier::external_body]
pub struct ExInstant(std::time::Instant);

/// Relies on `Instant::now`: a reading of the clock; nothing is known of its
/// value.
pub assume_specification[ std::time::Instant::now ]() -> std::time::Instant;

/// Relies on `Instant::saturating_duration_since`, `Duration::as_secs` and
/// `Duration::subsec_nanos`: the time from `earlier` to `later` as whole
/// seconds and the nanoseconds past them, which are fewer than one second.
#[verifier::external_body]
pub fn time_between(later: &Instant, earlier: &Instant) -> (r: (u64, u32))
    ensures
        r.1 < 1_000_000_000,
{
    let d = later.saturating_duration_since(*earlier);
    (d.as_secs(), d.subsec_nanos())
}

/// The sending end of a message queue, opaque to proofs.
#[verifier::external_type_specification]
#[verifier::external_body]
#[verifier::reject_recursive_types(T)]
pub struct ExSender<T>(std::sync::mpsc::Sender<T>);

/// The receiving end of a message queue, opaque to proofs.
#[verifier::external_type_specification]
#[verifier::external_body]
#[verifier::reject_recursive_types(T)]
pub struct ExReceiver<T>(std::sync::mpsc::Receiver<T>);

/// The messages, as (slot, line, done), that the queue has taken through
/// the sending end `tx`, oldest first.
pub uninterp spec fn handed(tx: Sender<(usize, ProgressBarDrawInfo)>) -> Seq<(usize, Seq<char>, bool)>;

/// Relies on `Sender::send`: queues the message without blocking; it fails,
/// and the queue takes nothing, only where the receiving end is gone.
#[verifier::external_body]
pub fn send_draw_info(
    tx: &mut Sender<(usize, ProgressBarDrawInfo)>,
    index: usize,
    info: ProgressBarDrawInfo,
) -> (r: bool)
    ensures
        r ==> handed(*final(tx)) == handed(*old(tx)).push((index, info.line@, info.done)),
        !r ==> handed(*final(tx)) == handed(*old(tx)),
{
    tx.send((index, info)).is_ok()
}

/// The two ends of one queue of bars' lines, held together, so that the
/// receiving end always has a sending end alive.
pub struct MessageQueue {
    tx: Sender<(usize, ProgressBarDrawInfo)>,
    rx: Receiver<(usize, ProgressBarDrawInfo)>,
}

impl MessageQueue {
    /// Relies on `mpsc::channel`: a new, empty, unbounded queue.
    #[verifier::external_body]
    pub fn new() -> MessageQueue {
        let (tx, rx) = std::sync::mpsc::channel();
        MessageQueue { tx, rx }
    }

    /// Relies on `Sender::clone`: another sending end of this queue, through
    /// which nothing has been sent yet.
    #[verifier::external_body]
    pub fn sender(&self) -> (r: Sender<(usize, ProgressBarDrawInfo)>)
        ensures
            handed(r) == Seq::<(usize, Seq<char>, bool)>::empty(),
    {
        self.tx.clone()
    }

    /// Relies on `Receiver::recv`: blocks until a message is queued and
    /// takes it. It fails only once every sending end is gone, and this
    /// queue keeps one.
    #[verifier::external_body]
    pub fn receive(&self) -> (usize, ProgressBarDrawInfo) {
        self.rx.recv().unwrap()
    }
}

} // verus!
