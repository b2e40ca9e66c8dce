//! The result mailbox: a bounded queue that carries sensor results to the
//! refresh coordinator in the order in which they were sent.

use crate::DisplayInfo;
use vstd::prelude::*;

verus! {

/// The number of messages that the mailbox holds: one from each sensor.
pub const MAILBOX_CAPACITY: usize = 2;

/// A first-in, first-out queue of at most two messages.
#[derive(Debug)]
pub struct ResultMailbox {
    /// The message that has waited longest.
    head: Option<DisplayInfo>,
    /// The message behind it; there is none without a head.
    tail: Option<DisplayInfo>,
}

/// One operation on a mailbox.
#[derive(Debug, Clone, Copy, PartialEq, Eq, Structural)]
pub enum MailboxOp {
    Send(DisplayInfo),
    Receive,
}

/// True when a send on a mailbox that holds `queue` is accepted.
pub open spec fn has_room(queue: Seq<DisplayInfo>) -> bool {
    queue.len() < MAILBOX_CAPACITY
}

/// What a mailbox holds after `op`, when it held `queue` before.
pub open spec fn queue_after(queue: Seq<DisplayInfo>, op: MailboxOp) -> Seq<DisplayInfo> {
    match op {
        MailboxOp::Send(msg) => if has_room(queue) {
            queue.push(msg)
        } else {
            queue
        },
        MailboxOp::Receive => if queue.len() > 0 {
            queue.drop_first()
        } else {
            queue
        },
    }
}

/// What a mailbox holds after `ops`, in order, when it held `queue` before.
pub open spec fn queue_after_all(queue: Seq<DisplayInfo>, ops: Seq<MailboxOp>) -> Seq<DisplayInfo>
    decreases ops.len(),
{
    if ops.len() == 0 {
        queue
    } else {
        queue_after(queue_after_all(queue, ops.drop_last()), ops.last())
    }
}

/// The messages whose send was accepted in the course of `ops`, in order.
pub open spec fn accepted(queue: Seq<DisplayInfo>, ops: Seq<MailboxOp>) -> Seq<DisplayInfo>
    decreases ops.len(),
{
    if ops.len() == 0 {
        Seq::empty()
    } else {
        let before = queue_after_all(queue, ops.drop_last());
        let earlier = accepted(queue, ops.drop_last());
        match ops.last() {
            MailboxOp::Send(msg) => if has_room(before) {
                earlier.push(msg)
            } else {
                earlier
            },
            MailboxOp::Receive => earlier,
        }
    }
}

/// The messages that the receives among `ops` handed out, in order.
pub open spec fn delivered(queue: Seq<DisplayInfo>, ops: Seq<MailboxOp>) -> Seq<DisplayInfo>
    decreases ops.len(),
{
    if ops.len() == 0 {
        Seq::empty()
    } else {
        let before = queue_after_all(queue, ops.drop_last());
        let earlier = delivered(queue, ops.drop_last());
        match ops.last() {
            MailboxOp::Send(_) => earlier,
            MailboxOp::Receive => if before.len() > 0 {
                earlier.push(before[0])
            } else {
                earlier
            },
        }
    }
}

impl View for ResultMailbox {
    type V = Seq<DisplayInfo>;

    closed spec fn view(&self) -> Seq<DisplayInfo> {
        match (self.head, self.tail) {
            (Some(a), Some(b)) => seq![a, b],
            (Some(a), None) => seq![a],
            _ => Seq::empty(),
        }
    }
}

impl ResultMailbox {
    #[verifier::type_invariant]
    spec fn packed(&self) -> bool {
        self.tail is Some ==> self.head is Some
    }

    /// An empty mailbox.
    pub fn new() -> (mailbox: ResultMailbox)
        ensures
            mailbox@ == Seq::<DisplayInfo>::empty(),
    {
        ResultMailbox { head: None, tail: None }
    }

    /// The number of messages that wait in the mailbox, never more than two.
    pub fn len(&self) -> (n: usize)
        ensures
            n == self@.len(),
            n <= MAILBOX_CAPACITY,
    {
        match (self.head, self.tail) {
            (Some(_), Some(_)) => 2,
            (Some(_), None) => 1,
            _ => 0,
        }
    }

    /// Whether no message waits.
    pub fn is_empty(&self) -> (r: bool)
        ensures
            r == (self@.len() == 0),
    {
        proof {
            use_type_invariant(self);
        }
        self.head.is_none()
    }

    /// Whether a send would have to wait for a receive.
    pub fn is_full(&self) -> (r: bool)
        ensures
            r == !has_room(self@),
    {
        proof {
            use_type_invariant(self);
        }
        self.tail.is_some()
    }

    /// Puts `msg` behind the messages that wait. A full mailbox takes nothing
    /// and hands `msg` back: the sender is to wait for a receive and send
    /// again.
    pub fn try_send(&mut self, msg: DisplayInfo) -> (r: Result<(), DisplayInfo>)
        ensures
            final(self)@ == queue_after(old(self)@, MailboxOp::Send(msg)),
            final(self)@.len() <= MAILBOX_CAPACITY,
            has_room(old(self)@) ==> r is Ok && final(self)@ == old(self)@.push(msg),
            !has_room(old(self)@) ==> r == Err::<(), DisplayInfo>(msg) && final(self)@ == old(
                self,
            )@,
    {
        proof {
            use_type_invariant(&*self);
        }
        if self.head.is_none() {
            self.head = Some(msg);
            Ok(())
        } else if self.tail.is_none() {
            self.tail = Some(msg);
            Ok(())
        } else {
            Err(msg)
        }
    }

    /// Takes the message that has waited longest. An empty mailbox yields
    /// `None` at once.
    pub fn try_receive(&mut self) -> (r: Option<DisplayInfo>)
        ensures
            final(self)@ == queue_after(old(self)@, MailboxOp::Receive),
            final(self)@.len() <= MAILBOX_CAPACITY,
            old(self)@.len() > 0 ==> r == Some(old(self)@[0]) && final(self)@ == old(
                self,
            )@.drop_first(),
            old(self)@.len() == 0 ==> r is None && final(self)@ == old(self)@,
    {
        proof {
            use_type_invariant(&*self);
        }
        let msg = self.head;
        self.head = self.tail;
        self.tail = None;
        msg
    }
}

/// Boundedness: a mailbox never holds more than two messages, whatever is done
/// to it.
pub proof fn lemma_mailbox_bounded(queue: Seq<DisplayInfo>, ops: Seq<MailboxOp>)
    requires
        queue.len() <= MAILBOX_CAPACITY,
    ensures
        queue_after_all(queue, ops).len() <= MAILBOX_CAPACITY,
    decreases ops.len(),
{
    if ops.len() > 0 {
        lemma_mailbox_bounded(queue, ops.drop_last());
    }
}

/// After two accepted sends with no receive between them the mailbox is full:
/// a third send is refused and changes nothing, until a receive has freed a
/// slot; then it is accepted.
pub proof fn lemma_third_send_waits(a: DisplayInfo, b: DisplayInfo, c: DisplayInfo)
    ensures
        ({
            let empty = Seq::<DisplayInfo>::empty();
            let two = queue_after(queue_after(empty, MailboxOp::Send(a)), MailboxOp::Send(b));
            let freed = queue_after(two, MailboxOp::Receive);
            &&& has_room(empty)
            &&& has_room(queue_after(empty, MailboxOp::Send(a)))
            &&& two == seq![a, b]
            &&& !has_room(two)
            &&& queue_after(two, MailboxOp::Send(c)) == two
            &&& freed == seq![b]
            &&& has_room(freed)
            &&& queue_after(freed, MailboxOp::Send(c)) == seq![b, c]
        }),
{
    let empty = Seq::<DisplayInfo>::empty();
    let one = queue_after(empty, MailboxOp::Send(a));
    let two = queue_after(one, MailboxOp::Send(b));
    assert(one =~= seq![a]);
    assert(two =~= seq![a, b]);
    assert(queue_after(two, MailboxOp::Receive) =~= seq![b]);
    assert(queue_after(seq![b], MailboxOp::Send(c)) =~= seq![b, c]);
}

/// Nothing is dropped, duplicated or reordered: what was in the mailbox at
/// first, followed by every message whose send was accepted, is what the
/// receives handed out, followed by what still waits.
pub proof fn lemma_mailbox_conserves(queue: Seq<DisplayInfo>, ops: Seq<MailboxOp>)
    ensures
        queue + accepted(queue, ops) == delivered(queue, ops) + queue_after_all(queue, ops),
    decreases ops.len(),
{
    if ops.len() > 0 {
        let prev = ops.drop_last();
        lemma_mailbox_conserves(queue, prev);
        let before = queue_after_all(queue, prev);
        let acc = accepted(queue, prev);
        let del = delivered(queue, prev);
        match ops.last() {
            MailboxOp::Send(msg) => {
                if has_room(before) {
                    assert(queue + acc.push(msg) =~= (queue + acc).push(msg));
                    assert(del + before.push(msg) =~= (del + before).push(msg));
                }
            },
            MailboxOp::Receive => {
                if before.len() > 0 {
                    assert(del.push(before[0]) + before.drop_first() =~= del + before);
                }
            },
        }
    }
}

} // verus!
