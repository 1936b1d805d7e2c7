//! The ends of the channels through which the bot talks to the thread that
//! runs the Discord client.

use vstd::prelude::*;
use std::sync::mpsc::{Receiver, Sender};

verus! {

/// The sending end of a channel of `std::sync::mpsc`.
#[verifier::external_type_specification]
#[verifier::external_body]
#[verifier::reject_recursive_types(T)]
pub struct ExSender<T>(Sender<T>);

/// The receiving end of a channel of `std::sync::mpsc`.
#[verifier::external_type_specification]
#[verifier::external_body]
#[verifier::reject_recursive_types(T)]
pub struct ExReceiver<T>(Receiver<T>);

/// Calls `Receiver::recv`: waits for the next value on the channel, and
/// gives `None` for its error, which comes once every sender is gone and
/// nothing is left to receive. Which value arrives is up to the thread at
/// the other end, so nothing is stated of it.
#[verifier::external_body]
pub(crate) fn receive<T>(rx: &Receiver<T>) -> Option<T> {
    rx.recv().ok()
}

/// The receiving end of a channel, with a record of every value taken from
/// it.
#[verifier::reject_recursive_types(T)]
pub struct Inbox<T> {
    rx: Receiver<T>,
    received: Ghost<Seq<T>>,
}

impl<T> Inbox<T> {
    /// The values taken from the channel so far, oldest first.
    pub closed spec fn received(&self) -> Seq<T> {
        self.received@
    }

    /// The receiving end `rx`, with nothing taken from it yet.
    pub fn new(rx: Receiver<T>) -> (inbox: Inbox<T>)
        ensures
            inbox.received() == Seq::<T>::empty(),
    {
        Inbox { rx, received: Ghost(Seq::empty()) }
    }
}

/// Waits for the next value on the inbox's channel and records it: `None`
/// once every sender is gone and nothing is left, and then nothing is
/// recorded.
pub(crate) fn take_next<T>(inbox: &mut Inbox<T>) -> (next: Option<T>)
    ensures
        match next {
            Some(v) => final(inbox).received() == old(inbox).received().push(v),
            None => final(inbox).received() == old(inbox).received(),
        },
{
    let next = receive(&inbox.rx);
    match next {
        Some(v) => {
            let ghost received = inbox.received@.push(v);
            inbox.received = Ghost(received);
            Some(v)
        },
        None => None,
    }
}

/// The sending end of a channel, with a record of every value handed to it.
#[verifier::reject_recursive_types(T)]
pub struct Outbox<T> {
    tx: Sender<T>,
    handed: Ghost<Seq<T>>,
}

impl<T> Outbox<T> {
    /// The values handed to the channel so far, oldest first.
    pub closed spec fn handed(&self) -> Seq<T> {
        self.handed@
    }

    /// The sending end `tx`, with nothing handed to it yet.
    pub fn new(tx: Sender<T>) -> (outbox: Outbox<T>)
        ensures
            outbox.handed() == Seq::<T>::empty(),
    {
        Outbox { tx, handed: Ghost(Seq::empty()) }
    }
}

/// Calls `Sender::send`: hands `value` to the channel, and gives `false`
/// for its error, which comes once the receiving end is gone. Whether the
/// other end is still there is not known here, so nothing is stated of the
/// result.
#[verifier::external_body]
fn send_raw<T>(tx: &Sender<T>, value: T) -> bool {
    tx.send(value).is_ok()
}

/// Hands `value` to the outbox's channel and records it; gives `false`
/// where the receiving end is gone.
pub(crate) fn send<T>(outbox: &mut Outbox<T>, value: T) -> (delivered: bool)
    ensures
        final(outbox).handed() == old(outbox).handed().push(value),
{
    let ghost handed = outbox.handed@.push(value);
    let delivered = send_raw(&outbox.tx, value);
    outbox.handed = Ghost(handed);
    delivered
}

} // verus!
