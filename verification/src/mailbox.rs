use vstd::prelude::*;

verus! {

#[verifier::external_type_specification]
#[verifier::external_body]
#[verifier::reject_recursive_types(T)]
pub struct ExSender<T>(crossbeam::channel::Sender<T>);

#[verifier::external_type_specification]
#[verifier::external_body]
#[verifier::reject_recursive_types(T)]
pub struct ExReceiver<T>(crossbeam::channel::Receiver<T>);

/// Relies on crossbeam's `channel::unbounded`: a fresh channel of
/// unlimited capacity, handed back as its send and receive halves.
#[verifier::external_body]
fn channel_unbounded<M>() -> (crossbeam::channel::Sender<M>, crossbeam::channel::Receiver<M>) {
    crossbeam::channel::unbounded()
}

/// Relies on crossbeam's `Sender::send`: on an unbounded channel it never
/// blocks, and it fails only when every receiver is gone — in which case
/// the message is quietly dropped, exactly the mailbox contract for a
/// dead actor. Other threads share the channel, so nothing can be
/// promised about its contents here.
#[verifier::external_body]
fn channel_send<M>(sender: &crossbeam::channel::Sender<M>, message: M) {
    let _ = sender.send(message);
}

/// Relies on crossbeam's `Receiver::try_recv`: the next pending message,
/// or nothing when the channel is currently empty. Concurrent senders
/// make the outcome depend on the moment of the call.
#[verifier::external_body]
fn channel_try_recv<M>(receiver: &crossbeam::channel::Receiver<M>) -> Option<M> {
    receiver.try_recv().ok()
}

/// Relies on crossbeam's `Clone for Sender`: a second handle to the same
/// channel.
#[verifier::external_body]
fn channel_sender_clone<M>(sender: &crossbeam::channel::Sender<M>) -> crossbeam::channel::Sender<
    M,
> {
    sender.clone()
}

/// A cheap, thread-safe handle that appends messages to one mailbox.
/// Many appenders to the same mailbox may exist at once.
#[verifier::reject_recursive_types(M)]
pub struct MailboxAppender<M> {
    sender: crossbeam::channel::Sender<M>,
}

impl<M> MailboxAppender<M> {
    /// Append a message. Never blocks; once the owning mailbox is gone
    /// the call is a silent no-op.
    pub fn append(&self, message: M) {
        channel_send(&self.sender, message)
    }

    /// A second appender to the same mailbox.
    pub fn clone(&self) -> Self {
        MailboxAppender { sender: channel_sender_clone(&self.sender) }
    }
}

/// The storage of a mailbox: an unbounded channel whose receive half is
/// polled by exactly one shard at a time.
#[verifier::reject_recursive_types(M)]
pub struct CrossbeamChannelMailboxLogic<M> {
    sender: crossbeam::channel::Sender<M>,
    receiver: crossbeam::channel::Receiver<M>,
}

impl<M> CrossbeamChannelMailboxLogic<M> {
    /// A fresh, empty mailbox store.
    pub fn new() -> Self {
        let (sender, receiver) = channel_unbounded();
        CrossbeamChannelMailboxLogic { sender, receiver }
    }

    /// A new appender into this store.
    pub fn appender(&self) -> MailboxAppender<M> {
        MailboxAppender { sender: channel_sender_clone(&self.sender) }
    }

    /// The next pending message, if any.
    pub fn retrieve(&mut self) -> Option<M> {
        channel_try_recv(&self.receiver)
    }
}

/// One actor's queue of incoming messages: append from anywhere, drain
/// from the one shard that owns the actor.
#[verifier::reject_recursive_types(M)]
pub struct Mailbox<M> {
    logic: CrossbeamChannelMailboxLogic<M>,
}

impl<M> Mailbox<M> {
    /// Wrap a mailbox store.
    pub fn new(logic: CrossbeamChannelMailboxLogic<M>) -> Self {
        Mailbox { logic }
    }

    /// A new appender into this mailbox.
    pub fn appender(&mut self) -> MailboxAppender<M> {
        self.logic.appender()
    }

    /// The next pending message, or nothing if the mailbox is empty at
    /// this moment.
    pub fn retrieve(&mut self) -> Option<M> {
        self.logic.retrieve()
    }
}

} // verus!
