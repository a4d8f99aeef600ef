use vstd::prelude::*;

verus! {

/// A one-shot channel: one slot for a message and a `ready` flag that says
/// whether the slot holds a message that has not been received yet.
///
/// Each method is one indivisible step of the protocol: the sender writes
/// the slot and sets the flag; the receiver swaps the flag back to `false`
/// and, if it was set, moves the message out.
///
/// Every channel carries an identity that its halves carry too; the halves
/// act only on the channel they were split from. Contracts never say what
/// an identity is, so two channels are never known to share one.
pub struct Channel<T> {
    value: Option<T>,
    ready: bool,
    id: Ghost<int>,
}

/// The sending half handed out by `Channel::split`; sending consumes it.
pub struct Sender {
    channel: Ghost<int>,
}

/// The receiving half handed out by `Channel::split`; receiving consumes it.
pub struct Receiver {
    channel: Ghost<int>,
}

impl<T> Channel<T> {
    /// The flag is set exactly when the slot holds a message.
    #[verifier::type_invariant]
    closed spec fn wf(self) -> bool {
        self.ready <==> self.value is Some
    }

    /// The message waiting in the channel, if any.
    pub closed spec fn pending(self) -> Option<T> {
        if self.ready {
            self.value
        } else {
            None
        }
    }

    /// Whether a message is waiting.
    pub open spec fn is_ready(self) -> bool {
        self.pending() is Some
    }

    /// The channel's identity.
    pub closed spec fn id(self) -> int {
        self.id@
    }

    /// The channel after `message` has been written and the flag set.
    pub closed spec fn after_send(self, message: T) -> Channel<T> {
        Channel { value: Some(message), ready: true, id: self.id }
    }

    /// The channel after the receiver's swap of the flag to `false`.
    pub closed spec fn after_receive(self) -> Channel<T> {
        Channel { value: None, ready: false, id: self.id }
    }

    /// An empty channel.
    pub fn new() -> (c: Self)
        ensures
            c.pending() is None,
    {
        Channel { value: None, ready: false, id: Ghost(0) }
    }

    /// Resets the channel to empty (a message still waiting in it is
    /// dropped) and hands out its two halves, both tied to this channel.
    pub fn split(&mut self) -> (halves: (Sender, Receiver))
        ensures
            final(self).pending() is None,
            final(self).id() == old(self).id(),
            halves.0.channel() == final(self).id(),
            halves.1.channel() == final(self).id(),
    {
        let ghost id = self.id@;
        *self = Channel { value: None, ready: false, id: Ghost(id) };
        (Sender { channel: Ghost(id) }, Receiver { channel: Ghost(id) })
    }

    /// Reads the flag.
    pub fn is_ready_now(&self) -> (r: bool)
        ensures
            r == self.is_ready(),
    {
        proof {
            use_type_invariant(self);
        }
        self.ready
    }

    /// Closes the channel and gives back the message that dropping it
    /// destroys: the one still waiting, if there is one.
    pub fn close(self) -> (left: Option<T>)
        ensures
            left == self.pending(),
    {
        proof {
            use_type_invariant(&self);
        }
        if self.ready {
            self.value
        } else {
            None
        }
    }
}

impl Sender {
    /// The identity of the channel this half belongs to.
    pub closed spec fn channel(self) -> int {
        self.channel@
    }

    /// Writes `message` into its channel and sets the flag.
    pub fn send<T>(self, channel: &mut Channel<T>, message: T)
        requires
            self.channel() == old(channel).id(),
        ensures
            *final(channel) == old(channel).after_send(message),
            final(channel).pending() == Some(message),
            final(channel).id() == old(channel).id(),
    {
        let ghost id = channel.id@;
        *channel = Channel { value: Some(message), ready: true, id: Ghost(id) };
    }
}

impl Receiver {
    /// The identity of the channel this half belongs to.
    pub closed spec fn channel(self) -> int {
        self.channel@
    }

    /// One attempt to receive from its channel: swaps the flag to `false`
    /// and, if it was set, moves the message out. `None` means nothing has
    /// been sent yet, and the caller parks and tries again.
    pub fn try_receive<T>(&self, channel: &mut Channel<T>) -> (r: Option<T>)
        requires
            self.channel() == old(channel).id(),
        ensures
            r == old(channel).pending(),
            *final(channel) == old(channel).after_receive(),
            final(channel).pending() is None,
            final(channel).id() == old(channel).id(),
    {
        proof {
            use_type_invariant(&*channel);
        }
        let ghost id = channel.id@;
        let mut slot = Channel { value: None, ready: false, id: Ghost(id) };
        std::mem::swap(channel, &mut slot);
        let Channel { value, ready, id: _ } = slot;
        if ready {
            value
        } else {
            None
        }
    }

    /// Receives the message from its channel, which must already be waiting.
    pub fn receive<T>(self, channel: &mut Channel<T>) -> (message: T)
        requires
            self.channel() == old(channel).id(),
            old(channel).is_ready(),
        ensures
            Some(message) == old(channel).pending(),
            *final(channel) == old(channel).after_receive(),
            final(channel).pending() is None,
            final(channel).id() == old(channel).id(),
    {
        match self.try_receive(channel) {
            Some(m) => m,
            None => vstd::pervasive::unreached(),
        }
    }
}

/// What a receive gives back of a send: after a message is sent, a receive
/// returns exactly that message and leaves the channel empty, so a further
/// receive, or closing the channel, finds nothing: each message is handed
/// out (or dropped) exactly once. Neither step changes which channel it is.
pub proof fn lemma_send_then_receive<T>(c: Channel<T>, message: T)
    ensures
        c.after_send(message).pending() == Some(message),
        c.after_send(message).after_receive().pending() is None,
        c.after_send(message).after_receive().after_receive().pending() is None,
        c.after_send(message).id() == c.id(),
        c.after_send(message).after_receive().id() == c.id(),
{
}

/// A receive on a channel with nothing waiting finds nothing and leaves
/// it so.
pub proof fn lemma_receive_before_send<T>(c: Channel<T>)
    requires
        c.pending() is None,
    ensures
        c.after_receive().pending() is None,
{
}

} // verus!
