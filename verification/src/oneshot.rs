//! A result that is delivered at most once.
use vstd::prelude::*;

verus! {

/// The result's place.
#[derive(Debug, PartialEq, Eq)]
pub enum Value<T> {
    Pending,
    Complete(T),
    Closed,
}

/// What the receiver finds.
#[derive(Debug, PartialEq, Eq)]
pub enum Polled<T> {
    Ready(T),
    Closed,
    Wait,
}

/// The state shared by the senders and the receiver of one result.
#[derive(Debug, PartialEq, Eq)]
pub struct Oneshot<T, W> {
    pub value: Value<T>,
    pub senders: usize,
    pub receiver_open: bool,
    pub waker: Option<W>,
}

impl<T, W> Oneshot<T, W> {
    /// A result that is awaited has a sender and a receiver.
    pub open spec fn wf(&self) -> bool {
        self.value is Pending ==> self.senders > 0 && self.receiver_open
    }

    /// One sender, one receiver, no result yet.
    pub fn channel() -> (shared: Self)
        ensures
            shared == (Oneshot::<T, W> {
                value: Value::Pending,
                senders: 1,
                receiver_open: true,
                waker: None,
            }),
            shared.wf(),
    {
        Oneshot { value: Value::Pending, senders: 1, receiver_open: true, waker: None }
    }

    /// Adds a sender.
    pub fn clone_sender(&mut self)
        requires
            old(self).wf(),
            0 < old(self).senders < usize::MAX,
        ensures
            final(self).wf(),
            *final(self) == (Oneshot { senders: (old(self).senders + 1) as usize, ..*old(self) }),
    {
        self.senders = self.senders + 1;
    }

    /// Delivers the result, unless one was delivered or nobody wants it. The second part of
    /// the result is the task to wake.
    pub fn send(&mut self, value: T) -> (sent: (bool, Option<W>))
        requires
            old(self).wf(),
        ensures
            final(self).wf(),
            if old(self).receiver_open && old(self).value is Pending {
                &&& sent.0
                &&& sent.1 == old(self).waker
                &&& *final(self) == (Oneshot {
                    value: Value::Complete(value),
                    waker: None,
                    ..*old(self)
                })
            } else {
                &&& !sent.0
                &&& sent.1 is None
                &&& *final(self) == *old(self)
            },
    {
        let awaited = match self.value {
            Value::Pending => true,
            _ => false,
        };
        if !self.receiver_open || !awaited {
            return (false, None);
        }
        self.value = Value::Complete(value);
        (true, self.waker.take())
    }

    /// Removes a sender. When it was the last one, a result that is still awaited never
    /// comes; the first part of the result says so, the second is the task to wake.
    pub fn drop_sender(&mut self) -> (dropped: (bool, Option<W>))
        requires
            old(self).wf(),
            old(self).senders > 0,
        ensures
            final(self).wf(),
            if old(self).senders == 1 && old(self).value is Pending {
                &&& dropped.0
                &&& dropped.1 == old(self).waker
                &&& *final(self) == (Oneshot {
                    value: Value::Closed,
                    senders: 0,
                    waker: None,
                    ..*old(self)
                })
            } else {
                &&& !dropped.0
                &&& dropped.1 is None
                &&& *final(self) == (Oneshot {
                    senders: (old(self).senders - 1) as usize,
                    ..*old(self)
                })
            },
    {
        self.senders = self.senders - 1;
        let awaited = match self.value {
            Value::Pending => true,
            _ => false,
        };
        if self.senders == 0 && awaited {
            self.value = Value::Closed;
            (true, self.waker.take())
        } else {
            (false, None)
        }
    }

    /// Takes the result, if it is there.
    pub fn recv(&mut self) -> (polled: Polled<T>)
        requires
            old(self).wf(),
        ensures
            final(self).wf(),
            match old(self).value {
                Value::Complete(value) => {
                    &&& polled == Polled::Ready(value)
                    &&& *final(self) == (Oneshot { value: Value::Closed, ..*old(self) })
                },
                Value::Closed => polled is Closed && *final(self) == *old(self),
                Value::Pending => polled is Wait && *final(self) == *old(self),
            },
    {
        let mut taken = Value::Closed;
        std::mem::swap(&mut taken, &mut self.value);
        match taken {
            Value::Complete(value) => Polled::Ready(value),
            Value::Closed => Polled::Closed,
            Value::Pending => {
                self.value = Value::Pending;
                Polled::Wait
            },
        }
    }

    /// Takes the result, or remembers the task that waits for it.
    pub fn poll(&mut self, waker: W) -> (polled: Polled<T>)
        requires
            old(self).wf(),
        ensures
            final(self).wf(),
            match old(self).value {
                Value::Complete(value) => {
                    &&& polled == Polled::Ready(value)
                    &&& *final(self) == (Oneshot { value: Value::Closed, ..*old(self) })
                },
                Value::Closed => polled is Closed && *final(self) == *old(self),
                Value::Pending => {
                    &&& polled is Wait
                    &&& *final(self) == (Oneshot { waker: Some(waker), ..*old(self) })
                },
            },
    {
        match self.recv() {
            Polled::Wait => {
                self.waker = Some(waker);
                Polled::Wait
            },
            polled => polled,
        }
    }

    /// Closes the receiving end.
    pub fn drop_receiver(&mut self)
        requires
            old(self).wf(),
        ensures
            final(self).wf(),
            *final(self) == (Oneshot {
                receiver_open: false,
                value: match old(self).value {
                    Value::Pending => Value::Closed,
                    value => value,
                },
                ..*old(self)
            }),
    {
        self.receiver_open = false;
        let awaited = match self.value {
            Value::Pending => true,
            _ => false,
        };
        if awaited {
            self.value = Value::Closed;
        }
    }
}

/// The operation's producer stopped without a result.
#[derive(Clone, Copy, Debug, PartialEq, Eq, Structural)]
pub struct CompletionClosed;

/// The result of one operation of the engine.
#[derive(Debug, PartialEq, Eq)]
pub struct Completion<T, W> {
    pub receiver: Oneshot<T, W>,
}

impl<T, W> Completion<T, W> {
    /// The completion that receives from a channel.
    pub fn new(receiver: Oneshot<T, W>) -> (completion: Self)
        ensures
            completion.receiver == receiver,
    {
        Completion { receiver }
    }

    /// Takes the result if it is there; a caller that has to wait is told so.
    pub fn wait(&mut self) -> (polled: Polled<T>)
        requires
            old(self).receiver.wf(),
        ensures
            final(self).receiver.wf(),
            match old(self).receiver.value {
                Value::Complete(value) => {
                    &&& polled == Polled::Ready(value)
                    &&& final(self).receiver == (Oneshot {
                        value: Value::Closed,
                        ..old(self).receiver
                    })
                },
                Value::Closed => polled is Closed && *final(self) == *old(self),
                Value::Pending => polled is Wait && *final(self) == *old(self),
            },
    {
        self.receiver.recv()
    }

    /// Takes the result, or remembers the task that waits for it.
    pub fn poll(&mut self, waker: W) -> (polled: Polled<T>)
        requires
            old(self).receiver.wf(),
        ensures
            final(self).receiver.wf(),
            match old(self).receiver.value {
                Value::Complete(value) => {
                    &&& polled == Polled::Ready(value)
                    &&& final(self).receiver == (Oneshot {
                        value: Value::Closed,
                        ..old(self).receiver
                    })
                },
                Value::Closed => polled is Closed && *final(self) == *old(self),
                Value::Pending => {
                    &&& polled is Wait
                    &&& final(self).receiver == (Oneshot {
                        waker: Some(waker),
                        ..old(self).receiver
                    })
                },
            },
    {
        self.receiver.poll(waker)
    }

    /// Takes the result without waiting.
    pub fn try_take(&mut self) -> (result: Result<Option<T>, CompletionClosed>)
        requires
            old(self).receiver.wf(),
        ensures
            final(self).receiver.wf(),
            match old(self).receiver.value {
                Value::Complete(value) => {
                    &&& result == Ok::<Option<T>, CompletionClosed>(Some(value))
                    &&& final(self).receiver == (Oneshot {
                        value: Value::Closed,
                        ..old(self).receiver
                    })
                },
                Value::Closed => {
                    &&& result == Err::<Option<T>, CompletionClosed>(CompletionClosed)
                    &&& *final(self) == *old(self)
                },
                Value::Pending => {
                    &&& result == Ok::<Option<T>, CompletionClosed>(None)
                    &&& *final(self) == *old(self)
                },
            },
    {
        match self.receiver.recv() {
            Polled::Ready(value) => Ok(Some(value)),
            Polled::Closed => Err(CompletionClosed),
            Polled::Wait => Ok(None),
        }
    }
}

} // verus!
