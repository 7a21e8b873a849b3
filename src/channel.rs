use vstd::prelude::*;
use tokio::sync::broadcast::{Receiver, Sender};
use tokio::sync::broadcast::error::SendError;

verus! {

#[verifier::external_type_specification]
#[verifier::external_body]
#[verifier::reject_recursive_types(T)]
pub struct ExSender<T>(Sender<T>);

#[verifier::external_type_specification]
#[verifier::external_body]
#[verifier::reject_recursive_types(T)]
pub struct ExReceiver<T>(Receiver<T>);

#[verifier::external_type_specification]
#[verifier::external_body]
#[verifier::reject_recursive_types(T)]
pub struct ExSendError<T>(SendError<T>);

/// Relies on tokio's `broadcast::Sender::send`: it fails only when no receiver
/// is subscribed, so a success reports at least one receiver.
pub assume_specification<T>[ Sender::<T>::send ](tx: &Sender<T>, value: T) -> (r: Result<
    usize,
    SendError<T>,
>)
    ensures
        r is Ok ==> r->Ok_0 > 0,
;

/// Relies on tokio's `broadcast::Sender::subscribe`: a fresh receiver that sees
/// only the values sent after the call. It panics only once `usize::MAX >> 2`
/// receivers are alive at the same time, which no caller of this library nears.
pub assume_specification<T>[ Sender::<T>::subscribe ](tx: &Sender<T>) -> Receiver<T>;

/// One notification channel: the send handle and the receive handle that was
/// made with it, and the messages published through `publish`, in order.
pub struct Channel {
    pub tx: Sender<String>,
    pub rx: Receiver<String>,
    sent: Ghost<Seq<Seq<char>>>,
}

/// How many receivers an announcement reached, given what the send returned:
/// a send with no receiver is no error, its message is simply dropped.
pub fn announce_receivers(sent: Result<usize, SendError<String>>) -> (n: usize)
    ensures
        n == match sent {
            Ok(k) => k,
            Err(_) => 0usize,
        },
{
    match sent {
        Ok(k) => k,
        Err(_) => 0,
    }
}

impl Channel {
    /// The messages published on this channel through `publish`, oldest first.
    pub closed spec fn sent(&self) -> Seq<Seq<char>> {
        self.sent@
    }

    /// A channel made of a send handle and one of its receivers, on which
    /// nothing was published yet.
    pub fn new(tx: Sender<String>, rx: Receiver<String>) -> (c: Channel)
        ensures
            c.sent() == Seq::<Seq<char>>::empty(),
    {
        Channel { tx, rx, sent: Ghost(Seq::empty()) }
    }

    /// Publishes `msg` to every receiver subscribed at this moment and returns
    /// how many there were; with none, the message is lost and 0 comes back.
    pub fn publish(&mut self, msg: String) -> (n: usize)
        ensures
            final(self).sent() == old(self).sent().push(msg@),
    {
        let ghost m = msg@;
        let n = announce_receivers(self.tx.send(msg));
        self.sent = Ghost(self.sent@.push(m));
        n
    }

    /// A new receiver on this channel, which receives only what is published
    /// after this call.
    pub(crate) fn subscribe(&self) -> Receiver<String> {
        self.tx.subscribe()
    }
}

} // verus!
