use vstd::prelude::*;
use tokio::sync::broadcast::Receiver;
use crate::channel::Channel;

verus! {

/// Which of the two channels: back end to front end, or front end to back end.
#[derive(Clone, Copy, Debug, PartialEq, Eq, Structural)]
pub enum Direction {
    BackToFront,
    FrontToBack,
}

/// Why the registry refused a call.
#[derive(Clone, Copy, Debug, PartialEq, Eq, Structural)]
pub enum RegistryError {
    /// The channels were already set; they are set at most once.
    AlreadyInitialized,
    /// The channels were asked for before they were set.
    NotInitialized,
}

/// The process-wide home of the two channels. Both are set together, once,
/// and never removed or replaced.
pub struct ChannelRegistry {
    channels: Option<(Channel, Channel)>,
}

/// A receiver on one of the registry's channels. It receives what is
/// published on that channel after it was made, and nothing from before.
pub struct Subscription {
    rx: Receiver<String>,
    direction: Ghost<Direction>,
    start: Ghost<nat>,
}

/// What a subscription that started at position `start` of a channel's log
/// can receive, once `sent` has been published on that channel.
pub open spec fn receivable(start: nat, sent: Seq<Seq<char>>) -> Seq<Seq<char>> {
    sent.subrange(start as int, sent.len() as int)
}

/// A subscription made after some messages were published never receives
/// them: of everything published on its channel, it can receive exactly what
/// came after it was made.
pub proof fn late_subscriber_misses_history(earlier: Seq<Seq<char>>, later: Seq<Seq<char>>)
    ensures
        receivable(earlier.len(), earlier + later) == later,
{
    assert(receivable(earlier.len(), earlier + later) =~= later);
}

impl Subscription {
    /// The channel this subscription listens on.
    pub closed spec fn direction(&self) -> Direction {
        self.direction@
    }

    /// How many messages its channel had published when it was made.
    pub closed spec fn start(&self) -> nat {
        self.start@
    }

    /// The receiver itself, to wait on.
    pub fn into_receiver(self) -> Receiver<String> {
        self.rx
    }
}

impl ChannelRegistry {
    /// The channel held for direction `d`, if any.
    pub closed spec fn slot(&self, d: Direction) -> Option<Channel> {
        match self.channels {
            Some(pair) => Some(
                match d {
                    Direction::BackToFront => pair.0,
                    Direction::FrontToBack => pair.1,
                },
            ),
            None => None,
        }
    }

    pub open spec fn is_initialized(&self) -> bool {
        self.slot(Direction::BackToFront) is Some
    }

    /// What was published on the channel for direction `d`.
    pub open spec fn sent(&self, d: Direction) -> Seq<Seq<char>> {
        self.slot(d)->Some_0.sent()
    }

    /// An empty registry, whose channels are yet to be set.
    pub fn new() -> (r: ChannelRegistry)
        ensures
            r.slot(Direction::BackToFront) is None,
            r.slot(Direction::FrontToBack) is None,
    {
        ChannelRegistry { channels: None }
    }

    /// Sets both channels. A second call is refused and changes nothing.
    pub fn initialize(&mut self, back_to_front: Channel, front_to_back: Channel) -> (r: Result<
        (),
        RegistryError,
    >)
        ensures
            r is Err <==> old(self).is_initialized(),
            r is Err ==> r == Err::<(), RegistryError>(RegistryError::AlreadyInitialized),
            r is Err ==> *final(self) == *old(self),
            r is Ok ==> final(self).slot(Direction::BackToFront) == Some(back_to_front)
                && final(self).slot(Direction::FrontToBack) == Some(front_to_back),
    {
        if self.channels.is_some() {
            return Err(RegistryError::AlreadyInitialized);
        }
        self.channels = Some((back_to_front, front_to_back));
        Ok(())
    }

    /// The channel for direction `d`; refused before `initialize`.
    pub fn get(&self, d: Direction) -> (r: Result<&Channel, RegistryError>)
        ensures
            r is Ok <==> self.is_initialized(),
            r is Ok ==> self.slot(d) == Some(*r->Ok_0),
            r is Err ==> r->Err_0 == RegistryError::NotInitialized,
    {
        match &self.channels {
            Some(pair) => Ok(
                match d {
                    Direction::BackToFront => &pair.0,
                    Direction::FrontToBack => &pair.1,
                },
            ),
            None => Err(RegistryError::NotInitialized),
        }
    }

    /// Publishes `msg` on the channel for direction `d` and returns how many
    /// receivers it reached; refused before `initialize`, changing nothing.
    pub fn publish(&mut self, d: Direction, msg: String) -> (r: Result<usize, RegistryError>)
        ensures
            r is Ok <==> old(self).is_initialized(),
            r is Err ==> r->Err_0 == RegistryError::NotInitialized && *final(self) == *old(self),
            r is Ok ==> final(self).is_initialized() && final(self).sent(d) == old(self).sent(
                d,
            ).push(msg@),
            forall|e: Direction| e != d ==> #[trigger] final(self).slot(e) == old(self).slot(e),
    {
        match self.channels.take() {
            Some((mut back_to_front, mut front_to_back)) => {
                let n = match d {
                    Direction::BackToFront => back_to_front.publish(msg),
                    Direction::FrontToBack => front_to_back.publish(msg),
                };
                self.channels = Some((back_to_front, front_to_back));
                Ok(n)
            },
            None => Err(RegistryError::NotInitialized),
        }
    }

    /// A new subscription to the channel for direction `d`, which receives
    /// only what is published after this call; refused before `initialize`.
    pub fn subscribe(&self, d: Direction) -> (r: Result<Subscription, RegistryError>)
        ensures
            r is Ok <==> self.is_initialized(),
            r is Ok ==> r->Ok_0.direction() == d && r->Ok_0.start() == self.sent(d).len(),
            r is Err ==> r->Err_0 == RegistryError::NotInitialized,
    {
        match self.get(d) {
            Ok(c) => Ok(
                Subscription {
                    rx: c.subscribe(),
                    direction: Ghost(d),
                    start: Ghost(c.sent().len()),
                },
            ),
            Err(e) => Err(e),
        }
    }
}

} // verus!
