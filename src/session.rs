use vstd::prelude::*;
use crate::dispatch::AckDispatcher;
use crate::registry::{ChannelRegistry, Direction, RegistryError};

verus! {

/// How waiting for an acknowledgment ended.
#[derive(Clone, Copy, Debug, PartialEq, Eq, Structural)]
pub enum AckPoll {
    /// An acknowledgment let this request go on. Its content is not read.
    Acknowledged,
    /// Every sender is gone: no acknowledgment can come any more.
    Closed,
}

/// Why a request failed. Files saved before the failure stay where they are.
#[derive(Clone, Copy, Debug, PartialEq, Eq, Structural)]
pub enum UploadError {
    /// A part of the body has no file name.
    MissingFileName,
    /// A part of the body has no content type.
    MissingContentType,
    /// The multipart body could not be read.
    BodyUnreadable,
    /// A received file could not be written.
    WriteFailed,
    /// The driver reported an event that the session was not waiting for.
    OutOfOrder,
}

/// One file of the body, read whole, ready to be written under its name.
#[derive(Debug)]
pub struct UploadedFile {
    pub file_name: String,
    pub content_type: String,
    pub bytes: Vec<u8>,
}

/// What happened since the session last decided.
#[derive(Debug)]
pub enum Event {
    /// Waiting for an acknowledgment ended.
    Ack(AckPoll),
    /// The next part of the body starts, with these headers.
    Field { file_name: Option<String>, content_type: Option<String> },
    /// The body has no more parts.
    FieldsEnd,
    /// The bytes of the current part, read whole.
    Body(Vec<u8>),
    /// The body could not be read.
    BodyFailed,
    /// The last file handed out was written and flushed.
    Saved,
    /// The last file handed out could not be written.
    SaveFailed,
}

/// What the driver of a session is to do next.
#[derive(Debug)]
pub enum Action {
    /// Read the headers of the next part of the body.
    NextField,
    /// Read the bytes of the current part.
    ReadBody,
    /// Write this file, overwriting one of the same name, then report back.
    Save(UploadedFile),
    /// The request is done.
    Finish,
    /// The request fails with this error.
    Fail(UploadError),
    /// No acknowledgment can ever come: the request waits for good.
    Park,
}

/// Where a request stands.
#[derive(Debug)]
pub enum Phase {
    AwaitingAck,
    AwaitingField,
    AwaitingBody { file_name: String, content_type: String },
    AwaitingSaved,
    Finished,
    Failed(UploadError),
    Stalled,
}

/// The transition of a session: from its phase and an event, the next phase
/// and what is to be done.
pub open spec fn next(p: Phase, e: Event) -> (Phase, Action) {
    match p {
        Phase::AwaitingAck => match e {
            Event::Ack(AckPoll::Acknowledged) => (Phase::AwaitingField, Action::NextField),
            Event::Ack(AckPoll::Closed) => (Phase::Stalled, Action::Park),
            _ => fail_with(UploadError::OutOfOrder),
        },
        Phase::AwaitingField => match e {
            Event::Field { file_name, content_type } => match (file_name, content_type) {
                (None, _) => fail_with(UploadError::MissingFileName),
                (Some(_), None) => fail_with(UploadError::MissingContentType),
                (Some(f), Some(c)) => (
                    Phase::AwaitingBody { file_name: f, content_type: c },
                    Action::ReadBody,
                ),
            },
            Event::FieldsEnd => (Phase::Finished, Action::Finish),
            Event::BodyFailed => fail_with(UploadError::BodyUnreadable),
            _ => fail_with(UploadError::OutOfOrder),
        },
        Phase::AwaitingBody { file_name, content_type } => match e {
            Event::Body(bytes) => (
                Phase::AwaitingSaved,
                Action::Save(UploadedFile { file_name, content_type, bytes }),
            ),
            Event::BodyFailed => fail_with(UploadError::BodyUnreadable),
            _ => fail_with(UploadError::OutOfOrder),
        },
        Phase::AwaitingSaved => match e {
            Event::Saved => (Phase::AwaitingField, Action::NextField),
            Event::SaveFailed => fail_with(UploadError::WriteFailed),
            _ => fail_with(UploadError::OutOfOrder),
        },
        Phase::Finished => (Phase::Finished, Action::Finish),
        Phase::Failed(err) => fail_with(err),
        Phase::Stalled => (Phase::Stalled, Action::Park),
    }
}

pub open spec fn fail_with(err: UploadError) -> (Phase, Action) {
    (Phase::Failed(err), Action::Fail(err))
}

/// One upload request, from the moment its caller was announced.
pub struct UploadSession {
    phase: Phase,
}

impl UploadSession {
    pub closed spec fn phase(&self) -> Phase {
        self.phase
    }

    /// Opens the handshake for a caller: the request enters the waiting
    /// line of `acks` under `ticket`, then `client` is published on the back
    /// end's channel. Entering first means that an acknowledgment sent in
    /// answer cannot pass the request by. The session then waits for its
    /// acknowledgment. Refused while the registry's channels are not set, and
    /// then nothing changes.
    pub fn open(
        registry: &mut ChannelRegistry,
        acks: &mut AckDispatcher,
        ticket: u64,
        client: String,
    ) -> (r: Result<UploadSession, RegistryError>)
        ensures
            r is Ok <==> old(registry).is_initialized(),
            r is Ok ==> r->Ok_0.phase() == Phase::AwaitingAck,
            r is Ok ==> final(acks).waiting() == old(acks).waiting().push(ticket),
            r is Ok ==> final(registry).is_initialized(),
            r is Ok ==> final(registry).sent(Direction::BackToFront) == old(registry).sent(
                Direction::BackToFront,
            ).push(client@),
            final(registry).slot(Direction::FrontToBack) == old(registry).slot(
                Direction::FrontToBack,
            ),
            r is Err ==> r->Err_0 == RegistryError::NotInitialized,
            r is Err ==> *final(registry) == *old(registry) && *final(acks) == *old(acks),
    {
        if registry.get(Direction::BackToFront).is_err() {
            return Err(RegistryError::NotInitialized);
        }
        acks.enter(ticket);
        let _reached = registry.publish(Direction::BackToFront, client);
        Ok(UploadSession { phase: Phase::AwaitingAck })
    }

    /// Takes one event and says what is to be done next.
    pub fn step(&mut self, e: Event) -> (a: Action)
        ensures
            (final(self).phase(), a) == next(old(self).phase(), e),
    {
        let mut p = Phase::Stalled;
        core::mem::swap(&mut p, &mut self.phase);
        let (q, a) = transition(p, e);
        self.phase = q;
        a
    }
}

fn fail(err: UploadError) -> (r: (Phase, Action))
    ensures
        r == fail_with(err),
{
    (Phase::Failed(err), Action::Fail(err))
}

fn transition(p: Phase, e: Event) -> (r: (Phase, Action))
    ensures
        r == next(p, e),
{
    match p {
        Phase::AwaitingAck => match e {
            Event::Ack(AckPoll::Acknowledged) => (Phase::AwaitingField, Action::NextField),
            Event::Ack(AckPoll::Closed) => (Phase::Stalled, Action::Park),
            _ => fail(UploadError::OutOfOrder),
        },
        Phase::AwaitingField => match e {
            Event::Field { file_name, content_type } => match (file_name, content_type) {
                (None, _) => fail(UploadError::MissingFileName),
                (Some(_), None) => fail(UploadError::MissingContentType),
                (Some(f), Some(c)) => (
                    Phase::AwaitingBody { file_name: f, content_type: c },
                    Action::ReadBody,
                ),
            },
            Event::FieldsEnd => (Phase::Finished, Action::Finish),
            Event::BodyFailed => fail(UploadError::BodyUnreadable),
            _ => fail(UploadError::OutOfOrder),
        },
        Phase::AwaitingBody { file_name, content_type } => match e {
            Event::Body(bytes) => (
                Phase::AwaitingSaved,
                Action::Save(UploadedFile { file_name, content_type, bytes }),
            ),
            Event::BodyFailed => fail(UploadError::BodyUnreadable),
            _ => fail(UploadError::OutOfOrder),
        },
        Phase::AwaitingSaved => match e {
            Event::Saved => (Phase::AwaitingField, Action::NextField),
            Event::SaveFailed => fail(UploadError::WriteFailed),
            _ => fail(UploadError::OutOfOrder),
        },
        Phase::Finished => (Phase::Finished, Action::Finish),
        Phase::Failed(err) => fail(err),
        Phase::Stalled => (Phase::Stalled, Action::Park),
    }
}

} // verus!
