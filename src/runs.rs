use vstd::prelude::*;
use crate::session::{AckPoll, Action, Event, Phase, UploadError, next};

verus! {

/// The phase of a session that was opened and then took `events` in order.
pub open spec fn phase_after(events: Seq<Event>) -> Phase
    decreases events.len(),
{
    if events.len() == 0 {
        Phase::AwaitingAck
    } else {
        next(phase_after(events.drop_last()), events.last()).0
    }
}

/// The action that the session decides on when it takes `events[i]`.
pub open spec fn action_at(events: Seq<Event>, i: int) -> Action {
    next(phase_after(events.take(i)), events[i]).1
}

/// Whether the action reads the body of the request or writes what was read.
pub open spec fn touches_body(a: Action) -> bool {
    a is NextField || a is ReadBody || a is Save
}

pub open spec fn is_ack(e: Event) -> bool {
    e == Event::Ack(AckPoll::Acknowledged)
}

/// The downloads directory as the session leaves it, file name to content,
/// starting from `dir`: each file handed out to be saved replaces any file of
/// the same name.
pub open spec fn files_after(dir: Map<Seq<char>, Seq<u8>>, events: Seq<Event>) -> Map<
    Seq<char>,
    Seq<u8>,
>
    decreases events.len(),
{
    if events.len() == 0 {
        dir
    } else {
        let before = files_after(dir, events.drop_last());
        match next(phase_after(events.drop_last()), events.last()).1 {
            Action::Save(f) => before.insert(f.file_name@, f.bytes@),
            _ => before,
        }
    }
}

/// The events of one part of the body that is uploaded and saved.
pub open spec fn upload(file_name: String, content_type: String, bytes: Vec<u8>) -> Seq<Event> {
    seq![
        Event::Field { file_name: Some(file_name), content_type: Some(content_type) },
        Event::Body(bytes),
        Event::Saved,
    ]
}

proof fn lemma_take_drop_last(events: Seq<Event>, k: int)
    requires
        0 < k <= events.len(),
    ensures
        events.take(k).drop_last() == events.take(k - 1),
        events.take(k).last() == events[k - 1],
{
    assert(events.take(k).drop_last() =~= events.take(k - 1));
}

proof fn lemma_no_ack_yet(events: Seq<Event>, k: int)
    requires
        0 <= k <= events.len(),
        forall|j: int| 0 <= j < k ==> !is_ack(#[trigger] events[j]),
    ensures
        ({
            let p = phase_after(events.take(k));
            p is AwaitingAck || p is Stalled || p is Failed
        }),
    decreases k,
{
    if k > 0 {
        lemma_no_ack_yet(events, k - 1);
        lemma_take_drop_last(events, k);
    } else {
        assert(events.take(0).len() == 0);
    }
}

/// A session reads no byte of the body, and writes no file, before an
/// acknowledgment has come: whatever events it takes, each action that
/// touches the body comes at or after an acknowledgment message.
pub proof fn body_waits_for_ack(events: Seq<Event>, i: int)
    requires
        0 <= i < events.len(),
        touches_body(action_at(events, i)),
    ensures
        exists|j: int| 0 <= j <= i && is_ack(#[trigger] events[j]),
{
    if forall|j: int| 0 <= j <= i ==> !is_ack(#[trigger] events[j]) {
        lemma_no_ack_yet(events, i);
        assert(!is_ack(events[i]));
    }
}

proof fn lemma_files_after_append(dir: Map<Seq<char>, Seq<u8>>, pre: Seq<Event>, post: Seq<Event>)
    requires
        phase_after(pre) is Failed,
    ensures
        files_after(dir, pre + post) == files_after(dir, pre),
    decreases post.len(),
{
    if post.len() == 0 {
        assert(pre + post =~= pre);
    } else {
        lemma_files_after_append(dir, pre, post.drop_last());
        lemma_failed_stays(pre, post.drop_last());
        assert((pre + post).drop_last() =~= pre + post.drop_last());
    }
}

/// A part without a file name fails the whole request, and nothing is
/// undone: the files saved before it stay as they were saved, and no file is
/// saved after it.
pub proof fn missing_file_name_fails_and_keeps_earlier_files(
    dir: Map<Seq<char>, Seq<u8>>,
    pre: Seq<Event>,
    content_type: Option<String>,
    post: Seq<Event>,
)
    requires
        phase_after(pre) is AwaitingField,
    ensures
        ({
            let events = pre + seq![Event::Field { file_name: None, content_type }] + post;
            &&& action_at(events, pre.len() as int) == Action::Fail(UploadError::MissingFileName)
            &&& phase_after(events) == Phase::Failed(UploadError::MissingFileName)
            &&& files_after(dir, events) == files_after(dir, pre)
        }),
{
    let head = pre + seq![Event::Field { file_name: None, content_type }];
    let events = head + post;
    assert(head.drop_last() =~= pre);
    assert(events.take(pre.len() as int) =~= pre);
    lemma_files_after_append(dir, head, post);
    lemma_failed_stays(head, post);
}

proof fn lemma_failed_stays(pre: Seq<Event>, post: Seq<Event>)
    requires
        phase_after(pre) is Failed,
    ensures
        phase_after(pre + post) == phase_after(pre),
    decreases post.len(),
{
    if post.len() == 0 {
        assert(pre + post =~= pre);
    } else {
        lemma_failed_stays(pre, post.drop_last());
        assert((pre + post).drop_last() =~= pre + post.drop_last());
    }
}

proof fn lemma_upload(dir: Map<Seq<char>, Seq<u8>>, pre: Seq<Event>, file_name: String, content_type: String, bytes: Vec<u8>)
    requires
        phase_after(pre) is AwaitingField,
    ensures
        phase_after(pre + upload(file_name, content_type, bytes)) is AwaitingField,
        files_after(dir, pre + upload(file_name, content_type, bytes)) == files_after(dir, pre).insert(
            file_name@,
            bytes@,
        ),
{
    let u = upload(file_name, content_type, bytes);
    let e1 = pre + u.take(1);
    let e2 = pre + u.take(2);
    let e3 = pre + u;
    assert(e1.drop_last() =~= pre);
    assert(e1.last() == u[0]);
    assert(phase_after(e1) == Phase::AwaitingBody { file_name, content_type });
    assert(files_after(dir, e1) == files_after(dir, pre));
    assert(e2.drop_last() =~= e1);
    assert(e2.last() == u[1]);
    assert(phase_after(e2) is AwaitingSaved);
    assert(files_after(dir, e2) == files_after(dir, pre).insert(file_name@, bytes@));
    assert(e3.drop_last() =~= e2);
    assert(e3.last() == u[2]);
}

/// Uploading a file saves it under its name with exactly its bytes, and the
/// session is ready for the next part.
pub proof fn upload_round_trip(
    dir: Map<Seq<char>, Seq<u8>>,
    pre: Seq<Event>,
    file_name: String,
    content_type: String,
    bytes: Vec<u8>,
)
    requires
        phase_after(pre) is AwaitingField,
    ensures
        files_after(dir, pre + upload(file_name, content_type, bytes)).contains_key(file_name@),
        files_after(dir, pre + upload(file_name, content_type, bytes))[file_name@] == bytes@,
{
    lemma_upload(dir, pre, file_name, content_type, bytes);
}

/// Uploading two files of the same name leaves the second one's bytes.
pub proof fn upload_overwrites(
    dir: Map<Seq<char>, Seq<u8>>,
    pre: Seq<Event>,
    file_name: String,
    first_type: String,
    first: Vec<u8>,
    second_type: String,
    second: Vec<u8>,
)
    requires
        phase_after(pre) is AwaitingField,
    ensures
        ({
            let events = pre + upload(file_name, first_type, first) + upload(
                file_name,
                second_type,
                second,
            );
            files_after(dir, events)[file_name@] == second@
        }),
{
    lemma_upload(dir, pre, file_name, first_type, first);
    let mid = pre + upload(file_name, first_type, first);
    lemma_upload(dir, mid, file_name, second_type, second);
}

proof fn lemma_never_back_to_waiting(events: Seq<Event>, i: int, k: int)
    requires
        0 <= i < k <= events.len(),
        !(phase_after(events.take(i + 1)) is AwaitingAck),
    ensures
        !(phase_after(events.take(k)) is AwaitingAck),
    decreases k - i,
{
    if k > i + 1 {
        lemma_never_back_to_waiting(events, i, k - 1);
        lemma_take_drop_last(events, k);
    }
}

/// A request takes one acknowledgment and only one: once an acknowledgment
/// has let a waiting session go on, the session never waits again.
pub proof fn ack_taken_once(events: Seq<Event>, i: int, j: int)
    requires
        0 <= i < j < events.len(),
        phase_after(events.take(i)) is AwaitingAck,
        is_ack(events[i]),
    ensures
        !(phase_after(events.take(j)) is AwaitingAck),
{
    lemma_take_drop_last(events, i + 1);
    lemma_never_back_to_waiting(events, i, j);
}

} // verus!
