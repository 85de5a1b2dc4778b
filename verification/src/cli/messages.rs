//! Editing and deleting the last reply of a session.

use crate::cli::notice::{note, Notice, NoticeView};
use crate::gateway::delivery::{
    last_reply_from_metadata, last_reply_in, reply_json, set_last_reply_in_metadata,
    with_last_reply, ReplyChunkView, ReplyView, StoredReplyChunk, StoredReplyMetadata,
};
use crate::json::{JsonValue, JsonView};
use crate::message::{clone_text, DeleteMessageTarget, EditMessageTarget};
use crate::time::{civil, instant_text};
use vstd::prelude::*;

verus! {

/// A stored reply with another text.
pub open spec fn edited(reply: ReplyView, text: Seq<char>) -> ReplyView {
    ReplyView {
        content: text,
        chunks: if reply.chunks.len() == 0 {
            reply.chunks
        } else {
            reply.chunks.update(0, ReplyChunkView { content: text, ..reply.chunks[0] })
        },
        ..reply
    }
}

/// Why the last reply cannot be edited.
pub open spec fn edit_problem(metadata: JsonView) -> Option<NoticeView> {
    match last_reply_in(metadata) {
        None => Some(note("ctx.no_delivery_metadata"@)),
        Some(reply) => if reply.chunks.len() > 1 {
            Some(note("cmd.message.editing_chunked_unsupported"@))
        } else {
            None
        },
    }
}

/// Puts another text into the last reply of a session's metadata. A reply that
/// was sent in several pieces cannot be edited.
pub fn rewrite_last_reply_metadata_for_edit(metadata: &mut JsonValue, new_text: &str) -> (r: Result<
    StoredReplyMetadata,
    Notice,
>)
    ensures
        match edit_problem(old(metadata)@) {
            Some(problem) => r is Err && r->Err_0@ == problem && final(metadata)@ == old(
                metadata,
            )@,
            None => {
                let reply = edited(last_reply_in(old(metadata)@)->0, new_text@);
                &&& r is Ok
                &&& r->Ok_0@ == reply
                &&& final(metadata)@ == with_last_reply(
                    old(metadata)@,
                    reply_json(reply, instant_text(reply.recorded_at.secs, reply.recorded_at.nanos)),
                )
                &&& civil(reply.recorded_at) ==> last_reply_in(final(metadata)@) == Some(reply)
            },
        },
{
    let mut last_reply = match last_reply_from_metadata(metadata) {
        Some(reply) => reply,
        None => return Err(Notice::new("ctx.no_delivery_metadata")),
    };
    let ghost before = last_reply@;
    if last_reply.chunks.len() > 1 {
        return Err(Notice::new("cmd.message.editing_chunked_unsupported"));
    }
    last_reply.content = new_text.to_owned();
    if last_reply.chunks.len() > 0 {
        let first = &last_reply.chunks[0];
        let chunk = StoredReplyChunk {
            content: new_text.to_owned(),
            platform_message_id: clone_text(&first.platform_message_id),
            status: first.status.clone(),
            attempts: first.attempts,
            retry_after_secs: first.retry_after_secs,
            error: clone_text(&first.error),
        };
        last_reply.chunks.set(0, chunk);
    }
    assert(last_reply@.chunks =~= edited(before, new_text@).chunks);
    let _ = set_last_reply_in_metadata(metadata, &last_reply);
    Ok(last_reply)
}

/// Where the last reply is, for an edit. A reply that was sent in several
/// pieces, or whose message id is unknown, cannot be edited.
pub fn edit_target(last_reply: &StoredReplyMetadata) -> (r: Result<EditMessageTarget, Notice>)
    ensures
        if last_reply.chunks@.len() > 1 {
            r is Err && r->Err_0@ == note("cmd.message.editing_chunked_unsupported"@)
        } else if last_reply.platform_message_id is None {
            r is Err && r->Err_0@ == note("ctx.missing_platform_id"@)
        } else {
            &&& r is Ok
            &&& r->Ok_0.account_id@ == last_reply.account_id@
            &&& r->Ok_0.to@ == last_reply.recipient_id@
            &&& r->Ok_0.thread_id.deep_view() == last_reply.thread_id.deep_view()
            &&& r->Ok_0.platform_message_id@ == last_reply.platform_message_id->0@
        },
{
    if last_reply.chunks.len() > 1 {
        return Err(Notice::new("cmd.message.editing_chunked_unsupported"));
    }
    match &last_reply.platform_message_id {
        None => Err(Notice::new("ctx.missing_platform_id")),
        Some(id) => Ok(
            EditMessageTarget {
                account_id: last_reply.account_id.clone(),
                to: last_reply.recipient_id.clone(),
                thread_id: clone_text(&last_reply.thread_id),
                platform_message_id: id.clone(),
            },
        ),
    }
}

/// The message ids of the pieces that have one, in order.
pub open spec fn chunk_ids(chunks: Seq<ReplyChunkView>) -> Seq<Seq<char>>
    decreases chunks.len(),
{
    if chunks.len() == 0 {
        Seq::empty()
    } else {
        match chunks.last().platform_message_id {
            Some(id) => chunk_ids(chunks.drop_last()).push(id),
            None => chunk_ids(chunks.drop_last()),
        }
    }
}

/// The message ids to delete: those of the pieces, where there are pieces.
pub open spec fn ids_to_delete(reply: ReplyView) -> Seq<Seq<char>> {
    if reply.chunks.len() > 0 {
        chunk_ids(reply.chunks)
    } else {
        match reply.platform_message_id {
            Some(id) => seq![id],
            None => Seq::empty(),
        }
    }
}

/// The message ids to delete with the last reply.
pub fn delete_targets_from_last_reply(last_reply: &StoredReplyMetadata) -> (r: Result<
    Vec<String>,
    Notice,
>)
    ensures
        if ids_to_delete(last_reply@).len() == 0 {
            r is Err && r->Err_0@ == note("ctx.missing_platform_ids"@)
        } else {
            r is Ok && r->Ok_0.deep_view() == ids_to_delete(last_reply@)
        },
{
    let mut targets: Vec<String> = Vec::new();
    let chunks = &last_reply.chunks;
    let ghost all = chunks.deep_view();
    if chunks.len() == 0 {
        match &last_reply.platform_message_id {
            Some(id) => {
                targets.push(id.clone());
                assert(targets.deep_view() =~= seq![id@]);
            },
            None => {},
        }
    } else {
        let mut i: usize = 0;
        assert(targets.deep_view() =~= chunk_ids(all.take(0)));
        while i < chunks.len()
            invariant
                i <= chunks@.len(),
                all == chunks.deep_view(),
                targets.deep_view() == chunk_ids(all.take(i as int)),
            decreases chunks@.len() - i,
        {
            let ghost before = targets.deep_view();
            proof {
                let front = all.take(i + 1);
                assert(front.last() == chunks@[i as int]@);
                assert(front.drop_last() =~= all.take(i as int));
            }
            match &chunks[i].platform_message_id {
                Some(id) => {
                    targets.push(id.clone());
                    assert(targets.deep_view() =~= before.push(id@));
                },
                None => {},
            }
            i = i + 1;
        }
        assert(all.take(i as int) =~= all);
    }
    if targets.len() == 0 {
        assert(targets.deep_view().len() == 0);
        return Err(Notice::new("ctx.missing_platform_ids"));
    }
    assert(targets.deep_view().len() == targets@.len());
    Ok(targets)
}

/// Where one message of the last reply is, for its deletion.
pub fn delete_target(last_reply: &StoredReplyMetadata, platform_message_id: &str) -> (r:
    DeleteMessageTarget)
    ensures
        r.account_id@ == last_reply.account_id@,
        r.to@ == last_reply.recipient_id@,
        r.thread_id.deep_view() == last_reply.thread_id.deep_view(),
        r.platform_message_id@ == platform_message_id@,
{
    DeleteMessageTarget {
        account_id: last_reply.account_id.clone(),
        to: last_reply.recipient_id.clone(),
        thread_id: clone_text(&last_reply.thread_id),
        platform_message_id: platform_message_id.to_owned(),
    }
}

/// A stored piece after its deletion.
pub open spec fn deleted_chunk(chunk: ReplyChunkView) -> ReplyChunkView {
    ReplyChunkView { status: "deleted"@, platform_message_id: None, ..chunk }
}

/// A stored reply after its deletion.
pub open spec fn deleted(reply: ReplyView) -> ReplyView {
    ReplyView {
        status: "deleted"@,
        platform_message_id: None,
        chunks: reply.chunks.map_values(|c: ReplyChunkView| deleted_chunk(c)),
        ..reply
    }
}

/// Why the last reply cannot be marked as deleted.
pub open spec fn delete_problem(metadata: JsonView) -> Option<NoticeView> {
    match last_reply_in(metadata) {
        None => Some(note("ctx.no_delivery_metadata"@)),
        Some(_) => None,
    }
}

/// Marks the last reply of a session's metadata, and each of its pieces, as
/// deleted.
pub fn mark_last_reply_metadata_deleted(metadata: &mut JsonValue) -> (r: Result<
    StoredReplyMetadata,
    Notice,
>)
    ensures
        match delete_problem(old(metadata)@) {
            Some(problem) => r is Err && r->Err_0@ == problem && final(metadata)@ == old(
                metadata,
            )@,
            None => {
                let reply = deleted(last_reply_in(old(metadata)@)->0);
                &&& r is Ok
                &&& r->Ok_0@ == reply
                &&& final(metadata)@ == with_last_reply(
                    old(metadata)@,
                    reply_json(reply, instant_text(reply.recorded_at.secs, reply.recorded_at.nanos)),
                )
                &&& civil(reply.recorded_at) ==> last_reply_in(final(metadata)@) == Some(reply)
            },
        },
{
    let mut last_reply = match last_reply_from_metadata(metadata) {
        Some(reply) => reply,
        None => return Err(Notice::new("ctx.no_delivery_metadata")),
    };
    let ghost before = last_reply@;
    let mut chunks: Vec<StoredReplyChunk> = Vec::new();
    let mut i: usize = 0;
    while i < last_reply.chunks.len()
        invariant
            i <= last_reply.chunks@.len(),
            last_reply@ == before,
            chunks@.len() == i,
            forall|k: int|
                0 <= k < i ==> (#[trigger] chunks@[k])@ == deleted_chunk(last_reply.chunks@[k]@),
        decreases last_reply.chunks@.len() - i,
    {
        let chunk = &last_reply.chunks[i];
        chunks.push(
            StoredReplyChunk {
                content: chunk.content.clone(),
                platform_message_id: None,
                status: "deleted".to_owned(),
                attempts: chunk.attempts,
                retry_after_secs: chunk.retry_after_secs,
                error: clone_text(&chunk.error),
            },
        );
        i = i + 1;
    }
    last_reply.status = "deleted".to_owned();
    last_reply.platform_message_id = None;
    last_reply.chunks = chunks;
    assert(last_reply@.chunks =~= deleted(before).chunks);
    let _ = set_last_reply_in_metadata(metadata, &last_reply);
    Ok(last_reply)
}

/// Nothing is left to delete of a deleted reply.
pub proof fn law_deleted_reply_has_no_targets(reply: ReplyView)
    ensures
        ids_to_delete(deleted(reply)).len() == 0,
{
    let chunks = deleted(reply).chunks;
    assert forall|i: int| 0 <= i < chunks.len() implies (
    #[trigger] chunks[i]).platform_message_id is None by {}
    lemma_no_ids(chunks);
}

proof fn lemma_no_ids(chunks: Seq<ReplyChunkView>)
    requires
        forall|i: int| 0 <= i < chunks.len() ==> (#[trigger] chunks[i]).platform_message_id is None,
    ensures
        chunk_ids(chunks).len() == 0,
    decreases chunks.len(),
{
    if chunks.len() > 0 {
        lemma_no_ids(chunks.drop_last());
        assert(chunks[chunks.len() - 1].platform_message_id is None);
    }
}

/// An edit changes the text of a reply and nothing of where it went.
pub proof fn law_edit_keeps_target(reply: ReplyView, text: Seq<char>)
    ensures
        edited(reply, text).content == text,
        edited(reply, text).channel == reply.channel,
        edited(reply, text).account_id == reply.account_id,
        edited(reply, text).recipient_id == reply.recipient_id,
        edited(reply, text).thread_id == reply.thread_id,
        edited(reply, text).platform_message_id == reply.platform_message_id,
        ids_to_delete(edited(reply, text)) == ids_to_delete(reply),
{
    if reply.chunks.len() > 0 {
        lemma_same_ids(edited(reply, text).chunks, reply.chunks);
    }
}

proof fn lemma_same_ids(a: Seq<ReplyChunkView>, b: Seq<ReplyChunkView>)
    requires
        a.len() == b.len(),
        forall|i: int|
            0 <= i < a.len() ==> (#[trigger] a[i]).platform_message_id
                == b[i].platform_message_id,
    ensures
        chunk_ids(a) == chunk_ids(b),
    decreases a.len(),
{
    if a.len() > 0 {
        assert forall|i: int| 0 <= i < a.len() - 1 implies (
        #[trigger] a.drop_last()[i]).platform_message_id
            == b.drop_last()[i].platform_message_id by {
            assert(a[i].platform_message_id == b[i].platform_message_id);
        }
        lemma_same_ids(a.drop_last(), b.drop_last());
        assert(a[a.len() - 1].platform_message_id == b[a.len() - 1].platform_message_id);
    }
}

} // verus!
