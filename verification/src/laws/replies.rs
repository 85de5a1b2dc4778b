//! The last reply: what is edited or deleted is what was sent, where it was
//! sent.

use crate::cli::messages::{
    chunk_ids, delete_target, delete_targets_from_last_reply, edit_target,
    mark_last_reply_metadata_deleted, rewrite_last_reply_metadata_for_edit,
};
use crate::cli::notice::Notice;
use crate::gateway::delivery::{last_reply_from_metadata, ReplyChunkView, StoredReplyMetadata};
use crate::json::JsonValue;
use crate::message::{DeleteMessageTarget, EditMessageTarget};
use crate::time::civil;
use vstd::prelude::*;

verus! {

/// An edit puts the new text into the reply that is stored and into its piece,
/// and keeps where it went; a reply of several pieces is left alone.
pub proof fn law_edit(
    metadata: &mut JsonValue,
    text: &str,
    before: Option<StoredReplyMetadata>,
    r: Result<StoredReplyMetadata, Notice>,
    after: &JsonValue,
    found: Option<StoredReplyMetadata>,
)
    requires
        call_ensures(last_reply_from_metadata, (&*old(metadata),), before),
        call_ensures(rewrite_last_reply_metadata_for_edit, (metadata, text), r),
        *after == *final(metadata),
        call_ensures(last_reply_from_metadata, (after,), found),
    ensures
        r is Ok <==> before is Some && before->0.chunks@.len() <= 1,
        r is Err ==> after@ == old(metadata)@,
        r is Ok ==> {
            &&& r->Ok_0.content@ == text@
            &&& r->Ok_0.channel@ == before->0.channel@
            &&& r->Ok_0.account_id@ == before->0.account_id@
            &&& r->Ok_0.recipient_id@ == before->0.recipient_id@
            &&& r->Ok_0.thread_id.deep_view() == before->0.thread_id.deep_view()
            &&& r->Ok_0.platform_message_id.deep_view()
                == before->0.platform_message_id.deep_view()
            &&& r->Ok_0.chunks@.len() == before->0.chunks@.len()
            &&& r->Ok_0.chunks@.len() == 1 ==> r->Ok_0.chunks@[0].content@ == text@
                && r->Ok_0.chunks@[0].platform_message_id.deep_view()
                == before->0.chunks@[0].platform_message_id.deep_view()
        },
        r is Ok && civil(before->0.recorded_at) ==> found is Some && found->0@ == r->Ok_0@,
{
    if before is Some {
        assert(before->0@.chunks == before->0.chunks.deep_view());
        assert(before->0.chunks.deep_view().len() == before->0.chunks@.len());
    }
    if r is Ok {
        let a = r->Ok_0;
        let b = before->0;
        assert(a@.chunks == a.chunks.deep_view());
        assert(a.chunks.deep_view().len() == a.chunks@.len());
        if a.chunks@.len() == 1 {
            assert(a.chunks.deep_view()[0] == a.chunks@[0]@);
            assert(b.chunks.deep_view()[0] == b.chunks@[0]@);
        }
    }
}

/// An edit goes to the account, the recipient and the message of the reply; one
/// that was sent in several pieces, or whose message is unknown, cannot be
/// edited.
pub proof fn law_edit_goes_to_the_reply(
    reply: &StoredReplyMetadata,
    r: Result<EditMessageTarget, Notice>,
)
    requires
        call_ensures(edit_target, (reply,), r),
    ensures
        r is Ok <==> reply.chunks@.len() <= 1 && reply.platform_message_id is Some,
        r is Ok ==> r->Ok_0.account_id@ == reply.account_id@ && r->Ok_0.to@ == reply.recipient_id@
            && r->Ok_0.thread_id.deep_view() == reply.thread_id.deep_view()
            && r->Ok_0.platform_message_id@ == reply.platform_message_id->0@,
{
}

proof fn lemma_chunk_ids(chunks: Seq<ReplyChunkView>, i: int)
    requires
        0 <= i < chunks.len(),
        chunks[i].platform_message_id is Some,
    ensures
        chunk_ids(chunks).contains(chunks[i].platform_message_id->0),
    decreases chunks.len(),
{
    let all = chunk_ids(chunks);
    if i == chunks.len() - 1 {
        assert(all[all.len() - 1] == chunks[i].platform_message_id->0);
    } else {
        let front = chunks.drop_last();
        lemma_chunk_ids(front, i);
        let before = chunk_ids(front);
        let k = choose|k: int| 0 <= k < before.len() && before[k] == chunks[i].platform_message_id->0;
        assert(all[k] == before[k]);
    }
}

proof fn lemma_only_chunk_ids(chunks: Seq<ReplyChunkView>, k: int)
    requires
        0 <= k < chunk_ids(chunks).len(),
    ensures
        exists|i: int|
            0 <= i < chunks.len() && (#[trigger] chunks[i]).platform_message_id == Some(
                chunk_ids(chunks)[k],
            ),
        chunk_ids(chunks).len() <= chunks.len(),
    decreases chunks.len(),
{
    if chunks.len() > 0 {
        let front = chunks.drop_last();
        let before = chunk_ids(front);
        if k < before.len() {
            lemma_only_chunk_ids(front, k);
            let i = choose|i: int|
                0 <= i < front.len() && (#[trigger] front[i]).platform_message_id == Some(
                    before[k],
                );
            assert(chunks[i].platform_message_id == Some(chunk_ids(chunks)[k]));
        } else {
            if before.len() > 0 {
                lemma_only_chunk_ids(front, 0);
            }
            assert(chunks[chunks.len() - 1].platform_message_id == Some(chunk_ids(chunks)[k]));
        }
    }
}

/// Every message of the reply whose identifier is known is deleted, and no
/// other; without any there is nothing to delete.
pub proof fn law_whole_reply_is_deleted(
    reply: &StoredReplyMetadata,
    i: int,
    k: int,
    r: Result<Vec<String>, Notice>,
)
    requires
        call_ensures(delete_targets_from_last_reply, (reply,), r),
    ensures
        0 <= i < reply.chunks@.len() && reply.chunks@[i].platform_message_id is Some ==> r is Ok
            && exists|j: int|
            0 <= j < r->Ok_0@.len() && (#[trigger] r->Ok_0@[j])@
                == reply.chunks@[i].platform_message_id->0@,
        r is Ok && 0 <= k < r->Ok_0@.len() && reply.chunks@.len() > 0 ==> exists|j: int|
            0 <= j < reply.chunks@.len() && (
            #[trigger] reply.chunks@[j]).platform_message_id.deep_view() == Some(r->Ok_0@[k]@),
        reply.chunks@.len() == 0 ==> (r is Ok <==> reply.platform_message_id is Some),
        reply.chunks@.len() == 0 && r is Ok ==> r->Ok_0@.len() == 1 && r->Ok_0@[0]@
            == reply.platform_message_id->0@,
        r is Ok ==> r->Ok_0@.len() > 0,
{
    let chunks = reply.chunks.deep_view();
    assert(reply@.chunks == chunks);
    assert(chunks.len() == reply.chunks@.len());
    if r is Ok {
        assert(r->Ok_0.deep_view().len() == r->Ok_0@.len());
    }
    if 0 <= i < reply.chunks@.len() && reply.chunks@[i].platform_message_id is Some {
        assert(chunks[i] == reply.chunks@[i]@);
        assert(chunks[i].platform_message_id == Some(reply.chunks@[i].platform_message_id->0@));
        lemma_chunk_ids(chunks, i);
        let ids = chunk_ids(chunks);
        let j = choose|j: int| 0 <= j < ids.len() && ids[j] == chunks[i].platform_message_id->0;
        assert(r->Ok_0.deep_view()[j] == r->Ok_0@[j]@);
    }
    if r is Ok && 0 <= k < r->Ok_0@.len() && reply.chunks@.len() > 0 {
        lemma_only_chunk_ids(chunks, k);
        let j = choose|j: int|
            0 <= j < chunks.len() && (#[trigger] chunks[j]).platform_message_id == Some(
                chunk_ids(chunks)[k],
            );
        assert(chunks[j] == reply.chunks@[j]@);
        assert(r->Ok_0.deep_view()[k] == r->Ok_0@[k]@);
        assert(reply.chunks@[j].platform_message_id.deep_view() == Some(r->Ok_0@[k]@));
    }
    if reply.chunks@.len() == 0 && r is Ok {
        assert(r->Ok_0.deep_view()[0] == r->Ok_0@[0]@);
    }
}

/// A deletion goes to where the reply went.
pub proof fn law_deletion_goes_to_the_reply(
    reply: &StoredReplyMetadata,
    id: &str,
    r: DeleteMessageTarget,
)
    requires
        call_ensures(delete_target, (reply, id), r),
    ensures
        r.account_id@ == reply.account_id@,
        r.to@ == reply.recipient_id@,
        r.thread_id.deep_view() == reply.thread_id.deep_view(),
        r.platform_message_id@ == id@,
{
}

/// A deleted reply is marked as deleted with all its pieces, keeps its text, and
/// has nothing left to delete.
pub proof fn law_deleted_reply(
    metadata: &mut JsonValue,
    before: Option<StoredReplyMetadata>,
    r: Result<StoredReplyMetadata, Notice>,
    targets: Result<Vec<String>, Notice>,
    i: int,
)
    requires
        call_ensures(last_reply_from_metadata, (&*old(metadata),), before),
        call_ensures(mark_last_reply_metadata_deleted, (metadata,), r),
        r is Ok ==> call_ensures(delete_targets_from_last_reply, (&r->Ok_0,), targets),
    ensures
        r is Ok <==> before is Some,
        r is Err ==> final(metadata)@ == old(metadata)@,
        r is Ok ==> {
            &&& r->Ok_0.status@ == "deleted"@
            &&& r->Ok_0.platform_message_id is None
            &&& r->Ok_0.content@ == before->0.content@
            &&& r->Ok_0.recipient_id@ == before->0.recipient_id@
            &&& r->Ok_0.chunks@.len() == before->0.chunks@.len()
            &&& 0 <= i < r->Ok_0.chunks@.len() ==> r->Ok_0.chunks@[i].status@ == "deleted"@
                && r->Ok_0.chunks@[i].platform_message_id is None && r->Ok_0.chunks@[i].content@
                == before->0.chunks@[i].content@
            &&& targets is Err
        },
{
    if r is Ok {
        let a = r->Ok_0;
        let b = before->0;
        assert(a@.chunks == a.chunks.deep_view() && b@.chunks == b.chunks.deep_view());
        assert(a.chunks.deep_view().len() == a.chunks@.len());
        assert(b.chunks.deep_view().len() == b.chunks@.len());
        crate::cli::messages::law_deleted_reply_has_no_targets(b@);
        assert(a@.platform_message_id == a.platform_message_id.deep_view());
        if 0 <= i < a.chunks@.len() {
            assert(a.chunks.deep_view()[i] == a.chunks@[i]@);
            assert(b.chunks.deep_view()[i] == b.chunks@[i]@);
            assert(a.chunks@[i].platform_message_id.deep_view() is None);
        }
    }
}

} // verus!
