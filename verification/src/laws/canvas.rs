//! The canvas: what was written is what is read, one document does not touch
//! another, and nobody overwrites what they have not seen.

use crate::gateway::canvas::{
    blocks_markdown, checklist_lines, metadata_lines, quoted_lines, render_block_with,
    render_document_with, render_markdown, sections, CanvasBlock, CanvasDocument,
    CanvasExportFormat, CanvasPatch, CanvasStore,
};
use crate::gateway::methods::{
    canvas_clear, canvas_export, canvas_export_checked, canvas_get, canvas_id_from_params,
    canvas_patch, canvas_set, document_value_with, name_char, sanitize_canvas_export_name,
    unhyphened_end, unhyphened_start,
};
use crate::gateway::protocol::{EventFrame, EventType, RequestFrame, ResponseFrame};
use crate::json::{JsonValue, JsonView};
use crate::laws::clients::refuses;
use crate::laws::terms::{flag, inner, listed, said, stands_in, whole};
use crate::laws::text::{lemma_part_of_join, lemma_stands_in};
use crate::text::{decimal, is_blank, join, lines, trimmed};
use crate::types::Timestamp;
use vstd::prelude::*;

verus! {

/// A document that was set is found under its name as it was set, with a
/// revision of one, or one more than the document that was there before.
pub proof fn law_set_is_found(
    store: &mut CanvasStore,
    document: CanvasDocument,
    id: &str,
    before: Option<CanvasDocument>,
    r: CanvasDocument,
    after: &CanvasStore,
    found: Option<CanvasDocument>,
)
    requires
        call_ensures(CanvasStore::get, (&*old(store), id), before),
        call_ensures(CanvasStore::set, (store, document), r),
        *after == *final(store),
        call_ensures(CanvasStore::get, (after, id), found),
    ensures
        id@ == document.id@ ==> {
            &&& found is Some
            &&& found->0.id@ == document.id@ && r.id@ == document.id@
            &&& found->0.title@ == document.title@ && r.title@ == document.title@
            &&& found->0.body@ == document.body@ && r.body@ == document.body@
            &&& found->0.session_key.deep_view() == document.session_key.deep_view()
            &&& found->0.blocks.deep_view() == document.blocks.deep_view()
            &&& found->0.updated_at == document.updated_at
            &&& before is None ==> found->0.revision == 1
            &&& before is Some ==> found->0.revision == before->0.revision + 1
            &&& r@ == found->0@
        },
        id@ != document.id@ ==> found is Some == before is Some,
        id@ != document.id@ && found is Some ==> found->0@ == before->0@,
{
}

/// A patch changes what it names, adds its blocks behind the others, raises the
/// revision by one, and touches nothing else; a document that is not there yet
/// starts empty.
pub proof fn law_patch_is_found(
    store: &mut CanvasStore,
    target: &str,
    patch: CanvasPatch,
    now: Timestamp,
    id: &str,
    before: Option<CanvasDocument>,
    r: CanvasDocument,
    after: &CanvasStore,
    found: Option<CanvasDocument>,
)
    requires
        old(store).wf(),
        call_ensures(CanvasStore::get, (&*old(store), id), before),
        call_ensures(CanvasStore::patch, (store, target, patch, now), r),
        *after == *final(store),
        call_ensures(CanvasStore::get, (after, id), found),
    ensures
        id@ != target@ ==> found is Some == before is Some && (found is Some ==> found->0@
            == before->0@),
        id@ == target@ ==> {
            &&& found is Some && found->0@ == r@
            &&& found->0.id@ == target@
            &&& found->0.updated_at == now
            &&& patch.title is Some ==> found->0.title@ == patch.title->0@
            &&& patch.body is Some ==> found->0.body@ == patch.body->0@
            &&& patch.session_key is Some ==> found->0.session_key.deep_view()
                == patch.session_key->0.deep_view()
            &&& before is Some ==> {
                &&& patch.title is None ==> found->0.title@ == before->0.title@
                &&& patch.body is None ==> found->0.body@ == before->0.body@
                &&& patch.session_key is None ==> found->0.session_key.deep_view()
                    == before->0.session_key.deep_view()
                &&& found->0.blocks.deep_view() == before->0.blocks.deep_view()
                    + patch.append_blocks.deep_view()
                &&& found->0.revision == before->0.revision + 1
            }
            &&& before is None ==> {
                &&& patch.title is None ==> found->0.title@.len() == 0
                &&& patch.body is None ==> found->0.body@.len() == 0
                &&& patch.session_key is None ==> found->0.session_key is None
                &&& found->0.blocks.deep_view() == patch.append_blocks.deep_view()
                &&& found->0.revision == 1
            }
        },
{
    let base = Seq::<crate::gateway::canvas::BlockView>::empty();
    assert(base + patch.append_blocks.deep_view() =~= patch.append_blocks.deep_view());
    if id@ == target@ && before is Some {
        assert(old(store).documents@.dom().contains(id@));
        assert(found->0.revision as nat == found->0@.revision);
        assert(before->0.revision as nat == before->0@.revision);
    }
    if id@ == target@ && before is None {
        assert(found->0.revision as nat == found->0@.revision);
        assert(found->0@.session_key == found->0.session_key.deep_view());
    }
}

/// A document that was cleared is gone, and every other one stays.
pub proof fn law_clear_forgets(
    store: &mut CanvasStore,
    target: &str,
    id: &str,
    before: Option<CanvasDocument>,
    after: &CanvasStore,
    found: Option<CanvasDocument>,
)
    requires
        call_ensures(CanvasStore::get, (&*old(store), id), before),
        call_ensures(CanvasStore::clear, (store, target), ()),
        *after == *final(store),
        call_ensures(CanvasStore::get, (after, id), found),
    ensures
        id@ == target@ ==> found is None,
        id@ != target@ ==> found is Some == before is Some,
        id@ != target@ && found is Some ==> found->0@ == before->0@,
{
}

/// Nothing is in a new store.
pub proof fn law_new_store_is_empty(store: &CanvasStore, id: &str, found: Option<CanvasDocument>)
    requires
        call_ensures(CanvasStore::new, (), *store),
        call_ensures(CanvasStore::get, (store, id), found),
    ensures
        found is None,
{
}

/// A canvas is the one that is named; where none is, the one of the session; and
/// where that is not named either, the main one.
pub proof fn law_which_canvas(params: &JsonValue, r: String)
    requires
        call_ensures(canvas_id_from_params, (params,), r),
    ensures
        ({
            let named = said(params@, "canvas_id"@);
            let session = said(params@, "session_key"@);
            let is_named = named is Some && !is_blank(named->0);
            let has_session = session is Some && !is_blank(session->0);
            &&& is_named ==> r@ == trimmed(named->0)
            &&& !is_named && has_session ==> r@ == "session:"@ + trimmed(session->0)
            &&& !is_named && !has_session ==> r@ == "main"@
        }),
{
}

proof fn lemma_document_words()
    ensures
        "id"@.len() == 2,
        "title"@.len() == 5,
        "body"@.len() == 4,
        "session_key"@.len() == 11,
        "blocks"@.len() == 6,
        "revision"@.len() == 8,
        "updated_at"@.len() == 10,
        "kind"@.len() == 4,
        "text"@.len() == 4,
        "meta"@.len() == 4,
        "kind"@[0] == 'k',
        "text"@[0] == 't',
        "meta"@[0] == 'm',
{
    reveal_strlit("id");
    reveal_strlit("title");
    reveal_strlit("body");
    reveal_strlit("session_key");
    reveal_strlit("blocks");
    reveal_strlit("revision");
    reveal_strlit("updated_at");
    reveal_strlit("kind");
    reveal_strlit("text");
    reveal_strlit("meta");
}

/// True of a JSON value that tells a document.
pub open spec fn tells_document(j: JsonView, d: CanvasDocument) -> bool {
    &&& said(j, "id"@) == Some(d.id@)
    &&& said(j, "title"@) == Some(d.title@)
    &&& said(j, "body"@) == Some(d.body@)
    &&& said(j, "session_key"@) == d.session_key.deep_view()
    &&& whole(j, "revision"@) == Some(d.revision as nat)
    &&& listed(j, "blocks"@) is Some
    &&& listed(j, "blocks"@)->0.len() == d.blocks@.len()
    &&& forall|i: int|
        0 <= i < d.blocks@.len() ==> said(#[trigger] listed(j, "blocks"@)->0[i], "text"@) == Some(
            d.blocks@[i].text@,
        )
    &&& forall|i: int|
        0 <= i < d.blocks@.len() ==> (inner(#[trigger] listed(j, "blocks"@)->0[i], "meta"@) is Some
            <==> d.blocks@[i].meta is Some)
    &&& forall|i: int|
        0 <= i < d.blocks@.len() && d.blocks@[i].meta is Some ==> inner(
            #[trigger] listed(j, "blocks"@)->0[i],
            "meta"@,
        ) == Some(d.blocks@[i].meta->0@)
}

proof fn lemma_document_told(d: CanvasDocument, updated: Seq<char>)
    ensures
        tells_document(crate::gateway::methods::document_json_with(d@, updated), d),
{
    lemma_document_words();
    let j = crate::gateway::methods::document_json_with(d@, updated);
    assert(d@.blocks.len() == d.blocks@.len());
    assert forall|i: int| 0 <= i < d.blocks@.len() implies said(
        #[trigger] listed(j, "blocks"@)->0[i],
        "text"@,
    ) == Some(d.blocks@[i].text@) && (inner(listed(j, "blocks"@)->0[i], "meta"@) is Some
        <==> d.blocks@[i].meta is Some) && (d.blocks@[i].meta is Some ==> inner(
        listed(j, "blocks"@)->0[i],
        "meta"@,
    ) == Some(d.blocks@[i].meta->0@)) by {
        assert(d@.blocks[i] == d.blocks@[i]@);
    }
}

/// The JSON of a document tells everything that is in it.
pub proof fn law_document_is_told(d: &CanvasDocument, updated: &str, r: JsonValue)
    requires
        call_ensures(document_value_with, (d, updated), r),
    ensures
        tells_document(r@, *d),
        said(r@, "updated_at"@) == Some(updated@),
{
    lemma_document_words();
    lemma_document_told(*d, updated@);
}

/// Reading a canvas gives the document that is there, else null.
pub proof fn law_canvas_is_read(
    store: &CanvasStore,
    request: &RequestFrame,
    id: String,
    key: &str,
    found: Option<CanvasDocument>,
    r: ResponseFrame,
)
    requires
        call_ensures(canvas_id_from_params, (&request.params,), id),
        key@ == id@,
        call_ensures(CanvasStore::get, (store, key), found),
        call_ensures(canvas_get, (store, request), r),
    ensures
        r.id == request.id && r.reply is Done,
        inner(r.reply->Done_0@, "canvas"@) is Some,
        found is None ==> inner(r.reply->Done_0@, "canvas"@)->0 is Null,
        found is Some ==> tells_document(inner(r.reply->Done_0@, "canvas"@)->0, found->0),
{
    if found is Some {
        lemma_document_told(
            found->0,
            crate::time::instant_text(found->0.updated_at.secs, found->0.updated_at.nanos),
        );
    }
}

/// Setting a canvas takes a title, a body or blocks; what is taken is found
/// under the name of the canvas, told to the client and announced. What is
/// refused changes nothing.
pub proof fn law_canvas_is_set(
    store: &mut CanvasStore,
    request: &RequestFrame,
    blocks: Option<Vec<CanvasBlock>>,
    now: Timestamp,
    id: String,
    key: &str,
    other: &str,
    after: &CanvasStore,
    found: Option<CanvasDocument>,
    other_before: Option<CanvasDocument>,
    other_after: Option<CanvasDocument>,
    r: (ResponseFrame, Option<EventFrame>),
)
    requires
        call_ensures(canvas_id_from_params, (&request.params,), id),
        key@ == id@,
        call_ensures(canvas_set, (store, request, blocks, now), r),
        *after == *final(store),
        call_ensures(CanvasStore::get, (after, key), found),
        other@ != id@,
        call_ensures(CanvasStore::get, (&*old(store), other), other_before),
        call_ensures(CanvasStore::get, (after, other), other_after),
    ensures
        ({
            let title = said(request.params@, "title"@);
            let body = said(request.params@, "body"@);
            let something = title is Some && trimmed(title->0).len() > 0 || body is Some && trimmed(
                body->0,
            ).len() > 0 || blocks is Some && blocks->0@.len() > 0;
            &&& r.1 is Some <==> blocks is Some && something
            &&& r.1 is None ==> r.0.reply is Refused && r.0.reply->code == 400 && *final(store)
                == *old(store)
            &&& r.1 is Some ==> {
                &&& found is Some
                &&& title is Some ==> found->0.title@ == trimmed(title->0)
                &&& title is None ==> found->0.title@.len() == 0
                &&& body is Some ==> found->0.body@ == trimmed(body->0)
                &&& body is None ==> found->0.body@.len() == 0
                &&& found->0.blocks.deep_view() == blocks->0.deep_view()
                &&& found->0.session_key.deep_view() == said(request.params@, "session_key"@)
                &&& found->0.updated_at == now
                &&& r.0.reply is Done
                &&& inner(r.0.reply->Done_0@, "canvas"@) is Some
                &&& tells_document(inner(r.0.reply->Done_0@, "canvas"@)->0, found->0)
                &&& r.1->0.event == EventType::CanvasUpdated
                &&& said(r.1->0.payload@, "canvas_id"@) == Some(id@)
                &&& inner(r.1->0.payload@, "canvas"@) == inner(r.0.reply->Done_0@, "canvas"@)
            }
        }),
        r.0.id == request.id,
        other_after is Some == other_before is Some,
        other_after is Some ==> other_after->0@ == other_before->0@,
{
    reveal_strlit("canvas_id");
    reveal_strlit("canvas");
    assert("canvas_id"@.len() == 9);
    assert("canvas"@.len() == 6);
    if r.1 is Some {
        lemma_document_told(
            found->0,
            crate::time::instant_text(found->0.updated_at.secs, found->0.updated_at.nanos),
        );
    }
}

/// A patch of a canvas has to name a change. A client that names the revision it
/// has seen is turned away where the canvas has another one, and nothing is
/// changed; else the document is one revision on.
pub proof fn law_nobody_overwrites_unseen(
    store: &mut CanvasStore,
    request: &RequestFrame,
    blocks: Option<Vec<CanvasBlock>>,
    now: Timestamp,
    id: String,
    key: &str,
    before: Option<CanvasDocument>,
    after: &CanvasStore,
    found: Option<CanvasDocument>,
    r: (ResponseFrame, Option<EventFrame>),
)
    requires
        old(store).wf(),
        call_ensures(canvas_id_from_params, (&request.params,), id),
        key@ == id@,
        call_ensures(CanvasStore::get, (&*old(store), key), before),
        call_ensures(canvas_patch, (store, request, blocks, now), r),
        *after == *final(store),
        call_ensures(CanvasStore::get, (after, key), found),
    ensures
        ({
            let title = said(request.params@, "title"@);
            let body = said(request.params@, "body"@);
            let session = inner(request.params@, "session_key"@);
            let seen = whole(request.params@, "expected_revision"@);
            let revision = if before is Some {
                before->0.revision as nat
            } else {
                0
            };
            let named = title is Some || body is Some || session is Some && (session->0 is Null
                || session->0 is Text) || blocks is Some && blocks->0@.len() > 0;
            &&& r.0.id == request.id
            &&& r.1 is Some <==> blocks is Some && named && (seen is Some ==> seen->0 == revision)
            &&& r.1 is None ==> r.0.reply is Refused && *final(store) == *old(store)
            &&& blocks is None ==> r.0.reply->code == 400
            &&& blocks is Some && !named ==> refuses(
                r.0,
                request.id,
                400,
                "canvas.patch requires at least one change"@,
            )
            &&& blocks is Some && named && seen is Some && seen->0 != revision ==> refuses(
                r.0,
                request.id,
                409,
                "canvas revision conflict"@,
            )
            &&& r.1 is Some ==> {
                &&& found is Some && found->0.revision == revision + 1
                &&& found->0.updated_at == now
                &&& title is Some ==> found->0.title@ == trimmed(title->0)
                &&& body is Some ==> found->0.body@ == trimmed(body->0)
                &&& title is None && before is Some ==> found->0.title@ == before->0.title@
                &&& body is None && before is Some ==> found->0.body@ == before->0.body@
                &&& session is Some && session->0 is Null ==> found->0.session_key is None
                &&& session is Some && session->0 is Text ==> found->0.session_key is Some
                    && found->0.session_key->0@ == session->0->Text_0
                &&& session is None && before is Some ==> found->0.session_key.deep_view()
                    == before->0.session_key.deep_view()
                &&& before is Some ==> found->0.blocks.deep_view() == before->0.blocks.deep_view()
                    + blocks->0.deep_view()
                &&& before is None ==> found->0.blocks.deep_view() == blocks->0.deep_view()
                &&& r.0.reply is Done && inner(r.0.reply->Done_0@, "canvas"@) is Some
                &&& tells_document(inner(r.0.reply->Done_0@, "canvas"@)->0, found->0)
                &&& r.1->0.event == EventType::CanvasUpdated
                &&& said(r.1->0.payload@, "canvas_id"@) == Some(id@)
                &&& inner(r.1->0.payload@, "canvas"@) == inner(r.0.reply->Done_0@, "canvas"@)
            }
        }),
{
    reveal_strlit("canvas_id");
    reveal_strlit("canvas");
    assert("canvas_id"@.len() == 9);
    assert("canvas"@.len() == 6);
    if before is Some {
        assert(old(store).documents@.dom().contains(id@));
        assert(before->0.revision as nat == before->0@.revision);
        assert(old(store).documents@[id@].revision as nat == old(store).documents@[id@]@.revision);
    }
    if r.1 is Some {
        let base = Seq::<crate::gateway::canvas::BlockView>::empty();
        assert(base + blocks->0.deep_view() =~= blocks->0.deep_view());
        assert(found->0.revision as nat == found->0@.revision);
        assert(found->0@.session_key == found->0.session_key.deep_view());
        lemma_document_told(
            found->0,
            crate::time::instant_text(found->0.updated_at.secs, found->0.updated_at.nanos),
        );
    }
}

/// Clearing a canvas forgets the one that is named and no other, and tells
/// everybody that it is empty.
pub proof fn law_canvas_is_cleared(
    store: &mut CanvasStore,
    request: &RequestFrame,
    id: String,
    key: &str,
    before: Option<CanvasDocument>,
    after: &CanvasStore,
    found: Option<CanvasDocument>,
    r: (ResponseFrame, EventFrame),
)
    requires
        call_ensures(canvas_id_from_params, (&request.params,), id),
        call_ensures(CanvasStore::get, (&*old(store), key), before),
        call_ensures(canvas_clear, (store, request), r),
        *after == *final(store),
        call_ensures(CanvasStore::get, (after, key), found),
    ensures
        key@ == id@ ==> found is None,
        key@ != id@ ==> found is Some == before is Some,
        key@ != id@ && found is Some ==> found->0@ == before->0@,
        r.0.id == request.id && r.0.reply is Done,
        flag(r.0.reply->Done_0@, "cleared"@) == Some(true),
        said(r.0.reply->Done_0@, "canvas_id"@) == Some(id@),
        r.1.event == EventType::CanvasUpdated,
        said(r.1.payload@, "canvas_id"@) == Some(id@),
        inner(r.1.payload@, "canvas"@) == Some(JsonView::Null),
{
    reveal_strlit("canvas_id");
    reveal_strlit("canvas");
    reveal_strlit("cleared");
    assert("canvas_id"@.len() == 9);
    assert("canvas"@.len() == 6);
    assert("cleared"@.len() == 7);
}

/// Markdown is asked for by either of its names, white space aside; anything
/// else is JSON.
pub proof fn law_export_forms(value: &str, r: CanvasExportFormat, none: CanvasExportFormat)
    requires
        call_ensures(CanvasExportFormat::parse, (Some(value),), r),
        call_ensures(CanvasExportFormat::parse, (None,), none),
    ensures
        r is Markdown <==> trimmed(value@) == "markdown"@ || trimmed(value@) == "md"@,
        none is Json,
{
}

/// An export is one of the document that is there, in the form that was asked
/// for, under a file name with the extension of that form; where there is no
/// document there is no export.
pub proof fn law_canvas_is_exported(
    store: &CanvasStore,
    request: &RequestFrame,
    pretty: &str,
    id: String,
    key: &str,
    name: &str,
    file: String,
    found: Option<CanvasDocument>,
    markdown: String,
    r: ResponseFrame,
)
    requires
        store.wf(),
        call_ensures(canvas_id_from_params, (&request.params,), id),
        key@ == id@,
        call_ensures(CanvasStore::get, (store, key), found),
        found is Some ==> call_ensures(render_markdown, (&found->0,), markdown),
        found is Some ==> name@ == found->0.id@,
        call_ensures(sanitize_canvas_export_name, (name,), file),
        call_ensures(canvas_export, (store, request, pretty), r),
    ensures
        found is None ==> refuses(r, request.id, 404, "canvas not found"@),
        found is Some ==> {
            let form = said(request.params@, "format"@);
            let marked = form is Some && (trimmed(form->0) == "markdown"@ || trimmed(form->0)
                == "md"@);
            let told = r.reply->Done_0@;
            &&& r.id == request.id && r.reply is Done
            &&& said(told, "canvas_id"@) == Some(found->0.id@)
            &&& marked ==> said(told, "format"@) == Some("markdown"@) && said(told, "content"@)
                == Some(markdown@) && said(told, "filename"@) == Some(file@ + "."@ + "md"@) && said(
                told,
                "mime_type"@,
            ) == Some("text/markdown; charset=utf-8"@)
            &&& !marked ==> said(told, "format"@) == Some("json"@) && said(told, "content"@) == Some(
                pretty@,
            ) && said(told, "filename"@) == Some(file@ + "."@ + "json"@) && said(
                told,
                "mime_type"@,
            ) == Some("application/json; charset=utf-8"@)
        },
{
    reveal_strlit("canvas_id");
    reveal_strlit("format");
    reveal_strlit("mime_type");
    reveal_strlit("filename");
    reveal_strlit("content");
    assert("canvas_id"@.len() == 9 && "canvas_id"@[0] == 'c');
    assert("format"@.len() == 6);
    assert("mime_type"@.len() == 9 && "mime_type"@[0] == 'm');
    assert("filename"@.len() == 8);
    assert("content"@.len() == 7);
}

/// The Markdown of a document begins with its title where it has one, and shows
/// its body, its revision and each of its blocks.
pub proof fn law_markdown_shows_everything(
    document: &CanvasDocument,
    updated: &str,
    notations: &Vec<String>,
    i: int,
    notation: &str,
    shown: String,
    r: String,
)
    requires
        notations@.len() == document.blocks@.len(),
        call_ensures(render_document_with, (document, updated, notations), r),
        0 <= i < document.blocks@.len() ==> notation@ == notations@[i]@ && call_ensures(
            render_block_with,
            (&document.blocks@[i], notation),
            shown,
        ),
    ensures
        !is_blank(document.title@) ==> ("# "@ + trimmed(document.title@)).is_prefix_of(r@),
        !is_blank(document.body@) ==> stands_in(trimmed(document.body@), r@),
        stands_in("Canvas: "@ + document.id@, r@),
        stands_in("Revision: "@ + decimal(document.revision as nat), r@),
        stands_in("Updated: "@ + updated@, r@),
        0 <= i < document.blocks@.len() ==> stands_in(shown@, r@),
{
    let parts = sections(document@, updated@, notations.deep_view());
    let meta = metadata_lines(document@, updated@);
    let at: int = if is_blank(document.title@) {
        0
    } else {
        1
    };
    lemma_part_of_join(parts, "\n\n"@, 0);
    lemma_part_of_join(parts, "\n\n"@, at);
    assert(parts[at] == join(meta, "\n"@));
    lemma_part_of_join(meta, "\n"@, 0);
    lemma_part_of_join(meta, "\n"@, 1);
    lemma_part_of_join(meta, "\n"@, 2);
    lemma_stands_in(meta[0], parts[at], r@);
    lemma_stands_in(meta[1], parts[at], r@);
    lemma_stands_in(meta[2], parts[at], r@);
    if !is_blank(document.body@) {
        assert(parts[at + 1] == trimmed(document.body@));
        lemma_part_of_join(parts, "\n\n"@, at + 1);
    }
    assert(document@.blocks.len() == document.blocks@.len());
    if 0 <= i < document.blocks@.len() {
        let blocks = blocks_markdown(document@.blocks, notations.deep_view());
        assert(document@.blocks[i] == document.blocks@[i]@);
        assert(notations.deep_view()[i] == notations@[i]@);
        assert(blocks[i] == shown@);
        lemma_part_of_join(blocks, "\n\n"@, i);
        assert(parts.last() == join(blocks, "\n\n"@));
        lemma_part_of_join(parts, "\n\n"@, parts.len() - 1);
        lemma_stands_in(shown@, parts.last(), r@);
    }
}

/// Markdown is shown as it is, code in a fence, and a status behind its level.
pub proof fn law_blocks_show(block: &CanvasBlock, notation: &str, r: String)
    requires
        call_ensures(render_block_with, (block, notation), r),
    ensures
        block.kind is Markdown ==> r@ == trimmed(block.text@),
        block.kind is Code ==> r@ == "```text\n"@ + trimmed(block.text@) + "\n```"@,
        block.kind is Status && block.meta is Some && said(block.meta->0@, "level"@) is Some ==> r@
            == "**Status ("@ + said(block.meta->0@, "level"@)->0 + ")**\n"@ + trimmed(block.text@),
        block.kind is Status && (block.meta is None || said(block.meta->0@, "level"@) is None)
            ==> r@ == "**Status ("@ + "info"@ + ")**\n"@ + trimmed(block.text@),
        block.kind is Metric && (block.meta is None || inner(block.meta->0@, "value"@) is None)
            ==> r@ == "**Metric:** "@ + trimmed(block.text@),
        block.kind is Metric && block.meta is Some && said(block.meta->0@, "value"@) is Some
            && trimmed(block.text@).len() > 0 && trimmed(block.text@) != said(
            block.meta->0@,
            "value"@,
        )->0 ==> r@ == "**Metric:** "@ + trimmed(block.text@) + " = "@ + said(
            block.meta->0@,
            "value"@,
        )->0,
        block.kind is Metric && block.meta is Some && inner(block.meta->0@, "value"@) is Some
            && said(block.meta->0@, "value"@) is None && trimmed(block.text@).len() > 0 && trimmed(
            block.text@,
        ) != notation@ ==> r@ == "**Metric:** "@ + trimmed(block.text@) + " = "@ + notation@,
{
}

/// A note shows each of its lines behind a mark, and a checklist each line that
/// is not blank, with the box that it has, else with an empty one.
pub proof fn law_lines_show(
    block: &CanvasBlock,
    notation: &str,
    text: &str,
    all: Vec<String>,
    i: int,
    r: String,
)
    requires
        call_ensures(render_block_with, (block, notation), r),
        text@ == trimmed(block.text@),
        call_ensures(lines, (text,), all),
        0 <= i < all@.len(),
    ensures
        block.kind is Note ==> stands_in("> "@ + trimmed(all@[i]@), r@),
        block.kind is Checklist && !is_blank(all@[i]@) && "- ["@.is_prefix_of(trimmed(all@[i]@))
            ==> stands_in(trimmed(all@[i]@), r@),
        block.kind is Checklist && !is_blank(all@[i]@) && !"- ["@.is_prefix_of(trimmed(all@[i]@))
            ==> stands_in("- [ ] "@ + trimmed(all@[i]@), r@),
{
    let view = all.deep_view();
    assert(view.len() == all@.len());
    assert(view[i] == all@[i]@);
    if block.kind is Note {
        lemma_part_of_join(quoted_lines(view), "\n"@, i);
    }
    if block.kind is Checklist && !is_blank(all@[i]@) {
        let k = lemma_checklist(view, i);
        lemma_part_of_join(checklist_lines(view), "\n"@, k);
    }
}

proof fn lemma_checklist(v: Seq<Seq<char>>, i: int) -> (k: int)
    requires
        0 <= i < v.len(),
        !is_blank(v[i]),
    ensures
        0 <= k < checklist_lines(v).len(),
        "- ["@.is_prefix_of(trimmed(v[i])) ==> checklist_lines(v)[k] == trimmed(v[i]),
        !"- ["@.is_prefix_of(trimmed(v[i])) ==> checklist_lines(v)[k] == "- [ ] "@ + trimmed(v[i]),
    decreases v.len(),
{
    if i == v.len() - 1 {
        checklist_lines(v).len() - 1
    } else {
        lemma_checklist(v.drop_last(), i)
    }
}

proof fn lemma_unhyphened(s: Seq<char>)
    ensures
        ({
            let start = unhyphened_start(s);
            let name = unhyphened_end(start);
            &&& stands_in(name, s)
            &&& name.len() > 0 ==> name[0] != '-' && name.last() != '-'
            &&& (exists|i: int| 0 <= i < s.len() && s[i] != '-') ==> name.len() > 0
        }),
{
    lemma_unhyphened_start(s);
    let start = unhyphened_start(s);
    lemma_unhyphened_end(start);
    let name = unhyphened_end(start);
    let before = s.take(s.len() - start.len());
    let after = start.skip(name.len() as int);
    assert(s =~= (before + name) + after);
    if exists|i: int| 0 <= i < s.len() && s[i] != '-' {
        let i = choose|i: int| 0 <= i < s.len() && s[i] != '-';
        assert(i >= before.len());
        assert(start[i - before.len()] == s[i]);
    }
}

proof fn lemma_unhyphened_start(s: Seq<char>)
    ensures
        unhyphened_start(s).len() <= s.len(),
        s.skip(s.len() - unhyphened_start(s).len()) == unhyphened_start(s),
        unhyphened_start(s).len() > 0 ==> unhyphened_start(s)[0] != '-',
        forall|i: int| 0 <= i < s.len() - unhyphened_start(s).len() ==> s[i] == '-',
    decreases s.len(),
{
    if s.len() > 0 && s[0] == '-' {
        let rest = s.drop_first();
        lemma_unhyphened_start(rest);
        let n = unhyphened_start(s).len();
        assert(s.skip(s.len() - n) =~= rest.skip(rest.len() - n));
        assert forall|i: int| 0 <= i < s.len() - n implies s[i] == '-' by {
            if i > 0 {
                assert(rest[i - 1] == s[i]);
            }
        }
    } else {
        assert(s.skip(0) =~= s);
    }
}

proof fn lemma_unhyphened_end(s: Seq<char>)
    ensures
        unhyphened_end(s).len() <= s.len(),
        s.take(unhyphened_end(s).len() as int) == unhyphened_end(s),
        unhyphened_end(s).len() > 0 ==> unhyphened_end(s).last() != '-',
        forall|i: int| unhyphened_end(s).len() <= i < s.len() ==> s[i] == '-',
    decreases s.len(),
{
    if s.len() > 0 && s.last() == '-' {
        let front = s.drop_last();
        lemma_unhyphened_end(front);
        let n = unhyphened_end(s).len() as int;
        assert(s.take(n) =~= front.take(n));
        assert forall|i: int| n <= i < s.len() implies s[i] == '-' by {
            if i < front.len() {
                assert(front[i] == s[i]);
            }
        }
    } else {
        assert(s.take(s.len() as int) =~= s);
    }
}

/// True of the characters that a file name of an export may have.
pub open spec fn plain_char(c: char) -> bool {
    'a' <= c <= 'z' || 'A' <= c <= 'Z' || '0' <= c <= '9' || c == '-' || c == '_'
}

/// The file name of an export has plain characters only, no hyphen at either
/// end, and is never empty; a name that is so already stays as it is.
pub proof fn law_export_name(value: &str, r: String)
    requires
        call_ensures(sanitize_canvas_export_name, (value,), r),
    ensures
        r@.len() > 0,
        forall|i: int| 0 <= i < r@.len() ==> plain_char(#[trigger] r@[i]),
        r@[0] != '-' && r@.last() != '-',
        value@.len() > 0 && value@[0] != '-' && value@.last() != '-' && (forall|i: int|
            0 <= i < value@.len() ==> plain_char(#[trigger] value@[i])) ==> r@ == value@,
        (forall|i: int|
            0 <= i < value@.len() ==> value@[i] == '-' || !plain_char(#[trigger] value@[i]))
            ==> r@ == "canvas"@,
{
    reveal_strlit("canvas");
    let mapped = value@.map_values(|c: char| name_char(c));
    lemma_unhyphened(mapped);
    lemma_unhyphened_start(mapped);
    lemma_unhyphened_end(unhyphened_start(mapped));
    assert forall|i: int| 0 <= i < r@.len() implies plain_char(#[trigger] r@[i]) by {
        let name = unhyphened_end(unhyphened_start(mapped));
        if name.len() > 0 {
            let at = mapped.len() - unhyphened_start(mapped).len() + i;
            assert(r@[i] == unhyphened_start(mapped)[i]);
            assert(r@[i] == mapped[at]);
            assert(mapped[at] == name_char(value@[at]));
        }
    }
    if value@.len() > 0 && value@[0] != '-' && value@.last() != '-' && (forall|i: int|
        0 <= i < value@.len() ==> plain_char(#[trigger] value@[i])) {
        assert(mapped =~= value@);
    }
    if forall|i: int|
        0 <= i < value@.len() ==> value@[i] == '-' || !plain_char(#[trigger] value@[i]) {
        assert forall|i: int| 0 <= i < mapped.len() implies mapped[i] == '-' by {
            assert(mapped[i] == name_char(value@[i]));
            assert(value@[i] == '-' || !plain_char(value@[i]));
        }
        let start = unhyphened_start(mapped);
        if start.len() > 0 {
            assert(start[0] == mapped[mapped.len() - start.len()]);
        }
    }
}

/// A checked export is the export itself, and one in Markdown is never held
/// back.
pub proof fn law_checked_export(
    store: &CanvasStore,
    request: &RequestFrame,
    pretty: &str,
    plain: ResponseFrame,
    r: Option<ResponseFrame>,
)
    requires
        call_ensures(canvas_export, (store, request, pretty), plain),
        call_ensures(canvas_export_checked, (store, request, pretty), r),
    ensures
        r is Some ==> r->0.id == plain.id && r->0.reply@ == plain.reply@,
        said(request.params@, "format"@) == Some("md"@) ==> r is Some,
{
    reveal_strlit("md");
    assert(crate::text::trimmed_start("md"@) == "md"@);
    assert(crate::text::trimmed_end("md"@) == "md"@);
    assert(trimmed("md"@) == "md"@);
}

} // verus!
