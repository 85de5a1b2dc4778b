//! The canvas: documents that the agent and the user work on together.

use crate::gateway::methods::{document_json, document_value};
use crate::json::{
    json_in, notation, parse_json, same_value, value_notation, JsonValue, JsonView,
};
use crate::message::clone_text;
use crate::text::{
    blank, cat2, cat3, decimal, decimal_of, is_blank, join, join_texts, lines, lines_of,
    starts_with, str_eq, trimmed,
};
use crate::text_map::TextMap;
use crate::time::{format_rfc3339, representable, rfc3339_text};
use crate::types::Timestamp;
use vstd::prelude::*;
use vstd::string::*;
use vstd::utf8::encode_utf8;

verus! {

/// What a block shows.
#[derive(Clone, Copy, Debug, PartialEq, Eq, Structural)]
pub enum CanvasBlockKind {
    Markdown,
    Code,
    Note,
    Checklist,
    Status,
    Metric,
}

/// A block of a document.
#[derive(Debug)]
pub struct CanvasBlock {
    pub kind: CanvasBlockKind,
    pub text: String,
    pub meta: Option<JsonValue>,
}

/// What a block says.
pub struct BlockView {
    pub kind: CanvasBlockKind,
    pub text: Seq<char>,
    pub meta: Option<JsonView>,
}

impl View for CanvasBlock {
    type V = BlockView;

    open spec fn view(&self) -> BlockView {
        BlockView {
            kind: self.kind,
            text: self.text@,
            meta: match self.meta {
                Some(j) => Some(j@),
                None => None,
            },
        }
    }
}

impl DeepView for CanvasBlock {
    type V = BlockView;

    open spec fn deep_view(&self) -> BlockView {
        self@
    }
}

impl Clone for CanvasBlock {
    fn clone(&self) -> (r: CanvasBlock)
        ensures
            r@ == self@,
    {
        CanvasBlock {
            kind: self.kind,
            text: self.text.clone(),
            meta: match &self.meta {
                Some(j) => Some(j.clone()),
                None => None,
            },
        }
    }
}

/// A document of the canvas.
#[derive(Debug)]
pub struct CanvasDocument {
    pub id: String,
    pub title: String,
    pub body: String,
    pub session_key: Option<String>,
    pub blocks: Vec<CanvasBlock>,
    pub revision: u64,
    pub updated_at: Timestamp,
}

/// What a document says.
pub struct DocumentView {
    pub id: Seq<char>,
    pub title: Seq<char>,
    pub body: Seq<char>,
    pub session_key: Option<Seq<char>>,
    pub blocks: Seq<BlockView>,
    pub revision: nat,
    pub updated_at: Timestamp,
}

impl View for CanvasDocument {
    type V = DocumentView;

    open spec fn view(&self) -> DocumentView {
        DocumentView {
            id: self.id@,
            title: self.title@,
            body: self.body@,
            session_key: self.session_key.deep_view(),
            blocks: self.blocks.deep_view(),
            revision: self.revision as nat,
            updated_at: self.updated_at,
        }
    }
}

/// A copy of a list of blocks.
pub fn clone_blocks(v: &Vec<CanvasBlock>) -> (r: Vec<CanvasBlock>)
    ensures
        r.deep_view() == v.deep_view(),
{
    let mut out: Vec<CanvasBlock> = Vec::new();
    let mut i: usize = 0;
    while i < v.len()
        invariant
            i <= v@.len(),
            out@.len() == i,
            forall|k: int| 0 <= k < i ==> (#[trigger] out@[k])@ == v@[k]@,
        decreases v@.len() - i,
    {
        out.push(v[i].clone());
        i = i + 1;
    }
    assert(out.deep_view() =~= v.deep_view());
    out
}

impl Clone for CanvasDocument {
    fn clone(&self) -> (r: CanvasDocument)
        ensures
            r@ == self@,
    {
        CanvasDocument {
            id: self.id.clone(),
            title: self.title.clone(),
            body: self.body.clone(),
            session_key: clone_text(&self.session_key),
            blocks: clone_blocks(&self.blocks),
            revision: self.revision,
            updated_at: self.updated_at,
        }
    }
}

/// A change to a document: what is given replaces what was there, and the
/// blocks are appended.
#[derive(Debug)]
pub struct CanvasPatch {
    pub title: Option<String>,
    pub body: Option<String>,
    pub session_key: Option<Option<String>>,
    pub append_blocks: Vec<CanvasBlock>,
}

/// The form of an exported document.
#[derive(Clone, Copy, Debug, PartialEq, Eq, Structural)]
pub enum CanvasExportFormat {
    Json,
    Markdown,
}

impl CanvasExportFormat {
    /// The form of a given name: `markdown` or `md`, else JSON.
    pub open spec fn named(value: Option<Seq<char>>) -> CanvasExportFormat {
        match value {
            Some(name) => if trimmed(name) == "markdown"@ || trimmed(name) == "md"@ {
                CanvasExportFormat::Markdown
            } else {
                CanvasExportFormat::Json
            },
            None => CanvasExportFormat::Json,
        }
    }

    /// The form of a given name: `markdown` or `md`, white space around it
    /// aside, else JSON.
    pub fn parse(value: Option<&str>) -> (r: CanvasExportFormat)
        ensures
            r == CanvasExportFormat::named(
                match value {
                    Some(s) => Some(s@),
                    None => None,
                },
            ),
    {
        match value {
            Some(name) => {
                let name = name.trim();
                if str_eq(name, "markdown") || str_eq(name, "md") {
                    CanvasExportFormat::Markdown
                } else {
                    CanvasExportFormat::Json
                }
            },
            None => CanvasExportFormat::Json,
        }
    }

    /// The media type of an export.
    pub fn mime_type(&self) -> (r: &'static str)
        ensures
            r@ == match self {
                CanvasExportFormat::Json => "application/json; charset=utf-8"@,
                CanvasExportFormat::Markdown => "text/markdown; charset=utf-8"@,
            },
    {
        match self {
            CanvasExportFormat::Json => "application/json; charset=utf-8",
            CanvasExportFormat::Markdown => "text/markdown; charset=utf-8",
        }
    }

    /// The file name extension of an export.
    pub open spec fn extension_text(self) -> Seq<char> {
        match self {
            CanvasExportFormat::Json => "json"@,
            CanvasExportFormat::Markdown => "md"@,
        }
    }

    /// The file name extension of an export.
    pub fn extension(&self) -> (r: &'static str)
        ensures
            r@ == self.extension_text(),
    {
        match self {
            CanvasExportFormat::Json => "json",
            CanvasExportFormat::Markdown => "md",
        }
    }

    /// The name of the form.
    pub open spec fn label_text(self) -> Seq<char> {
        match self {
            CanvasExportFormat::Json => "json"@,
            CanvasExportFormat::Markdown => "markdown"@,
        }
    }

    /// The name of the form.
    pub fn label(&self) -> (r: &'static str)
        ensures
            r@ == self.label_text(),
    {
        match self {
            CanvasExportFormat::Json => "json",
            CanvasExportFormat::Markdown => "markdown",
        }
    }
}

/// The documents, by identifier.
#[derive(Debug)]
pub struct CanvasStore {
    pub documents: TextMap<CanvasDocument>,
}

/// The identifier of a canvas: the one that is asked for, else the session's
/// own, else `main`. Blank ones do not count.
pub open spec fn canvas_key(canvas_id: Option<Seq<char>>, session_key: Option<Seq<char>>) -> Seq<
    char,
> {
    if canvas_id is Some && !is_blank(canvas_id->0) {
        trimmed(canvas_id->0)
    } else if session_key is Some && !is_blank(session_key->0) {
        "session:"@ + trimmed(session_key->0)
    } else {
        "main"@
    }
}

/// The document that a patch starts from: the one that is there, or an empty
/// one.
pub open spec fn patch_base(
    documents: Map<Seq<char>, CanvasDocument>,
    id: Seq<char>,
    now: Timestamp,
) -> DocumentView {
    if documents.dom().contains(id) {
        documents[id]@
    } else {
        DocumentView {
            id,
            title: Seq::empty(),
            body: Seq::empty(),
            session_key: None,
            blocks: Seq::empty(),
            revision: 0,
            updated_at: now,
        }
    }
}

/// A document after a patch at `now`.
pub open spec fn patched(base: DocumentView, patch: CanvasPatch, now: Timestamp) -> DocumentView {
    DocumentView {
        id: base.id,
        title: match patch.title {
            Some(title) => title@,
            None => base.title,
        },
        body: match patch.body {
            Some(body) => body@,
            None => base.body,
        },
        session_key: match patch.session_key {
            Some(key) => key.deep_view(),
            None => base.session_key,
        },
        blocks: base.blocks + patch.append_blocks.deep_view(),
        revision: base.revision + 1,
        updated_at: now,
    }
}

/// The revision of a document that is about to be stored under `id`.
pub open spec fn next_revision(documents: Map<Seq<char>, CanvasDocument>, id: Seq<char>) -> nat {
    if documents.dom().contains(id) {
        documents[id].revision as nat + 1
    } else {
        1
    }
}

/// True when `after` is `before` with one document set.
pub open spec fn stored(
    before: Map<Seq<char>, CanvasDocument>,
    after: Map<Seq<char>, CanvasDocument>,
    document: DocumentView,
) -> bool {
    &&& after.dom() == before.dom().insert(document.id)
    &&& after[document.id]@ == document
    &&& forall|id: Seq<char>| id != document.id && before.dom().contains(id) ==> #[trigger] after[id]
        == before[id]
}

impl CanvasStore {
    /// True when every document is stored under its own identifier, with a
    /// time that has a calendar date.
    pub open spec fn wf(&self) -> bool {
        &&& self.documents.wf()
        &&& forall|id: Seq<char>| #[trigger]
            self.documents@.dom().contains(id) ==> self.documents@[id].id@ == id && representable(
                self.documents@[id].updated_at,
            )
    }

    /// A store without documents.
    pub fn new() -> (r: CanvasStore)
        ensures
            r.wf(),
            r.documents@ == Map::<Seq<char>, CanvasDocument>::empty(),
    {
        CanvasStore { documents: TextMap::new() }
    }

    /// The identifier of a canvas.
    pub fn key_for(canvas_id: Option<&str>, session_key: Option<&str>) -> (r: String)
        ensures
            r@ == canvas_key(
                match canvas_id {
                    Some(s) => Some(s@),
                    None => None,
                },
                match session_key {
                    Some(s) => Some(s@),
                    None => None,
                },
            ),
    {
        if let Some(id) = canvas_id {
            let id = id.trim();
            if !id.is_empty() {
                return id.to_owned();
            }
        }
        if let Some(key) = session_key {
            let key = key.trim();
            if !key.is_empty() {
                return cat2("session:", key);
            }
        }
        "main".to_owned()
    }

    /// The document under an identifier.
    pub fn get(&self, canvas_id: &str) -> (r: Option<CanvasDocument>)
        requires
            self.wf(),
        ensures
            r is Some == self.documents@.dom().contains(canvas_id@),
            r is Some ==> r->0@ == self.documents@[canvas_id@]@ && representable(r->0.updated_at),
    {
        match self.documents.get(canvas_id) {
            Some(document) => Some(document.clone()),
            None => None,
        }
    }

    /// Stores a document under its identifier, with the next revision.
    pub fn set(&mut self, document: CanvasDocument) -> (r: CanvasDocument)
        requires
            old(self).wf(),
            representable(document.updated_at),
            next_revision(old(self).documents@, document.id@) <= u64::MAX,
        ensures
            final(self).wf(),
            r@ == (DocumentView {
                revision: next_revision(old(self).documents@, document.id@),
                ..document@
            }),
            stored(old(self).documents@, final(self).documents@, r@),
    {
        let mut document = document;
        let revision: u64 = match self.documents.get(document.id.as_str()) {
            Some(existing) => existing.revision + 1,
            None => 1,
        };
        document.revision = revision;
        let copy = document.clone();
        let id = document.id.clone();
        let ghost before = self.documents@;
        self.documents.insert(id.as_str(), document);
        assert(self.documents@.dom() =~= before.dom().insert(id@));
        copy
    }

    /// Changes the document under an identifier, or a new one, and gives it
    /// the next revision.
    pub fn patch(&mut self, canvas_id: &str, patch: CanvasPatch, now: Timestamp) -> (r:
        CanvasDocument)
        requires
            old(self).wf(),
            representable(now),
            patch_base(old(self).documents@, canvas_id@, now).revision < u64::MAX,
        ensures
            final(self).wf(),
            r@ == patched(patch_base(old(self).documents@, canvas_id@, now), patch, now),
            stored(old(self).documents@, final(self).documents@, r@),
    {
        let ghost base = patch_base(self.documents@, canvas_id@, now);
        let ghost appended = patch.append_blocks.deep_view();
        let mut document = match self.documents.get(canvas_id) {
            Some(existing) => existing.clone(),
            None => {
                let fresh = CanvasDocument {
                    id: canvas_id.to_owned(),
                    title: String::new(),
                    body: String::new(),
                    session_key: None,
                    blocks: Vec::new(),
                    revision: 0,
                    updated_at: now,
                };
                assert(fresh@.blocks =~= Seq::empty());
                fresh
            },
        };
        assert(document@ == base);
        if let Some(title) = patch.title {
            document.title = title;
        }
        if let Some(body) = patch.body {
            document.body = body;
        }
        if let Some(session_key) = patch.session_key {
            document.session_key = session_key;
        }
        let mut append_blocks = patch.append_blocks;
        document.blocks.append(&mut append_blocks);
        assert(document.blocks.deep_view() =~= base.blocks + appended);
        document.revision = document.revision + 1;
        document.updated_at = now;
        let copy = document.clone();
        let id = document.id.clone();
        let ghost before = self.documents@;
        self.documents.insert(id.as_str(), document);
        assert(self.documents@.dom() =~= before.dom().insert(id@));
        copy
    }

    /// Removes the document under an identifier.
    pub fn clear(&mut self, canvas_id: &str)
        requires
            old(self).wf(),
        ensures
            final(self).wf(),
            final(self).documents@ == old(self).documents@.remove(canvas_id@),
    {
        let _ = self.documents.remove(canvas_id);
    }
}

/// The lines of a note, each behind a quotation mark.
pub open spec fn quoted_lines(lines: Seq<Seq<char>>) -> Seq<Seq<char>> {
    Seq::new(lines.len(), |i: int| "> "@ + trimmed(lines[i]))
}

/// One line of a checklist: as it is when it has a box, else with an empty box.
pub open spec fn checklist_line(line: Seq<char>) -> Seq<char> {
    if "- ["@.is_prefix_of(trimmed(line)) {
        trimmed(line)
    } else {
        "- [ ] "@ + trimmed(line)
    }
}

/// The lines of a checklist, without the blank ones.
pub open spec fn checklist_lines(lines: Seq<Seq<char>>) -> Seq<Seq<char>>
    decreases lines.len(),
{
    if lines.len() == 0 {
        Seq::empty()
    } else if is_blank(lines.last()) {
        checklist_lines(lines.drop_last())
    } else {
        checklist_lines(lines.drop_last()).push(checklist_line(lines.last()))
    }
}

/// The level that a status block shows.
pub open spec fn status_level(meta: Option<JsonView>) -> Seq<char> {
    match meta {
        Some(j) => match j.text_member("level"@) {
            Some(level) => level,
            None => "info"@,
        },
        None => "info"@,
    }
}

/// The value that a metric block shows: the text or the JSON notation of its
/// `value`, else its own text.
pub open spec fn metric_value(
    meta: Option<JsonView>,
    text: Seq<char>,
    notation: Seq<char>,
) -> Seq<char> {
    match meta {
        Some(j) => match j.member("value"@) {
            Some(JsonView::Text(s)) => s,
            Some(_) => notation,
            None => text,
        },
        None => text,
    }
}

/// The Markdown of a block.
pub open spec fn block_markdown(block: BlockView, notation: Seq<char>) -> Seq<char> {
    let text = trimmed(block.text);
    match block.kind {
        CanvasBlockKind::Markdown => text,
        CanvasBlockKind::Code => "```text\n"@ + text + "\n```"@,
        CanvasBlockKind::Note => join(quoted_lines(lines_of(text)), "\n"@),
        CanvasBlockKind::Checklist => join(checklist_lines(lines_of(text)), "\n"@),
        CanvasBlockKind::Status => "**Status ("@ + status_level(block.meta) + ")**\n"@ + text,
        CanvasBlockKind::Metric => {
            let value = metric_value(block.meta, text, notation);
            if text.len() == 0 || text == value {
                "**Metric:** "@ + value
            } else {
                "**Metric:** "@ + text + " = "@ + value
            }
        },
    }
}

fn quote_lines(text: &str) -> (r: Vec<String>)
    ensures
        r.deep_view() == quoted_lines(lines_of(text@)),
{
    let all = lines(text);
    let mut out: Vec<String> = Vec::new();
    let mut i: usize = 0;
    while i < all.len()
        invariant
            i <= all@.len(),
            all.deep_view() == lines_of(text@),
            out@.len() == i,
            forall|k: int| 0 <= k < i ==> (#[trigger] out@[k])@ == "> "@ + trimmed(all@[k]@),
        decreases all@.len() - i,
    {
        out.push(cat2("> ", all[i].as_str().trim()));
        i = i + 1;
    }
    assert(out.deep_view() =~= quoted_lines(all.deep_view()));
    out
}

fn check_lines(text: &str) -> (r: Vec<String>)
    ensures
        r.deep_view() == checklist_lines(lines_of(text@)),
{
    let all = lines(text);
    let ghost view = all.deep_view();
    let mut out: Vec<String> = Vec::new();
    let mut i: usize = 0;
    assert(out.deep_view() =~= checklist_lines(view.take(0)));
    while i < all.len()
        invariant
            i <= all@.len(),
            view == all.deep_view(),
            out.deep_view() == checklist_lines(view.take(i as int)),
        decreases all@.len() - i,
    {
        let line = all[i].as_str().trim();
        let ghost before = out.deep_view();
        proof {
            assert(view.take(i + 1).drop_last() =~= view.take(i as int));
            assert(view.take(i + 1).last() == all@[i as int]@);
        }
        if !line.is_empty() {
            let item = if starts_with(line, "- [") {
                line.to_owned()
            } else {
                cat2("- [ ] ", line)
            };
            out.push(item);
            assert(out.deep_view() =~= before.push(item@));
        }
        i = i + 1;
    }
    assert(view.take(i as int) =~= view);
    out
}

/// The Markdown of a block, given the JSON notation of its `value`. That counts
/// only in a metric, where the value is not a string.
pub fn render_block_with(block: &CanvasBlock, notation: &str) -> (r: String)
    ensures
        r@ == block_markdown(block@, notation@),
{
    let text = block.text.as_str().trim();
    match block.kind {
        CanvasBlockKind::Markdown => text.to_owned(),
        CanvasBlockKind::Code => cat3("```text\n", text, "\n```"),
        CanvasBlockKind::Note => join_texts(&quote_lines(text), "\n"),
        CanvasBlockKind::Checklist => join_texts(&check_lines(text), "\n"),
        CanvasBlockKind::Status => {
            let level = match &block.meta {
                Some(meta) => match meta.get_str("level") {
                    Some(level) => level,
                    None => "info",
                },
                None => "info",
            };
            cat2(cat3("**Status (", level, ")**\n").as_str(), text)
        },
        CanvasBlockKind::Metric => {
            let value = match &block.meta {
                Some(meta) => match meta.get("value") {
                    Some(JsonValue::Text(s)) => s.as_str(),
                    Some(_) => notation,
                    None => text,
                },
                None => text,
            };
            if text.is_empty() || str_eq(text, value) {
                cat2("**Metric:** ", value)
            } else {
                cat2(cat3("**Metric:** ", text, " = ").as_str(), value)
            }
        },
    }
}

/// The JSON notation of a block's `value`; empty where it has none.
pub open spec fn block_notation(block: BlockView) -> Seq<char> {
    match block.meta {
        Some(j) => match j.member("value"@) {
            Some(value) => value_notation(value),
            None => Seq::empty(),
        },
        None => Seq::empty(),
    }
}

fn notation_in(block: &CanvasBlock) -> (r: String)
    ensures
        r@ == block_notation(block@),
        block.meta is Some && block.meta->0@.unsigned_member("value"@) is Some ==> r@ == decimal(
            block.meta->0@.unsigned_member("value"@)->0,
        ),
{
    match &block.meta {
        Some(meta) => match meta.get("value") {
            Some(value) => notation(value),
            None => String::new(),
        },
        None => String::new(),
    }
}

/// The Markdown of a block.
pub fn render_markdown_block(block: &CanvasBlock) -> (r: String)
    ensures
        r@ == block_markdown(block@, block_notation(block@)),
        block.meta is Some && block.meta->0@.unsigned_member("value"@) is Some ==> r@
            == block_markdown(
            block@,
            decimal(block.meta->0@.unsigned_member("value"@)->0),
        ),
{
    render_block_with(block, notation_in(block).as_str())
}

/// The lines about a document: its identifier, revision, time and session.
pub open spec fn metadata_lines(document: DocumentView, updated: Seq<char>) -> Seq<Seq<char>> {
    let base = seq![
        "Canvas: "@ + document.id,
        "Revision: "@ + decimal(document.revision),
        "Updated: "@ + updated,
    ];
    if document.session_key is Some && !is_blank(document.session_key->0) {
        base.push("Session: "@ + trimmed(document.session_key->0))
    } else {
        base
    }
}

/// The blocks of a document in Markdown.
pub open spec fn blocks_markdown(
    blocks: Seq<BlockView>,
    notations: Seq<Seq<char>>,
) -> Seq<Seq<char>> {
    Seq::new(blocks.len(), |i: int| block_markdown(blocks[i], notations[i]))
}

/// The parts of a document in Markdown, without those that are empty.
pub open spec fn sections(
    document: DocumentView,
    updated: Seq<char>,
    notations: Seq<Seq<char>>,
) -> Seq<Seq<char>> {
    let title = if is_blank(document.title) {
        Seq::empty()
    } else {
        seq!["# "@ + trimmed(document.title)]
    };
    let metadata = title.push(join(metadata_lines(document, updated), "\n"@));
    let body = if is_blank(document.body) {
        metadata
    } else {
        metadata.push(trimmed(document.body))
    };
    if document.blocks.len() == 0 {
        body
    } else {
        body.push(join(blocks_markdown(document.blocks, notations), "\n\n"@))
    }
}

/// A document in Markdown, given the text of the time of its last change and,
/// for each block, the JSON notation of its `value`.
pub fn render_document_with(
    document: &CanvasDocument,
    updated: &str,
    notations: &Vec<String>,
) -> (r: String)
    requires
        notations@.len() == document.blocks@.len(),
    ensures
        r@ == join(sections(document@, updated@, notations.deep_view()), "\n\n"@),
{
    let mut parts: Vec<String> = Vec::new();
    assert(parts.deep_view() =~= Seq::empty());
    if !blank(document.title.as_str()) {
        parts.push(cat2("# ", document.title.as_str().trim()));
        assert(parts.deep_view() =~= seq!["# "@ + trimmed(document.title@)]);
    }
    let mut metadata: Vec<String> = Vec::new();
    metadata.push(cat2("Canvas: ", document.id.as_str()));
    metadata.push(cat2("Revision: ", decimal_of(document.revision).as_str()));
    metadata.push(cat2("Updated: ", updated));
    if let Some(session_key) = &document.session_key {
        if !blank(session_key.as_str()) {
            metadata.push(cat2("Session: ", session_key.as_str().trim()));
        }
    }
    assert(metadata.deep_view() =~= metadata_lines(document@, updated@));
    let ghost before = parts.deep_view();
    parts.push(join_texts(&metadata, "\n"));
    assert(parts.deep_view() =~= before.push(join(metadata_lines(document@, updated@), "\n"@)));
    let ghost with_metadata = parts.deep_view();
    if !blank(document.body.as_str()) {
        parts.push(document.body.as_str().trim().to_owned());
        assert(parts.deep_view() =~= with_metadata.push(trimmed(document.body@)));
    }
    let ghost with_body = parts.deep_view();
    if document.blocks.len() > 0 {
        let mut blocks: Vec<String> = Vec::new();
        let mut i: usize = 0;
        while i < document.blocks.len()
            invariant
                i <= document.blocks@.len(),
                notations@.len() == document.blocks@.len(),
                blocks@.len() == i,
                forall|k: int|
                    0 <= k < i ==> (#[trigger] blocks@[k])@ == block_markdown(
                        document.blocks@[k]@,
                        notations@[k]@,
                    ),
            decreases document.blocks@.len() - i,
        {
            blocks.push(render_block_with(&document.blocks[i], notations[i].as_str()));
            i = i + 1;
        }
        assert(blocks.deep_view() =~= blocks_markdown(document@.blocks, notations.deep_view()));
        parts.push(join_texts(&blocks, "\n\n"));
        assert(parts.deep_view() =~= with_body.push(
            join(blocks_markdown(document@.blocks, notations.deep_view()), "\n\n"@),
        ));
    }
    join_texts(&parts, "\n\n")
}

/// The JSON notations of the blocks' values.
pub open spec fn block_notations(blocks: Seq<BlockView>) -> Seq<Seq<char>> {
    Seq::new(blocks.len(), |i: int| block_notation(blocks[i]))
}

/// A document in Markdown.
pub open spec fn document_markdown(document: DocumentView) -> Seq<char> {
    join(
        sections(
            document,
            rfc3339_text(document.updated_at.secs, document.updated_at.nanos),
            block_notations(document.blocks),
        ),
        "\n\n"@,
    )
}

/// A document in Markdown.
pub fn render_markdown(document: &CanvasDocument) -> (r: String)
    requires
        representable(document.updated_at),
    ensures
        r@ == document_markdown(document@),
{
    let mut notations: Vec<String> = Vec::new();
    let mut i: usize = 0;
    while i < document.blocks.len()
        invariant
            i <= document.blocks@.len(),
            notations@.len() == i,
            forall|k: int|
                0 <= k < i ==> (#[trigger] notations@[k])@ == block_notation(document.blocks@[k]@),
        decreases document.blocks@.len() - i,
    {
        notations.push(notation_in(&document.blocks[i]));
        i = i + 1;
    }
    assert(notations.deep_view() =~= block_notations(document@.blocks));
    let updated = format_rfc3339(document.updated_at);
    render_document_with(document, updated.as_str(), &notations)
}

/// True of a text that is a JSON notation of a document.
pub open spec fn shows_document(text: Seq<char>, document: DocumentView) -> bool {
    json_in(encode_utf8(text)) == Ok::<JsonView, Seq<char>>(document_json(document))
}

/// True of a text that is a JSON notation of a document.
pub fn is_notation_of(text: &str, document: &CanvasDocument) -> (r: bool)
    requires
        representable(document.updated_at),
    ensures
        r == shows_document(text@, document@),
{
    match parse_json(text.as_bytes()) {
        Ok(value) => same_value(&value, &document_value(document)),
        Err(_) => false,
    }
}

/// A document in the given form. `pretty` is its indented JSON notation.
pub fn export_document(document: &CanvasDocument, format: CanvasExportFormat, pretty: &str) -> (r:
    String)
    requires
        representable(document.updated_at),
        format is Json ==> shows_document(pretty@, document@),
    ensures
        r@ == match format {
            CanvasExportFormat::Json => pretty@,
            CanvasExportFormat::Markdown => document_markdown(document@),
        },
{
    match format {
        CanvasExportFormat::Json => pretty.to_owned(),
        CanvasExportFormat::Markdown => render_markdown(document),
    }
}

/// A document that was set or changed is the one that is found, and every other
/// document stays as it was.
pub proof fn law_set_then_get(
    before: Map<Seq<char>, CanvasDocument>,
    after: Map<Seq<char>, CanvasDocument>,
    document: DocumentView,
    other: Seq<char>,
)
    requires
        stored(before, after, document),
    ensures
        after.dom().contains(document.id),
        after[document.id]@ == document,
        other != document.id ==> (after.dom().contains(other) <==> before.dom().contains(other)),
        other != document.id && before.dom().contains(other) ==> after[other] == before[other],
{
}

/// A change keeps the identifier, everything that it does not name and all
/// blocks, and the revision goes up by one.
pub proof fn law_patch_keeps_rest(base: DocumentView, patch: CanvasPatch, now: Timestamp)
    ensures
        patched(base, patch, now).id == base.id,
        patched(base, patch, now).revision == base.revision + 1,
        patch.title is None ==> patched(base, patch, now).title == base.title,
        patch.body is None ==> patched(base, patch, now).body == base.body,
        patch.session_key is None ==> patched(base, patch, now).session_key == base.session_key,
        base.blocks.is_prefix_of(patched(base, patch, now).blocks),
{
    assert(patched(base, patch, now).blocks.take(base.blocks.len() as int) =~= base.blocks);
}

} // verus!
