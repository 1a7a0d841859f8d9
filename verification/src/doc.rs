//! The canonical note document: validation, title derivation, size limit and
//! text/checklist conversion.
//!
//! A note body is a JSON object `{"blocks": [...]}` whose blocks carry a
//! `type` from a fixed set, a `text` and, for checklist items, a `checked`
//! flag. Text is parsed and printed by `serde_json`; the rules themselves work
//! on the parsed JSON tree (`JsonValue`).
use crate::text::{blank, is_blank, str_eq, trim, trimmed};
use vstd::prelude::*;

pub use crate::versioning::{DOC_SCHEMA_VERSION, NOTE_PAYLOAD_SCHEMA_VERSION};

verus! {

/// Maximum number of characters of a note's plain text.
pub const NOTE_CHAR_LIMIT: usize = 20_000;

/// A parsed JSON value. Objects keep their members in order; numbers keep
/// their textual form, which nothing here reads.
#[derive(Debug, PartialEq, Eq)]
pub enum JsonValue {
    Null,
    Bool(bool),
    Number(String),
    String(String),
    Array(Vec<JsonValue>),
    Object(Vec<(String, JsonValue)>),
}

/// The content of a JSON value: strings as characters, arrays and objects
/// as sequences (members in order, with their names).
pub enum JsonTree {
    Null,
    Bool(bool),
    Number(Seq<char>),
    Str(Seq<char>),
    Array(Seq<JsonTree>),
    Object(Seq<(Seq<char>, JsonTree)>),
}

/// The content of the JSON value `v`.
pub open spec fn json_tree(v: JsonValue) -> JsonTree
    decreases v,
{
    match v {
        JsonValue::Null => JsonTree::Null,
        JsonValue::Bool(b) => JsonTree::Bool(b),
        JsonValue::Number(n) => JsonTree::Number(n@),
        JsonValue::String(s) => JsonTree::Str(s@),
        JsonValue::Array(items) => JsonTree::Array(
            Seq::new(items.len() as nat, |i: int| if 0 <= i < items.len() { json_tree(items[i]) } else { JsonTree::Null }),
        ),
        JsonValue::Object(fields) => JsonTree::Object(
            Seq::new(
                fields.len() as nat,
                |i: int|
                    if 0 <= i < fields.len() {
                        (fields[i].0@, json_tree(fields[i].1))
                    } else {
                        (Seq::empty(), JsonTree::Null)
                    },
            ),
        ),
    }
}

impl View for JsonValue {
    type V = JsonTree;

    open spec fn view(&self) -> JsonTree {
        json_tree(*self)
    }
}

/// The decoded canonical document.
#[derive(Debug, Clone, PartialEq, Eq)]
pub struct CanonicalDocument {
    pub blocks: Vec<Block>,
}

/// One block of a canonical document (`type` in JSON is `block_type` here).
#[derive(Debug, Clone, PartialEq, Eq)]
pub struct Block {
    pub block_type: String,
    pub text: String,
    pub checked: Option<bool>,
}

/// Why a note document or text was rejected.
#[derive(Debug, Clone, PartialEq, Eq)]
pub enum DocumentError {
    /// The text is not JSON, or a field has the wrong JSON type.
    InvalidJson(String),
    /// The document is not an object with a `blocks` array of blocks that each
    /// have a string `type` and a string `text`.
    InvalidStructure,
    /// A block's `type` is not one of the supported block types.
    InvalidBlockType(String),
    /// The note's plain text is longer than `NOTE_CHAR_LIMIT` characters.
    NoteTooLarge,
}

/// The content of a block.
pub struct BlockView {
    pub block_type: Seq<char>,
    pub text: Seq<char>,
    pub checked: Option<bool>,
}

impl View for Block {
    type V = BlockView;

    open spec fn view(&self) -> BlockView {
        BlockView { block_type: self.block_type@, text: self.text@, checked: self.checked }
    }
}

impl View for CanonicalDocument {
    type V = Seq<BlockView>;

    open spec fn view(&self) -> Seq<BlockView> {
        self.blocks@.map_values(|b: Block| b@)
    }
}

/// Whether `t` is a supported block type.
pub open spec fn is_allowed_block_type(t: Seq<char>) -> bool {
    ||| t == "paragraph"@
    ||| t == "checklist_item"@
    ||| t == "bullet_item"@
    ||| t == "numbered_item"@
    ||| t == "heading1"@
    ||| t == "heading2"@
    ||| t == "heading3"@
}

/// The value of the first member of `fields`, from index `i` on, named `key`.
pub open spec fn lookup_from(fields: Seq<(Seq<char>, JsonTree)>, key: Seq<char>, i: int) -> Option<JsonTree>
    decreases fields.len() - i,
{
    if i < 0 || i >= fields.len() {
        None
    } else if fields[i].0 == key {
        Some(fields[i].1)
    } else {
        lookup_from(fields, key, i + 1)
    }
}

/// The member `key` of `v` if `v` is an object that has one.
pub open spec fn json_get(v: JsonTree, key: Seq<char>) -> Option<JsonTree> {
    match v {
        JsonTree::Object(fields) => lookup_from(fields, key, 0),
        _ => None,
    }
}

/// The characters of `v` if it is a JSON string.
pub open spec fn json_str(v: Option<JsonTree>) -> Option<Seq<char>> {
    match v {
        Some(JsonTree::Str(s)) => Some(s),
        _ => None,
    }
}

/// The elements of `v` if it is a JSON array.
pub open spec fn json_array(v: Option<JsonTree>) -> Option<Seq<JsonTree>> {
    match v {
        Some(JsonTree::Array(items)) => Some(items),
        _ => None,
    }
}

/// A structural defect of a note document.
pub enum ShapeError {
    Structure,
    BlockType(Seq<char>),
}

/// The defect of a single block, if any: a missing or non-string `type`, an
/// unsupported `type`, or a missing or non-string `text`, checked in that order.
pub open spec fn block_shape_error(block: JsonTree) -> Option<ShapeError> {
    match json_str(json_get(block, "type"@)) {
        None => Some(ShapeError::Structure),
        Some(t) => if !is_allowed_block_type(t) {
            Some(ShapeError::BlockType(t))
        } else if json_str(json_get(block, "text"@)) is None {
            Some(ShapeError::Structure)
        } else {
            None
        },
    }
}

/// The defect of the first defective block from index `i` on.
pub open spec fn first_block_error(blocks: Seq<JsonTree>, i: int) -> Option<ShapeError>
    decreases blocks.len() - i,
{
    if i < 0 || i >= blocks.len() {
        None
    } else {
        match block_shape_error(blocks[i]) {
            Some(e) => Some(e),
            None => first_block_error(blocks, i + 1),
        }
    }
}

/// The first defect of a note document, if any.
pub open spec fn document_shape_error(doc: JsonTree) -> Option<ShapeError> {
    match json_array(json_get(doc, "blocks"@)) {
        None => Some(ShapeError::Structure),
        Some(blocks) => first_block_error(blocks, 0),
    }
}

/// The `checked` flag a block member decodes to: absent or `null` is no
/// flag, a boolean is that flag, anything else does not decode (outer `None`).
pub open spec fn decode_checked(v: Option<JsonTree>) -> Option<Option<bool>> {
    match v {
        None => Some(None),
        Some(JsonTree::Null) => Some(None),
        Some(JsonTree::Bool(b)) => Some(Some(b)),
        _ => None,
    }
}

/// The block a well-shaped JSON block decodes to.
pub open spec fn decoded_block(block: JsonTree) -> BlockView {
    BlockView {
        block_type: json_str(json_get(block, "type"@))->0,
        text: json_str(json_get(block, "text"@))->0,
        checked: decode_checked(json_get(block, "checked"@))->0,
    }
}

/// What decoding a note document comes to.
pub enum DocumentOutcome {
    /// The document has this structural defect.
    Shape(ShapeError),
    /// A block's `checked` member is neither a boolean nor `null`.
    BadChecked,
    /// The document decodes to these blocks.
    Blocks(Seq<BlockView>),
}

/// What decoding the note document `doc` comes to: its first structural
/// defect, else a malformed `checked` flag, else its blocks.
pub open spec fn document_outcome(doc: JsonTree) -> DocumentOutcome {
    match document_shape_error(doc) {
        Some(e) => DocumentOutcome::Shape(e),
        None => {
            let blocks = json_array(json_get(doc, "blocks"@))->0;
            if exists|i: int| 0 <= i < blocks.len() && decode_checked(json_get(#[trigger] blocks[i], "checked"@)) is None {
                DocumentOutcome::BadChecked
            } else {
                DocumentOutcome::Blocks(blocks.map_values(|b: JsonTree| decoded_block(b)))
            }
        },
    }
}

/// Whether `res` is the verdict on a document with defect `e` (or none).
pub open spec fn shape_verdict<T>(e: Option<ShapeError>, res: Result<T, DocumentError>) -> bool {
    match e {
        None => res is Ok,
        Some(ShapeError::Structure) => res matches Err(DocumentError::InvalidStructure),
        Some(ShapeError::BlockType(t)) => res matches Err(DocumentError::InvalidBlockType(s)) && s@ == t,
    }
}

/// Whether `res` reports the failure of a document whose decoding comes to
/// `outcome` (anything for a document that decodes).
pub open spec fn failure_verdict<T>(outcome: DocumentOutcome, res: Result<T, DocumentError>) -> bool {
    match outcome {
        DocumentOutcome::Shape(e) => shape_verdict(Some(e), res),
        DocumentOutcome::BadChecked => res matches Err(DocumentError::InvalidJson(_)),
        DocumentOutcome::Blocks(_) => res is Ok,
    }
}

/// The first block from index `i` on that is a non-blank paragraph, trimmed.
pub open spec fn paragraph_title_from(blocks: Seq<BlockView>, i: int) -> Option<Seq<char>>
    decreases blocks.len() - i,
{
    if i < 0 || i >= blocks.len() {
        None
    } else if blocks[i].block_type == "paragraph"@ && !is_blank(blocks[i].text) {
        Some(trim(blocks[i].text))
    } else {
        paragraph_title_from(blocks, i + 1)
    }
}

/// The first block from index `i` on with non-blank text, trimmed.
pub open spec fn any_title_from(blocks: Seq<BlockView>, i: int) -> Option<Seq<char>>
    decreases blocks.len() - i,
{
    if i < 0 || i >= blocks.len() {
        None
    } else if !is_blank(blocks[i].text) {
        Some(trim(blocks[i].text))
    } else {
        any_title_from(blocks, i + 1)
    }
}

/// The title derived from a note's blocks: its first non-blank paragraph, else
/// its first non-blank block, trimmed; empty if every block is blank.
pub open spec fn derived_title(blocks: Seq<BlockView>) -> Seq<char> {
    match paragraph_title_from(blocks, 0) {
        Some(t) => t,
        None => match any_title_from(blocks, 0) {
            Some(t) => t,
            None => Seq::empty(),
        },
    }
}

/// The blocks with every block made an unchecked checklist item.
pub open spec fn as_checklist(blocks: Seq<BlockView>) -> Seq<BlockView> {
    blocks.map_values(|b: BlockView| BlockView { block_type: "checklist_item"@, text: b.text, checked: Some(false) })
}

/// The blocks with every block made a paragraph without a flag.
pub open spec fn as_paragraphs(blocks: Seq<BlockView>) -> Seq<BlockView> {
    blocks.map_values(|b: BlockView| BlockView { block_type: "paragraph"@, text: b.text, checked: None })
}

/// The JSON encoding of block `b`: an object with `type`, `text` and, when
/// the block has a flag, `checked`, in that order.
pub open spec fn block_tree(b: BlockView) -> JsonTree {
    let members = seq![("type"@, JsonTree::Str(b.block_type)), ("text"@, JsonTree::Str(b.text))];
    match b.checked {
        Some(c) => JsonTree::Object(members.push(("checked"@, JsonTree::Bool(c)))),
        None => JsonTree::Object(members),
    }
}

/// The JSON encoding of a document with `blocks`: an object whose only
/// member is the array `blocks` of the blocks' encodings.
pub open spec fn document_tree(blocks: Seq<BlockView>) -> JsonTree {
    JsonTree::Object(seq![("blocks"@, JsonTree::Array(blocks.map_values(|b: BlockView| block_tree(b))))])
}

/// The member `key` of `v`, if `v` is an object that has one.
fn json_field<'a>(v: &'a JsonValue, key: &str) -> (r: Option<&'a JsonValue>)
    ensures
        r matches Some(x) ==> json_get(v@, key@) == Some(x@),
        r is None ==> json_get(v@, key@) is None,
{
    match v {
        JsonValue::Object(fields) => {
            let ghost members = v@->Object_0;
            let n = fields.len();
            assert(forall|k: int| 0 <= k < n ==> #[trigger] members[k] == (fields@[k].0@, fields@[k].1@));
            let mut i: usize = 0;
            while i < n
                invariant
                    n == fields@.len(),
                    n == members.len(),
                    i <= n,
                    v@ == JsonTree::Object(members),
                    forall|k: int| 0 <= k < n ==> #[trigger] members[k] == (fields@[k].0@, fields@[k].1@),
                    lookup_from(members, key@, i as int) == lookup_from(members, key@, 0),
                decreases n - i,
            {
                assert(members[i as int] == (fields@[i as int].0@, fields@[i as int].1@));
                if str_eq(fields[i].0.as_str(), key) {
                    return Some(&fields[i].1);
                }
                i = i + 1;
            }
            None
        },
        _ => None,
    }
}

/// The string `v` holds, if it holds one.
fn as_json_str<'a>(v: Option<&'a JsonValue>) -> (r: Option<&'a String>)
    ensures
        r matches Some(s) ==> v matches Some(x) && json_str(Some(x@)) == Some(s@),
        r is None ==> v is None || json_str(Some(v->0@)) is None,
{
    match v {
        Some(JsonValue::String(s)) => Some(s),
        _ => None,
    }
}

/// The elements of `v`, if it is an array.
fn as_json_array<'a>(v: Option<&'a JsonValue>) -> (r: Option<&'a Vec<JsonValue>>)
    ensures
        r is Some ==> v is Some,
        r matches Some(items) ==> json_array(Some(v->0@)) matches Some(t) && t.len() == items@.len() && (
        forall|k: int| 0 <= k < t.len() ==> #[trigger] t[k] == items@[k]@),
        r is None ==> v is None || json_array(Some(v->0@)) is None,
{
    match v {
        Some(JsonValue::Array(items)) => {
            let ghost t = v->0@->Array_0;
            assert(forall|k: int| 0 <= k < t.len() ==> #[trigger] t[k] == items@[k]@);
            Some(items)
        },
        _ => None,
    }
}

/// Whether `t` is a supported block type.
fn allowed_block_type(t: &str) -> (r: bool)
    ensures
        r == is_allowed_block_type(t@),
{
    str_eq(t, "paragraph") || str_eq(t, "checklist_item") || str_eq(t, "bullet_item") || str_eq(
        t,
        "numbered_item",
    ) || str_eq(t, "heading1") || str_eq(t, "heading2") || str_eq(t, "heading3")
}

/// Checks that `doc` is an object with a `blocks` array whose blocks each have
/// a supported string `type` and a string `text`; reports the first defect.
pub fn validate_note_value(doc: &JsonValue) -> (res: Result<(), DocumentError>)
    ensures
        shape_verdict(document_shape_error(doc@), res),
{
    let field = json_field(doc, "blocks");
    let blocks = match as_json_array(field) {
        Some(items) => items,
        None => return Err(DocumentError::InvalidStructure),
    };
    let ghost tv = json_array(json_get(doc@, "blocks"@))->0;
    assert(json_get(doc@, "blocks"@) == Some(field->0@));
    let n = blocks.len();
    let mut i: usize = 0;
    while i < n
        invariant
            n == blocks@.len(),
            i <= n,
            json_array(json_get(doc@, "blocks"@)) == Some(tv),
            tv.len() == n,
            forall|k: int| 0 <= k < n ==> #[trigger] tv[k] == blocks@[k]@,
            first_block_error(tv, i as int) == first_block_error(tv, 0),
        decreases n - i,
    {
        let block = &blocks[i];
        assert(tv[i as int] == block@);
        let block_type = match as_json_str(json_field(block, "type")) {
            Some(t) => t,
            None => return Err(DocumentError::InvalidStructure),
        };
        if !allowed_block_type(block_type.as_str()) {
            return Err(DocumentError::InvalidBlockType(block_type.clone()));
        }
        if as_json_str(json_field(block, "text")).is_none() {
            return Err(DocumentError::InvalidStructure);
        }
        i = i + 1;
    }
    Ok(())
}

/// Counts the characters of a note's plain text, rejecting more than
/// `NOTE_CHAR_LIMIT`.
pub fn validate_note_char_limit(plain_text: &str) -> (res: Result<u32, DocumentError>)
    ensures
        plain_text@.len() <= NOTE_CHAR_LIMIT ==> res == Ok::<u32, DocumentError>(
            plain_text@.len() as u32,
        ),
        plain_text@.len() > NOTE_CHAR_LIMIT ==> res == Err::<u32, DocumentError>(
            DocumentError::NoteTooLarge,
        ),
{
    let count = plain_text.unicode_len();
    if count > NOTE_CHAR_LIMIT {
        return Err(DocumentError::NoteTooLarge);
    }
    Ok(count as u32)
}

/// Whether `res` is the title `derive_display_title` gives for an explicit
/// title `explicit` and a note body that parsed to `canonical_json`.
pub open spec fn title_verdict(
    explicit: Seq<char>,
    canonical_json: Result<JsonTree, Seq<char>>,
    res: Result<String, DocumentError>,
) -> bool {
    if !is_blank(explicit) {
        res matches Ok(t) && t@ == explicit
    } else {
        match canonical_json {
            Err(m) => res matches Err(DocumentError::InvalidJson(e)) && e@ == m,
            Ok(doc) => {
                &&& failure_verdict(document_outcome(doc), res)
                &&& document_outcome(doc) matches DocumentOutcome::Blocks(blocks) ==> res matches Ok(
                    t,
                ) && t@ == derived_title(blocks)
            },
        }
    }
}

/// No block from index `i` on is defective when the search from `i` finds none.
proof fn lemma_no_block_error(blocks: Seq<JsonTree>, i: int, k: int)
    requires
        0 <= i <= k < blocks.len(),
        first_block_error(blocks, i) is None,
    ensures
        block_shape_error(blocks[k]) is None,
    decreases k - i,
{
    if i < k {
        lemma_no_block_error(blocks, i + 1, k);
    }
}

/// Validates `doc` and decodes it into a canonical document; a `checked`
/// member that is neither a boolean nor `null` is an `InvalidJson` error.
pub fn parse_doc_value(doc: &JsonValue) -> (res: Result<CanonicalDocument, DocumentError>)
    ensures
        failure_verdict(document_outcome(doc@), res),
        document_outcome(doc@) matches DocumentOutcome::Blocks(blocks) ==> res matches Ok(d) && d@
            == blocks,
{
    match validate_note_value(doc) {
        Ok(()) => {},
        Err(e) => return Err(e),
    }
    let blocks = match as_json_array(json_field(doc, "blocks")) {
        Some(items) => items,
        None => return Err(DocumentError::InvalidStructure),
    };
    let ghost tv = json_array(json_get(doc@, "blocks"@))->0;
    let ghost decoded = tv.map_values(|b: JsonTree| decoded_block(b));
    let n = blocks.len();
    let mut out: Vec<Block> = Vec::new();
    let mut i: usize = 0;
    while i < n
        invariant
            n == blocks@.len(),
            i <= n,
            json_array(json_get(doc@, "blocks"@)) == Some(tv),
            tv.len() == n,
            forall|k: int| 0 <= k < n ==> #[trigger] tv[k] == blocks@[k]@,
            document_shape_error(doc@) is None,
            decoded == tv.map_values(|b: JsonTree| decoded_block(b)),
            out@.len() == i,
            forall|k: int| 0 <= k < i ==> (#[trigger] out@[k])@ == decoded[k],
            forall|k: int| 0 <= k < i ==> decode_checked(json_get(#[trigger] tv[k], "checked"@)) is Some,
        decreases n - i,
    {
        let block = &blocks[i];
        assert(tv[i as int] == block@);
        proof {
            lemma_no_block_error(tv, 0, i as int);
        }
        let block_type = match as_json_str(json_field(block, "type")) {
            Some(t) => t,
            None => return Err(DocumentError::InvalidStructure),
        };
        let text = match as_json_str(json_field(block, "text")) {
            Some(t) => t,
            None => return Err(DocumentError::InvalidStructure),
        };
        let checked = match json_field(block, "checked") {
            None => None,
            Some(JsonValue::Null) => None,
            Some(JsonValue::Bool(b)) => Some(*b),
            Some(_) => {
                assert(decode_checked(json_get(tv[i as int], "checked"@)) is None);
                return Err(
                    DocumentError::InvalidJson("invalid type: expected a boolean or null for `checked`".to_owned()),
                );
            },
        };
        out.push(Block { block_type: block_type.clone(), text: text.clone(), checked });
        i = i + 1;
    }
    let parsed = CanonicalDocument { blocks: out };
    assert(parsed@ =~= decoded);
    Ok(parsed)
}

/// A parse outcome with the tree's content and the message's characters.
pub open spec fn parse_tree_view(r: Result<JsonValue, String>) -> Result<JsonTree, Seq<char>> {
    match r {
        Ok(v) => Ok(v@),
        Err(m) => Err(m@),
    }
}

/// The display title of a note: its explicit title unless blank, otherwise
/// the trimmed text of its first non-blank paragraph, otherwise of its first
/// non-blank block, otherwise empty. `canonical_json` is the outcome of
/// parsing the note body (its error message when the body is not JSON); it is
/// consulted only when the explicit title is blank.
pub fn derive_display_title_from(explicit_title: &str, canonical_json: &Result<JsonValue, String>) -> (res: Result<String, DocumentError>)
    ensures
        title_verdict(explicit_title@, parse_tree_view(*canonical_json), res),
{
    if !blank(explicit_title) {
        return Ok(explicit_title.to_owned());
    }
    let doc = match canonical_json {
        Ok(d) => d,
        Err(msg) => return Err(DocumentError::InvalidJson(msg.clone())),
    };
    let parsed = match parse_doc_value(doc) {
        Ok(p) => p,
        Err(e) => return Err(e),
    };
    let ghost blocks = parsed@;
    assert(document_outcome(doc@) == DocumentOutcome::Blocks(blocks));
    let n = parsed.blocks.len();
    let mut i: usize = 0;
    while i < n
        invariant
            n == blocks.len(),
            blocks == parsed@,
            is_blank(explicit_title@),
            parse_tree_view(*canonical_json) == Ok::<JsonTree, Seq<char>>(doc@),
            document_outcome(doc@) == DocumentOutcome::Blocks(blocks),
            i <= n,
            paragraph_title_from(blocks, i as int) == paragraph_title_from(blocks, 0),
        decreases n - i,
    {
        let block = &parsed.blocks[i];
        assert(blocks[i as int] == block@);
        if str_eq(block.block_type.as_str(), "paragraph") && !blank(block.text.as_str()) {
            return Ok(trimmed(block.text.as_str()));
        }
        i = i + 1;
    }
    let mut i: usize = 0;
    while i < n
        invariant
            n == blocks.len(),
            blocks == parsed@,
            is_blank(explicit_title@),
            parse_tree_view(*canonical_json) == Ok::<JsonTree, Seq<char>>(doc@),
            document_outcome(doc@) == DocumentOutcome::Blocks(blocks),
            i <= n,
            paragraph_title_from(blocks, 0) is None,
            any_title_from(blocks, i as int) == any_title_from(blocks, 0),
        decreases n - i,
    {
        let block = &parsed.blocks[i];
        assert(blocks[i as int] == block@);
        if !blank(block.text.as_str()) {
            return Ok(trimmed(block.text.as_str()));
        }
        i = i + 1;
    }
    Ok(String::new())
}

/// The JSON encoding of a block.
fn block_to_json(b: &Block) -> (v: JsonValue)
    ensures
        v@ == block_tree(b@),
{
    let mut fields: Vec<(String, JsonValue)> = Vec::new();
    fields.push(("type".to_owned(), JsonValue::String(b.block_type.clone())));
    fields.push(("text".to_owned(), JsonValue::String(b.text.clone())));
    match b.checked {
        Some(c) => fields.push(("checked".to_owned(), JsonValue::Bool(c))),
        None => {},
    }
    let v = JsonValue::Object(fields);
    assert(fields@[0].0@ == "type"@);
    assert(fields@[0].1@ == JsonTree::Str(b.block_type@));
    let ghost members = seq![("type"@, JsonTree::Str(b.block_type@)), ("text"@, JsonTree::Str(b.text@))];
    assert(fields@[1].0@ == "text"@);
    assert(fields@[1].1@ == JsonTree::Str(b.text@));
    match b.checked {
        Some(c) => {
            assert(fields@[2].0@ == "checked"@);
            assert(fields@[2].1@ == JsonTree::Bool(c));
            assert(v@->Object_0 =~= members.push(("checked"@, JsonTree::Bool(c))));
        },
        None => {
            assert(v@->Object_0 =~= members);
        },
    }
    v
}

impl CanonicalDocument {
    /// The JSON encoding of the document: `{"blocks": [...]}` with each block's
    /// `type`, `text` and, when present, `checked`, in that order.
    pub fn to_json(&self) -> (v: JsonValue)
        ensures
            v@ == document_tree(self@),
    {
        let n = self.blocks.len();
        let mut items: Vec<JsonValue> = Vec::new();
        let mut i: usize = 0;
        while i < n
            invariant
                n == self.blocks@.len(),
                i <= n,
                items@.len() == i,
                forall|k: int| 0 <= k < i ==> (#[trigger] items@[k])@ == block_tree(self@[k]),
            decreases n - i,
        {
            items.push(block_to_json(&self.blocks[i]));
            i = i + 1;
        }
        let array = JsonValue::Array(items);
        assert(array@->Array_0 =~= self@.map_values(|b: BlockView| block_tree(b)));
        let mut fields: Vec<(String, JsonValue)> = Vec::new();
        fields.push(("blocks".to_owned(), array));
        let v = JsonValue::Object(fields);
        assert(v@->Object_0 =~= document_tree(self@)->Object_0);
        v
    }
}

/// Makes every block of the note an unchecked checklist item, keeping its
/// text; returns the JSON encoding of the converted document.
pub fn convert_value_to_checklist(doc: &JsonValue) -> (res: Result<JsonValue, DocumentError>)
    ensures
        failure_verdict(document_outcome(doc@), res),
        document_outcome(doc@) matches DocumentOutcome::Blocks(blocks) ==> res matches Ok(v) && v@
            == document_tree(as_checklist(blocks)),
{
    let parsed = match parse_doc_value(doc) {
        Ok(p) => p,
        Err(e) => return Err(e),
    };
    let n = parsed.blocks.len();
    let mut out: Vec<Block> = Vec::new();
    let mut i: usize = 0;
    while i < n
        invariant
            n == parsed.blocks@.len(),
            i <= n,
            out@.len() == i,
            forall|k: int| 0 <= k < i ==> (#[trigger] out@[k])@ == as_checklist(parsed@)[k],
        decreases n - i,
    {
        out.push(
            Block {
                block_type: "checklist_item".to_owned(),
                text: parsed.blocks[i].text.clone(),
                checked: Some(false),
            },
        );
        i = i + 1;
    }
    let converted = CanonicalDocument { blocks: out };
    assert(converted@ =~= as_checklist(parsed@));
    Ok(converted.to_json())
}

/// Makes every block of the note a paragraph without a `checked` flag,
/// keeping its text; returns the JSON encoding of the converted document.
pub fn convert_checklist_value_to_text(doc: &JsonValue) -> (res: Result<JsonValue, DocumentError>)
    ensures
        failure_verdict(document_outcome(doc@), res),
        document_outcome(doc@) matches DocumentOutcome::Blocks(blocks) ==> res matches Ok(v) && v@
            == document_tree(as_paragraphs(blocks)),
{
    let parsed = match parse_doc_value(doc) {
        Ok(p) => p,
        Err(e) => return Err(e),
    };
    let n = parsed.blocks.len();
    let mut out: Vec<Block> = Vec::new();
    let mut i: usize = 0;
    while i < n
        invariant
            n == parsed.blocks@.len(),
            i <= n,
            out@.len() == i,
            forall|k: int| 0 <= k < i ==> (#[trigger] out@[k])@ == as_paragraphs(parsed@)[k],
        decreases n - i,
    {
        out.push(
            Block { block_type: "paragraph".to_owned(), text: parsed.blocks[i].text.clone(), checked: None },
        );
        i = i + 1;
    }
    let converted = CanonicalDocument { blocks: out };
    assert(converted@ =~= as_paragraphs(parsed@));
    Ok(converted.to_json())
}

/// The outside JSON value type of `serde_json`.
#[verifier::external_type_specification]
#[verifier::external_body]
pub struct ExSerdeJsonValue(serde_json::Value);

/// The outside error type of `serde_json`.
#[verifier::external_type_specification]
#[verifier::external_body]
pub struct ExSerdeJsonError(serde_json::Error);

/// What `serde_json` makes of JSON text `text`: the content of the parsed
/// tree (objects in member order, numbers in their printed form), or the
/// parser's message.
pub uninterp spec fn spec_json_parse(text: Seq<char>) -> Result<JsonTree, Seq<char>>;

/// What `serde_json` prints for a JSON tree with content `t` in compact
/// form, or its message when it cannot.
pub uninterp spec fn spec_json_text(t: JsonTree) -> Result<Seq<char>, Seq<char>>;

/// Whether the names of `members` are pairwise distinct.
pub open spec fn distinct_names(members: Seq<(Seq<char>, JsonTree)>) -> bool {
    forall|i: int, j: int| 0 <= i < j < members.len() ==> members[i].0 != members[j].0
}

/// Whether `t` holds no number and no object that repeats a member name, and
/// nests arrays and objects at most `depth` levels deep.
pub open spec fn plain_tree(t: JsonTree, depth: nat) -> bool
    decreases t,
{
    match t {
        JsonTree::Number(_) => false,
        JsonTree::Array(items) => depth > 0 && forall|i: int|
            0 <= i < items.len() ==> plain_tree(#[trigger] items[i], (depth - 1) as nat),
        JsonTree::Object(members) => depth > 0 && distinct_names(members) && forall|i: int|
            0 <= i < members.len() ==> plain_tree(#[trigger] members[i].1, (depth - 1) as nat),
        _ => true,
    }
}

/// Whether `t` is a plain tree nested at most 64 levels deep, half the
/// nesting `serde_json`'s parser accepts.
pub open spec fn printable_tree(t: JsonTree) -> bool {
    plain_tree(t, 64)
}

/// A printing outcome with its text or message taken as characters.
pub open spec fn text_result_view(r: Result<String, String>) -> Result<Seq<char>, Seq<char>> {
    match r {
        Ok(s) => Ok(s@),
        Err(m) => Err(m@),
    }
}

/// The library's tree for a `serde_json` value, variant for variant.
#[verifier::external_body]
fn json_from_serde(v: serde_json::Value) -> JsonValue {
    match v {
        serde_json::Value::Null => JsonValue::Null,
        serde_json::Value::Bool(b) => JsonValue::Bool(b),
        serde_json::Value::Number(n) => JsonValue::Number(n.to_string()),
        serde_json::Value::String(x) => JsonValue::String(x),
        serde_json::Value::Array(a) => JsonValue::Array(a.into_iter().map(json_from_serde).collect()),
        serde_json::Value::Object(m) => JsonValue::Object(m.into_iter().map(|(k, x)| (k, json_from_serde(x))).collect()),
    }
}

/// The `serde_json` value for the library's tree, variant for variant; a
/// number is read back from its printed form.
#[verifier::external_body]
fn json_to_serde(v: JsonValue) -> Result<serde_json::Value, serde_json::Error> {
    Ok(match v {
        JsonValue::Null => serde_json::Value::Null,
        JsonValue::Bool(b) => serde_json::Value::Bool(b),
        JsonValue::Number(t) => serde_json::Value::Number(t.parse::<serde_json::Number>()?),
        JsonValue::String(x) => serde_json::Value::String(x),
        JsonValue::Array(a) => serde_json::Value::Array(a.into_iter().map(json_to_serde).collect::<Result<_, _>>()?),
        JsonValue::Object(m) => serde_json::Value::Object(m.into_iter().map(|(k, x)| json_to_serde(x).map(|y| (k, y))).collect::<Result<_, _>>()?),
    })
}

/// Parses JSON text with `serde_json::from_str` into a `serde_json::Value`
/// and hands back that tree, or the parser's error message. Claimed: the
/// outcome is `spec_json_parse` of the text.
#[verifier::external_body]
fn parse_json_text(text: &str) -> (res: Result<JsonValue, String>)
    ensures
        parse_tree_view(res) == spec_json_parse(text@),
{
    serde_json::from_str::<serde_json::Value>(text).map(json_from_serde).map_err(|e| e.to_string())
}

/// Prints a JSON tree in compact form with `serde_json::to_string`, or hands
/// back the error message. Claimed: the outcome is `spec_json_text` of the
/// tree's content; for a printable tree (no number to read back, every
/// object key a string) printing into memory succeeds; and parsing the
/// printed text gives back the same content, since strings are escaped and
/// read back exactly, members keep their order (`preserve_order`), no
/// repeated name is lost, and the nesting stays within the parser's limit
/// of 128 levels.
#[verifier::external_body]
fn json_to_text(v: JsonValue) -> (res: Result<String, String>)
    requires
        printable_tree(v@),
    ensures
        text_result_view(res) == spec_json_text(v@),
        res matches Ok(_),
        res matches Ok(s) ==> parses_back(s@, v@),
{
    json_to_serde(v).and_then(|x| serde_json::to_string(&x)).map_err(|e| e.to_string())
}

/// Whether the text `s` parses to the tree `t`.
pub open spec fn parses_back(s: Seq<char>, t: JsonTree) -> bool {
    spec_json_parse(s) == Ok::<JsonTree, Seq<char>>(t)
}

/// Whether `res` reports a failed parse with message `m`.
pub open spec fn parse_failure_verdict<T>(m: Seq<char>, res: Result<T, DocumentError>) -> bool {
    res matches Err(DocumentError::InvalidJson(e)) && e@ == m
}

/// Whether `res` is the verdict of `validate_note_document` on text that
/// parses to `parsed`.
pub open spec fn validation_verdict(parsed: Result<JsonTree, Seq<char>>, res: Result<(), DocumentError>) -> bool {
    match parsed {
        Err(m) => parse_failure_verdict(m, res),
        Ok(v) => shape_verdict(document_shape_error(v), res),
    }
}

/// Whether `res` is the verdict of `parse_doc` on text that parses to `parsed`.
pub open spec fn decode_verdict(parsed: Result<JsonTree, Seq<char>>, res: Result<CanonicalDocument, DocumentError>) -> bool {
    match parsed {
        Err(m) => parse_failure_verdict(m, res),
        Ok(v) => {
            &&& failure_verdict(document_outcome(v), res)
            &&& document_outcome(v) matches DocumentOutcome::Blocks(blocks) ==> res matches Ok(d) && d@ == blocks
        },
    }
}

/// The blocks a conversion makes: checklist items or paragraphs.
pub open spec fn converted_blocks(blocks: Seq<BlockView>, to_checklist: bool) -> Seq<BlockView> {
    if to_checklist {
        as_checklist(blocks)
    } else {
        as_paragraphs(blocks)
    }
}

/// Whether `res` is the text `s` that `serde_json` prints for the tree `t`,
/// and that parses back to `t`.
pub open spec fn printed_verdict(t: JsonTree, res: Result<String, DocumentError>) -> bool {
    &&& res matches Ok(s)
    &&& spec_json_text(t) == Ok::<Seq<char>, Seq<char>>(res->Ok_0@)
    &&& spec_json_parse(res->Ok_0@) == Ok::<JsonTree, Seq<char>>(t)
}

/// Whether `res` is the verdict of a conversion (to checklist items when
/// `to_checklist`, else to paragraphs) on text that parses to `parsed`: the
/// failure of the parse or the decoding, else the printed JSON text of the
/// encoding of the converted blocks.
pub open spec fn conversion_verdict(
    parsed: Result<JsonTree, Seq<char>>,
    to_checklist: bool,
    res: Result<String, DocumentError>,
) -> bool {
    match parsed {
        Err(m) => parse_failure_verdict(m, res),
        Ok(v) => match document_outcome(v) {
            DocumentOutcome::Blocks(blocks) => printed_verdict(document_tree(converted_blocks(blocks, to_checklist)), res),
            outcome => failure_verdict(outcome, res),
        },
    }
}

/// Checks a note document given as JSON text: text that is not JSON is an
/// `InvalidJson` error with the parser's message; otherwise the document must
/// be an object with a `blocks` array whose blocks each have a supported
/// string `type` and a string `text`, and the first defect is reported.
pub fn validate_note_document(canonical_json: &str) -> (res: Result<(), DocumentError>)
    ensures
        validation_verdict(spec_json_parse(canonical_json@), res),
{
    match parse_json_text(canonical_json) {
        Ok(v) => validate_note_value(&v),
        Err(m) => Err(DocumentError::InvalidJson(m)),
    }
}

/// Validates a note document given as JSON text and decodes it. The parsed
/// tree keeps the last value of a member name that the text repeats, and a
/// malformed `checked` member gets a fixed `InvalidJson` message.
pub fn parse_doc(canonical_json: &str) -> (res: Result<CanonicalDocument, DocumentError>)
    ensures
        decode_verdict(spec_json_parse(canonical_json@), res),
{
    match parse_json_text(canonical_json) {
        Ok(v) => parse_doc_value(&v),
        Err(m) => Err(DocumentError::InvalidJson(m)),
    }
}

/// The display title of a note whose body is given as JSON text: the explicit
/// title unless blank (the body is then not read), otherwise the title
/// derived from the body (see `derive_display_title_from`).
pub fn derive_display_title(explicit_title: &str, canonical_json: &str) -> (res: Result<String, DocumentError>)
    ensures
        title_verdict(explicit_title@, spec_json_parse(canonical_json@), res),
{
    if !blank(explicit_title) {
        return Ok(explicit_title.to_owned());
    }
    let parsed = parse_json_text(canonical_json);
    derive_display_title_from(explicit_title, &parsed)
}

/// The encoding of a block has distinct member names and nests no deeper
/// than one level.
proof fn lemma_block_tree_plain(b: BlockView, depth: nat)
    requires
        depth >= 1,
    ensures
        plain_tree(block_tree(b), depth),
{
    reveal_strlit("type");
    reveal_strlit("text");
    reveal_strlit("checked");
    assert("type"@ != "text"@) by {
        assert("type"@[1] != "text"@[1]);
    }
    assert("type"@ != "checked"@) by {
        assert("type"@.len() != "checked"@.len());
    }
    assert("text"@ != "checked"@) by {
        assert("text"@.len() != "checked"@.len());
    }
    let members = block_tree(b)->Object_0;
    assert(distinct_names(members));
    assert forall|i: int| 0 <= i < members.len() implies plain_tree(#[trigger] members[i].1, (depth - 1) as nat) by {
    }
}

/// The encoding of a document is printable.
proof fn lemma_document_tree_printable(blocks: Seq<BlockView>)
    ensures
        printable_tree(document_tree(blocks)),
{
    let members = document_tree(blocks)->Object_0;
    let items = members[0].1->Array_0;
    assert forall|i: int| 0 <= i < items.len() implies plain_tree(#[trigger] items[i], 62) by {
        lemma_block_tree_plain(blocks[i], 62);
    }
    assert(plain_tree(members[0].1, 63));
    assert forall|i: int| 0 <= i < members.len() implies plain_tree(#[trigger] members[i].1, 63) by {}
}

/// Prints the JSON encoding `j` of a converted document.
fn print_converted(j: JsonValue) -> (res: Result<String, DocumentError>)
    requires
        printable_tree(j@),
    ensures
        printed_verdict(j@, res),
{
    match json_to_text(j) {
        Ok(s) => Ok(s),
        Err(m) => Err(DocumentError::InvalidJson(m)),
    }
}

/// Makes every block of a note given as JSON text an unchecked checklist
/// item, keeping its text; returns the converted document as JSON text.
pub fn convert_text_to_checklist(canonical_json: &str) -> (res: Result<String, DocumentError>)
    ensures
        conversion_verdict(spec_json_parse(canonical_json@), true, res),
{
    let v = match parse_json_text(canonical_json) {
        Ok(v) => v,
        Err(m) => return Err(DocumentError::InvalidJson(m)),
    };
    let j = match convert_value_to_checklist(&v) {
        Ok(j) => j,
        Err(e) => return Err(e),
    };
    proof {
        lemma_document_tree_printable(as_checklist(document_outcome(v@)->Blocks_0));
    }
    print_converted(j)
}

/// Makes every block of a note given as JSON text a paragraph without a
/// `checked` flag, keeping its text; returns the converted document as JSON
/// text.
pub fn convert_checklist_to_text(canonical_json: &str) -> (res: Result<String, DocumentError>)
    ensures
        conversion_verdict(spec_json_parse(canonical_json@), false, res),
{
    let v = match parse_json_text(canonical_json) {
        Ok(v) => v,
        Err(m) => return Err(DocumentError::InvalidJson(m)),
    };
    let j = match convert_checklist_value_to_text(&v) {
        Ok(j) => j,
        Err(e) => return Err(e),
    };
    proof {
        lemma_document_tree_printable(as_paragraphs(document_outcome(v@)->Blocks_0));
    }
    print_converted(j)
}

/// The version of the canonical document schema.
pub fn current_doc_schema_version() -> (v: u32)
    ensures
        v == DOC_SCHEMA_VERSION,
{
    DOC_SCHEMA_VERSION
}

/// The version of the note payload schema.
pub fn current_note_payload_schema_version() -> (v: u32)
    ensures
        v == NOTE_PAYLOAD_SCHEMA_VERSION,
{
    NOTE_PAYLOAD_SCHEMA_VERSION
}


/// Looking a key up in an encoded block finds the member of that name.
proof fn lemma_encoded_block_decodes(b: BlockView)
    requires
        is_allowed_block_type(b.block_type),
    ensures
        block_shape_error(block_tree(b)) is None,
        decode_checked(json_get(block_tree(b), "checked"@)) is Some,
        decoded_block(block_tree(b)) == b,
{
    reveal_strlit("type");
    reveal_strlit("text");
    reveal_strlit("checked");
    assert("type"@ != "text"@) by {
        assert("type"@[1] != "text"@[1]);
    }
    assert("type"@ != "checked"@) by {
        assert("type"@.len() != "checked"@.len());
    }
    assert("text"@ != "checked"@) by {
        assert("text"@.len() != "checked"@.len());
    }
    let fields = block_tree(b)->Object_0;
    assert(lookup_from(fields, "type"@, 0) == Some(fields[0].1));
    assert(lookup_from(fields, "text"@, 1) == Some(fields[1].1));
    assert(lookup_from(fields, "text"@, 0) == Some(fields[1].1));
    if b.checked is Some {
        assert(lookup_from(fields, "checked"@, 2) == Some(fields[2].1));
        assert(lookup_from(fields, "checked"@, 1) == Some(fields[2].1));
    } else {
        assert(lookup_from(fields, "checked"@, 2) is None);
        assert(lookup_from(fields, "checked"@, 1) is None);
    }
    assert(lookup_from(fields, "checked"@, 0) == lookup_from(fields, "checked"@, 1));
}

/// No block from index `i` on is defective when none of them is.
proof fn lemma_first_block_error_none(blocks: Seq<JsonTree>, i: int)
    requires
        0 <= i <= blocks.len(),
        forall|k: int| i <= k < blocks.len() ==> block_shape_error(#[trigger] blocks[k]) is None,
    ensures
        first_block_error(blocks, i) is None,
    decreases blocks.len() - i,
{
    if i < blocks.len() {
        lemma_first_block_error_none(blocks, i + 1);
    }
}

/// The encoding of a document with supported block types decodes back to it.
pub proof fn lemma_encoded_document_decodes(blocks: Seq<BlockView>)
    requires
        forall|i: int| 0 <= i < blocks.len() ==> is_allowed_block_type(#[trigger] blocks[i].block_type),
    ensures
        document_outcome(document_tree(blocks)) == DocumentOutcome::Blocks(blocks),
{
    let fields = document_tree(blocks)->Object_0;
    assert(lookup_from(fields, "blocks"@, 0) == Some(fields[0].1));
    let items = fields[0].1->Array_0;
    assert forall|k: int| 0 <= k < items.len() implies block_shape_error(#[trigger] items[k]) is None
        && decode_checked(json_get(items[k], "checked"@)) is Some && decoded_block(items[k])
        == blocks[k] by {
        lemma_encoded_block_decodes(blocks[k]);
    }
    lemma_first_block_error_none(items, 0);
    assert(items.map_values(|b: JsonTree| decoded_block(b)) =~= blocks);
}

/// Converting a note to a checklist and back to text keeps every block's
/// text, in order, and makes every block a paragraph: the checklist encoding
/// decodes to the checklist blocks, and turning those into paragraphs gives
/// back the starting texts.
pub proof fn lemma_checklist_conversion_reversible(blocks: Seq<BlockView>)
    ensures
        document_outcome(document_tree(as_checklist(blocks))) == DocumentOutcome::Blocks(as_checklist(blocks)),
        as_paragraphs(as_checklist(blocks)) == as_paragraphs(blocks),
        as_paragraphs(blocks).len() == blocks.len(),
        forall|i: int|
            0 <= i < blocks.len() ==> (#[trigger] as_paragraphs(blocks)[i]).text == blocks[i].text
                && as_paragraphs(blocks)[i].block_type == "paragraph"@ && as_paragraphs(blocks)[i].checked is None,
{
    lemma_encoded_document_decodes(as_checklist(blocks));
    assert(as_paragraphs(as_checklist(blocks)) =~= as_paragraphs(blocks));
}

/// Both conversions produce documents that validate and decode to exactly the
/// converted blocks.
pub proof fn lemma_conversions_produce_valid_documents(blocks: Seq<BlockView>)
    ensures
        document_outcome(document_tree(as_checklist(blocks))) == DocumentOutcome::Blocks(as_checklist(blocks)),
        document_outcome(document_tree(as_paragraphs(blocks))) == DocumentOutcome::Blocks(as_paragraphs(blocks)),
{
    lemma_encoded_document_decodes(as_checklist(blocks));
    lemma_encoded_document_decodes(as_paragraphs(blocks));
}

/// A conversion that succeeds was given text that parses and decodes.
proof fn lemma_conversion_success_decodes(parsed: Result<JsonTree, Seq<char>>, to_checklist: bool, res: Result<String, DocumentError>)
    requires
        conversion_verdict(parsed, to_checklist, res),
        res is Ok,
    ensures
        parsed matches Ok(v) && document_outcome(v) matches DocumentOutcome::Blocks(_),
{
    match parsed {
        Ok(v) => match document_outcome(v) {
            DocumentOutcome::Shape(e) => {
                assert(shape_verdict(Some(e), res));
            },
            _ => {},
        },
        Err(_) => {},
    }
}

/// Through JSON text, converting a note to a checklist and back gives its
/// blocks as paragraphs with the same texts, in order: the checklist text
/// parses to a valid document whose blocks are the note's blocks as
/// unchecked checklist items; reverting it succeeds, with the same text as
/// converting the note to paragraphs directly; and that text parses to the
/// note's blocks as paragraphs.
pub proof fn lemma_text_checklist_roundtrip(
    text: Seq<char>,
    checklist: Result<String, DocumentError>,
    reverted: Result<String, DocumentError>,
    direct: Result<String, DocumentError>,
)
    requires
        conversion_verdict(spec_json_parse(text), true, checklist),
        checklist is Ok,
        conversion_verdict(spec_json_parse(checklist->Ok_0@), false, reverted),
        conversion_verdict(spec_json_parse(text), false, direct),
    ensures
        spec_json_parse(text) matches Ok(v) && document_outcome(v) matches DocumentOutcome::Blocks(_),
        ({
            let blocks = document_outcome(spec_json_parse(text)->Ok_0)->Blocks_0;
            let checklist_doc = spec_json_parse(checklist->Ok_0@);
            let reverted_doc = spec_json_parse(reverted->Ok_0@);
            &&& checklist_doc is Ok
            &&& document_shape_error(checklist_doc->Ok_0) is None
            &&& document_outcome(checklist_doc->Ok_0) == DocumentOutcome::Blocks(as_checklist(blocks))
            &&& reverted is Ok
            &&& direct is Ok
            &&& reverted->Ok_0@ == direct->Ok_0@
            &&& reverted_doc is Ok
            &&& document_outcome(reverted_doc->Ok_0) == DocumentOutcome::Blocks(as_paragraphs(blocks))
            &&& as_paragraphs(blocks).len() == blocks.len()
            &&& forall|i: int|
                0 <= i < blocks.len() ==> (#[trigger] as_paragraphs(blocks)[i]).text == blocks[i].text
                    && as_paragraphs(blocks)[i].block_type == "paragraph"@ && as_paragraphs(blocks)[i].checked is None
        }),
{
    lemma_conversion_success_decodes(spec_json_parse(text), true, checklist);
    let blocks = document_outcome(spec_json_parse(text)->Ok_0)->Blocks_0;
    lemma_checklist_conversion_reversible(blocks);
    lemma_conversions_produce_valid_documents(blocks);
}

/// Converting through JSON text is idempotent: converting the text a
/// conversion printed once more, the same way, gives the same text.
pub proof fn lemma_text_conversion_idempotent(
    text: Seq<char>,
    to_checklist: bool,
    first: Result<String, DocumentError>,
    second: Result<String, DocumentError>,
)
    requires
        conversion_verdict(spec_json_parse(text), to_checklist, first),
        first is Ok,
        conversion_verdict(spec_json_parse(first->Ok_0@), to_checklist, second),
    ensures
        second matches Ok(s) && s@ == first->Ok_0@,
{
    lemma_conversion_success_decodes(spec_json_parse(text), to_checklist, first);
    let blocks = document_outcome(spec_json_parse(text)->Ok_0)->Blocks_0;
    let converted = converted_blocks(blocks, to_checklist);
    lemma_conversions_produce_valid_documents(blocks);
    assert(converted_blocks(converted, to_checklist) =~= converted);
}

/// Whether block `b` is a paragraph with non-blank text.
pub open spec fn is_titled_paragraph(b: BlockView) -> bool {
    b.block_type == "paragraph"@ && !is_blank(b.text)
}

/// The paragraph search from `i` finds the first non-blank paragraph at or
/// after `i`.
proof fn lemma_paragraph_title_finds_first(blocks: Seq<BlockView>, i: int, k: int)
    requires
        0 <= i <= k < blocks.len(),
        is_titled_paragraph(blocks[k]),
        forall|j: int| i <= j < k ==> !is_titled_paragraph(#[trigger] blocks[j]),
    ensures
        paragraph_title_from(blocks, i) == Some(trim(blocks[k].text)),
    decreases k - i,
{
    if i < k {
        assert(!is_titled_paragraph(blocks[i]));
        lemma_paragraph_title_finds_first(blocks, i + 1, k);
    }
}

/// The paragraph search from `i` finds nothing when no block from `i` on is a
/// non-blank paragraph.
proof fn lemma_paragraph_title_none(blocks: Seq<BlockView>, i: int)
    requires
        0 <= i <= blocks.len(),
        forall|j: int| i <= j < blocks.len() ==> !is_titled_paragraph(#[trigger] blocks[j]),
    ensures
        paragraph_title_from(blocks, i) is None,
    decreases blocks.len() - i,
{
    if i < blocks.len() {
        assert(!is_titled_paragraph(blocks[i]));
        lemma_paragraph_title_none(blocks, i + 1);
    }
}

/// The fallback search from `i` finds the first non-blank block at or after `i`.
proof fn lemma_any_title_finds_first(blocks: Seq<BlockView>, i: int, k: int)
    requires
        0 <= i <= k < blocks.len(),
        !is_blank(blocks[k].text),
        forall|j: int| i <= j < k ==> is_blank(#[trigger] blocks[j].text),
    ensures
        any_title_from(blocks, i) == Some(trim(blocks[k].text)),
    decreases k - i,
{
    if i < k {
        assert(is_blank(blocks[i].text));
        lemma_any_title_finds_first(blocks, i + 1, k);
    }
}

/// The fallback search from `i` finds nothing when every block from `i` on is blank.
proof fn lemma_any_title_none(blocks: Seq<BlockView>, i: int)
    requires
        0 <= i <= blocks.len(),
        forall|j: int| i <= j < blocks.len() ==> is_blank(#[trigger] blocks[j].text),
    ensures
        any_title_from(blocks, i) is None,
    decreases blocks.len() - i,
{
    if i < blocks.len() {
        assert(is_blank(blocks[i].text));
        lemma_any_title_none(blocks, i + 1);
    }
}

/// The derived title comes from the top of the note: it is the trimmed text
/// of the first non-blank paragraph; where no paragraph has text, of the
/// first block with non-blank text; and empty where every block is blank.
pub proof fn lemma_title_is_first_from_top(blocks: Seq<BlockView>, k: int)
    requires
        0 <= k <= blocks.len(),
    ensures
        k < blocks.len() && is_titled_paragraph(blocks[k]) && (forall|j: int|
            0 <= j < k ==> !is_titled_paragraph(#[trigger] blocks[j])) ==> derived_title(blocks) == trim(blocks[k].text),
        k < blocks.len() && !is_blank(blocks[k].text) && (forall|j: int|
            0 <= j < blocks.len() ==> !is_titled_paragraph(#[trigger] blocks[j])) && (forall|j: int|
            0 <= j < k ==> is_blank(#[trigger] blocks[j].text)) ==> derived_title(blocks) == trim(blocks[k].text),
        (forall|j: int| 0 <= j < blocks.len() ==> is_blank(#[trigger] blocks[j].text)) ==> derived_title(blocks)
            == Seq::<char>::empty(),
{
    if k < blocks.len() && is_titled_paragraph(blocks[k]) && (forall|j: int|
        0 <= j < k ==> !is_titled_paragraph(#[trigger] blocks[j])) {
        lemma_paragraph_title_finds_first(blocks, 0, k);
    }
    if k < blocks.len() && !is_blank(blocks[k].text) && (forall|j: int|
        0 <= j < blocks.len() ==> !is_titled_paragraph(#[trigger] blocks[j])) && (forall|j: int|
        0 <= j < k ==> is_blank(#[trigger] blocks[j].text)) {
        lemma_paragraph_title_none(blocks, 0);
        lemma_any_title_finds_first(blocks, 0, k);
    }
    if forall|j: int| 0 <= j < blocks.len() ==> is_blank(#[trigger] blocks[j].text) {
        assert forall|j: int| 0 <= j < blocks.len() implies !is_titled_paragraph(#[trigger] blocks[j]) by {
            assert(is_blank(blocks[j].text));
        }
        lemma_paragraph_title_none(blocks, 0);
        lemma_any_title_none(blocks, 0);
    }
}

/// Converting to a checklist makes every block, headings and list items
/// included, an unchecked checklist item with its text kept, in order;
/// converting to text makes every block a paragraph without a flag.
pub proof fn lemma_conversions_change_every_block(blocks: Seq<BlockView>)
    ensures
        as_checklist(blocks).len() == blocks.len(),
        as_paragraphs(blocks).len() == blocks.len(),
        forall|i: int|
            0 <= i < blocks.len() ==> (#[trigger] as_checklist(blocks)[i]).block_type == "checklist_item"@
                && as_checklist(blocks)[i].checked == Some(false) && as_checklist(blocks)[i].text == blocks[i].text,
        forall|i: int|
            0 <= i < blocks.len() ==> (#[trigger] as_paragraphs(blocks)[i]).block_type == "paragraph"@
                && as_paragraphs(blocks)[i].checked is None && as_paragraphs(blocks)[i].text == blocks[i].text,
{
}

/// Through JSON text, converting a note to a checklist gives text that
/// decodes to exactly as many blocks as the note has, in order, each an
/// unchecked checklist item with the text of the note's block.
pub proof fn lemma_text_checklist_blocks(text: Seq<char>, checklist: Result<String, DocumentError>)
    requires
        conversion_verdict(spec_json_parse(text), true, checklist),
        checklist is Ok,
    ensures
        spec_json_parse(text) matches Ok(v) && document_outcome(v) matches DocumentOutcome::Blocks(_),
        spec_json_parse(checklist->Ok_0@) matches Ok(c) && document_outcome(c) matches DocumentOutcome::Blocks(_),
        ({
            let blocks = document_outcome(spec_json_parse(text)->Ok_0)->Blocks_0;
            let items = document_outcome(spec_json_parse(checklist->Ok_0@)->Ok_0)->Blocks_0;
            &&& items.len() == blocks.len()
            &&& forall|i: int|
                0 <= i < blocks.len() ==> (#[trigger] items[i]).block_type == "checklist_item"@ && items[i].checked
                    == Some(false) && items[i].text == blocks[i].text
        }),
{
    lemma_conversion_success_decodes(spec_json_parse(text), true, checklist);
    let blocks = document_outcome(spec_json_parse(text)->Ok_0)->Blocks_0;
    lemma_conversions_produce_valid_documents(blocks);
    lemma_conversions_change_every_block(blocks);
}

} // verus!
