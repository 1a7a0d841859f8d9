use crypnotes::doc::{
    convert_checklist_to_text, convert_checklist_value_to_text, convert_text_to_checklist,
    convert_value_to_checklist, current_doc_schema_version, current_note_payload_schema_version,
    derive_display_title, derive_display_title_from, parse_doc, parse_doc_value, validate_note_char_limit,
    validate_note_document, validate_note_value, Block, CanonicalDocument, DocumentError, JsonValue,
    DOC_SCHEMA_VERSION, NOTE_PAYLOAD_SCHEMA_VERSION,
};

fn s(text: &str) -> JsonValue {
    JsonValue::String(text.to_owned())
}

fn obj(fields: Vec<(&str, JsonValue)>) -> JsonValue {
    JsonValue::Object(fields.into_iter().map(|(k, v)| (k.to_owned(), v)).collect())
}

fn block(block_type: &str, text: &str) -> JsonValue {
    obj(vec![("type", s(block_type)), ("text", s(text))])
}

fn doc_of(blocks: Vec<JsonValue>) -> JsonValue {
    obj(vec![("blocks", JsonValue::Array(blocks))])
}

fn sample_doc() -> String {
    r#"{"blocks":[{"type":"paragraph","text":"Top paragraph"},{"type":"bullet_item","text":"Second line"}]}"#
        .to_owned()
}

#[test]
fn char_limit_boundaries() {
    let under = "a".repeat(19_999);
    let exact = "a".repeat(20_000);
    let over = "a".repeat(20_001);

    assert_eq!(validate_note_char_limit(&under).unwrap(), 19_999);
    assert_eq!(validate_note_char_limit(&exact).unwrap(), 20_000);
    assert!(matches!(validate_note_char_limit(&over), Err(DocumentError::NoteTooLarge)));
}

#[test]
fn title_derives_from_first_paragraph_when_explicit_empty() {
    let title = derive_display_title("", &sample_doc()).unwrap();
    assert_eq!(title, "Top paragraph");
}

#[test]
fn checklist_conversion_is_reversible_for_text() {
    let doc = sample_doc();
    let checklist = convert_text_to_checklist(&doc).unwrap();
    let reverted = convert_checklist_to_text(&checklist).unwrap();

    let reverted_doc: CanonicalDocument = parse_doc(&reverted).unwrap();
    assert_eq!(reverted_doc.blocks[0].block_type, "paragraph");
    assert_eq!(reverted_doc.blocks[1].block_type, "paragraph");
    assert_eq!(reverted_doc.blocks[0].text, "Top paragraph");
    assert_eq!(reverted_doc.blocks[1].text, "Second line");
}

#[test]
fn schema_version_accessors_match_shared_constants() {
    assert_eq!(current_doc_schema_version(), DOC_SCHEMA_VERSION);
    assert_eq!(current_note_payload_schema_version(), NOTE_PAYLOAD_SCHEMA_VERSION);
}

#[test]
fn char_limit_counts_characters_not_bytes() {
    let text = "é".repeat(20_000);
    assert_eq!(validate_note_char_limit(&text), Ok(20_000));
    assert_eq!(validate_note_char_limit(""), Ok(0));
}

#[test]
fn explicit_title_wins_even_over_invalid_json() {
    let title = derive_display_title("  Mine ", "not json").unwrap();
    assert_eq!(title, "  Mine ");
    let title = derive_display_title_from("  Mine ", &Err("expected value".to_owned())).unwrap();
    assert_eq!(title, "  Mine ");
}

#[test]
fn blank_title_reports_unparsable_body() {
    assert!(matches!(derive_display_title(" \t", "{\"blocks\": ["), Err(DocumentError::InvalidJson(_))));
    let result = derive_display_title_from(" \t", &Err("expected value at line 1".to_owned()));
    assert_eq!(result, Err(DocumentError::InvalidJson("expected value at line 1".to_owned())));
}

#[test]
fn unparsable_text_keeps_the_parser_message() {
    match validate_note_document("not json") {
        Err(DocumentError::InvalidJson(m)) => assert!(m.contains("line 1 column 2")),
        other => panic!("unexpected {:?}", other),
    }
    assert!(matches!(convert_text_to_checklist("[1,"), Err(DocumentError::InvalidJson(_))));
    assert!(matches!(convert_checklist_to_text(""), Err(DocumentError::InvalidJson(_))));
    assert!(matches!(parse_doc("{\"blocks\": []} x"), Err(DocumentError::InvalidJson(_))));
}

#[test]
fn title_skips_blank_paragraphs_and_trims() {
    let doc = r#"{"blocks":[{"type":"heading1","text":"Heading"},{"type":"paragraph","text":" \u3000\t"},{"type":"paragraph","text":"\n  Body text \u00a0"}]}"#;
    assert_eq!(derive_display_title("", doc).unwrap(), "Body text");
}

#[test]
fn title_falls_back_to_first_non_blank_block() {
    let doc = doc_of(vec![block("paragraph", "   "), block("heading2", "  Plan "), block("bullet_item", "x")]);
    assert_eq!(derive_display_title_from("", &Ok(doc)).unwrap(), "Plan");
    let text = r#"{"blocks":[{"type":"paragraph","text":"   "},{"type":"heading2","text":"  Plan "}]}"#;
    assert_eq!(derive_display_title("", text).unwrap(), "Plan");
}

#[test]
fn title_is_empty_for_blank_note() {
    let doc = doc_of(vec![block("paragraph", " "), block("checklist_item", "")]);
    assert_eq!(derive_display_title_from("\u{2003}", &Ok(doc)).unwrap(), "");
    assert_eq!(derive_display_title("", r#"{"blocks":[]}"#).unwrap(), "");
}

#[test]
fn validation_accepts_every_supported_type() {
    let types = ["paragraph", "checklist_item", "bullet_item", "numbered_item", "heading1", "heading2", "heading3"];
    let doc = doc_of(types.iter().map(|t| block(t, "x")).collect());
    assert_eq!(validate_note_value(&doc), Ok(()));
    let text = format!(
        "{{\"blocks\":[{}]}}",
        types.iter().map(|t| format!("{{\"type\":\"{}\",\"text\":\"x\"}}", t)).collect::<Vec<_>>().join(",")
    );
    assert_eq!(validate_note_document(&text), Ok(()));
}

#[test]
fn validation_rejects_unknown_type() {
    let text = r#"{"blocks":[{"type":"paragraph","text":"a"},{"type":"table","text":"b"},{"type":"image","text":"c"}]}"#;
    assert_eq!(validate_note_document(text), Err(DocumentError::InvalidBlockType("table".to_owned())));
}

#[test]
fn validation_rejects_bad_structure() {
    assert_eq!(validate_note_document("[]"), Err(DocumentError::InvalidStructure));
    assert_eq!(validate_note_document(r#"{"blocks":"x"}"#), Err(DocumentError::InvalidStructure));
    assert_eq!(validate_note_document(r#"{"blocks":[{"type":"paragraph"}]}"#), Err(DocumentError::InvalidStructure));
    assert_eq!(validate_note_document(r#"{"blocks":[{"type":1,"text":"a"}]}"#), Err(DocumentError::InvalidStructure));
    assert_eq!(validate_note_document(r#"{"blocks":[{"type":"paragraph","text":null}]}"#), Err(DocumentError::InvalidStructure));
    assert_eq!(validate_note_value(&JsonValue::Array(vec![])), Err(DocumentError::InvalidStructure));
    let number_type = doc_of(vec![obj(vec![("type", JsonValue::Number("1".to_owned())), ("text", s("a"))])]);
    assert_eq!(validate_note_value(&number_type), Err(DocumentError::InvalidStructure));
}

#[test]
fn validation_reports_first_defect() {
    let text = r#"{"blocks":[{"text":"a"},{"type":"table","text":"b"}]}"#;
    assert_eq!(validate_note_document(text), Err(DocumentError::InvalidStructure));
}

#[test]
fn parse_reads_checked_flags_and_ignores_extra_members() {
    let text = r#"{"blocks":[{"type":"checklist_item","text":"a","checked":true},{"type":"paragraph","text":"b","checked":null,"color":"red"}],"v":2}"#;
    let parsed = parse_doc(text).unwrap();
    assert_eq!(
        parsed,
        CanonicalDocument {
            blocks: vec![
                Block { block_type: "checklist_item".to_owned(), text: "a".to_owned(), checked: Some(true) },
                Block { block_type: "paragraph".to_owned(), text: "b".to_owned(), checked: None },
            ]
        }
    );
}

#[test]
fn parse_rejects_non_boolean_checked() {
    let doc = doc_of(vec![obj(vec![("type", s("checklist_item")), ("text", s("a")), ("checked", s("yes"))])]);
    assert!(matches!(parse_doc_value(&doc), Err(DocumentError::InvalidJson(_))));
    assert!(matches!(convert_value_to_checklist(&doc), Err(DocumentError::InvalidJson(_))));
    let text = r#"{"blocks":[{"type":"checklist_item","text":"a","checked":1}]}"#;
    assert!(matches!(parse_doc(text), Err(DocumentError::InvalidJson(_))));
    assert!(matches!(convert_text_to_checklist(text), Err(DocumentError::InvalidJson(_))));
}

#[test]
fn text_to_checklist_output_encoding() {
    let checklist = convert_text_to_checklist(&sample_doc()).unwrap();
    assert_eq!(
        checklist,
        r#"{"blocks":[{"type":"checklist_item","text":"Top paragraph","checked":false},{"type":"checklist_item","text":"Second line","checked":false}]}"#
    );
}

#[test]
fn checklist_to_text_drops_flags() {
    let text = r#"{"blocks":[{"type":"checklist_item","text":"done \"quoted\"","checked":true}]}"#;
    assert_eq!(convert_checklist_to_text(text).unwrap(), r#"{"blocks":[{"type":"paragraph","text":"done \"quoted\""}]}"#);
    let doc = doc_of(vec![obj(vec![("type", s("checklist_item")), ("text", s("done")), ("checked", JsonValue::Bool(true))])]);
    assert_eq!(convert_checklist_value_to_text(&doc).unwrap(), doc_of(vec![block("paragraph", "done")]));
}

#[test]
fn conversions_reject_invalid_documents() {
    let text = r#"{"blocks":[{"type":"table","text":"b"}]}"#;
    assert_eq!(convert_checklist_to_text(text), Err(DocumentError::InvalidBlockType("table".to_owned())));
    assert_eq!(convert_text_to_checklist("null"), Err(DocumentError::InvalidStructure));
}

#[test]
fn to_json_encodes_blocks_in_order() {
    let d = CanonicalDocument {
        blocks: vec![Block { block_type: "heading3".to_owned(), text: "T".to_owned(), checked: None }],
    };
    assert_eq!(d.to_json(), doc_of(vec![block("heading3", "T")]));
    assert_eq!(parse_doc_value(&d.to_json()), Ok(d));
}

#[test]
fn text_conversions_round_trip_and_are_idempotent() {
    let note = r#"{"blocks":[{"type":"heading1","text":"Plan \u00e9"},{"type":"checklist_item","text":"a\nb","checked":true},{"type":"paragraph","text":"\"q\""}],"v":1}"#;
    let checklist = convert_text_to_checklist(note).unwrap();
    assert_eq!(validate_note_document(&checklist), Ok(()));
    assert_eq!(convert_text_to_checklist(&checklist).unwrap(), checklist);
    let reverted = convert_checklist_to_text(&checklist).unwrap();
    assert_eq!(reverted, convert_checklist_to_text(note).unwrap());
    assert_eq!(convert_checklist_to_text(&reverted).unwrap(), reverted);
    let blocks = parse_doc(&reverted).unwrap().blocks;
    let texts: Vec<&str> = blocks.iter().map(|b| b.text.as_str()).collect();
    assert_eq!(texts, vec!["Plan é", "a\nb", "\"q\""]);
    assert!(blocks.iter().all(|b| b.block_type == "paragraph" && b.checked.is_none()));
}
