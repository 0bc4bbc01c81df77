use chorale::decode::decode_span;
use chorale::document::parse;
use chorale::json::{Json, Number};
use chorale::parser::{BlockTableType, FormattedText, LoadPageChunkData};
use chorale::renderer::Renderer;
use chorale::templating::Tag;
use chorale::ui::{Blocks, Inline, Wrapper};

fn s(x: &str) -> Json {
    Json::Str(x.to_string())
}

fn arr(v: Vec<Json>) -> Json {
    Json::Array(v)
}

fn obj(v: Vec<(&str, Json)>) -> Json {
    Json::Object(v.into_iter().map(|(k, v)| (k.to_string(), v)).collect())
}

fn num(i: i64) -> Json {
    Json::Number(Number::Int(i))
}

fn title(t: &str) -> Json {
    obj(vec![("title", arr(vec![arr(vec![s(t)])]))])
}

fn block(id: &str, kind: &str, props: Option<Json>, content: Vec<&str>) -> Json {
    let mut fields = vec![
        ("id", s(id)),
        ("version", num(1)),
        ("created_time", num(0)),
        ("last_edited_time", num(0)),
        ("parent_id", s("root")),
        ("parent_table", s("block")),
        ("alive", Json::Bool(true)),
        ("created_by_table", s("notion_user")),
        ("created_by_id", s("u")),
        ("last_edited_by_table", s("notion_user")),
        ("last_edited_by_id", s("u")),
        ("type", s(kind)),
    ];
    if let Some(p) = props {
        fields.push(("properties", p));
    }
    if !content.is_empty() {
        fields.push(("content", arr(content.into_iter().map(s).collect())));
    }
    obj(fields)
}

fn entry(value: Json) -> Json {
    obj(vec![("role", s("reader")), ("value", value)])
}

fn doc(blocks: Vec<(&str, Json)>) -> LoadPageChunkData {
    let block_map = obj(blocks.into_iter().map(|(k, v)| (k, entry(v))).collect());
    let input = obj(vec![(
        "recordMap",
        obj(vec![("block", block_map), ("notion_user", obj(vec![]))]),
    )]);
    parse(&input).unwrap()
}

fn renderer(table: &BlockTableType) -> Renderer<'_, Tag, Blocks, Inline, Wrapper> {
    Renderer::new(table, Blocks {}, Inline {}, Wrapper {})
}

fn ids(v: &[&str]) -> Vec<String> {
    v.iter().map(|x| x.to_string()).collect()
}

fn li(t: &str) -> String {
    format!("<li class=\"notion-bulleted_list-block\">{}</li>", t)
}

fn para(t: &str) -> String {
    format!("<p class=\"notion-text\">{}</p>", t)
}

fn list_doc() -> LoadPageChunkData {
    doc(vec![
        ("B1", block("B1", "bulleted_list", Some(title("one")), vec![])),
        ("B2", block("B2", "bulleted_list", Some(title("two")), vec![])),
        ("T1", block("T1", "text", Some(title("t")), vec![])),
        ("B3", block("B3", "numbered_list", Some(title("three")), vec![])),
    ])
}

#[test]
fn list_items_group_into_runs() {
    let d = list_doc();
    let r = renderer(&d.record_map.block);
    let out = r.render_children(&ids(&["B1", "B2", "T1", "B3"])).to_string();
    let expected = format!(
        "<ul class=\"notion-bulleted_list-wrapper\">{}{}</ul>{}<ol class=\"notion-numbered_list-wrapper\">{}</ol>",
        li("one"),
        li("two"),
        para("t"),
        li("three")
    );
    assert_eq!(out, expected);
}

#[test]
fn page_skips_missing_child() {
    let d = doc(vec![
        ("P", block("P", "page", Some(title("Home")), vec!["gone", "T"])),
        ("T", block("T", "text", Some(title("hi")), vec![])),
    ]);
    let r = renderer(&d.record_map.block);
    let out = r.render("P").to_string();
    assert_eq!(
        out,
        format!("<h1 class=\"notion-page-block\">Home</h1><div>{}</div>", para("hi"))
    );
}

fn render_spans(spans: Vec<FormattedText>) -> String {
    let d = doc(vec![]);
    let r = renderer(&d.record_map.block);
    r.render_text(&spans).to_string()
}

#[test]
fn link_wraps_plain_text() {
    let span = decode_span(&arr(vec![s("go"), arr(vec![arr(vec![s("a"), s("https://x")])])])).unwrap();
    assert_eq!(
        render_spans(vec![span]),
        "<a class=\"notion-link\" href=\"https://x\">go</a>"
    );
}

#[test]
fn marks_apply_innermost_first() {
    let span = decode_span(&arr(vec![s("x"), arr(vec![arr(vec![s("b")]), arr(vec![s("i")])])])).unwrap();
    assert_eq!(
        render_spans(vec![span]),
        "<i class=\"notion-italic\"><b class=\"notion-bold\">x</b></i>"
    );
}

#[test]
fn unknown_mark_leaves_text_unchanged() {
    let span = decode_span(&arr(vec![s("x"), arr(vec![arr(vec![s("zz")]), arr(vec![s("q"), s("v")])])])).unwrap();
    assert_eq!(render_spans(vec![span]), "x");
}

#[test]
fn empty_mark_list_renders_as_plain_text() {
    let plain = decode_span(&arr(vec![s("a<b")])).unwrap();
    let no_marks = decode_span(&arr(vec![s("a<b"), arr(vec![])])).unwrap();
    assert_eq!(render_spans(vec![plain]), "a&lt;b");
    assert_eq!(render_spans(vec![no_marks]), "a&lt;b");
}

#[test]
fn spans_are_joined_in_order() {
    let one = decode_span(&arr(vec![s("a ")])).unwrap();
    let two = decode_span(&arr(vec![s("b"), arr(vec![arr(vec![s("h"), s("red")])])])).unwrap();
    assert_eq!(
        render_spans(vec![one, two]),
        "a <span class=\"notion-red\">b</span>"
    );
}

#[test]
fn missing_id_renders_empty() {
    let d = list_doc();
    let r = renderer(&d.record_map.block);
    assert_eq!(r.render("nowhere").to_string(), "");
    assert_eq!(r.render_children(&ids(&[])).to_string(), "");
}

#[test]
fn absent_id_does_not_break_a_run() {
    let d = list_doc();
    let r = renderer(&d.record_map.block);
    let out = r.render_children(&ids(&["B1", "nowhere", "B2"])).to_string();
    assert_eq!(
        out,
        format!("<ul class=\"notion-bulleted_list-wrapper\">{}{}</ul>", li("one"), li("two"))
    );
}

#[test]
fn other_kind_closes_a_run() {
    let d = list_doc();
    let r = renderer(&d.record_map.block);
    let out = r.render_children(&ids(&["B3", "B1", "B3"])).to_string();
    assert_eq!(
        out,
        format!(
            "<ol class=\"notion-numbered_list-wrapper\">{}</ol><ul class=\"notion-bulleted_list-wrapper\">{}</ul><ol class=\"notion-numbered_list-wrapper\">{}</ol>",
            li("three"),
            li("one"),
            li("three")
        )
    );
}

#[test]
fn untyped_entry_renders_empty_and_closes_a_run() {
    let d = doc(vec![
        ("B1", block("B1", "bulleted_list", Some(title("one")), vec![])),
        ("X", obj(vec![("type", s("bulleted_list"))])),
        ("B2", block("B2", "bulleted_list", Some(title("two")), vec![])),
    ]);
    let r = renderer(&d.record_map.block);
    assert_eq!(r.render("X").to_string(), "");
    let out = r.render_children(&ids(&["B1", "X", "B2"])).to_string();
    assert_eq!(
        out,
        format!(
            "<ul class=\"notion-bulleted_list-wrapper\">{}</ul><ul class=\"notion-bulleted_list-wrapper\">{}</ul>",
            li("one"),
            li("two")
        )
    );
}

#[test]
fn nested_children_render_inside_parent() {
    let d = doc(vec![
        ("Q", block("Q", "quote", Some(title("q")), vec!["B1"])),
        ("B1", block("B1", "bulleted_list", Some(title("one")), vec![])),
    ]);
    let r = renderer(&d.record_map.block);
    assert_eq!(
        r.render("Q").to_string(),
        format!(
            "<q class=\"notion-quote-block\">q</q><div><ul class=\"notion-bulleted_list-wrapper\">{}</ul></div>",
            li("one")
        )
    );
}

#[test]
fn toggle_header_and_divider_blocks() {
    let d = doc(vec![
        ("G", block("G", "toggle", Some(title("more")), vec!["T"])),
        ("T", block("T", "text", Some(title("hi")), vec![])),
        ("H", block("H", "sub_header", Some(title("h")), vec![])),
        ("D", block("D", "divider", None, vec![])),
        ("C", block("C", "column_list", None, vec!["T"])),
    ]);
    let r = renderer(&d.record_map.block);
    assert_eq!(
        r.render("G").to_string(),
        format!(
            "<details class=\"notion-toggle-block\"><summary>more</summary></details><summary>{}</summary>",
            para("hi")
        )
    );
    assert_eq!(r.render("H").to_string(), "<h2 class=\"notion-sub_header-block\">h</h2>");
    assert_eq!(r.render("D").to_string(), "<hr class=\"notion-divider-block\"/>");
    assert_eq!(r.render("C").to_string(), "");
}

#[test]
fn text_block_without_properties_has_an_empty_title() {
    let d = doc(vec![
        ("T", block("T", "text", None, vec!["U"])),
        ("U", block("U", "text", Some(title("u")), vec![])),
    ]);
    let r = renderer(&d.record_map.block);
    assert_eq!(
        r.render("T").to_string(),
        format!("<p class=\"notion-text\"/><div>{}</div>", para("u"))
    );
}

#[test]
fn cycle_of_content_terminates() {
    let d = doc(vec![
        ("A", block("A", "text", Some(title("a")), vec!["A", "A"])),
    ]);
    let r = renderer(&d.record_map.block);
    assert_eq!(r.render("A").to_string(), "<p class=\"notion-text\">a</p>");
}
