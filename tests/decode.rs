use chorale::decode::{decode_mark, decode_span, from_color, no_context_from_code};
use chorale::document::{parse, DecodeError};
use chorale::json::{Json, Number};
use chorale::parser::{ColorType, ContextFormat, Either, FormatType, NoContextFormat, RootBlockType, YesOrNo};

fn s(x: &str) -> Json {
    Json::Str(x.to_string())
}

fn arr(v: Vec<Json>) -> Json {
    Json::Array(v)
}

fn obj(v: Vec<(&str, Json)>) -> Json {
    Json::Object(v.into_iter().map(|(k, v)| (k.to_string(), v)).collect())
}

fn num(i: i64) -> Json {
    Json::Number(Number::Int(i))
}

fn base(id: &str, kind: &str, extra: Vec<(&str, Json)>) -> Json {
    let mut fields = vec![
        ("id", s(id)),
        ("version", num(3)),
        ("created_time", num(10)),
        ("last_edited_time", num(20)),
        ("parent_id", s("root")),
        ("parent_table", s("space")),
        ("alive", Json::Bool(true)),
        ("created_by_table", s("notion_user")),
        ("created_by_id", s("u1")),
        ("last_edited_by_table", s("notion_user")),
        ("last_edited_by_id", s("u2")),
        ("type", s(kind)),
    ];
    fields.extend(extra);
    obj(fields)
}

fn user() -> Json {
    obj(vec![
        ("role", s("reader")),
        (
            "value",
            obj(vec![
                ("id", s("u1")),
                ("version", num(1)),
                ("email", s("a@b.c")),
                ("given_name", s("Ada")),
                ("family_name", s("L")),
                ("profile_photo", s("p.png")),
                ("mobile_onboarding_complete", Json::Bool(true)),
            ]),
        ),
    ])
}

fn document(blocks: Vec<(&str, Json)>) -> Json {
    let block_map = obj(blocks
        .into_iter()
        .map(|(k, v)| (k, obj(vec![("role", s("reader")), ("value", v)])))
        .collect());
    obj(vec![(
        "recordMap",
        obj(vec![("block", block_map), ("notion_user", obj(vec![("u1", user())]))]),
    )])
}

#[test]
fn known_and_unknown_colors() {
    assert_eq!(from_color("teal"), ColorType::Teal);
    assert_eq!(from_color("red_background"), ColorType::RedBackground);
    assert_eq!(from_color("chartreuse"), ColorType::NoColor);
    assert_eq!(from_color(""), ColorType::NoColor);
    assert_eq!(from_color("none"), ColorType::NoColor);
}

#[test]
fn mark_codes() {
    assert_eq!(no_context_from_code("b"), NoContextFormat::Bold);
    assert_eq!(no_context_from_code("_"), NoContextFormat::Underline);
    assert_eq!(no_context_from_code("c"), NoContextFormat::Code);
    assert_eq!(no_context_from_code("zz"), NoContextFormat::Unknown);
}

#[test]
fn marks_with_values() {
    match decode_mark(&arr(vec![s("a"), s("https://x")])) {
        Some(FormatType::Context(ContextFormat::Link(h))) => assert_eq!(h, "https://x"),
        other => panic!("unexpected {:?}", other),
    }
    match decode_mark(&arr(vec![s("h"), s("mauve")])) {
        Some(FormatType::Context(ContextFormat::Highlight(c))) => assert_eq!(c, ColorType::NoColor),
        other => panic!("unexpected {:?}", other),
    }
    assert!(matches!(
        decode_mark(&arr(vec![s("d"), s("x")])),
        Some(FormatType::Context(ContextFormat::Unknown))
    ));
    assert!(matches!(decode_mark(&arr(vec![s("i")])), Some(FormatType::NoContext(NoContextFormat::Italic))));
}

#[test]
fn malformed_marks_do_not_decode() {
    assert!(decode_mark(&arr(vec![])).is_none());
    assert!(decode_mark(&arr(vec![num(1)])).is_none());
    assert!(decode_mark(&arr(vec![s("a"), obj(vec![])])).is_none());
    assert!(decode_mark(&s("b")).is_none());
}

#[test]
fn span_shapes() {
    let plain = decode_span(&arr(vec![s("hello"), s("ignored")])).unwrap();
    assert_eq!(plain.text, "hello");
    assert!(plain.formatting.is_none());
    let marked = decode_span(&arr(vec![s("x"), arr(vec![arr(vec![s("b")])])])).unwrap();
    assert_eq!(marked.text, "x");
    assert_eq!(marked.formatting.unwrap().len(), 1);
    assert!(decode_span(&arr(vec![])).is_none());
    assert!(decode_span(&arr(vec![s("x"), arr(vec![arr(vec![])])])).is_none());
    assert!(decode_span(&s("bare")).is_none());
}

#[test]
fn document_decodes_blocks_and_users() {
    let input = document(vec![
        ("p", base("p", "page", vec![
            ("properties", obj(vec![("title", arr(vec![arr(vec![s("Home")])]))])),
            ("content", arr(vec![s("t")])),
            ("format", obj(vec![("block_color", s("blue")), ("page_icon", s("*"))])),
        ])),
        ("t", base("t", "text", vec![("shard_id", num(7)), ("space_id", Json::Null)])),
    ]);
    let d = parse(&input).unwrap();
    assert_eq!(d.record_map.block.len(), 2);
    assert_eq!(d.record_map.notion_user.len(), 1);
    assert_eq!(d.record_map.notion_user[0].1.value.given_name, "Ada");
    assert_eq!(d.record_map.notion_user[0].1.value.mobile_onboarding_complete, Some(true));
    assert_eq!(d.record_map.notion_user[0].1.value.pubonboarding_complete, None);
    match &d.record_map.block[0].1.value {
        Either::Left(v) => {
            assert_eq!(v.id, "p");
            assert_eq!(v.version, 3);
            assert_eq!(v.content.as_ref().unwrap(), &vec!["t".to_string()]);
            assert_eq!(v.format.as_ref().unwrap().block_color, Some(ColorType::Blue));
            match &v.block {
                RootBlockType::Page { format, properties, file_ids } => {
                    assert_eq!(format.as_ref().unwrap().page_icon.as_deref(), Some("*"));
                    assert_eq!(properties.title[0].text, "Home");
                    assert!(file_ids.is_none());
                }
                other => panic!("unexpected {:?}", other),
            }
        }
        other => panic!("unexpected {:?}", other),
    }
    match &d.record_map.block[1].1.value {
        Either::Left(v) => {
            assert_eq!(v.shard_id, Some(7));
            assert_eq!(v.space_id, None);
            assert!(matches!(v.block, RootBlockType::Text { properties: None }));
        }
        other => panic!("unexpected {:?}", other),
    }
}

#[test]
fn unknown_color_in_format_still_decodes() {
    let input = document(vec![(
        "t",
        base("t", "text", vec![("format", obj(vec![("block_color", s("plaid"))]))]),
    )]);
    let d = parse(&input).unwrap();
    match &d.record_map.block[0].1.value {
        Either::Left(v) => assert_eq!(v.format.as_ref().unwrap().block_color, Some(ColorType::NoColor)),
        other => panic!("unexpected {:?}", other),
    }
}

#[test]
fn undecodable_blocks_are_kept_raw() {
    let input = document(vec![
        ("a", base("a", "mystery", vec![])),
        ("b", obj(vec![("id", s("b"))])),
        ("c", base("c", "text", vec![("properties", obj(vec![("title", s("not spans"))]))])),
        ("d", base("d", "divider", vec![])),
    ]);
    let d = parse(&input).unwrap();
    assert_eq!(d.record_map.block.len(), 4);
    assert!(matches!(d.record_map.block[0].1.value, Either::Right(_)));
    assert!(matches!(d.record_map.block[1].1.value, Either::Right(Json::Object(_))));
    assert!(matches!(d.record_map.block[2].1.value, Either::Right(_)));
    assert!(matches!(d.record_map.block[3].1.value, Either::Left(_)));
}

#[test]
fn other_kinds_decode_their_payloads() {
    let image_format = obj(vec![
        ("block_width", num(640)),
        ("block_height", num(480)),
        ("block_aspect_ratio", Json::Number(Number::Decimal("0.75".to_string()))),
        ("block_preserve_scale", Json::Bool(true)),
    ]);
    let input = document(vec![
        ("i", base("i", "image", vec![
            ("properties", obj(vec![("source", arr(vec![arr(vec![s("https://img")])]))])),
            ("format", image_format),
            ("file_ids", arr(vec![s("f1")])),
        ])),
        ("c", base("c", "column", vec![("format", obj(vec![("column_ratio", num(1))]))])),
        ("todo", base("todo", "to_do", vec![(
            "properties",
            obj(vec![("title", arr(vec![])), ("checked", arr(vec![arr(vec![s("yes")])]))]),
        )])),
        ("f", base("f", "figma", vec![("format", obj(vec![("block_height", num(9))]))])),
    ]);
    let d = parse(&input).unwrap();
    match &d.record_map.block[0].1.value {
        Either::Left(v) => match &v.block {
            RootBlockType::Image { properties, format, file_ids } => {
                assert_eq!(properties.source, vec![vec!["https://img".to_string()]]);
                assert!(properties.caption.is_none());
                assert_eq!(format.block_width, 640);
                assert!(matches!(&format.block_aspect_ratio, Number::Decimal(t) if t == "0.75"));
                assert_eq!(file_ids, &vec!["f1".to_string()]);
            }
            other => panic!("unexpected {:?}", other),
        },
        other => panic!("unexpected {:?}", other),
    }
    assert!(matches!(&d.record_map.block[1].1.value, Either::Left(v) if matches!(&v.block, RootBlockType::Column { format } if matches!(format.column_ratio, Number::Int(1)))));
    match &d.record_map.block[2].1.value {
        Either::Left(v) => match &v.block {
            RootBlockType::ToDo { properties: Some(p) } => assert_eq!(p.checked, vec![vec![YesOrNo::Yes]]),
            other => panic!("unexpected {:?}", other),
        },
        other => panic!("unexpected {:?}", other),
    }
    assert!(matches!(&d.record_map.block[3].1.value, Either::Left(v) if matches!(&v.block, RootBlockType::Figma { format: Some(f), properties: None } if f.block_height == Some(9))));
}

#[test]
fn malformed_top_level_is_an_error() {
    assert_eq!(parse(&obj(vec![])).unwrap_err(), DecodeError::Malformed);
    let no_users = obj(vec![("recordMap", obj(vec![("block", obj(vec![]))]))]);
    assert_eq!(parse(&no_users).unwrap_err(), DecodeError::Malformed);
    let bad_entry = obj(vec![(
        "recordMap",
        obj(vec![("block", obj(vec![("x", obj(vec![("value", Json::Null)]))])), ("notion_user", obj(vec![]))]),
    )]);
    assert_eq!(parse(&bad_entry).unwrap_err(), DecodeError::Malformed);
    let bad_user = obj(vec![(
        "recordMap",
        obj(vec![("block", obj(vec![])), ("notion_user", obj(vec![("u", obj(vec![("role", s("r"))]))]))]),
    )]);
    assert_eq!(parse(&bad_user).unwrap_err(), DecodeError::Malformed);
}

#[test]
fn repeated_key_takes_the_last_value() {
    let input = document(vec![("t", base("t", "text", vec![("version", num(9))]))]);
    let d = parse(&input).unwrap();
    match &d.record_map.block[0].1.value {
        Either::Left(v) => assert_eq!(v.version, 9),
        other => panic!("unexpected {:?}", other),
    }
}
