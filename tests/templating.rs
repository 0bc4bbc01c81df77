use chorale::api::page_chunk_body;
use chorale::templating::{
    attribute, class, collect, div, empty, href, img, option_include, style_list, tag, text, type_,
    Tag,
};
use chorale::ui::color_class_name;
use chorale::parser::ColorType;

#[test]
fn escapes_markup_characters() {
    assert_eq!(text("<a href='x'>Tom & \"Jerry\"</a>").to_string(),
        "&lt;a href=&apos;x&apos;&gt;Tom &amp; &quot;Jerry&quot;&lt;/a&gt;");
    assert_eq!(text("plain").to_string(), "plain");
    assert_eq!(text("").to_string(), "");
}

#[test]
fn attributes_render_as_key_value() {
    assert_eq!(attribute("data-x", "1").to_string(), "data-x=\"1\"");
    assert_eq!(class("c").to_string(), "class=\"c\"");
    assert_eq!(href("https://x").to_string(), "href=\"https://x\"");
    assert_eq!(type_("text").to_string(), "type=\"text\"");
}

#[test]
fn style_list_joins_pairs() {
    assert_eq!(
        style_list(vec![("color", "red"), ("width", "2px")]).to_string(),
        "style=\"color:red;width:2px\""
    );
    assert_eq!(style_list(vec![]).to_string(), "style=\"\"");
}

#[test]
fn tag_shapes() {
    assert_eq!(
        tag("p", vec![class("a"), class("b")], vec![text("x"), text("y")]).to_string(),
        "<p class=\"a\" class=\"b\">xy</p>"
    );
    assert_eq!(tag("br", vec![class("a")], vec![]).to_string(), "<br class=\"a\"/>");
    assert_eq!(tag("b", vec![], vec![text("x")]).to_string(), "<b>x</b>");
    assert_eq!(tag("b", vec![], vec![]).to_string(), "");
    assert_eq!(div(vec![], vec![empty()]).to_string(), "");
    assert_eq!(img(vec![attribute("src", "s.png")]).to_string(), "<img src=\"s.png\"/>");
}

#[test]
fn collect_nothing_is_empty() {
    assert_eq!(collect(vec![]).to_string(), empty().to_string());
}

#[test]
fn collect_is_associative() {
    let whole = collect(vec![text("a"), text("b"), text("c")]).to_string();
    let left = collect(vec![collect(vec![text("a"), text("b")]), text("c")]).to_string();
    let right = collect(vec![text("a"), collect(vec![text("b"), text("c")])]).to_string();
    assert_eq!(whole, "abc");
    assert_eq!(left, whole);
    assert_eq!(right, whole);
}

#[test]
fn option_include_takes_the_tag_or_nothing() {
    assert_eq!(option_include(Some(text("x"))).to_string(), "x");
    assert_eq!(option_include(None::<Tag>).to_string(), "");
}

#[test]
fn color_classes() {
    assert_eq!(color_class_name(&ColorType::Pink), "notion-pink");
    assert_eq!(color_class_name(&ColorType::BlueBackground), "notion-blue_background");
    assert_eq!(color_class_name(&ColorType::NoColor), "");
}

#[test]
fn page_chunk_request_body() {
    assert_eq!(
        page_chunk_body("abc"),
        "{\"pageId\":\"abc\",\"limit\":100000,\"cursor\":{\"stack\":[[{\"table\":\"block\",\"id\":\"abc\",\"index\":0}]]},\"chunkNumber\":0,\"verticalColumns\":false}"
    );
}
