use vstd::prelude::*;
use vstd::string::*;
use crate::json::{field, get_field, same_text, same_tree, Json, Number};
use crate::parser::{
    BaseValueType, BlockFormatType, ColorType, ColumnFormat, FigmaFormat, FigmaProperties, FormatType,
    FormattedText, ImageFormat, ImageProperties, PageFormat, PageProperties, RootBlockType,
    TextProperties, TodoProperties,
};
use crate::decode::{decode_spans, from_color, color_of, spans_view, title_of};
use crate::fields::{
    bool_at, decode_str_list, decode_str_rows, decode_yes_no_rows, get_bool, get_i64, get_number,
    get_opt_bool, get_opt_i64, get_opt_number, get_opt_str, get_str, int_at, is_str_list, is_str_rows,
    is_yes_no_rows, missing_at, number_at, opt_bool_at, opt_int_at, opt_number_at, opt_str_at, str_at,
    str_list_ok, str_rows_ok, yes_no_rows_ok,
};

verus! {

pub type SpanView = (String, Option<Seq<FormatType>>);

/// The title held by a properties object.
pub open spec fn props_title(p: Json) -> Option<Seq<SpanView>> {
    match field(p, "title"@) {
        Option::Some(t) => title_of(t),
        Option::None => Option::None,
    }
}

/// Optional text properties: absent or null gives `Some(None)`; otherwise
/// they decode when their title does.
pub open spec fn opt_text_props(j: Json) -> Option<Option<Seq<SpanView>>> {
    match field(j, "properties"@) {
        Option::None => Option::Some(Option::None),
        Option::Some(Json::Null) => Option::Some(Option::None),
        Option::Some(p) => match props_title(p) {
            Option::Some(t) => Option::Some(Option::Some(t)),
            Option::None => Option::None,
        },
    }
}

pub open spec fn text_props_view(p: Option<TextProperties>) -> Option<Seq<SpanView>> {
    match p {
        Option::Some(t) => Option::Some(spans_view(t.title@)),
        Option::None => Option::None,
    }
}

fn decode_title(p: &Json) -> (r: Option<Vec<FormattedText>>)
    ensures
        match r {
            Option::Some(v) => props_title(*p) == Option::Some(spans_view(v@)),
            Option::None => props_title(*p) is None,
        },
{
    match get_field(p, "title") {
        Option::Some(t) => decode_spans(t),
        Option::None => Option::None,
    }
}

fn decode_opt_text_props(j: &Json) -> (r: Option<Option<TextProperties>>)
    ensures
        match r {
            Option::Some(p) => opt_text_props(*j) == Option::Some(text_props_view(p)),
            Option::None => opt_text_props(*j) is None,
        },
{
    match get_field(j, "properties") {
        Option::None => Option::Some(Option::None),
        Option::Some(Json::Null) => Option::Some(Option::None),
        Option::Some(p) => match decode_title(p) {
            Option::Some(t) => Option::Some(Option::Some(TextProperties { title: t })),
            Option::None => Option::None,
        },
    }
}

/// Optional to-do properties: a title of any shape and a `checked` grid of
/// `yes` / `no`.
pub open spec fn opt_todo_ok(j: Json) -> bool {
    match field(j, "properties"@) {
        Option::None => true,
        Option::Some(Json::Null) => true,
        Option::Some(p) => field(p, "title"@) is Some && match field(p, "checked"@) {
            Option::Some(c) => yes_no_rows_ok(c),
            Option::None => false,
        },
    }
}

pub open spec fn is_opt_todo_of(j: Json, t: Option<TodoProperties>) -> bool {
    match field(j, "properties"@) {
        Option::None => t is None,
        Option::Some(Json::Null) => t is None,
        Option::Some(p) => match (t, field(p, "title"@), field(p, "checked"@)) {
            (Option::Some(tp), Option::Some(title), Option::Some(c)) => same_tree(tp.title, title)
                && is_yes_no_rows(c, tp.checked@),
            _ => false,
        },
    }
}

fn decode_opt_todo(j: &Json) -> (r: Option<Option<TodoProperties>>)
    ensures
        r is Some <==> opt_todo_ok(*j),
        r matches Option::Some(t) ==> is_opt_todo_of(*j, t),
{
    match get_field(j, "properties") {
        Option::None => Option::Some(Option::None),
        Option::Some(Json::Null) => Option::Some(Option::None),
        Option::Some(p) => {
            let title = match get_field(p, "title") {
                Option::Some(t) => t.copy(),
                Option::None => return Option::None,
            };
            match get_field(p, "checked") {
                Option::Some(c) => match decode_yes_no_rows(c) {
                    Option::Some(checked) => Option::Some(Option::Some(TodoProperties { title, checked })),
                    Option::None => Option::None,
                },
                Option::None => Option::None,
            }
        },
    }
}

/// The members of an image block's `format`.
pub open spec fn image_format_of(f: Json) -> Option<(i64, i64, Option<i64>, Option<bool>, Option<bool>, Number, bool)> {
    match (int_at(f, "block_width"@), int_at(f, "block_height"@), opt_int_at(f, "display_source"@),
        opt_bool_at(f, "block_full_width"@), opt_bool_at(f, "block_page_width"@),
        number_at(f, "block_aspect_ratio"@), bool_at(f, "block_preserve_scale"@)) {
        (Option::Some(w), Option::Some(h), Option::Some(d), Option::Some(fw), Option::Some(pw), Option::Some(a), Option::Some(p)) =>
            Option::Some((w, h, d, fw, pw, a, p)),
        _ => Option::None,
    }
}

pub open spec fn image_format_view(f: ImageFormat) -> (i64, i64, Option<i64>, Option<bool>, Option<bool>, Number, bool) {
    (f.block_width, f.block_height, f.display_source, f.block_full_width, f.block_page_width,
        f.block_aspect_ratio, f.block_preserve_scale)
}

fn decode_image_format(f: &Json) -> (r: Option<ImageFormat>)
    ensures
        match r {
            Option::Some(v) => image_format_of(*f) == Option::Some(image_format_view(v)),
            Option::None => image_format_of(*f) is None,
        },
{
    let block_width = match get_i64(f, "block_width") { Option::Some(x) => x, Option::None => return Option::None };
    let block_height = match get_i64(f, "block_height") { Option::Some(x) => x, Option::None => return Option::None };
    let display_source = match get_opt_i64(f, "display_source") { Option::Some(x) => x, Option::None => return Option::None };
    let block_full_width = match get_opt_bool(f, "block_full_width") { Option::Some(x) => x, Option::None => return Option::None };
    let block_page_width = match get_opt_bool(f, "block_page_width") { Option::Some(x) => x, Option::None => return Option::None };
    let block_aspect_ratio = match get_number(f, "block_aspect_ratio") { Option::Some(x) => x, Option::None => return Option::None };
    let block_preserve_scale = match get_bool(f, "block_preserve_scale") { Option::Some(x) => x, Option::None => return Option::None };
    Option::Some(ImageFormat {
        block_width,
        block_height,
        display_source,
        block_full_width,
        block_page_width,
        block_aspect_ratio,
        block_preserve_scale,
    })
}

/// An image block: `properties` with a `source` grid and an optional
/// `caption` grid of strings, a `format`, and `file_ids`.
pub open spec fn image_ok(j: Json) -> bool {
    &&& field(j, "properties"@) matches Option::Some(p) && (match field(p, "source"@) {
        Option::Some(s) => str_rows_ok(s),
        Option::None => false,
    }) && (missing_at(p, "caption"@) || (field(p, "caption"@) matches Option::Some(c) && str_rows_ok(c)))
    &&& field(j, "format"@) matches Option::Some(f) && image_format_of(f) is Some
    &&& field(j, "file_ids"@) matches Option::Some(ids) && str_list_ok(ids)
}

pub open spec fn is_image_of(j: Json, props: ImageProperties, format: ImageFormat, file_ids: Vec<String>) -> bool {
    &&& field(j, "properties"@) matches Option::Some(p) && (match field(p, "source"@) {
        Option::Some(s) => is_str_rows(s, props.source@),
        Option::None => false,
    }) && match props.caption {
        Option::None => missing_at(p, "caption"@),
        Option::Some(c) => field(p, "caption"@) matches Option::Some(cj) && is_str_rows(cj, c@),
    }
    &&& field(j, "format"@) matches Option::Some(f) && image_format_of(f) == Option::Some(image_format_view(format))
    &&& field(j, "file_ids"@) matches Option::Some(ids) && is_str_list(ids, file_ids@)
}

fn decode_image(j: &Json) -> (r: Option<RootBlockType>)
    ensures
        r is Some <==> image_ok(*j),
        r matches Option::Some(b) ==> (b matches RootBlockType::Image { properties, format, file_ids } && is_image_of(*j, properties, format, file_ids)),
{
    let p = match get_field(j, "properties") { Option::Some(p) => p, Option::None => return Option::None };
    let source = match get_field(p, "source") {
        Option::Some(s) => match decode_str_rows(s) { Option::Some(x) => x, Option::None => return Option::None },
        Option::None => return Option::None,
    };
    let caption = match get_field(p, "caption") {
        Option::None => Option::None,
        Option::Some(Json::Null) => Option::None,
        Option::Some(c) => match decode_str_rows(c) { Option::Some(x) => Option::Some(x), Option::None => return Option::None },
    };
    let format = match get_field(j, "format") {
        Option::Some(f) => match decode_image_format(f) { Option::Some(x) => x, Option::None => return Option::None },
        Option::None => return Option::None,
    };
    let file_ids = match get_field(j, "file_ids") {
        Option::Some(ids) => match decode_str_list(ids) { Option::Some(x) => x, Option::None => return Option::None },
        Option::None => return Option::None,
    };
    Option::Some(RootBlockType::Image { properties: ImageProperties { source, caption }, format, file_ids })
}

/// The members of a page block's `format`; each may be absent or null.
pub open spec fn page_format_of(f: Json) -> Option<(Option<bool>, Option<bool>, Option<Number>, Option<bool>, Option<String>, Option<String>)> {
    if !(f is Object) {
        Option::None
    } else {
        match (opt_bool_at(f, "page_full_width"@), opt_bool_at(f, "page_small_text"@),
            opt_number_at(f, "page_cover_position"@), opt_bool_at(f, "block_locked"@),
            opt_str_at(f, "page_cover"@), opt_str_at(f, "page_icon"@)) {
            (Option::Some(a), Option::Some(b), Option::Some(c), Option::Some(d), Option::Some(e), Option::Some(g)) =>
                Option::Some((a, b, c, d, e, g)),
            _ => Option::None,
        }
    }
}

pub open spec fn page_format_view(f: PageFormat) -> (Option<bool>, Option<bool>, Option<Number>, Option<bool>, Option<String>, Option<String>) {
    (f.page_full_width, f.page_small_text, f.page_cover_position, f.block_locked, f.page_cover, f.page_icon)
}

fn decode_page_format(f: &Json) -> (r: Option<PageFormat>)
    ensures
        match r {
            Option::Some(v) => page_format_of(*f) == Option::Some(page_format_view(v)),
            Option::None => page_format_of(*f) is None,
        },
{
    match f {
        Json::Object(_) => {},
        _ => return Option::None,
    }
    let page_full_width = match get_opt_bool(f, "page_full_width") { Option::Some(x) => x, Option::None => return Option::None };
    let page_small_text = match get_opt_bool(f, "page_small_text") { Option::Some(x) => x, Option::None => return Option::None };
    let page_cover_position = match get_opt_number(f, "page_cover_position") { Option::Some(x) => x, Option::None => return Option::None };
    let block_locked = match get_opt_bool(f, "block_locked") { Option::Some(x) => x, Option::None => return Option::None };
    let page_cover = match get_opt_str(f, "page_cover") { Option::Some(x) => x, Option::None => return Option::None };
    let page_icon = match get_opt_str(f, "page_icon") { Option::Some(x) => x, Option::None => return Option::None };
    Option::Some(PageFormat { page_full_width, page_small_text, page_cover_position, block_locked, page_cover, page_icon })
}

/// A page block: an optional `format`, optional `file_ids`, and `properties`
/// with a title.
pub open spec fn page_ok(j: Json) -> bool {
    &&& missing_at(j, "format"@) || (field(j, "format"@) matches Option::Some(f) && page_format_of(f) is Some)
    &&& missing_at(j, "file_ids"@) || (field(j, "file_ids"@) matches Option::Some(ids) && str_list_ok(ids))
    &&& field(j, "properties"@) matches Option::Some(p) && props_title(p) is Some
}

pub open spec fn is_page_of(j: Json, format: Option<PageFormat>, file_ids: Option<Vec<String>>, properties: PageProperties) -> bool {
    &&& match format {
        Option::None => missing_at(j, "format"@),
        Option::Some(pf) => field(j, "format"@) matches Option::Some(f) && page_format_of(f) == Option::Some(page_format_view(pf)),
    }
    &&& match file_ids {
        Option::None => missing_at(j, "file_ids"@),
        Option::Some(v) => field(j, "file_ids"@) matches Option::Some(ids) && is_str_list(ids, v@),
    }
    &&& field(j, "properties"@) matches Option::Some(p) && props_title(p) == Option::Some(spans_view(properties.title@))
}

fn decode_page(j: &Json) -> (r: Option<RootBlockType>)
    ensures
        r is Some <==> page_ok(*j),
        r matches Option::Some(b) ==> (b matches RootBlockType::Page { format, file_ids, properties } && is_page_of(*j, format, file_ids, properties)),
{
    let format = match get_field(j, "format") {
        Option::None => Option::None,
        Option::Some(Json::Null) => Option::None,
        Option::Some(f) => match decode_page_format(f) { Option::Some(x) => Option::Some(x), Option::None => return Option::None },
    };
    let file_ids = match get_field(j, "file_ids") {
        Option::None => Option::None,
        Option::Some(Json::Null) => Option::None,
        Option::Some(ids) => match decode_str_list(ids) { Option::Some(x) => Option::Some(x), Option::None => return Option::None },
    };
    let title = match get_field(j, "properties") {
        Option::Some(p) => match decode_title(p) { Option::Some(t) => t, Option::None => return Option::None },
        Option::None => return Option::None,
    };
    Option::Some(RootBlockType::Page { format, file_ids, properties: PageProperties { title } })
}

/// A figma block: optional `properties` (an object whose `source` may be
/// anything) and an optional `format` with an optional `block_height`.
pub open spec fn figma_ok(j: Json) -> bool {
    &&& missing_at(j, "properties"@) || (field(j, "properties"@) matches Option::Some(p) && p is Object)
    &&& missing_at(j, "format"@) || (field(j, "format"@) matches Option::Some(f) && f is Object && opt_int_at(f, "block_height"@) is Some)
}

pub open spec fn is_figma_of(j: Json, properties: Option<FigmaProperties>, format: Option<FigmaFormat>) -> bool {
    &&& match properties {
        Option::None => missing_at(j, "properties"@),
        Option::Some(fp) => field(j, "properties"@) matches Option::Some(p) && match fp.source {
            Option::None => missing_at(p, "source"@),
            Option::Some(src) => field(p, "source"@) matches Option::Some(sj) && same_tree(src, sj),
        },
    }
    &&& match format {
        Option::None => missing_at(j, "format"@),
        Option::Some(ff) => field(j, "format"@) matches Option::Some(f) && opt_int_at(f, "block_height"@) == Option::Some(ff.block_height),
    }
}

fn decode_figma(j: &Json) -> (r: Option<RootBlockType>)
    ensures
        r is Some <==> figma_ok(*j),
        r matches Option::Some(b) ==> (b matches RootBlockType::Figma { properties, format } && is_figma_of(*j, properties, format)),
{
    let properties = match get_field(j, "properties") {
        Option::None => Option::None,
        Option::Some(Json::Null) => Option::None,
        Option::Some(p) => match p {
            Json::Object(_) => {
                let source = match get_field(p, "source") {
                    Option::None => Option::None,
                    Option::Some(Json::Null) => Option::None,
                    Option::Some(s) => Option::Some(s.copy()),
                };
                Option::Some(FigmaProperties { source })
            },
            _ => return Option::None,
        },
    };
    let format = match get_field(j, "format") {
        Option::None => Option::None,
        Option::Some(Json::Null) => Option::None,
        Option::Some(f) => match f {
            Json::Object(_) => match get_opt_i64(f, "block_height") {
                Option::Some(h) => Option::Some(FigmaFormat { block_height: h }),
                Option::None => return Option::None,
            },
            _ => return Option::None,
        },
    };
    Option::Some(RootBlockType::Figma { properties, format })
}

/// The kinds whose only payload is optional text properties, by their
/// `type` name.
pub open spec fn text_kind(t: Seq<char>, p: Option<TextProperties>) -> Option<RootBlockType> {
    if t == "text"@ { Option::Some(RootBlockType::Text { properties: p }) }
    else if t == "bulleted_list"@ { Option::Some(RootBlockType::BulletedList { properties: p }) }
    else if t == "numbered_list"@ { Option::Some(RootBlockType::NumberedList { properties: p }) }
    else if t == "toggle"@ { Option::Some(RootBlockType::Toggle { properties: p }) }
    else if t == "header"@ { Option::Some(RootBlockType::Header { properties: p }) }
    else if t == "sub_header"@ { Option::Some(RootBlockType::SubHeader { properties: p }) }
    else if t == "sub_sub_header"@ { Option::Some(RootBlockType::SubSubHeader { properties: p }) }
    else if t == "quote"@ { Option::Some(RootBlockType::Quote { properties: p }) }
    else { Option::None }
}

pub open spec fn is_text_kind_name(t: Seq<char>) -> bool {
    t == "text"@ || t == "bulleted_list"@ || t == "numbered_list"@ || t == "toggle"@ || t == "header"@
        || t == "sub_header"@ || t == "sub_sub_header"@ || t == "quote"@
}

/// Whether a block's `type` names a known kind whose payload decodes.
pub open spec fn kind_ok(j: Json) -> bool {
    match str_at(j, "type"@) {
        Option::Some(t) => if is_text_kind_name(t@) {
            opt_text_props(j) is Some
        } else if t@ == "to_do"@ {
            opt_todo_ok(j)
        } else if t@ == "divider"@ || t@ == "column_list"@ {
            true
        } else if t@ == "column"@ {
            field(j, "format"@) matches Option::Some(f) && number_at(f, "column_ratio"@) is Some
        } else if t@ == "image"@ {
            image_ok(j)
        } else if t@ == "page"@ {
            page_ok(j)
        } else if t@ == "figma"@ {
            figma_ok(j)
        } else {
            false
        },
        Option::None => false,
    }
}

/// `b` is the kind, with its payload, that `j` describes.
pub open spec fn is_kind_of(j: Json, b: RootBlockType) -> bool {
    match str_at(j, "type"@) {
        Option::Some(t) => if is_text_kind_name(t@) {
            exists|p: Option<TextProperties>| #[trigger] text_kind(t@, p) == Option::Some(b)
                && opt_text_props(j) == Option::Some(text_props_view(p))
        } else if t@ == "to_do"@ {
            b matches RootBlockType::ToDo { properties } && is_opt_todo_of(j, properties)
        } else if t@ == "divider"@ {
            b is Divider
        } else if t@ == "column_list"@ {
            b is ColumnList
        } else if t@ == "column"@ {
            b matches RootBlockType::Column { format } && field(j, "format"@) matches Option::Some(f)
                && number_at(f, "column_ratio"@) == Option::Some(format.column_ratio)
        } else if t@ == "image"@ {
            b matches RootBlockType::Image { properties, format, file_ids } && is_image_of(j, properties, format, file_ids)
        } else if t@ == "page"@ {
            b matches RootBlockType::Page { format, file_ids, properties } && is_page_of(j, format, file_ids, properties)
        } else if t@ == "figma"@ {
            b matches RootBlockType::Figma { properties, format } && is_figma_of(j, properties, format)
        } else {
            false
        },
        Option::None => false,
    }
}

fn text_kind_exec(t: &str, p: Option<TextProperties>) -> (r: Option<RootBlockType>)
    ensures
        r == text_kind(t@, p),
{
    if same_text(t, "text") { Option::Some(RootBlockType::Text { properties: p }) }
    else if same_text(t, "bulleted_list") { Option::Some(RootBlockType::BulletedList { properties: p }) }
    else if same_text(t, "numbered_list") { Option::Some(RootBlockType::NumberedList { properties: p }) }
    else if same_text(t, "toggle") { Option::Some(RootBlockType::Toggle { properties: p }) }
    else if same_text(t, "header") { Option::Some(RootBlockType::Header { properties: p }) }
    else if same_text(t, "sub_header") { Option::Some(RootBlockType::SubHeader { properties: p }) }
    else if same_text(t, "sub_sub_header") { Option::Some(RootBlockType::SubSubHeader { properties: p }) }
    else if same_text(t, "quote") { Option::Some(RootBlockType::Quote { properties: p }) }
    else { Option::None }
}

fn text_kind_name(t: &str) -> (r: bool)
    ensures
        r == is_text_kind_name(t@),
{
    same_text(t, "text") || same_text(t, "bulleted_list") || same_text(t, "numbered_list")
        || same_text(t, "toggle") || same_text(t, "header") || same_text(t, "sub_header")
        || same_text(t, "sub_sub_header") || same_text(t, "quote")
}

/// Reads a block's kind from its `type` and the payload that kind carries.
pub fn decode_kind(j: &Json) -> (r: Option<RootBlockType>)
    ensures
        r is Some <==> kind_ok(*j),
        r matches Option::Some(b) ==> is_kind_of(*j, b),
{
    let t = match get_str(j, "type") {
        Option::Some(t) => t,
        Option::None => return Option::None,
    };
    let t = t.as_str();
    if text_kind_name(t) {
        match decode_opt_text_props(j) {
            Option::Some(p) => {
                let ghost pv = p;
                let r = text_kind_exec(t, p);
                assert(text_kind(t@, pv) == r);
                r
            },
            Option::None => Option::None,
        }
    } else if same_text(t, "to_do") {
        match decode_opt_todo(j) {
            Option::Some(p) => Option::Some(RootBlockType::ToDo { properties: p }),
            Option::None => Option::None,
        }
    } else if same_text(t, "divider") {
        Option::Some(RootBlockType::Divider)
    } else if same_text(t, "column_list") {
        Option::Some(RootBlockType::ColumnList)
    } else if same_text(t, "column") {
        match get_field(j, "format") {
            Option::Some(f) => match get_number(f, "column_ratio") {
                Option::Some(n) => Option::Some(RootBlockType::Column { format: ColumnFormat { column_ratio: n } }),
                Option::None => Option::None,
            },
            Option::None => Option::None,
        }
    } else if same_text(t, "image") {
        decode_image(j)
    } else if same_text(t, "page") {
        decode_page(j)
    } else if same_text(t, "figma") {
        decode_figma(j)
    } else {
        Option::None
    }
}

/// The shared `format` of a block: absent or null, or an object whose
/// optional `block_color` is a color name. Unknown names give `NoColor`.
pub open spec fn block_format_of(j: Json) -> Option<Option<Option<ColorType>>> {
    match field(j, "format"@) {
        Option::None => Option::Some(Option::None),
        Option::Some(Json::Null) => Option::Some(Option::None),
        Option::Some(f) => if !(f is Object) {
            Option::None
        } else {
            match field(f, "block_color"@) {
                Option::None => Option::Some(Option::Some(Option::None)),
                Option::Some(Json::Null) => Option::Some(Option::Some(Option::None)),
                Option::Some(Json::Str(c)) => Option::Some(Option::Some(Option::Some(color_of(c@)))),
                _ => Option::None,
            }
        },
    }
}

pub open spec fn block_format_view(f: Option<BlockFormatType>) -> Option<Option<ColorType>> {
    match f {
        Option::Some(b) => Option::Some(b.block_color),
        Option::None => Option::None,
    }
}

fn decode_block_format(j: &Json) -> (r: Option<Option<BlockFormatType>>)
    ensures
        match r {
            Option::Some(f) => block_format_of(*j) == Option::Some(block_format_view(f)),
            Option::None => block_format_of(*j) is None,
        },
{
    match get_field(j, "format") {
        Option::None => Option::Some(Option::None),
        Option::Some(Json::Null) => Option::Some(Option::None),
        Option::Some(f) => match f {
            Json::Object(_) => match get_field(f, "block_color") {
                Option::None => Option::Some(Option::Some(BlockFormatType { block_color: Option::None })),
                Option::Some(Json::Null) => Option::Some(Option::Some(BlockFormatType { block_color: Option::None })),
                Option::Some(Json::Str(c)) => Option::Some(Option::Some(BlockFormatType { block_color: Option::Some(from_color(c.as_str())) })),
                _ => Option::None,
            },
            _ => Option::None,
        },
    }
}

/// The optional list of child ids.
pub open spec fn content_ok(j: Json) -> bool {
    missing_at(j, "content"@) || (field(j, "content"@) matches Option::Some(c) && str_list_ok(c))
}

pub open spec fn is_content_of(j: Json, content: Option<Vec<String>>) -> bool {
    match content {
        Option::None => missing_at(j, "content"@),
        Option::Some(v) => field(j, "content"@) matches Option::Some(c) && is_str_list(c, v@),
    }
}

/// Whether a block value decodes: every required member is present with its
/// shape, every optional one is absent, null or of its shape, and the kind decodes.
pub open spec fn base_ok(j: Json) -> bool {
    &&& str_at(j, "id"@) is Some
    &&& int_at(j, "version"@) is Some
    &&& int_at(j, "created_time"@) is Some
    &&& int_at(j, "last_edited_time"@) is Some
    &&& str_at(j, "parent_id"@) is Some
    &&& str_at(j, "parent_table"@) is Some
    &&& bool_at(j, "alive"@) is Some
    &&& str_at(j, "created_by_table"@) is Some
    &&& str_at(j, "created_by_id"@) is Some
    &&& str_at(j, "last_edited_by_table"@) is Some
    &&& str_at(j, "last_edited_by_id"@) is Some
    &&& opt_int_at(j, "shard_id"@) is Some
    &&& opt_str_at(j, "space_id"@) is Some
    &&& content_ok(j)
    &&& block_format_of(j) is Some
    &&& kind_ok(j)
}

/// `v` is the block that `j` describes.
pub open spec fn is_base_of(j: Json, v: BaseValueType) -> bool {
    &&& str_at(j, "id"@) == Option::Some(v.id)
    &&& int_at(j, "version"@) == Option::Some(v.version)
    &&& int_at(j, "created_time"@) == Option::Some(v.created_time)
    &&& int_at(j, "last_edited_time"@) == Option::Some(v.last_edited_time)
    &&& str_at(j, "parent_id"@) == Option::Some(v.parent_id)
    &&& str_at(j, "parent_table"@) == Option::Some(v.parent_table)
    &&& bool_at(j, "alive"@) == Option::Some(v.alive)
    &&& str_at(j, "created_by_table"@) == Option::Some(v.created_by_table)
    &&& str_at(j, "created_by_id"@) == Option::Some(v.created_by_id)
    &&& str_at(j, "last_edited_by_table"@) == Option::Some(v.last_edited_by_table)
    &&& str_at(j, "last_edited_by_id"@) == Option::Some(v.last_edited_by_id)
    &&& opt_int_at(j, "shard_id"@) == Option::Some(v.shard_id)
    &&& opt_str_at(j, "space_id"@) == Option::Some(v.space_id)
    &&& is_content_of(j, v.content)
    &&& block_format_of(j) == Option::Some(block_format_view(v.format))
    &&& is_kind_of(j, v.block)
}

/// Decodes one block value, as `base_ok` and `is_base_of` describe.
pub fn decode_base(j: &Json) -> (r: Option<BaseValueType>)
    ensures
        r is Some <==> base_ok(*j),
        r matches Option::Some(v) ==> is_base_of(*j, v),
{
    let id = match get_str(j, "id") { Option::Some(x) => x, Option::None => return Option::None };
    let version = match get_i64(j, "version") { Option::Some(x) => x, Option::None => return Option::None };
    let created_time = match get_i64(j, "created_time") { Option::Some(x) => x, Option::None => return Option::None };
    let last_edited_time = match get_i64(j, "last_edited_time") { Option::Some(x) => x, Option::None => return Option::None };
    let parent_id = match get_str(j, "parent_id") { Option::Some(x) => x, Option::None => return Option::None };
    let parent_table = match get_str(j, "parent_table") { Option::Some(x) => x, Option::None => return Option::None };
    let alive = match get_bool(j, "alive") { Option::Some(x) => x, Option::None => return Option::None };
    let created_by_table = match get_str(j, "created_by_table") { Option::Some(x) => x, Option::None => return Option::None };
    let created_by_id = match get_str(j, "created_by_id") { Option::Some(x) => x, Option::None => return Option::None };
    let last_edited_by_table = match get_str(j, "last_edited_by_table") { Option::Some(x) => x, Option::None => return Option::None };
    let last_edited_by_id = match get_str(j, "last_edited_by_id") { Option::Some(x) => x, Option::None => return Option::None };
    let shard_id = match get_opt_i64(j, "shard_id") { Option::Some(x) => x, Option::None => return Option::None };
    let space_id = match get_opt_str(j, "space_id") { Option::Some(x) => x, Option::None => return Option::None };
    let content = match get_field(j, "content") {
        Option::None => Option::None,
        Option::Some(Json::Null) => Option::None,
        Option::Some(c) => match decode_str_list(c) { Option::Some(x) => Option::Some(x), Option::None => return Option::None },
    };
    let format = match decode_block_format(j) { Option::Some(x) => x, Option::None => return Option::None };
    let block = match decode_kind(j) { Option::Some(x) => x, Option::None => return Option::None };
    Option::Some(BaseValueType {
        id,
        version,
        created_time,
        last_edited_time,
        parent_id,
        parent_table,
        alive,
        created_by_table,
        created_by_id,
        last_edited_by_table,
        last_edited_by_id,
        shard_id,
        space_id,
        content,
        format,
        block,
    })
}

} // verus!
