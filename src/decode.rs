use vstd::prelude::*;
use vstd::string::*;
use crate::json::{same_text, Json};
use crate::parser::{
    ColorType, ContextFormat, FormatType, FormattedText, IntermediaryContextFormattingRepresentation,
    NoContextFormat,
};

verus! {

/// The color that a color name stands for; any other name is `NoColor`.
pub open spec fn color_of(c: Seq<char>) -> ColorType {
    if c == "gray"@ { ColorType::Gray }
    else if c == "brown"@ { ColorType::Brown }
    else if c == "orange"@ { ColorType::Orange }
    else if c == "yellow"@ { ColorType::Yellow }
    else if c == "teal"@ { ColorType::Teal }
    else if c == "blue"@ { ColorType::Blue }
    else if c == "purple"@ { ColorType::Purple }
    else if c == "pink"@ { ColorType::Pink }
    else if c == "red"@ { ColorType::Red }
    else if c == "gray_background"@ { ColorType::GrayBackground }
    else if c == "brown_background"@ { ColorType::BrownBackground }
    else if c == "orange_background"@ { ColorType::OrangeBackground }
    else if c == "yellow_background"@ { ColorType::YellowBackground }
    else if c == "teal_background"@ { ColorType::TealBackground }
    else if c == "blue_background"@ { ColorType::BlueBackground }
    else if c == "purple_background"@ { ColorType::PurpleBackground }
    else if c == "pink_background"@ { ColorType::PinkBackground }
    else if c == "red_background"@ { ColorType::RedBackground }
    else { ColorType::NoColor }
}

/// Reads a color name. It never fails: a name it does not know gives `NoColor`.
pub fn from_color(c: &str) -> (r: ColorType)
    ensures
        r == color_of(c@),
{
    if same_text(c, "gray") { ColorType::Gray }
    else if same_text(c, "brown") { ColorType::Brown }
    else if same_text(c, "orange") { ColorType::Orange }
    else if same_text(c, "yellow") { ColorType::Yellow }
    else if same_text(c, "teal") { ColorType::Teal }
    else if same_text(c, "blue") { ColorType::Blue }
    else if same_text(c, "purple") { ColorType::Purple }
    else if same_text(c, "pink") { ColorType::Pink }
    else if same_text(c, "red") { ColorType::Red }
    else if same_text(c, "gray_background") { ColorType::GrayBackground }
    else if same_text(c, "brown_background") { ColorType::BrownBackground }
    else if same_text(c, "orange_background") { ColorType::OrangeBackground }
    else if same_text(c, "yellow_background") { ColorType::YellowBackground }
    else if same_text(c, "teal_background") { ColorType::TealBackground }
    else if same_text(c, "blue_background") { ColorType::BlueBackground }
    else if same_text(c, "purple_background") { ColorType::PurpleBackground }
    else if same_text(c, "pink_background") { ColorType::PinkBackground }
    else if same_text(c, "red_background") { ColorType::RedBackground }
    else { ColorType::NoColor }
}

/// The mark that a one-letter code stands for; any other code is `Unknown`.
pub open spec fn no_context_of(code: Seq<char>) -> NoContextFormat {
    if code == "b"@ { NoContextFormat::Bold }
    else if code == "i"@ { NoContextFormat::Italic }
    else if code == "s"@ { NoContextFormat::Strike }
    else if code == "_"@ { NoContextFormat::Underline }
    else if code == "c"@ { NoContextFormat::Code }
    else { NoContextFormat::Unknown }
}

pub fn no_context_from_code(code: &str) -> (r: NoContextFormat)
    ensures
        r == no_context_of(code@),
{
    if same_text(code, "b") { NoContextFormat::Bold }
    else if same_text(code, "i") { NoContextFormat::Italic }
    else if same_text(code, "s") { NoContextFormat::Strike }
    else if same_text(code, "_") { NoContextFormat::Underline }
    else if same_text(code, "c") { NoContextFormat::Code }
    else { NoContextFormat::Unknown }
}

/// The code under which a mark without a value is written; none for `Unknown`.
pub open spec fn code_of(f: NoContextFormat) -> Seq<char> {
    match f {
        NoContextFormat::Bold => "b"@,
        NoContextFormat::Italic => "i"@,
        NoContextFormat::Strike => "s"@,
        NoContextFormat::Underline => "_"@,
        NoContextFormat::Code => "c"@,
        NoContextFormat::Unknown => ""@,
    }
}

impl NoContextFormat {
    /// The code under which this mark is written.
    pub fn code(&self) -> (r: &'static str)
        ensures
            r@ == code_of(*self),
    {
        match self {
            NoContextFormat::Bold => "b",
            NoContextFormat::Italic => "i",
            NoContextFormat::Strike => "s",
            NoContextFormat::Underline => "_",
            NoContextFormat::Code => "c",
            NoContextFormat::Unknown => "",
        }
    }
}

/// Reading back the code of a mark gives the mark.
pub proof fn lemma_code_round_trip(f: NoContextFormat)
    ensures
        no_context_of(code_of(f)) == f,
{
    reveal_strlit("b");
    reveal_strlit("i");
    reveal_strlit("s");
    reveal_strlit("_");
    reveal_strlit("c");
    reveal_strlit("");
    assert("b"@[0] == 'b' && "i"@[0] == 'i' && "s"@[0] == 's' && "_"@[0] == '_' && "c"@[0] == 'c');
    assert(""@.len() == 0 && "b"@.len() == 1);
}

/// The mark that a `(code, value)` pair stands for: `a` is a link to the
/// value, `h` a highlight in the color the value names; any other code is `Unknown`.
pub open spec fn context_of(code: Seq<char>, value: String) -> ContextFormat {
    if code == "a"@ {
        ContextFormat::Link(value)
    } else if code == "h"@ {
        ContextFormat::Highlight(color_of(value@))
    } else {
        ContextFormat::Unknown
    }
}

impl From<IntermediaryContextFormattingRepresentation> for ContextFormat {
    fn from(t: IntermediaryContextFormattingRepresentation) -> (r: ContextFormat) {
        let IntermediaryContextFormattingRepresentation::Main((a, b)) = t;
        if same_text(a.as_str(), "a") {
            ContextFormat::Link(b)
        } else if same_text(a.as_str(), "h") {
            ContextFormat::Highlight(from_color(b.as_str()))
        } else {
            ContextFormat::Unknown
        }
    }
}

impl vstd::std_specs::convert::FromSpecImpl<IntermediaryContextFormattingRepresentation> for ContextFormat {
    open spec fn obeys_from_spec() -> bool {
        true
    }

    open spec fn from_spec(t: IntermediaryContextFormattingRepresentation) -> ContextFormat {
        match t {
            IntermediaryContextFormattingRepresentation::Main((a, b)) => context_of(a@, b),
        }
    }
}

/// A mark as it arrives: `[code]` for a mark without a value, `[code, value]`
/// for one with a value. Anything else does not decode.
pub open spec fn mark_of(j: Json) -> Option<FormatType> {
    match j {
        Json::Array(v) => if v@.len() == 1 {
            match v@[0] {
                Json::Str(code) => Option::Some(FormatType::NoContext(no_context_of(code@))),
                _ => Option::None,
            }
        } else if v@.len() == 2 {
            match (v@[0], v@[1]) {
                (Json::Str(code), Json::Str(value)) => Option::Some(FormatType::Context(context_of(code@, value))),
                _ => Option::None,
            }
        } else {
            Option::None
        },
        _ => Option::None,
    }
}

pub fn decode_mark(j: &Json) -> (r: Option<FormatType>)
    ensures
        r == mark_of(*j),
{
    match j {
        Json::Array(v) => {
            if v.len() == 1 {
                match &v[0] {
                    Json::Str(code) => Option::Some(FormatType::NoContext(no_context_from_code(code.as_str()))),
                    _ => Option::None,
                }
            } else if v.len() == 2 {
                match (&v[0], &v[1]) {
                    (Json::Str(code), Json::Str(value)) => {
                        let pair = IntermediaryContextFormattingRepresentation::Main((code.clone(), value.clone()));
                        Option::Some(FormatType::Context(ContextFormat::from(pair)))
                    },
                    _ => Option::None,
                }
            } else {
                Option::None
            }
        },
        _ => Option::None,
    }
}

/// A list of marks decodes when each of them does.
pub open spec fn marks_of(js: Seq<Json>) -> Option<Seq<FormatType>>
    decreases js.len(),
{
    if js.len() == 0 {
        Option::Some(Seq::empty())
    } else {
        match (marks_of(js.drop_last()), mark_of(js.last())) {
            (Option::Some(m), Option::Some(x)) => Option::Some(m.push(x)),
            _ => Option::None,
        }
    }
}

pub fn decode_marks(js: &Vec<Json>) -> (r: Option<Vec<FormatType>>)
    ensures
        match r {
            Option::Some(v) => marks_of(js@) == Option::Some(v@),
            Option::None => marks_of(js@) is None,
        },
{
    let mut out: Vec<FormatType> = Vec::new();
    let mut i: usize = 0;
    while i < js.len()
        invariant
            i <= js@.len(),
            marks_of(js@.subrange(0, i as int)) == Option::Some(out@),
        decreases js@.len() - i,
    {
        assert(js@.subrange(0, i + 1).drop_last() =~= js@.subrange(0, i as int));
        match decode_mark(&js[i]) {
            Option::Some(m) => out.push(m),
            Option::None => {
                proof { lemma_marks_fail_extends(js@, i as int + 1); }
                return Option::None;
            },
        }
        i = i + 1;
    }
    assert(js@.subrange(0, js@.len() as int) =~= js@);
    Option::Some(out)
}

proof fn lemma_marks_fail_extends(js: Seq<Json>, n: int)
    requires
        0 < n <= js.len(),
        marks_of(js.subrange(0, n)) is None,
    ensures
        marks_of(js) is None,
    decreases js.len() - n,
{
    if n < js.len() {
        assert(js.subrange(0, n + 1).drop_last() =~= js.subrange(0, n));
        lemma_marks_fail_extends(js, n + 1);
    } else {
        assert(js.subrange(0, n) =~= js);
    }
}

/// What a span holds: its text and, when it came with a mark list, the marks.
pub open spec fn span_view(t: FormattedText) -> (String, Option<Seq<FormatType>>) {
    match t.formatting {
        Option::Some(f) => (t.text, Option::Some(f@)),
        Option::None => (t.text, Option::None),
    }
}

pub open spec fn all_strings(v: Seq<Json>) -> bool {
    forall|i: int| 0 <= i < v.len() ==> #[trigger] v[i] is Str
}

/// A span as it arrives: an array of one or more strings, of which the first
/// is the text and no marks apply; or a pair of the text and a list of marks.
pub open spec fn span_of(j: Json) -> Option<(String, Option<Seq<FormatType>>)> {
    match j {
        Json::Array(v) => if v@.len() >= 1 && all_strings(v@) {
            match v@[0] {
                Json::Str(t) => Option::Some((t, Option::None)),
                _ => Option::None,
            }
        } else if v@.len() == 2 {
            match (v@[0], v@[1]) {
                (Json::Str(t), Json::Array(ms)) => match marks_of(ms@) {
                    Option::Some(m) => Option::Some((t, Option::Some(m))),
                    Option::None => Option::None,
                },
                _ => Option::None,
            }
        } else {
            Option::None
        },
        _ => Option::None,
    }
}

fn strings_only(v: &Vec<Json>) -> (r: bool)
    ensures
        r == all_strings(v@),
{
    let mut i: usize = 0;
    while i < v.len()
        invariant
            i <= v@.len(),
            forall|k: int| 0 <= k < i ==> #[trigger] v@[k] is Str,
        decreases v@.len() - i,
    {
        match &v[i] {
            Json::Str(_) => {},
            _ => return false,
        }
        i = i + 1;
    }
    true
}

pub fn decode_span(j: &Json) -> (r: Option<FormattedText>)
    ensures
        match r {
            Option::Some(t) => span_of(*j) == Option::Some(span_view(t)),
            Option::None => span_of(*j) is None,
        },
{
    match j {
        Json::Array(v) => {
            if v.len() >= 1 && strings_only(v) {
                match &v[0] {
                    Json::Str(t) => Option::Some(FormattedText { text: t.clone(), formatting: Option::None }),
                    _ => Option::None,
                }
            } else if v.len() == 2 {
                match (&v[0], &v[1]) {
                    (Json::Str(t), Json::Array(ms)) => match decode_marks(ms) {
                        Option::Some(m) => Option::Some(FormattedText { text: t.clone(), formatting: Option::Some(m) }),
                        Option::None => Option::None,
                    },
                    _ => Option::None,
                }
            } else {
                Option::None
            }
        },
        _ => Option::None,
    }
}

/// A title: an array of spans, each of which decodes.
pub open spec fn spans_of(js: Seq<Json>) -> Option<Seq<(String, Option<Seq<FormatType>>)>>
    decreases js.len(),
{
    if js.len() == 0 {
        Option::Some(Seq::empty())
    } else {
        match (spans_of(js.drop_last()), span_of(js.last())) {
            (Option::Some(m), Option::Some(x)) => Option::Some(m.push(x)),
            _ => Option::None,
        }
    }
}

pub open spec fn spans_view(v: Seq<FormattedText>) -> Seq<(String, Option<Seq<FormatType>>)> {
    v.map_values(|t: FormattedText| span_view(t))
}

pub open spec fn title_of(j: Json) -> Option<Seq<(String, Option<Seq<FormatType>>)>> {
    match j {
        Json::Array(v) => spans_of(v@),
        _ => Option::None,
    }
}

pub fn decode_spans(j: &Json) -> (r: Option<Vec<FormattedText>>)
    ensures
        match r {
            Option::Some(v) => title_of(*j) == Option::Some(spans_view(v@)),
            Option::None => title_of(*j) is None,
        },
{
    let js = match j {
        Json::Array(v) => v,
        _ => return Option::None,
    };
    let mut out: Vec<FormattedText> = Vec::new();
    let mut i: usize = 0;
    while i < js.len()
        invariant
            i <= js@.len(),
            spans_of(js@.subrange(0, i as int)) == Option::Some(spans_view(out@)),
            title_of(*j) == spans_of(js@),
        decreases js@.len() - i,
    {
        assert(js@.subrange(0, i + 1).drop_last() =~= js@.subrange(0, i as int));
        match decode_span(&js[i]) {
            Option::Some(t) => {
                let ghost before = out@;
                out.push(t);
                assert(spans_view(out@) =~= spans_view(before).push(span_view(t)));
            },
            Option::None => {
                proof { lemma_spans_fail_extends(js@, i as int + 1); }
                return Option::None;
            },
        }
        i = i + 1;
    }
    assert(js@.subrange(0, js@.len() as int) =~= js@);
    Option::Some(out)
}

proof fn lemma_spans_fail_extends(js: Seq<Json>, n: int)
    requires
        0 < n <= js.len(),
        spans_of(js.subrange(0, n)) is None,
    ensures
        spans_of(js) is None,
    decreases js.len() - n,
{
    if n < js.len() {
        assert(js.subrange(0, n + 1).drop_last() =~= js.subrange(0, n));
        lemma_spans_fail_extends(js, n + 1);
    } else {
        assert(js.subrange(0, n) =~= js);
    }
}

} // verus!
