use vstd::prelude::*;
use vstd::string::StringSliceAdditionalSpecFns;
use vstd::utf8::*;

use crate::text::{find_max_utf8_length, is_truncation, same_text};

verus! {

/// Characters that carry no script information: ASCII letters, digits,
/// punctuation, `_`, space, and the controls tab, line feed, vertical tab,
/// form feed and carriage return.
pub const NEUTRAL_CLASS: &'static str = "[!-/:-@\\[-`{-~\\t\\n\\v\\f\\r 0-9A-Za-z_]";

/// Byte budget of the text that detection hands to the engine.
pub const PROBE_BYTES: usize = 200;

/// The characters that `NEUTRAL_CLASS` matches: together they make up
/// printable ASCII and the five whitespace controls.
pub open spec fn is_neutral_char(c: char) -> bool {
    ('\t' <= c && c <= '\r') || (' ' <= c && c <= '~')
}

/// `s` without its script-neutral characters.
pub open spec fn stripped(s: Seq<char>) -> Seq<char> {
    s.filter(|c: char| !is_neutral_char(c))
}

/// Relies on `regex::Regex::new` and `Regex::replace_all` with an empty
/// replacement: for the single-character class `NEUTRAL_CLASS` every matching
/// character is removed and the others are kept in order.
#[verifier::external_body]
fn remove_class(pattern: &str, text: &str) -> (r: String)
    requires
        pattern@ == NEUTRAL_CLASS@,
    ensures
        r@ == stripped(text@),
{
    regex::Regex::new(pattern).unwrap().replace_all(text, "").into_owned()
}

/// The script family that detection reports.
#[derive(Clone, Copy, Debug, PartialEq, Eq, Structural)]
pub enum ScriptClass {
    Indeterminate,
    Traditional,
    Simplified,
}

impl ScriptClass {
    /// The numeric code of the class: 0 indeterminate, 1 traditional,
    /// 2 simplified.
    pub fn code(&self) -> (r: i8)
        ensures
            r == code_of(*self),
    {
        match self {
            ScriptClass::Indeterminate => 0,
            ScriptClass::Traditional => 1,
            ScriptClass::Simplified => 2,
        }
    }
}

pub open spec fn code_of(c: ScriptClass) -> i8 {
    match c {
        ScriptClass::Indeterminate => 0,
        ScriptClass::Traditional => 1,
        ScriptClass::Simplified => 2,
    }
}

/// The class of a probe text given what the engine made of it in each
/// direction: traditional when converting to simplified changes it, else
/// simplified when converting to traditional changes it, else indeterminate.
pub open spec fn classification(probe: Seq<char>, t2s: Seq<char>, s2t: Seq<char>) -> ScriptClass {
    if probe != t2s {
        ScriptClass::Traditional
    } else if probe != s2t {
        ScriptClass::Simplified
    } else {
        ScriptClass::Indeterminate
    }
}

/// The text that detection converts for `input`: `None` for empty input,
/// else the input without script-neutral characters, cut to at most
/// `PROBE_BYTES` bytes at a character boundary.
pub fn detection_probe(input: &str) -> (r: Option<String>)
    ensures
        input@.len() == 0 <==> r is None,
        r matches Some(p) ==> {
            &&& is_truncation(
                encode_utf8(stripped(input@)),
                PROBE_BYTES as int,
                encode_utf8(p@).len() as int,
            )
            &&& encode_utf8(p@) == encode_utf8(stripped(input@)).subrange(
                0,
                encode_utf8(p@).len() as int,
            )
        },
{
    if input.is_empty() {
        return None;
    }
    let s = remove_class(NEUTRAL_CLASS, input);
    let n = find_max_utf8_length(s.as_str(), PROBE_BYTES);
    let (head, _) = s.as_str().split_at(n);
    let p = head.to_owned();
    proof {
        assert(head.spec_bytes() == encode_utf8(p@));
    }
    Some(p)
}

/// Classifies `probe` from the engine's traditional-to-simplified result
/// `t2s_result` and its simplified-to-traditional result `s2t_result`.
pub fn classify(probe: &str, t2s_result: &str, s2t_result: &str) -> (r: ScriptClass)
    ensures
        r == classification(probe@, t2s_result@, s2t_result@),
{
    if !same_text(probe, t2s_result) {
        ScriptClass::Traditional
    } else if !same_text(probe, s2t_result) {
        ScriptClass::Simplified
    } else {
        ScriptClass::Indeterminate
    }
}

/// Text made only of script-neutral characters leaves an empty probe.
pub proof fn lemma_neutral_text_strips_to_empty(input: Seq<char>)
    requires
        forall|i: int| 0 <= i < input.len() ==> is_neutral_char(#[trigger] input[i]),
    ensures
        stripped(input) == Seq::<char>::empty(),
    decreases input.len(),
{
    reveal_with_fuel(Seq::filter, 1);
    if input.len() > 0 {
        let rest = input.drop_last();
        assert forall|i: int| 0 <= i < rest.len() implies is_neutral_char(#[trigger] rest[i]) by {
            assert(rest[i] == input[i]);
        }
        lemma_neutral_text_strips_to_empty(rest);
        assert(input =~= rest.push(input.last()));
        assert(stripped(input) == stripped(rest));
    } else {
        assert(stripped(input) =~= Seq::<char>::empty());
    }
}

} // verus!
