use std::borrow::Cow;
use vstd::prelude::*;

use crate::config::{name_of, resolve_config, resolved};
use crate::text::{from_chars, to_chars};

verus! {

/// Whether a configuration name asks for mainland quotes to become
/// Hong Kong / Taiwan corner brackets: the name starts with `s`, or holds
/// no `s` at all.
pub open spec fn is_s2t_direction(config: Seq<char>) -> bool {
    (config.len() > 0 && config[0] == 's') || !config.contains('s')
}

/// Mainland quotation marks to corner brackets; other characters unchanged.
pub open spec fn s2t_punct(c: char) -> char {
    if c == '\u{201C}' { '\u{300C}' }
    else if c == '\u{201D}' { '\u{300D}' }
    else if c == '\u{2018}' { '\u{300E}' }
    else if c == '\u{2019}' { '\u{300F}' }
    else { c }
}

/// Corner brackets to mainland quotation marks; other characters unchanged.
pub open spec fn t2s_punct(c: char) -> char {
    if c == '\u{300C}' { '\u{201C}' }
    else if c == '\u{300D}' { '\u{201D}' }
    else if c == '\u{300E}' { '\u{2018}' }
    else if c == '\u{300F}' { '\u{2019}' }
    else { c }
}

/// The four mainland quotation marks.
pub open spec fn is_mainland_quote(c: char) -> bool {
    c == '\u{201C}' || c == '\u{201D}' || c == '\u{2018}' || c == '\u{2019}'
}

/// The four corner brackets.
pub open spec fn is_corner_quote(c: char) -> bool {
    c == '\u{300C}' || c == '\u{300D}' || c == '\u{300E}' || c == '\u{300F}'
}

/// The glyphs that the direction of `config` rewrites.
pub open spec fn is_source_glyph(c: char, config: Seq<char>) -> bool {
    if is_s2t_direction(config) { is_mainland_quote(c) } else { is_corner_quote(c) }
}

/// `text` with each quotation glyph rewritten for the direction of `config`.
pub open spec fn normalized(text: Seq<char>, config: Seq<char>) -> Seq<char> {
    if is_s2t_direction(config) {
        text.map_values(|c: char| s2t_punct(c))
    } else {
        text.map_values(|c: char| t2s_punct(c))
    }
}

/// Decides the quote direction for a configuration name.
pub fn is_s2t_config(config: &str) -> (r: bool)
    ensures
        r == is_s2t_direction(config@),
{
    let cs = to_chars(config);
    if cs.len() > 0 && cs[0] == 's' {
        return true;
    }
    let mut i: usize = 0;
    while i < cs.len()
        invariant
            cs@ == config@,
            i <= cs@.len(),
            !(cs@.len() > 0 && cs@[0] == 's'),
            forall|j: int| 0 <= j < i ==> cs@[j] != 's',
        decreases cs.len() - i,
    {
        if cs[i] == 's' {
            assert(config@.contains(config@[i as int]));
            return false;
        }
        i += 1;
    }
    true
}

fn rewrite_glyph(c: char, s2t: bool) -> (r: char)
    ensures
        r == (if s2t { s2t_punct(c) } else { t2s_punct(c) }),
{
    if s2t {
        if c == '\u{201C}' { '\u{300C}' }
        else if c == '\u{201D}' { '\u{300D}' }
        else if c == '\u{2018}' { '\u{300E}' }
        else if c == '\u{2019}' { '\u{300F}' }
        else { c }
    } else {
        if c == '\u{300C}' { '\u{201C}' }
        else if c == '\u{300D}' { '\u{201D}' }
        else if c == '\u{300E}' { '\u{2018}' }
        else if c == '\u{300F}' { '\u{2019}' }
        else { c }
    }
}

/// Rewrites quotation glyphs of `sv` for the direction of the configuration
/// that `config` selects (the default one when it names none). When `sv`
/// holds none of the glyphs to rewrite, it is handed back borrowed.
pub fn convert_punctuation_cow<'a>(sv: &'a str, config: &str) -> (r: Cow<'a, str>)
    ensures
        r@ == normalized(sv@, name_of(resolved(config@))),
        (forall|i: int|
            0 <= i < sv@.len() ==> !is_source_glyph(#[trigger] sv@[i], name_of(resolved(config@))))
            <==> r is Borrowed,
{
    let chosen = resolve_config(config);
    let name = chosen.name();
    let s2t = is_s2t_config(name.as_str());
    let ghost dir = name@;
    let cs = to_chars(sv);
    let mut needs = false;
    let mut i: usize = 0;
    while i < cs.len() && !needs
        invariant
            cs@ == sv@,
            s2t == is_s2t_direction(dir),
            i <= cs@.len(),
            needs ==> exists|j: int| 0 <= j < cs@.len() && is_source_glyph(#[trigger] cs@[j], dir),
            !needs ==> forall|j: int| 0 <= j < i ==> !is_source_glyph(#[trigger] cs@[j], dir),
        decreases cs.len() - i + (if needs { 0int } else { 1int }),
    {
        let c = cs[i];
        let hit = if s2t {
            c == '\u{201C}' || c == '\u{201D}' || c == '\u{2018}' || c == '\u{2019}'
        } else {
            c == '\u{300C}' || c == '\u{300D}' || c == '\u{300E}' || c == '\u{300F}'
        };
        if hit {
            assert(is_source_glyph(cs@[i as int], dir));
            needs = true;
        } else {
            i += 1;
        }
    }
    if !needs {
        proof {
            assert(normalized(sv@, dir) =~= sv@);
        }
        return Cow::Borrowed(sv);
    }
    let mut out: Vec<char> = Vec::with_capacity(cs.len());
    let mut k: usize = 0;
    while k < cs.len()
        invariant
            cs@ == sv@,
            s2t == is_s2t_direction(dir),
            k <= cs@.len(),
            out@ =~= normalized(sv@, dir).subrange(0, k as int),
        decreases cs.len() - k,
    {
        out.push(rewrite_glyph(cs[k], s2t));
        proof {
            assert(normalized(sv@, dir)[k as int] == (if s2t { s2t_punct(sv@[k as int]) } else { t2s_punct(sv@[k as int]) }));
        }
        k += 1;
    }
    proof {
        assert(out@ =~= normalized(sv@, dir));
    }
    Cow::Owned(from_chars(&out))
}

/// The glyph table pairs each mainland quote with one corner bracket and back,
/// and leaves every other character alone in both directions.
pub proof fn lemma_punctuation_pairs(c: char)
    ensures
        is_mainland_quote(c) ==> is_corner_quote(s2t_punct(c)) && t2s_punct(s2t_punct(c)) == c,
        is_corner_quote(c) ==> is_mainland_quote(t2s_punct(c)) && s2t_punct(t2s_punct(c)) == c,
        !is_mainland_quote(c) ==> s2t_punct(c) == c,
        !is_corner_quote(c) ==> t2s_punct(c) == c,
{
}

/// Rewriting toward corner brackets and then back toward mainland quotes
/// restores any text that held no corner bracket to begin with; the other
/// order restores any text that held no mainland quote.
pub proof fn lemma_punctuation_round_trip(text: Seq<char>, to_corner: Seq<char>, to_mainland: Seq<char>)
    requires
        is_s2t_direction(to_corner),
        !is_s2t_direction(to_mainland),
    ensures
        (forall|i: int| 0 <= i < text.len() ==> !is_corner_quote(#[trigger] text[i]))
            ==> normalized(normalized(text, to_corner), to_mainland) == text,
        (forall|i: int| 0 <= i < text.len() ==> !is_mainland_quote(#[trigger] text[i]))
            ==> normalized(normalized(text, to_mainland), to_corner) == text,
{
    if forall|i: int| 0 <= i < text.len() ==> !is_corner_quote(#[trigger] text[i]) {
        let once = normalized(text, to_corner);
        assert forall|i: int| 0 <= i < text.len() implies normalized(once, to_mainland)[i] == text[i] by {
            lemma_punctuation_pairs(text[i]);
        }
        assert(normalized(once, to_mainland) =~= text);
    }
    if forall|i: int| 0 <= i < text.len() ==> !is_mainland_quote(#[trigger] text[i]) {
        let once = normalized(text, to_mainland);
        assert forall|i: int| 0 <= i < text.len() implies normalized(once, to_corner)[i] == text[i] by {
            lemma_punctuation_pairs(text[i]);
        }
        assert(normalized(once, to_corner) =~= text);
    }
}

} // verus!
