use vstd::prelude::*;
use vstd::string::StringSliceAdditionalSpecFns;
use vstd::utf8::*;

verus! {

/// `n` is where a byte budget cuts `full`: the whole length when it fits,
/// else the last character boundary at or below the budget.
pub open spec fn is_truncation(full: Seq<u8>, budget: int, n: int) -> bool {
    &&& 0 <= n <= full.len()
    &&& is_char_boundary(full, n)
    &&& full.len() <= budget ==> n == full.len()
    &&& full.len() > budget ==> n <= budget && forall|j: int|
        n < j <= budget ==> !is_char_boundary(full, j)
}

/// A cut made by a byte budget leaves valid UTF-8 on both sides: it never
/// falls inside a character.
pub proof fn lemma_truncation_keeps_utf8(text: Seq<char>, budget: int, n: int)
    requires
        is_truncation(encode_utf8(text), budget, n),
    ensures
        valid_utf8(encode_utf8(text).subrange(0, n)),
        valid_utf8(encode_utf8(text).subrange(n, encode_utf8(text).len() as int)),
{
    encode_utf8_valid_utf8(text);
    valid_utf8_split(encode_utf8(text), n);
}

/// Returns the largest byte count `n <= max_byte_count` such that `&sv[..n]`
/// does not split a character; the whole length when `sv` already fits.
pub fn find_max_utf8_length(sv: &str, max_byte_count: usize) -> (n: usize)
    ensures
        is_truncation(sv.spec_bytes(), max_byte_count as int, n as int),
        valid_utf8(sv.spec_bytes().subrange(0, n as int)),
{
    broadcast use is_char_boundary_start_end_of_seq, encode_utf8_valid_utf8;
    let bytes = sv.as_bytes();
    proof {
        encode_utf8_valid_utf8(sv@);
        is_char_boundary_start_end_of_seq(bytes@);
    }
    if bytes.len() <= max_byte_count {
        proof {
            lemma_truncation_keeps_utf8(sv@, max_byte_count as int, bytes@.len() as int);
        }
        return bytes.len();
    }
    let mut byte_count: usize = max_byte_count;
    while byte_count > 0 && (bytes[byte_count] & 0b11000000u8) == 0b10000000u8
        invariant
            bytes@ == sv.spec_bytes(),
            valid_utf8(bytes@),
            byte_count <= max_byte_count < bytes@.len(),
            forall|j: int| byte_count < j <= max_byte_count ==> !is_char_boundary(bytes@, j),
        decreases byte_count,
    {
        proof {
            let b = bytes@[byte_count as int];
            utf8_byte_ranges_bitwise(b);
            is_char_boundary_iff_not_is_continuation_byte(bytes@, byte_count as int);
        }
        byte_count -= 1;
    }
    proof {
        if byte_count > 0 {
            let b = bytes@[byte_count as int];
            utf8_byte_ranges_bitwise(b);
            is_char_boundary_iff_not_is_continuation_byte(bytes@, byte_count as int);
        }
    }
    proof {
        lemma_truncation_keeps_utf8(sv@, max_byte_count as int, byte_count as int);
    }
    byte_count
}

/// Whether two strings hold the same characters.
pub(crate) fn same_text(a: &str, b: &str) -> (r: bool)
    ensures
        r == (a@ == b@),
{
    let x = to_chars(a);
    let y = to_chars(b);
    same_chars(&x, &y)
}

pub(crate) fn same_chars(a: &Vec<char>, b: &Vec<char>) -> (r: bool)
    ensures
        r == (a@ == b@),
{
    if a.len() != b.len() {
        return false;
    }
    let mut i: usize = 0;
    while i < a.len()
        invariant
            a@.len() == b@.len(),
            i <= a@.len(),
            forall|j: int| 0 <= j < i ==> a@[j] == b@[j],
        decreases a.len() - i,
    {
        if a[i] != b[i] {
            return false;
        }
        i += 1;
    }
    proof {
        assert(a@ =~= b@);
    }
    true
}

/// Relies on `str::chars` collected into a `Vec`: the characters of `s`, in order.
#[verifier::external_body]
pub(crate) fn to_chars(s: &str) -> (r: Vec<char>)
    ensures
        r@ == s@,
{
    s.chars().collect()
}

/// Relies on collecting `char`s into a `String`: the string holds exactly those characters.
#[verifier::external_body]
pub(crate) fn from_chars(v: &Vec<char>) -> (r: String)
    ensures
        r@ == v@,
{
    v.iter().collect()
}

/// The decimal digit character for `d < 10`.
pub open spec fn digit_char(d: nat) -> char {
    if d == 0 { '0' }
    else if d == 1 { '1' }
    else if d == 2 { '2' }
    else if d == 3 { '3' }
    else if d == 4 { '4' }
    else if d == 5 { '5' }
    else if d == 6 { '6' }
    else if d == 7 { '7' }
    else if d == 8 { '8' }
    else { '9' }
}

/// Decimal notation of `n`, without leading zeros.
pub open spec fn decimal(n: nat) -> Seq<char>
    decreases n,
{
    if n < 10 {
        seq![digit_char(n)]
    } else {
        decimal(n / 10).push(digit_char(n % 10))
    }
}

/// Decimal notation of `n` with a comma between each group of three digits,
/// counted from the right.
pub open spec fn thousands(n: nat) -> Seq<char>
    decreases n,
{
    if n < 1000 {
        decimal(n)
    } else {
        thousands(n / 1000) + seq![
            ',',
            digit_char((n % 1000) / 100),
            digit_char((n % 100) / 10),
            digit_char(n % 10),
        ]
    }
}

fn digit(d: usize) -> (c: char)
    requires
        d < 10,
    ensures
        c == digit_char(d as nat),
{
    if d == 0 { '0' }
    else if d == 1 { '1' }
    else if d == 2 { '2' }
    else if d == 3 { '3' }
    else if d == 4 { '4' }
    else if d == 5 { '5' }
    else if d == 6 { '6' }
    else if d == 7 { '7' }
    else if d == 8 { '8' }
    else { '9' }
}

fn push_decimal(out: &mut Vec<char>, n: usize)
    ensures
        final(out)@ == old(out)@ + decimal(n as nat),
    decreases n,
{
    if n >= 10 {
        push_decimal(out, n / 10);
    }
    out.push(digit(n % 10));
    proof {
        assert(final(out)@ =~= old(out)@ + decimal(n as nat));
    }
}

fn push_thousands(out: &mut Vec<char>, n: usize)
    ensures
        final(out)@ == old(out)@ + thousands(n as nat),
    decreases n,
{
    if n < 1000 {
        push_decimal(out, n);
    } else {
        push_thousands(out, n / 1000);
        out.push(',');
        out.push(digit((n % 1000) / 100));
        out.push(digit((n % 100) / 10));
        out.push(digit(n % 10));
        proof {
            assert(final(out)@ =~= old(out)@ + thousands(n as nat));
        }
    }
}

/// Decimal notation of `n` with thousands separated by commas
/// (`1234567` gives `"1,234,567"`).
pub fn format_thousand(n: usize) -> (r: String)
    ensures
        r@ == thousands(n as nat),
{
    let mut out: Vec<char> = Vec::new();
    push_thousands(&mut out, n);
    proof {
        assert(out@ =~= thousands(n as nat));
    }
    from_chars(&out)
}

} // verus!
