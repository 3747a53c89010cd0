use vstd::prelude::*;
use vstd::string::StrSliceExecFns;
use vstd::string::StringExecFns;
use vstd::string::StringSliceAdditionalSpecFns;
use vstd::utf8::decode_utf8;
use vstd::utf8::encode_utf8;
use vstd::utf8::encode_utf8_decode_utf8;
use vstd::utf8::encode_utf8_valid_utf8;
use vstd::utf8::is_char_boundary;
use vstd::utf8::is_char_boundary_iff_not_is_continuation_byte;
use vstd::utf8::is_char_boundary_start_end_of_seq;
use vstd::utf8::valid_utf8;
use vstd::utf8::valid_utf8_split;

verus! {

/// The UTF-8 decoded contents of the byte range `start..end` of `text`, or
/// `None` when the range is out of bounds or either endpoint does not fall on
/// a character boundary of `text`'s UTF-8 encoding.
pub open spec fn span_text(text: Seq<char>, start: int, end: int) -> Option<Seq<char>> {
    let bytes = encode_utf8(text);
    if 0 <= start <= end <= bytes.len() && is_char_boundary(bytes, start) && is_char_boundary(
        bytes,
        end,
    ) {
        Some(decode_utf8(bytes.subrange(start, end)))
    } else {
        None
    }
}

/// Extracts the byte range `start..end` of `text` as an owned string, or
/// `None` when the range is out of bounds or misaligned with respect to
/// UTF-8 character boundaries.
pub fn extract_span(text: &str, start: usize, end: usize) -> (r: Option<String>)
    ensures
        match r {
            Some(s) => span_text(text@, start as int, end as int) == Some(s@),
            None => span_text(text@, start as int, end as int) is None,
        },
{
    proof {
        encode_utf8_valid_utf8(text@);
    }
    let ghost bytes = encode_utf8(text@);
    if start > end {
        return None;
    }
    if !text.is_char_boundary(start) || !text.is_char_boundary(end) {
        return None;
    }
    proof {
        lemma_boundary_in_range(bytes, end as int);
    }
    let (_, tail) = text.split_at(start);
    proof {
        valid_utf8_split(bytes, start as int);
        assert(tail.spec_bytes() =~= bytes.subrange(start as int, bytes.len() as int));
        if end as int == bytes.len() {
            is_char_boundary_start_end_of_seq(tail.spec_bytes());
        } else if end > start {
            is_char_boundary_iff_not_is_continuation_byte(bytes, end as int);
            assert(tail.spec_bytes()[(end - start) as int] == bytes[end as int]);
            is_char_boundary_iff_not_is_continuation_byte(
                tail.spec_bytes(),
                (end - start) as int,
            );
        }
        assert(is_char_boundary(tail.spec_bytes(), (end - start) as int));
    }
    let (mid, _) = tail.split_at(end - start);
    let out = mid.to_owned();
    proof {
        assert(mid.spec_bytes() =~= bytes.subrange(start as int, end as int));
        encode_utf8_decode_utf8(mid@);
        assert(mid@ == decode_utf8(bytes.subrange(start as int, end as int)));
    }
    Some(out)
}

proof fn lemma_boundary_in_range(bytes: Seq<u8>, i: int)
    requires
        valid_utf8(bytes),
        is_char_boundary(bytes, i),
        0 <= i,
    ensures
        i <= bytes.len(),
{
    if i != 0 && bytes.len() < i {
        assert(!is_char_boundary(bytes, i));
    }
}

/// Whether two string slices hold the same characters.
pub fn str_eq(a: &str, b: &str) -> (r: bool)
    ensures
        r == (a@ == b@),
{
    let n = a.unicode_len();
    if n != b.unicode_len() {
        return false;
    }
    let mut i: usize = 0;
    while i < n
        invariant
            i <= n,
            n == a@.len(),
            n == b@.len(),
            forall|k: int| 0 <= k < i ==> a@[k] == b@[k],
        decreases n - i,
    {
        if a.get_char(i) != b.get_char(i) {
            return false;
        }
        i = i + 1;
    }
    proof {
        assert(a@ =~= b@);
    }
    true
}

/// Whether the character `c` occurs in `s`.
pub fn str_contains_char(s: &str, c: char) -> (r: bool)
    ensures
        r == s@.contains(c),
{
    let n = s.unicode_len();
    let mut i: usize = 0;
    while i < n
        invariant
            i <= n,
            n == s@.len(),
            forall|k: int| 0 <= k < i ==> s@[k] != c,
        decreases n - i,
    {
        if s.get_char(i) == c {
            return true;
        }
        i = i + 1;
    }
    false
}

/// Whether `c` is an ASCII punctuation character.
pub open spec fn is_ascii_punct_char(c: char) -> bool {
    (33 <= c as u32 <= 47) || (58 <= c as u32 <= 64) || (91 <= c as u32 <= 96) || (123 <= c as u32
        <= 126)
}

/// Whether every character of `s` is ASCII punctuation.
pub open spec fn all_ascii_punct(s: Seq<char>) -> bool {
    forall|k: int| 0 <= k < s.len() ==> is_ascii_punct_char(#[trigger] s[k])
}

/// Whether every character of `s` is ASCII punctuation.
pub fn str_all_ascii_punct(s: &str) -> (r: bool)
    ensures
        r == all_ascii_punct(s@),
{
    let n = s.unicode_len();
    let mut i: usize = 0;
    while i < n
        invariant
            i <= n,
            n == s@.len(),
            forall|k: int| 0 <= k < i ==> is_ascii_punct_char(#[trigger] s@[k]),
        decreases n - i,
    {
        let c = s.get_char(i) as u32;
        if !((33 <= c && c <= 47) || (58 <= c && c <= 64) || (91 <= c && c <= 96) || (123 <= c && c
            <= 126)) {
            return false;
        }
        i = i + 1;
    }
    true
}

/// Whether `c` counts as leading whitespace when an import clause's text is
/// left-trimmed: the ASCII whitespace characters.
pub open spec fn is_ws_char(c: char) -> bool {
    c == ' ' || c == '\t' || c == '\n' || c == '\r' || c as u32 == 11 || c as u32 == 12
}

/// `s` with its leading whitespace removed.
pub open spec fn trim_start_spec(s: Seq<char>) -> Seq<char>
    decreases s.len(),
{
    if s.len() > 0 && is_ws_char(s[0]) {
        trim_start_spec(s.drop_first())
    } else {
        s
    }
}

/// Whether `s` starts with `p`.
pub open spec fn starts_with_spec(s: Seq<char>, p: Seq<char>) -> bool {
    s.len() >= p.len() && s.subrange(0, p.len() as int) == p
}

proof fn lemma_trim_at(s: Seq<char>, i: int)
    requires
        0 <= i <= s.len(),
        forall|k: int| 0 <= k < i ==> is_ws_char(#[trigger] s[k]),
        i < s.len() ==> !is_ws_char(s[i]),
    ensures
        trim_start_spec(s) == s.subrange(i, s.len() as int),
    decreases i,
{
    if i == 0 {
        assert(s.subrange(0, s.len() as int) =~= s);
    } else {
        lemma_trim_at(s.drop_first(), i - 1);
        assert(s.drop_first().subrange(i - 1, s.drop_first().len() as int) =~= s.subrange(
            i,
            s.len() as int,
        ));
    }
}

fn is_ws(c: char) -> (r: bool)
    ensures
        r == is_ws_char(c),
{
    c == ' ' || c == '\t' || c == '\n' || c == '\r' || c as u32 == 11 || c as u32 == 12
}

/// Whether `s`, after its leading whitespace is removed, starts with `p`.
pub fn trimmed_starts_with(s: &str, p: &str) -> (r: bool)
    ensures
        r == starts_with_spec(trim_start_spec(s@), p@),
{
    let n = s.unicode_len();
    let mut i: usize = 0;
    while i < n && is_ws(s.get_char(i))
        invariant
            i <= n,
            n == s@.len(),
            forall|k: int| 0 <= k < i ==> is_ws_char(#[trigger] s@[k]),
        decreases n - i,
    {
        i = i + 1;
    }
    proof {
        lemma_trim_at(s@, i as int);
    }
    let ghost trimmed = trim_start_spec(s@);
    let plen = p.unicode_len();
    if n - i < plen {
        return false;
    }
    let mut j: usize = 0;
    while j < plen
        invariant
            j <= plen,
            i + plen <= n,
            n == s@.len(),
            plen == p@.len(),
            trimmed == trim_start_spec(s@),
            trimmed == s@.subrange(i as int, n as int),
            forall|k: int| 0 <= k < j ==> s@[i + k] == p@[k],
        decreases plen - j,
    {
        if s.get_char(i + j) != p.get_char(j) {
            proof {
                let sub = trimmed.subrange(0, plen as int);
                assert(sub[j as int] == s@[i + j]);
                assert(sub != p@);
            }
            return false;
        }
        j = j + 1;
    }
    proof {
        assert(trimmed.subrange(0, plen as int) =~= p@);
    }
    true
}

/// The strings of `parts` concatenated with `sep` between consecutive ones.
pub open spec fn join_spec(parts: Seq<Seq<char>>, sep: Seq<char>) -> Seq<char>
    decreases parts.len(),
{
    if parts.len() == 0 {
        Seq::empty()
    } else if parts.len() == 1 {
        parts[0]
    } else {
        join_spec(parts.drop_last(), sep) + sep + parts.last()
    }
}

/// Concatenates `parts` with `sep` between consecutive ones.
pub fn join_with(parts: &Vec<String>, sep: &str) -> (r: String)
    ensures
        r@ == join_spec(parts.deep_view(), sep@),
{
    let mut out = String::new();
    let n = parts.len();
    let mut i: usize = 0;
    while i < n
        invariant
            i <= n,
            n == parts.len(),
            out@ == join_spec(parts.deep_view().take(i as int), sep@),
        decreases n - i,
    {
        if i > 0 {
            out.append(sep);
        }
        out.append(parts[i].as_str());
        proof {
            let dv = parts.deep_view();
            assert(dv.take(i + 1).drop_last() =~= dv.take(i as int));
            assert(dv.take(i + 1).last() == dv[i as int]);
            assert(dv.take(1) =~= seq![dv[0]]);
        }
        i = i + 1;
    }
    proof {
        assert(parts.deep_view().take(n as int) =~= parts.deep_view());
    }
    out
}

/// The decimal digit character for `d`.
pub open spec fn digit_char(d: nat) -> char {
    if d == 0 {
        '0'
    } else if d == 1 {
        '1'
    } else if d == 2 {
        '2'
    } else if d == 3 {
        '3'
    } else if d == 4 {
        '4'
    } else if d == 5 {
        '5'
    } else if d == 6 {
        '6'
    } else if d == 7 {
        '7'
    } else if d == 8 {
        '8'
    } else {
        '9'
    }
}

/// The decimal rendering of `n`, without a sign and without leading zeros
/// (a single zero for `n == 0`).
pub open spec fn dec_str(n: nat) -> Seq<char>
    decreases n,
{
    if n < 10 {
        seq![digit_char(n)]
    } else {
        dec_str(n / 10).push(digit_char(n % 10))
    }
}

fn append_digit(d: usize, out: &mut String)
    requires
        d < 10,
    ensures
        final(out)@ == old(out)@ + seq![digit_char(d as nat)],
{
    proof {
        reveal_strlit("0");
        reveal_strlit("1");
        reveal_strlit("2");
        reveal_strlit("3");
        reveal_strlit("4");
        reveal_strlit("5");
        reveal_strlit("6");
        reveal_strlit("7");
        reveal_strlit("8");
        reveal_strlit("9");
    }
    match d {
        0 => out.append("0"),
        1 => out.append("1"),
        2 => out.append("2"),
        3 => out.append("3"),
        4 => out.append("4"),
        5 => out.append("5"),
        6 => out.append("6"),
        7 => out.append("7"),
        8 => out.append("8"),
        _ => out.append("9"),
    }
    proof {
        assert(out@ =~= old(out)@ + seq![digit_char(d as nat)]);
    }
}

fn push_dec(n: usize, out: &mut String)
    ensures
        final(out)@ == old(out)@ + dec_str(n as nat),
    decreases n,
{
    if n >= 10 {
        push_dec(n / 10, out);
        append_digit(n % 10, out);
        proof {
            assert(out@ =~= old(out)@ + dec_str(n as nat));
        }
    } else {
        append_digit(n, out);
    }
}

/// The decimal rendering of `n`.
pub fn usize_to_string(n: usize) -> (r: String)
    ensures
        r@ == dec_str(n as nat),
{
    let mut out = String::new();
    push_dec(n, &mut out);
    proof {
        assert(out@ =~= dec_str(n as nat));
    }
    out
}

} // verus!
