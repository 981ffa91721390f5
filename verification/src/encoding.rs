//! Mathematical descriptions of the text encodings the library relies on:
//! URL-safe base64 without padding, lower-case hexadecimal, and Unicode
//! white-space trimming.
use vstd::prelude::*;

verus! {

/// The URL-safe base64 alphabet: `A-Z`, `a-z`, `0-9`, `-`, `_`.
pub open spec fn b64_symbol(v: int) -> char {
    if v < 26 {
        (65 + v) as char
    } else if v < 52 {
        (97 + (v - 26)) as char
    } else if v < 62 {
        (48 + (v - 52)) as char
    } else if v == 62 {
        '-'
    } else {
        '_'
    }
}

/// Characters that can appear in URL-safe base64 text.
pub open spec fn is_b64_char(c: char) -> bool {
    ('A' <= c && c <= 'Z') || ('a' <= c && c <= 'z') || ('0' <= c && c <= '9') || c == '-'
        || c == '_'
}

/// URL-safe base64 encoding without padding (RFC 4648, section 5): every
/// three bytes become four symbols; a trailing group of one or two bytes
/// becomes two or three symbols, with the unused low bits zero.
pub open spec fn b64url_encode(b: Seq<u8>) -> Seq<char>
    decreases b.len(),
{
    if b.len() == 0 {
        Seq::empty()
    } else if b.len() == 1 {
        seq![b64_symbol((b[0] as int) / 4), b64_symbol(((b[0] as int) % 4) * 16)]
    } else if b.len() == 2 {
        seq![
            b64_symbol((b[0] as int) / 4),
            b64_symbol(((b[0] as int) % 4) * 16 + (b[1] as int) / 16),
            b64_symbol(((b[1] as int) % 16) * 4),
        ]
    } else {
        seq![
            b64_symbol((b[0] as int) / 4),
            b64_symbol(((b[0] as int) % 4) * 16 + (b[1] as int) / 16),
            b64_symbol(((b[1] as int) % 16) * 4 + (b[2] as int) / 64),
            b64_symbol((b[2] as int) % 64),
        ] + b64url_encode(b.skip(3))
    }
}

/// Each symbol of the alphabet is a base64 character.
pub proof fn lemma_b64_symbol_is_b64_char(v: int)
    requires
        0 <= v < 64,
    ensures
        is_b64_char(b64_symbol(v)),
{
}

/// Every symbol that the encoding produces is a base64 character.
pub proof fn lemma_b64url_encode_chars(b: Seq<u8>)
    ensures
        forall|i: int|
            0 <= i < b64url_encode(b).len() ==> #[trigger] is_b64_char(b64url_encode(b)[i]),
    decreases b.len(),
{
    if b.len() == 0 {
    } else if b.len() == 1 {
        lemma_b64_symbol_is_b64_char((b[0] as int) / 4);
        lemma_b64_symbol_is_b64_char(((b[0] as int) % 4) * 16);
    } else if b.len() == 2 {
        lemma_b64_symbol_is_b64_char((b[0] as int) / 4);
        lemma_b64_symbol_is_b64_char(((b[0] as int) % 4) * 16 + (b[1] as int) / 16);
        lemma_b64_symbol_is_b64_char(((b[1] as int) % 16) * 4);
    } else {
        let head = seq![
            b64_symbol((b[0] as int) / 4),
            b64_symbol(((b[0] as int) % 4) * 16 + (b[1] as int) / 16),
            b64_symbol(((b[1] as int) % 16) * 4 + (b[2] as int) / 64),
            b64_symbol((b[2] as int) % 64),
        ];
        lemma_b64_symbol_is_b64_char((b[0] as int) / 4);
        lemma_b64_symbol_is_b64_char(((b[0] as int) % 4) * 16 + (b[1] as int) / 16);
        lemma_b64_symbol_is_b64_char(((b[1] as int) % 16) * 4 + (b[2] as int) / 64);
        lemma_b64_symbol_is_b64_char((b[2] as int) % 64);
        lemma_b64url_encode_chars(b.skip(3));
        let tail = b64url_encode(b.skip(3));
        assert forall|i: int| 0 <= i < b64url_encode(b).len() implies #[trigger] is_b64_char(
            b64url_encode(b)[i],
        ) by {
            assert(b64url_encode(b) == head + tail);
            if i >= 4 {
                assert(b64url_encode(b)[i] == tail[i - 4]);
            }
        }
    }
}

/// The encoding of a non-empty byte string is non-empty.
pub proof fn lemma_b64url_encode_nonempty(b: Seq<u8>)
    requires
        b.len() > 0,
    ensures
        b64url_encode(b).len() > 0,
{
    if b.len() >= 3 {
        assert(b64url_encode(b).len() >= 4);
    }
}

/// The characters that Unicode's `White_Space` property lists, which is how
/// `char::is_whitespace` (and therefore `str::trim`) defines white space.
pub open spec fn is_white_space(c: char) -> bool {
    ('\u{9}' <= c && c <= '\u{d}') || c == ' ' || c == '\u{85}' || c == '\u{a0}' || c
        == '\u{1680}' || ('\u{2000}' <= c && c <= '\u{200a}') || c == '\u{2028}' || c
        == '\u{2029}' || c == '\u{202f}' || c == '\u{205f}' || c == '\u{3000}'
}

/// `s` without its leading white space.
pub open spec fn trim_start_ws(s: Seq<char>) -> Seq<char>
    decreases s.len(),
{
    if s.len() > 0 && is_white_space(s[0]) {
        trim_start_ws(s.drop_first())
    } else {
        s
    }
}

/// `s` without its trailing white space.
pub open spec fn trim_end_ws(s: Seq<char>) -> Seq<char>
    decreases s.len(),
{
    if s.len() > 0 && is_white_space(s.last()) {
        trim_end_ws(s.drop_last())
    } else {
        s
    }
}

/// `s` without leading and trailing white space.
pub open spec fn trim_ws(s: Seq<char>) -> Seq<char> {
    trim_end_ws(trim_start_ws(s))
}

/// A string whose first and last characters are not white space is its own trim.
pub proof fn lemma_trim_ws_unchanged(s: Seq<char>)
    requires
        s.len() > 0 ==> !is_white_space(s[0]) && !is_white_space(s.last()),
    ensures
        trim_ws(s) == s,
{
}

/// A lower-case hexadecimal digit for a value below 16.
pub open spec fn hex_digit(v: int) -> char {
    if v < 10 {
        (48 + v) as char
    } else {
        (97 + (v - 10)) as char
    }
}

/// Lower-case hexadecimal: two digits per byte, high nibble first.
pub open spec fn hex_lower(b: Seq<u8>) -> Seq<char>
    decreases b.len(),
{
    if b.len() == 0 {
        Seq::empty()
    } else {
        seq![hex_digit((b[0] as int) / 16), hex_digit((b[0] as int) % 16)] + hex_lower(b.drop_first())
    }
}

/// The decimal digits of `n`, most significant first, without leading zeros.
pub open spec fn decimal(n: nat) -> Seq<char>
    decreases n,
{
    if n < 10 {
        seq![(48 + n) as char]
    } else {
        decimal(n / 10) + seq![(48 + n % 10) as char]
    }
}

/// `needle` occurs in `hay` at position `i`.
pub open spec fn occurs_at(hay: Seq<char>, needle: Seq<char>, i: int) -> bool {
    0 <= i && i + needle.len() <= hay.len() && hay.subrange(i, i + needle.len()) == needle
}

/// `needle` occurs somewhere in `hay`.
pub open spec fn contains_text(hay: Seq<char>, needle: Seq<char>) -> bool {
    exists|i: int| #[trigger] occurs_at(hay, needle, i)
}

/// The characters of `s`.
pub fn chars_of(s: &str) -> (v: Vec<char>)
    ensures
        v@ == s@,
{
    let mut v: Vec<char> = Vec::new();
    for c in it: s.chars()
        invariant
            it.seq() == s@,
            v@ == s@.take(it.index() as int),
    {
        assert(s@.take(it.index() + 1) == s@.take(it.index() as int).push(c));
        v.push(c);
    }
    assert(s@.take(s@.len() as int) == s@);
    v
}

/// Whether `needle` occurs in `hay`.
pub fn contains_str(hay: &str, needle: &str) -> (found: bool)
    ensures
        found == contains_text(hay@, needle@),
{
    let h = chars_of(hay);
    let n = chars_of(needle);
    if n.len() > h.len() {
        assert forall|i: int| !#[trigger] occurs_at(hay@, needle@, i) by {}
        return false;
    }
    let hl = h.len();
    let last = hl - n.len();
    let mut i: usize = 0;
    while i <= last
        invariant
            h@ == hay@,
            n@ == needle@,
            last == h@.len() - n@.len(),
            n@.len() <= h@.len(),
            hl == h@.len(),
            forall|k: int| 0 <= k < i ==> !#[trigger] occurs_at(hay@, needle@, k),
        decreases last + 1 - i,
    {
        let mut j: usize = 0;
        let mut matched = true;
        while j < n.len()
            invariant
                h@ == hay@,
                n@ == needle@,
                i <= last,
                last == h@.len() - n@.len(),
                n@.len() <= h@.len(),
                hl == h@.len(),
                j <= n@.len(),
                matched == (forall|t: int| 0 <= t < j ==> h@[i + t] == n@[t]),
            decreases n@.len() - j,
        {
            if h[i + j] != n[j] {
                matched = false;
            }
            j += 1;
        }
        if matched {
            assert(hay@.subrange(i as int, i + needle@.len()) =~= needle@);
            assert(occurs_at(hay@, needle@, i as int));
            return true;
        }
        assert(!occurs_at(hay@, needle@, i as int)) by {
            let t = choose|t: int| 0 <= t < n@.len() && h@[i + t] != n@[t];
            assert(hay@.subrange(i as int, i + needle@.len())[t] != needle@[t]);
        }
        if i == last {
            assert forall|k: int| !#[trigger] occurs_at(hay@, needle@, k) by {
                if 0 <= k < i {
                }
            }
            return false;
        }
        i += 1;
    }
    false
}

} // verus!
