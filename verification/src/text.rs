//! Character-level helpers shared by the path, synchronization and port
//! scanning modules: substring search, whitespace handling, trimming, and
//! decimal parsing of unsigned 16-bit integers.

use vstd::prelude::*;

verus! {

/// `pat` occurs in `s` starting exactly at index `i`.
pub open spec fn has_sub_at(s: Seq<char>, pat: Seq<char>, i: int) -> bool {
    0 <= i && i + pat.len() <= s.len() && s.subrange(i, i + pat.len() as int) == pat
}

/// Index of the leftmost occurrence of `pat` in `s` at or after `from`,
/// if any.
pub open spec fn find_at(s: Seq<char>, pat: Seq<char>, from: int) -> Option<int>
    decreases s.len() - from
        when 0 <= from <= s.len()
{
    if pat.len() == 0 {
        Some(from)
    } else if from + pat.len() > s.len() {
        None
    } else if s.subrange(from, from + pat.len() as int) == pat {
        Some(from)
    } else {
        find_at(s, pat, from + 1)
    }
}

pub proof fn lemma_find_at_is_match(s: Seq<char>, pat: Seq<char>, from: int)
    requires
        0 <= from <= s.len(),
        pat.len() > 0,
        find_at(s, pat, from) is Some,
    ensures
        has_sub_at(s, pat, find_at(s, pat, from)->Some_0),
        find_at(s, pat, from)->Some_0 >= from,
    decreases s.len() - from,
{
    if from + pat.len() > s.len() {
    } else if s.subrange(from, from + pat.len() as int) == pat {
    } else {
        lemma_find_at_is_match(s, pat, from + 1);
    }
}

/// Does `pat` stand in `s` at index `i`? Checked character by character.
pub fn contains_at(s: &str, pat: &str, i: usize) -> (r: bool)
    requires
        i + pat@.len() <= s@.len(),
    ensures
        r == has_sub_at(s@, pat@, i as int),
{
    let slen = s.unicode_len();
    let plen = pat.unicode_len();
    let mut j: usize = 0;
    while j < plen
        invariant
            slen == s@.len(),
            plen == pat@.len(),
            i + plen <= slen,
            j <= plen,
            forall|k: int| 0 <= k < j ==> s@[i + k] == pat@[k],
        decreases plen - j,
    {
        if s.get_char(i + j) != pat.get_char(j) {
            proof {
                if has_sub_at(s@, pat@, i as int) {
                    assert(s@.subrange(i as int, i + pat@.len() as int)[j as int] == pat@[j as int]);
                }
            }
            return false;
        }
        j += 1;
    }
    proof {
        assert(s@.subrange(i as int, i + pat@.len() as int) =~= pat@);
    }
    true
}

/// Index of the leftmost occurrence of `pat` in `s`, if any.
pub fn find_sub(s: &str, pat: &str) -> (r: Option<usize>)
    requires
        pat@.len() >= 1,
    ensures
        match r {
            Some(i) => find_at(s@, pat@, 0) == Some(i as int),
            None => find_at(s@, pat@, 0) is None,
        },
{
    let slen = s.unicode_len();
    let plen = pat.unicode_len();
    if plen > slen {
        return None;
    }
    let mut i: usize = 0;
    while i <= slen - plen
        invariant
            slen == s@.len(),
            plen == pat@.len(),
            plen >= 1,
            plen <= slen,
            i <= slen,
            find_at(s@, pat@, 0) == find_at(s@, pat@, i as int),
        decreases slen - i,
    {
        if contains_at(s, pat, i) {
            return Some(i);
        }
        i += 1;
    }
    None
}

/// ASCII whitespace, as the startup protocol and the version marker use it.
pub open spec fn is_space_char(c: char) -> bool {
    c == ' ' || c == '\t' || c == '\n' || c == '\r' || c == '\x0b' || c == '\x0c'
}

/// First index at or after `from` holding a non-whitespace character,
/// or the length of `s`.
pub open spec fn skip_spaces(s: Seq<char>, from: int) -> int
    decreases s.len() - from
        when 0 <= from <= s.len()
{
    if from >= s.len() {
        s.len() as int
    } else if is_space_char(s[from]) {
        skip_spaces(s, from + 1)
    } else {
        from
    }
}

/// First index at or after `from` holding a whitespace character,
/// or the length of `s`.
pub open spec fn token_end(s: Seq<char>, from: int) -> int
    decreases s.len() - from
        when 0 <= from <= s.len()
{
    if from >= s.len() {
        s.len() as int
    } else if is_space_char(s[from]) {
        from
    } else {
        token_end(s, from + 1)
    }
}

pub proof fn lemma_skip_spaces_bounds(s: Seq<char>, from: int)
    requires
        0 <= from <= s.len(),
    ensures
        from <= skip_spaces(s, from) <= s.len(),
    decreases s.len() - from,
{
    if from < s.len() && is_space_char(s[from]) {
        lemma_skip_spaces_bounds(s, from + 1);
    }
}

pub proof fn lemma_token_end_bounds(s: Seq<char>, from: int)
    requires
        0 <= from <= s.len(),
    ensures
        from <= token_end(s, from) <= s.len(),
    decreases s.len() - from,
{
    if from < s.len() && !is_space_char(s[from]) {
        lemma_token_end_bounds(s, from + 1);
    }
}

/// The first whitespace-delimited token of `s` at or after `from`;
/// empty when only whitespace remains.
pub open spec fn first_token(s: Seq<char>, from: int) -> Seq<char> {
    s.subrange(skip_spaces(s, from), token_end(s, skip_spaces(s, from)))
}

fn is_space(c: char) -> (r: bool)
    ensures
        r == is_space_char(c),
{
    c == ' ' || c == '\t' || c == '\n' || c == '\r' || c == '\x0b' || c == '\x0c'
}

/// Index of the first non-whitespace character at or after `from`.
pub fn skip_spaces_exec(s: &str, from: usize) -> (r: usize)
    requires
        from <= s@.len(),
    ensures
        r == skip_spaces(s@, from as int),
        from <= r <= s@.len(),
{
    let slen = s.unicode_len();
    let mut i: usize = from;
    while i < slen
        invariant
            slen == s@.len(),
            from <= i <= slen,
            skip_spaces(s@, from as int) == skip_spaces(s@, i as int),
        decreases slen - i,
    {
        if !is_space(s.get_char(i)) {
            proof { lemma_skip_spaces_bounds(s@, i as int); }
            return i;
        }
        i += 1;
    }
    i
}

/// Index of the first whitespace character at or after `from`.
pub fn token_end_exec(s: &str, from: usize) -> (r: usize)
    requires
        from <= s@.len(),
    ensures
        r == token_end(s@, from as int),
        from <= r <= s@.len(),
{
    let slen = s.unicode_len();
    let mut i: usize = from;
    while i < slen
        invariant
            slen == s@.len(),
            from <= i <= slen,
            token_end(s@, from as int) == token_end(s@, i as int),
        decreases slen - i,
    {
        if is_space(s.get_char(i)) {
            proof { lemma_token_end_bounds(s@, i as int); }
            return i;
        }
        i += 1;
    }
    i
}

/// Last index `b <= upto` such that `s[b - 1]` is not whitespace,
/// or `0` when everything before `upto` is whitespace.
pub open spec fn trim_end_idx(s: Seq<char>, upto: int) -> int
    decreases upto
        when 0 <= upto <= s.len()
{
    if upto <= 0 {
        0
    } else if is_space_char(s[upto - 1]) {
        trim_end_idx(s, upto - 1)
    } else {
        upto
    }
}

pub proof fn lemma_trim_end_bounds(s: Seq<char>, upto: int)
    requires
        0 <= upto <= s.len(),
    ensures
        0 <= trim_end_idx(s, upto) <= upto,
    decreases upto,
{
    if upto > 0 && is_space_char(s[upto - 1]) {
        lemma_trim_end_bounds(s, upto - 1);
    }
}

/// `s` with leading and trailing whitespace removed.
pub open spec fn trim_seq(s: Seq<char>) -> Seq<char> {
    let a = skip_spaces(s, 0);
    let b = trim_end_idx(s, s.len() as int);
    if a <= b {
        s.subrange(a, b)
    } else {
        Seq::empty()
    }
}

/// Remove leading and trailing whitespace.
pub fn trimmed(s: &str) -> (r: String)
    ensures
        r@ == trim_seq(s@),
{
    let slen = s.unicode_len();
    let a = skip_spaces_exec(s, 0);
    let mut b: usize = slen;
    while b > 0 && is_space(s.get_char(b - 1))
        invariant
            slen == s@.len(),
            b <= slen,
            trim_end_idx(s@, slen as int) == trim_end_idx(s@, b as int),
        decreases b,
    {
        b -= 1;
    }
    proof { lemma_trim_end_bounds(s@, b as int); }
    if a <= b {
        let piece = s.substring_char(a, b);
        piece.to_owned()
    } else {
        String::new()
    }
}

/// Character-wise string equality.
pub fn str_eq(a: &str, b: &str) -> (r: bool)
    ensures
        r == (a@ == b@),
{
    let oa = a.to_owned();
    let ob = b.to_owned();
    oa == ob
}

pub open spec fn is_digit_char(c: char) -> bool {
    '0' <= c && c <= '9'
}

pub open spec fn digit_val(c: char) -> int {
    c as int - '0' as int
}

pub open spec fn all_digits(s: Seq<char>) -> bool {
    forall|i: int| 0 <= i < s.len() ==> is_digit_char(#[trigger] s[i])
}

/// The value of a sequence of decimal digits.
pub open spec fn dec_val(s: Seq<char>) -> int
    decreases s.len(),
{
    if s.len() == 0 {
        0
    } else {
        dec_val(s.drop_last()) * 10 + digit_val(s.last())
    }
}

pub proof fn lemma_dec_val_nonneg(s: Seq<char>)
    requires
        all_digits(s),
    ensures
        dec_val(s) >= 0,
    decreases s.len(),
{
    if s.len() > 0 {
        assert(all_digits(s.drop_last())) by {
            assert(forall|i: int| 0 <= i < s.len() - 1 ==> #[trigger] s.drop_last()[i] == s[i]);
        }
        lemma_dec_val_nonneg(s.drop_last());
    }
}

/// What `u16` parsing accepts: an optional leading plus sign, then one or
/// more decimal digits whose value fits in 16 bits.
pub open spec fn parse_u16_seq(s: Seq<char>) -> Option<u16> {
    let body = if s.len() > 0 && s[0] == '+' {
        s.skip(1)
    } else {
        s
    };
    if body.len() > 0 && all_digits(body) && dec_val(body) <= u16::MAX {
        Some(dec_val(body) as u16)
    } else {
        None
    }
}

/// Parse an unsigned 16-bit decimal integer, with the same acceptance as
/// `str::parse::<u16>`: optional `+`, digits only, value at most 65535.
pub fn parse_u16(s: &str) -> (r: Option<u16>)
    ensures
        r == parse_u16_seq(s@),
{
    let slen = s.unicode_len();
    let start: usize = if slen > 0 && s.get_char(0) == '+' {
        1
    } else {
        0
    };
    let ghost body: Seq<char> = if s@.len() > 0 && s@[0] == '+' {
        s@.skip(1)
    } else {
        s@
    };
    proof {
        assert(body =~= s@.subrange(start as int, slen as int));
    }
    if start == slen {
        return None;
    }
    let mut acc: u32 = 0;
    let mut over: bool = false;
    let mut i: usize = start;
    while i < slen
        invariant
            slen == s@.len(),
            start <= i <= slen,
            start < slen,
            start <= 1,
            body == s@.subrange(start as int, slen as int),
            body == (if s@.len() > 0 && s@[0] == '+' {
                s@.skip(1)
            } else {
                s@
            }),
            all_digits(s@.subrange(start as int, i as int)),
            !over ==> acc <= 65535 && acc == dec_val(s@.subrange(start as int, i as int)),
            over ==> dec_val(s@.subrange(start as int, i as int)) > 65535,
        decreases slen - i,
    {
        let c = s.get_char(i);
        if c < '0' || c > '9' {
            proof {
                assert(body[i - start] == c);
                assert(!is_digit_char(body[i - start]));
                assert(!all_digits(body));
            }
            return None;
        }
        let d: u32 = (c as u32) - ('0' as u32);
        proof {
            let ghost pre = s@.subrange(start as int, i as int);
            let ghost post = s@.subrange(start as int, i as int + 1);
            assert(post.drop_last() =~= pre);
            assert(post.last() == c);
            assert(all_digits(post)) by {
                assert(forall|k: int| 0 <= k < pre.len() ==> post[k] == pre[k]);
            }
            if over {
                lemma_dec_val_nonneg(pre);
            }
        }
        if over {
            // the value already exceeds the range; further digits keep it there
        } else {
            let next = acc * 10 + d;
            if next > 65535 {
                over = true;
            } else {
                acc = next;
            }
        }
        i += 1;
    }
    proof {
        assert(s@.subrange(start as int, slen as int) == body);
    }
    if over {
        None
    } else {
        Some(acc as u16)
    }
}

} // verus!
