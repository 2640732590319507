//! The `<name_grade>` path segment of `/users/<name_grade>`: a name and a
//! grade separated by one underscore, such as `John_1`.
use vstd::prelude::*;
use vstd::string::*;
use crate::text::{chars_of, decimal, digit_char, owned, push_char, signed_decimal};

verus! {

/// The pieces of `s` between occurrences of `sep`, as `str::split` yields
/// them: `n` separators give `n + 1` pieces, empty ones included.
pub open spec fn split_pieces(s: Seq<char>, sep: char) -> Seq<Seq<char>>
    decreases s.len(),
{
    if s.len() == 0 {
        seq![Seq::<char>::empty()]
    } else {
        let p = split_pieces(s.drop_last(), sep);
        if s.last() == sep {
            p.push(Seq::<char>::empty())
        } else {
            p.update(p.len() - 1, p.last().push(s.last()))
        }
    }
}

/// `split_pieces` never yields an empty list.
pub proof fn lemma_split_nonempty(s: Seq<char>, sep: char)
    ensures
        split_pieces(s, sep).len() >= 1,
    decreases s.len(),
{
    if s.len() > 0 {
        lemma_split_nonempty(s.drop_last(), sep);
    }
}

pub open spec fn is_ascii_digit(c: char) -> bool {
    '0' <= c && c <= '9'
}

pub open spec fn all_digits(s: Seq<char>) -> bool {
    forall|i: int| 0 <= i < s.len() ==> is_ascii_digit(#[trigger] s[i])
}

/// The number that a run of decimal digits denotes.
pub open spec fn digits_value(s: Seq<char>) -> nat
    decreases s.len(),
{
    if s.len() == 0 {
        0
    } else {
        digits_value(s.drop_last()) * 10 + ((s.last() as int - '0' as int) as nat)
    }
}

/// `str::parse::<u8>`: an optional `+`, then at least one ASCII digit, and a
/// value that fits in a `u8`; anything else is an error.
pub open spec fn parse_u8_spec(s: Seq<char>) -> Option<u8> {
    let digits = if s.len() > 0 && s[0] == '+' { s.skip(1) } else { s };
    if digits.len() > 0 && all_digits(digits) && digits_value(digits) <= 255 {
        Some(digits_value(digits) as u8)
    } else {
        None
    }
}

/// Adding digits never makes the value smaller.
proof fn lemma_digits_value_prefix(s: Seq<char>, i: int)
    requires
        0 <= i <= s.len(),
        all_digits(s),
    ensures
        digits_value(s.take(i)) <= digits_value(s),
    decreases s.len(),
{
    if i < s.len() {
        assert(s.drop_last().take(i) == s.take(i));
        lemma_digits_value_prefix(s.drop_last(), i);
    } else {
        assert(s.take(i) == s);
    }
}

/// Parses a `u8` as `str::parse::<u8>` does.
pub fn parse_u8(s: &str) -> (res: Option<u8>)
    ensures
        res == parse_u8_spec(s@),
{
    let cs = chars_of(s);
    let start: usize = if cs.len() > 0 && cs[0] == '+' { 1 } else { 0 };
    let ghost digits = if s@.len() > 0 && s@[0] == '+' { s@.skip(1) } else { s@ };
    if start >= cs.len() {
        assert(digits.len() == 0);
        return None;
    }
    assert(digits == cs@.skip(start as int));
    let mut value: u32 = 0;
    let mut i: usize = start;
    while i < cs.len()
        invariant
            start <= i <= cs@.len(),
            cs@ == s@,
            digits == cs@.skip(start as int),
            digits == (if s@.len() > 0 && s@[0] == '+' { s@.skip(1) } else { s@ }),
            digits.len() > 0,
            all_digits(digits.take(i - start)),
            value == digits_value(digits.take(i - start)),
            value <= 255,
        decreases cs@.len() - i,
    {
        let c = cs[i];
        assert(digits[i - start] == c);
        if c < '0' || c > '9' {
            assert(!all_digits(digits));
            return None;
        }
        let d: u32 = (c as u32) - ('0' as u32);
        let ghost prefix = digits.take(i + 1 - start);
        assert(prefix.drop_last() == digits.take(i - start));
        assert(prefix.last() == c);
        if value * 10 + d > 255 {
            proof {
                if all_digits(digits) {
                    lemma_digits_value_prefix(digits, i + 1 - start);
                }
            }
            return None;
        }
        value = value * 10 + d;
        i = i + 1;
    }
    assert(digits.take(i - start) == digits);
    Some(value as u8)
}

/// A name and a grade taken from a `<name>_<grade>` path segment.
pub struct NameGrade {
    pub name: String,
    pub grade: u8,
}

/// What `NameGrade::from_param` gives for `param`: the segment must split on
/// `_` into exactly two pieces, the second a `u8`.
pub open spec fn name_grade_spec(param: Seq<char>) -> Option<(Seq<char>, u8)> {
    let pieces = split_pieces(param, '_');
    if pieces.len() == 2 {
        match parse_u8_spec(pieces[1]) {
            Some(g) => Some((pieces[0], g)),
            None => None,
        }
    } else {
        None
    }
}

impl NameGrade {
    /// The message of the error that a malformed segment gives.
    pub open spec fn error_message() -> Seq<char> {
        "Error parsing user parameter"@
    }

    /// Parses a `<name>_<grade>` path segment.
    pub fn from_param(param: &str) -> (res: Result<NameGrade, String>)
        ensures
            match name_grade_spec(param@) {
                Some((name, grade)) => res matches Ok(ng) && ng.name@ == name && ng.grade == grade,
                None => res matches Err(msg) && msg@ == Self::error_message(),
            },
    {
        let mut pieces: Vec<String> = Vec::new();
        let mut cur = String::new();
        for c in it: param.chars()
            invariant
                it.seq() == param@,
                pieces@.map_values(|p: String| p@).push(cur@) == split_pieces(
                    it.seq().take(it.index() as int),
                    '_',
                ),
        {
            let ghost prefix = it.seq().take(it.index() as int);
            let ghost next = it.seq().take(it.index() + 1);
            assert(next.drop_last() == prefix);
            assert(next.last() == c);
            proof {
                lemma_split_nonempty(prefix, '_');
            }
            if c == '_' {
                let done = cur;
                pieces.push(done);
                cur = String::new();
                assert(pieces@.map_values(|p: String| p@).push(cur@) =~= split_pieces(next, '_'));
            } else {
                push_char(&mut cur, c);
                assert(pieces@.map_values(|p: String| p@).push(cur@) =~= split_pieces(next, '_'));
            }
        }
        let ghost all = pieces@.map_values(|p: String| p@).push(cur@);
        assert(param@.take(param@.len() as int) == param@);
        if pieces.len() == 1 {
            assert(all.len() == 2);
            assert(all[1] == cur@);
            match parse_u8(cur.as_str()) {
                Some(g) => {
                    let name = pieces.pop().unwrap();
                    assert(all[0] == name@);
                    Ok(NameGrade { name, grade: g })
                },
                None => Err(owned("Error parsing user parameter")),
            }
        } else {
            Err(owned("Error parsing user parameter"))
        }
    }
}

/// A string without the separator is a single piece.
proof fn lemma_split_whole(s: Seq<char>, sep: char)
    requires
        !s.contains(sep),
    ensures
        split_pieces(s, sep) == seq![s],
    decreases s.len(),
{
    if s.len() > 0 {
        assert(!s.drop_last().contains(sep)) by {
            if s.drop_last().contains(sep) {
                let k = choose|k: int| 0 <= k < s.drop_last().len() && s.drop_last()[k] == sep;
                assert(s[k] == sep);
            }
        }
        lemma_split_whole(s.drop_last(), sep);
        assert(s[s.len() - 1] != sep);
        assert(s.drop_last().push(s.last()) =~= s);
    } else {
        assert(s =~= Seq::<char>::empty());
    }
}

/// `a`, the separator, then `b` split into the two pieces `a` and `b`.
proof fn lemma_split_pair(a: Seq<char>, sep: char, b: Seq<char>)
    requires
        !a.contains(sep),
        !b.contains(sep),
    ensures
        split_pieces(a + seq![sep] + b, sep) == seq![a, b],
    decreases b.len(),
{
    let s = a + seq![sep] + b;
    if b.len() == 0 {
        assert(b =~= Seq::<char>::empty());
        assert(s.drop_last() =~= a);
        lemma_split_whole(a, sep);
        assert(seq![a].push(Seq::<char>::empty()) =~= seq![a, b]);
    } else {
        assert(!b.drop_last().contains(sep)) by {
            if b.drop_last().contains(sep) {
                let k = choose|k: int| 0 <= k < b.drop_last().len() && b.drop_last()[k] == sep;
                assert(b[k] == sep);
            }
        }
        lemma_split_pair(a, sep, b.drop_last());
        assert(s.drop_last() =~= a + seq![sep] + b.drop_last());
        assert(s.last() == b[b.len() - 1]);
        assert(b.drop_last().push(b.last()) =~= b);
        assert(seq![a, b.drop_last()].update(1, b.drop_last().push(b.last())) =~= seq![a, b]);
    }
}

/// The decimal rendering of `n` is a non-empty run of digits denoting `n`.
pub proof fn lemma_decimal_digits(n: nat)
    ensures
        decimal(n).len() > 0,
        all_digits(decimal(n)),
        digits_value(decimal(n)) == n,
    decreases n,
{
    if n < 10 {
        assert((digit_char(n) as int) == n + 48);
        assert(decimal(n).drop_last() =~= Seq::<char>::empty());
        assert(digits_value(decimal(n)) == digits_value(Seq::<char>::empty()) * 10 + (
        (decimal(n).last() as int - '0' as int) as nat));
    } else {
        lemma_decimal_digits(n / 10);
        let d = decimal(n);
        assert(d.drop_last() == decimal(n / 10));
        assert(d.last() == digit_char(n % 10));
        assert((digit_char(n % 10) as int) == n % 10 + 48);
        assert((n / 10) * 10 + n % 10 == n);
        assert(digits_value(d) == digits_value(d.drop_last()) * 10 + ((d.last() as int - '0' as int) as nat));
        assert forall|i: int| 0 <= i < d.len() implies is_ascii_digit(#[trigger] d[i]) by {
            if i < d.len() - 1 {
                assert(d[i] == decimal(n / 10)[i]);
            }
        }
    }
}

/// Rendering a grade after a name without underscores and parsing the
/// result gives the name and the grade back.
pub proof fn lemma_name_grade_roundtrip(name: Seq<char>, grade: u8)
    requires
        !name.contains('_'),
    ensures
        name_grade_spec(name + seq!['_'] + decimal(grade as nat)) == Some((name, grade)),
{
    let g = decimal(grade as nat);
    lemma_decimal_digits(grade as nat);
    assert(!g.contains('_')) by {
        if g.contains('_') {
            let k = choose|k: int| 0 <= k < g.len() && g[k] == '_';
            assert(is_ascii_digit(g[k]));
        }
    }
    lemma_split_pair(name, '_', g);
    assert(is_ascii_digit(g[0]));
    assert(parse_u8_spec(g) == Some(grade));
}

/// A signed number's rendering reads back as that number: a non-negative
/// number is its decimal digits alone, without any sign, denoting it; a
/// negative one is a minus sign followed by the digits of its magnitude.
pub proof fn lemma_signed_decimal_reads_back(n: int)
    ensures
        n >= 0 ==> signed_decimal(n).len() > 0 && all_digits(signed_decimal(n)) && digits_value(signed_decimal(n)) == n,
        n < 0 ==> signed_decimal(n).len() > 1 && signed_decimal(n)[0] == '-' && all_digits(signed_decimal(n).drop_first())
            && digits_value(signed_decimal(n).drop_first()) == -n,
{
    if n >= 0 {
        lemma_decimal_digits(n as nat);
    } else {
        lemma_decimal_digits((-n) as nat);
        reveal_strlit("-");
        assert(signed_decimal(n).drop_first() =~= decimal((-n) as nat));
    }
}

} // verus!
