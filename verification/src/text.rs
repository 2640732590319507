//! Character-level building blocks shared by the request handlers:
//! building strings, decimal rendering, substring search and `Debug` quoting.
use vstd::prelude::*;
use vstd::string::*;

verus! {

/// Appends one character to a `String` (`String::push`).
/// Trusted: `String::push` appends exactly the given character at the end.
#[verifier::external_body]
pub fn push_char(s: &mut String, c: char)
    ensures
        final(s)@ == old(s)@.push(c),
{
    s.push(c);
}

/// A fresh `String` holding the characters of `s`.
pub fn owned(s: &str) -> (res: String)
    ensures
        res@ == s@,
{
    let mut res = String::new();
    res.append(s);
    res
}

/// The characters of `s`, in order.
pub fn chars_of(s: &str) -> (res: Vec<char>)
    ensures
        res@ == s@,
{
    let mut res: Vec<char> = Vec::new();
    for c in it: s.chars()
        invariant
            res@ == it.seq().take(it.index() as int),
            it.seq() == s@,
    {
        assert(it.seq().take(it.index() + 1) == it.seq().take(it.index() as int).push(c));
        res.push(c);
    }
    res
}

/// The decimal digit for `d` (`0 <= d < 10`).
pub open spec fn digit_char(d: nat) -> char {
    ((d + 48) as u8) as char
}

/// The decimal rendering of `n`, without sign or leading zeros
/// (`0` renders as `"0"`), as `Display` prints unsigned integers.
pub open spec fn decimal(n: nat) -> Seq<char>
    decreases n,
{
    if n < 10 {
        seq![digit_char(n)]
    } else {
        decimal(n / 10).push(digit_char(n % 10))
    }
}

/// Appends the decimal rendering of `n` to `out`.
pub fn push_decimal(out: &mut String, n: u64)
    ensures
        final(out)@ == old(out)@ + decimal(n as nat),
    decreases n,
{
    if n >= 10 {
        push_decimal(out, n / 10);
    }
    let c: char = (((n % 10) as u8) + 48u8) as char;
    push_char(out, c);
    assert(decimal(n as nat) == if n < 10 { seq![c] } else { decimal((n / 10) as nat).push(c) });
}

/// Renders `n` in decimal.
pub fn u64_to_decimal(n: u64) -> (res: String)
    ensures
        res@ == decimal(n as nat),
{
    let mut res = String::new();
    push_decimal(&mut res, n);
    assert(Seq::<char>::empty() + decimal(n as nat) == decimal(n as nat));
    res
}

/// `needle` occurs in `hay` as a contiguous run of characters
/// (the empty needle occurs in every string).
pub open spec fn occurs_in(needle: Seq<char>, hay: Seq<char>) -> bool {
    exists|i: int| 0 <= i && i + needle.len() <= hay.len() && #[trigger] hay.subrange(i, i + needle.len()) == needle
}

/// Whether `needle` matches `hay` at position `at`.
fn matches_at(hay: &Vec<char>, needle: &Vec<char>, at: usize) -> (res: bool)
    requires
        at + needle@.len() <= hay@.len(),
    ensures
        res == (hay@.subrange(at as int, at + needle@.len()) == needle@),
{
    let n = needle.len();
    let mut j: usize = 0;
    while j < n
        invariant
            j <= n,
            n == needle@.len(),
            at + n <= hay.len(),
            forall|k: int| 0 <= k < j ==> hay@[at + k] == needle@[k],
        decreases n - j,
    {
        if hay[at + j] != needle[j] {
            assert(hay@.subrange(at as int, at + n)[j as int] != needle@[j as int]);
            return false;
        }
        j = j + 1;
    }
    assert(hay@.subrange(at as int, at + n) =~= needle@);
    true
}

/// Substring test (`str::contains` with a string pattern).
pub fn contains_str(hay: &str, needle: &str) -> (res: bool)
    ensures
        res == occurs_in(needle@, hay@),
{
    let h = chars_of(hay);
    let n = chars_of(needle);
    if n.len() > h.len() {
        return false;
    }
    let last = h.len() - n.len();
    let mut i: usize = 0;
    loop
        invariant
            i <= last,
            last + n@.len() == h@.len(),
            h@ == hay@,
            n@ == needle@,
            forall|k: int| 0 <= k < i ==> #[trigger] h@.subrange(k, k + n@.len()) != n@,
        decreases last - i,
    {
        if matches_at(&h, &n, i) {
            return true;
        }
        if i == last {
            return false;
        }
        i = i + 1;
    }
}

/// What `format!("{:?}", s)` renders for a string `s`: the characters
/// between double quotes, with `Debug` escaping applied.
pub uninterp spec fn debug_quoted(s: Seq<char>) -> Seq<char>;

/// A character that `Debug` shows as itself inside a string: a printable
/// ASCII character other than the double quote and the backslash, or a
/// Latin-1 letter or sign from U+00C0 to U+00FF.
pub open spec fn debug_plain_char(c: char) -> bool {
    (' ' <= c && c <= '~' && c != '"' && c != '\\') || ('\u{c0}' <= c && c <= '\u{ff}')
}

/// Every character of `s` is shown as itself by `Debug`.
pub open spec fn debug_plain(s: Seq<char>) -> bool {
    forall|i: int| 0 <= i < s.len() ==> debug_plain_char(#[trigger] s[i])
}

/// `s` between double quotes.
pub open spec fn quoted(s: Seq<char>) -> Seq<char> {
    seq!['"'] + s + seq!['"']
}

/// `format!("{:?}", s)` for a string slice.
/// Trusted: the result is the `Debug` rendering of `s`, which depends on the
/// characters of `s` alone; a string of characters that `Debug` shows as
/// themselves (printable ASCII but `"` and `\`, Latin-1 letters and signs) is
/// rendered between double quotes unchanged. The escaping of the other
/// characters is left unstated here.
#[verifier::external_body]
pub fn debug_str(s: &str) -> (res: String)
    ensures
        res@ == debug_quoted(s@),
        debug_plain(s@) ==> res@ == quoted(s@),
{
    format!("{:?}", s)
}

/// Whether two strings hold the same characters.
pub fn same_text(a: &str, b: &str) -> (res: bool)
    ensures
        res == (a@ == b@),
{
    let x = chars_of(a);
    let y = chars_of(b);
    if x.len() != y.len() {
        return false;
    }
    let n = x.len();
    let mut i: usize = 0;
    while i < n
        invariant
            i <= n,
            n == x@.len(),
            n == y@.len(),
            x@ == a@,
            y@ == b@,
            forall|k: int| 0 <= k < i ==> x@[k] == y@[k],
        decreases n - i,
    {
        if x[i] != y[i] {
            return false;
        }
        i = i + 1;
    }
    assert(x@ =~= y@);
    true
}

/// The pieces joined with `sep` between neighbours (`[String]::join`).
pub open spec fn join_with(pieces: Seq<Seq<char>>, sep: Seq<char>) -> Seq<char>
    decreases pieces.len(),
{
    if pieces.len() == 0 {
        Seq::empty()
    } else if pieces.len() == 1 {
        pieces[0]
    } else {
        join_with(pieces.drop_last(), sep) + sep + pieces.last()
    }
}

/// The decimal rendering of a signed number: a minus sign for negative
/// numbers, then the digits of the magnitude.
pub open spec fn signed_decimal(n: int) -> Seq<char> {
    if n < 0 {
        "-"@ + decimal((-n) as nat)
    } else {
        decimal(n as nat)
    }
}

/// Appends the decimal rendering of a signed number to `out`.
pub fn push_signed_decimal(out: &mut String, n: i64)
    ensures
        final(out)@ == old(out)@ + signed_decimal(n as int),
        n >= 0 ==> final(out)@ == old(out)@ + decimal(n as nat),
        n < 0 ==> final(out)@ == old(out)@ + seq!['-'] + decimal((-n) as nat),
{
    proof {
        reveal_strlit("-");
    }
    if n < 0 {
        out.append("-");
        let m: u64 = if n == i64::MIN {
            9223372036854775808u64
        } else {
            (-n) as u64
        };
        push_decimal(out, m);
        assert(out@ =~= old(out)@ + signed_decimal(n as int));
    } else {
        push_decimal(out, n as u64);
    }
}

/// `c` with ASCII upper-case letters made lower-case.
pub open spec fn ascii_lower(c: char) -> char {
    if 'A' <= c && c <= 'Z' {
        ((c as u8) + 32u8) as char
    } else {
        c
    }
}

/// `a` and `b` are equal when ASCII letter case is ignored.
pub open spec fn same_uncased(a: Seq<char>, b: Seq<char>) -> bool {
    a.len() == b.len() && forall|i: int| 0 <= i < a.len() ==> ascii_lower(#[trigger] a[i]) == ascii_lower(b[i])
}

fn lower_char(c: char) -> (r: char)
    ensures
        r == ascii_lower(c),
{
    if 'A' <= c && c <= 'Z' {
        ((c as u8) + 32u8) as char
    } else {
        c
    }
}

/// Equality ignoring ASCII letter case (`str::eq_ignore_ascii_case`).
pub fn eq_uncased(a: &str, b: &str) -> (res: bool)
    ensures
        res == same_uncased(a@, b@),
{
    let x = chars_of(a);
    let y = chars_of(b);
    if x.len() != y.len() {
        return false;
    }
    let n = x.len();
    let mut i: usize = 0;
    while i < n
        invariant
            i <= n,
            n == x@.len(),
            n == y@.len(),
            x@ == a@,
            y@ == b@,
            forall|k: int| 0 <= k < i ==> ascii_lower(#[trigger] x@[k]) == ascii_lower(y@[k]),
        decreases n - i,
    {
        if lower_char(x[i]) != lower_char(y[i]) {
            return false;
        }
        i = i + 1;
    }
    true
}

} // verus!
