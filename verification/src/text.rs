//! Text rules shared by the features: trimming, splitting on commas, prefixes,
//! decimal text and decimal parsing.

use vstd::prelude::*;
use vstd::string::*;

verus! {

/// The characters with the Unicode `White_Space` property: U+0009 to U+000D,
/// U+0020, U+0085, U+00A0, U+1680, U+2000 to U+200A, U+2028, U+2029, U+202F,
/// U+205F and U+3000.
pub open spec fn unicode_whitespace(c: char) -> bool {
    let v = c as u32;
    ||| 0x09 <= v <= 0x0d
    ||| v == 0x20
    ||| v == 0x85
    ||| v == 0xa0
    ||| v == 0x1680
    ||| 0x2000 <= v <= 0x200a
    ||| v == 0x2028
    ||| v == 0x2029
    ||| v == 0x202f
    ||| v == 0x205f
    ||| v == 0x3000
}

/// Whether `c` is whitespace: what `char::is_whitespace` answers, which std
/// documents as the `White_Space` property of Unicode's `PropList.txt`.
pub fn is_whitespace(c: char) -> (b: bool)
    ensures
        b == unicode_whitespace(c),
{
    let v = c as u32;
    (0x09 <= v && v <= 0x0d) || v == 0x20 || v == 0x85 || v == 0xa0 || v == 0x1680 || (0x2000 <= v && v
        <= 0x200a) || v == 0x2028 || v == 0x2029 || v == 0x202f || v == 0x205f || v == 0x3000
}

/// The number of whitespace characters that `s` starts with.
pub open spec fn leading_ws(s: Seq<char>) -> nat
    decreases s.len(),
{
    if s.len() > 0 && unicode_whitespace(s[0]) {
        1 + leading_ws(s.drop_first())
    } else {
        0
    }
}

/// The number of whitespace characters that `s` ends with.
pub open spec fn trailing_ws(s: Seq<char>) -> nat
    decreases s.len(),
{
    if s.len() > 0 && unicode_whitespace(s.last()) {
        1 + trailing_ws(s.drop_last())
    } else {
        0
    }
}

/// `s` without its leading and trailing whitespace, as `str::trim` gives it.
pub open spec fn trimmed(s: Seq<char>) -> Seq<char> {
    let t = s.skip(leading_ws(s) as int);
    t.take(t.len() - trailing_ws(t))
}

pub proof fn lemma_leading_ws_bound(s: Seq<char>)
    ensures
        leading_ws(s) <= s.len(),
    decreases s.len(),
{
    if s.len() > 0 && unicode_whitespace(s[0]) {
        lemma_leading_ws_bound(s.drop_first());
    }
}

pub proof fn lemma_trailing_ws_bound(s: Seq<char>)
    ensures
        trailing_ws(s) <= s.len(),
    decreases s.len(),
{
    if s.len() > 0 && unicode_whitespace(s.last()) {
        lemma_trailing_ws_bound(s.drop_last());
    }
}

/// `leading_ws` is the length of the longest whitespace prefix.
proof fn lemma_leading_ws_is(s: Seq<char>, i: int)
    requires
        0 <= i <= s.len(),
        forall|k: int| 0 <= k < i ==> unicode_whitespace(#[trigger] s[k]),
        i == s.len() || !unicode_whitespace(s[i]),
    ensures
        leading_ws(s) == i,
    decreases i,
{
    if i > 0 {
        let t = s.drop_first();
        assert forall|k: int| 0 <= k < i - 1 implies unicode_whitespace(#[trigger] t[k]) by {
            assert(t[k] == s[k + 1]);
        }
        if i - 1 < t.len() {
            assert(t[i - 1] == s[i]);
        }
        lemma_leading_ws_is(t, i - 1);
    }
}

/// `trailing_ws` is the length of the longest whitespace suffix.
proof fn lemma_trailing_ws_is(s: Seq<char>, j: int)
    requires
        0 <= j <= s.len(),
        forall|k: int| j <= k < s.len() ==> unicode_whitespace(#[trigger] s[k]),
        j == 0 || !unicode_whitespace(s[j - 1]),
    ensures
        trailing_ws(s) == s.len() - j,
    decreases s.len() - j,
{
    if j < s.len() {
        let t = s.drop_last();
        assert forall|k: int| j <= k < t.len() implies unicode_whitespace(#[trigger] t[k]) by {
            assert(t[k] == s[k]);
        }
        if j > 0 {
            assert(t[j - 1] == s[j - 1]);
        }
        lemma_trailing_ws_is(t, j);
    }
}

/// `s` without leading and trailing whitespace (`str::trim`).
pub fn trim(s: &str) -> (r: String)
    ensures
        r@ == trimmed(s@),
{
    let n = s.unicode_len();
    let mut i: usize = 0;
    while i < n && is_whitespace(s.get_char(i))
        invariant
            n == s@.len(),
            i <= n,
            forall|k: int| 0 <= k < i ==> unicode_whitespace(#[trigger] s@[k]),
        decreases n - i,
    {
        i = i + 1;
    }
    proof {
        lemma_leading_ws_is(s@, i as int);
    }
    let ghost t = s@.skip(i as int);
    let mut j: usize = n;
    while j > i && is_whitespace(s.get_char(j - 1))
        invariant
            n == s@.len(),
            i <= j <= n,
            t == s@.skip(i as int),
            forall|k: int| j <= k < n ==> unicode_whitespace(#[trigger] s@[k]),
        decreases j - i,
    {
        j = j - 1;
    }
    proof {
        assert forall|k: int| j - i <= k < t.len() implies unicode_whitespace(#[trigger] t[k]) by {
            assert(t[k] == s@[k + i]);
        }
        if j > i {
            assert(t[j - i - 1] == s@[j - 1]);
        }
        lemma_trailing_ws_is(t, j - i);
        assert(t.take(j - i) =~= s@.subrange(i as int, j as int));
    }
    String::from_str(s.substring_char(i, j))
}


/// The pieces of `s` between occurrences of `sep`, left to right, as
/// `str::split` with a character pattern gives them (an empty text gives one
/// empty piece).
pub open spec fn split_on(s: Seq<char>, sep: char) -> Seq<Seq<char>>
    decreases s.len(),
{
    if s.len() == 0 {
        seq![seq![]]
    } else {
        let prev = split_on(s.drop_last(), sep);
        if s.last() == sep {
            prev.push(seq![])
        } else {
            prev.update(prev.len() - 1, prev.last().push(s.last()))
        }
    }
}

pub proof fn lemma_split_on_nonempty(s: Seq<char>, sep: char)
    ensures
        split_on(s, sep).len() >= 1,
    decreases s.len(),
{
    if s.len() > 0 {
        lemma_split_on_nonempty(s.drop_last(), sep);
    }
}

/// Splitting the first `i` characters: the pieces closed so far, then the
/// characters since the last separator.
proof fn lemma_split_prefix(s: Seq<char>, sep: char, i: int, start: int, done: Seq<Seq<char>>)
    requires
        0 <= start <= i < s.len(),
        split_on(s.take(i), sep) == done.push(s.subrange(start, i)),
    ensures
        s[i] == sep ==> split_on(s.take(i + 1), sep) == done.push(s.subrange(start, i)).push(
            s.subrange(i + 1, i + 1),
        ),
        s[i] != sep ==> split_on(s.take(i + 1), sep) == done.push(s.subrange(start, i + 1)),
{
    let p = s.take(i + 1);
    assert(p.drop_last() =~= s.take(i));
    assert(p.last() == s[i]);
    lemma_split_on_nonempty(s.take(i), sep);
    if s[i] == sep {
        assert(s.subrange(i + 1, i + 1) =~= Seq::<char>::empty());
    } else {
        assert(s.subrange(start, i).push(s[i]) =~= s.subrange(start, i + 1));
        assert(done.push(s.subrange(start, i)).update(done.len() as int, s.subrange(start, i + 1))
            =~= done.push(s.subrange(start, i + 1)));
    }
}

/// The pieces of `s` between commas (`str::split(',')`).
pub fn split_commas(s: &str) -> (pieces: Vec<String>)
    ensures
        pieces@.map_values(|p: String| p@) == split_on(s@, ','),
{
    let n = s.unicode_len();
    let mut pieces: Vec<String> = Vec::new();
    let mut start: usize = 0;
    let mut i: usize = 0;
    assert(s@.take(0) =~= Seq::<char>::empty());
    assert(s@.subrange(0, 0) =~= Seq::<char>::empty());
    assert(pieces@.map_values(|p: String| p@).push(s@.subrange(0, 0)) =~= seq![Seq::<char>::empty()]);
    while i < n
        invariant
            n == s@.len(),
            start <= i <= n,
            split_on(s@.take(i as int), ',') == pieces@.map_values(|p: String| p@).push(
                s@.subrange(start as int, i as int),
            ),
        decreases n - i,
    {
        let c = s.get_char(i);
        proof {
            lemma_split_prefix(s@, ',', i as int, start as int, pieces@.map_values(|p: String| p@));
        }
        if c == ',' {
            let piece = String::from_str(s.substring_char(start, i));
            let ghost before = pieces@;
            pieces.push(piece);
            assert(pieces@.map_values(|p: String| p@) =~= before.map_values(|p: String| p@).push(
                s@.subrange(start as int, i as int),
            ));
            start = i + 1;
        }
        i = i + 1;
    }
    let last = String::from_str(s.substring_char(start, n));
    let ghost before = pieces@;
    pieces.push(last);
    assert(pieces@.map_values(|p: String| p@) =~= before.map_values(|p: String| p@).push(
        s@.subrange(start as int, n as int),
    ));
    assert(s@.take(n as int) =~= s@);
    pieces
}


/// The decimal digit character for `d` (0 <= d < 10).
pub open spec fn digit_char(d: nat) -> char {
    ('0' as int + d) as char
}

/// The decimal text of `n`, without leading zeros.
pub open spec fn decimal(n: nat) -> Seq<char>
    decreases n,
{
    if n < 10 {
        seq![digit_char(n)]
    } else {
        decimal(n / 10).push(digit_char(n % 10))
    }
}

/// The decimal text of a signed number (`-` before negatives).
pub open spec fn signed_decimal(n: int) -> Seq<char> {
    if n < 0 {
        seq!['-'] + decimal((-n) as nat)
    } else {
        decimal(n as nat)
    }
}

/// The decimal text of `n`, padded with a zero to two characters (`{:02}`).
pub open spec fn two_digits(n: nat) -> Seq<char> {
    if n < 10 {
        seq!['0'] + decimal(n)
    } else {
        decimal(n)
    }
}

fn digit_str(d: u64) -> (r: &'static str)
    requires
        d < 10,
    ensures
        r@ == seq![digit_char(d as nat)],
{
    proof {
        reveal_strlit("0");
        reveal_strlit("1");
        reveal_strlit("2");
        reveal_strlit("3");
        reveal_strlit("4");
        reveal_strlit("5");
        reveal_strlit("6");
        reveal_strlit("7");
        reveal_strlit("8");
        reveal_strlit("9");
    }
    if d == 0 {
        "0"
    } else if d == 1 {
        "1"
    } else if d == 2 {
        "2"
    } else if d == 3 {
        "3"
    } else if d == 4 {
        "4"
    } else if d == 5 {
        "5"
    } else if d == 6 {
        "6"
    } else if d == 7 {
        "7"
    } else if d == 8 {
        "8"
    } else {
        "9"
    }
}

/// Appends the decimal text of `n` to `out`.
pub fn push_decimal(out: &mut String, n: u64)
    ensures
        final(out)@ == old(out)@ + decimal(n as nat),
    decreases n,
{
    if n < 10 {
        out.append(digit_str(n));
    } else {
        push_decimal(out, n / 10);
        out.append(digit_str(n % 10));
        assert(decimal(n as nat) == decimal((n / 10) as nat).push(digit_char((n % 10) as nat)));
        assert(old(out)@ + decimal((n / 10) as nat) + seq![digit_char((n % 10) as nat)]
            =~= old(out)@ + decimal(n as nat));
    }
}

/// Appends the decimal text of a signed `n` to `out`.
pub fn push_signed_decimal(out: &mut String, n: i64)
    ensures
        final(out)@ == old(out)@ + signed_decimal(n as int),
{
    if n < 0 {
        proof {
            reveal_strlit("-");
        }
        out.append("-");
        let magnitude: u64 = (0i128 - n as i128) as u64;
        push_decimal(out, magnitude);
        assert(old(out)@ + seq!['-'] + decimal(magnitude as nat) =~= old(out)@ + signed_decimal(
            n as int,
        ));
    } else {
        push_decimal(out, n as u64);
    }
}

/// Appends the decimal text of `n`, padded with a zero to two characters.
pub fn push_two_digits(out: &mut String, n: u64)
    ensures
        final(out)@ == old(out)@ + two_digits(n as nat),
{
    if n < 10 {
        proof {
            reveal_strlit("0");
        }
        out.append("0");
        push_decimal(out, n);
        assert(old(out)@ + seq!['0'] + decimal(n as nat) =~= old(out)@ + two_digits(n as nat));
    } else {
        push_decimal(out, n);
    }
}

/// Whether `s` starts with `p`.
pub open spec fn starts_with_spec(s: Seq<char>, p: Seq<char>) -> bool {
    p.len() <= s.len() && s.take(p.len() as int) == p
}

/// Whether `s` starts with `prefix`.
pub fn starts_with(s: &str, prefix: &str) -> (b: bool)
    ensures
        b == starts_with_spec(s@, prefix@),
{
    let n = s.unicode_len();
    let m = prefix.unicode_len();
    if m > n {
        return false;
    }
    let mut i: usize = 0;
    while i < m
        invariant
            n == s@.len(),
            m == prefix@.len(),
            m <= n,
            i <= m,
            forall|k: int| 0 <= k < i ==> s@[k] == prefix@[k],
        decreases m - i,
    {
        if s.get_char(i) != prefix.get_char(i) {
            assert(s@.take(m as int)[i as int] != prefix@[i as int]);
            return false;
        }
        i = i + 1;
    }
    assert(s@.take(m as int) =~= prefix@);
    true
}


/// Why a decimal text is not an `i32` (the kinds of `core::num::IntErrorKind`
/// that decimal parsing produces).
#[derive(Debug, Clone, Copy, PartialEq, Eq, Structural)]
pub enum IntErrorKind {
    Empty,
    InvalidDigit,
    PosOverflow,
    NegOverflow,
}

impl IntErrorKind {
    /// The message that `core::num::ParseIntError` displays for this kind.
    pub fn message(&self) -> (r: String)
        ensures
            r@ == self.message_spec(),
    {
        match self {
            IntErrorKind::Empty => String::from_str("cannot parse integer from empty string"),
            IntErrorKind::InvalidDigit => String::from_str("invalid digit found in string"),
            IntErrorKind::PosOverflow => String::from_str("number too large to fit in target type"),
            IntErrorKind::NegOverflow => String::from_str("number too small to fit in target type"),
        }
    }

    pub open spec fn message_spec(&self) -> Seq<char> {
        match self {
            IntErrorKind::Empty => "cannot parse integer from empty string"@,
            IntErrorKind::InvalidDigit => "invalid digit found in string"@,
            IntErrorKind::PosOverflow => "number too large to fit in target type"@,
            IntErrorKind::NegOverflow => "number too small to fit in target type"@,
        }
    }
}

pub open spec fn is_ascii_digit(c: char) -> bool {
    '0' <= c <= '9'
}

/// Reads `digits` left to right into a value of the given sign, failing at the
/// first character that is no digit or that takes the value out of `i32`.
pub open spec fn fold_digits(digits: Seq<char>, positive: bool) -> Result<int, IntErrorKind>
    decreases digits.len(),
{
    if digits.len() == 0 {
        Ok(0)
    } else {
        match fold_digits(digits.drop_last(), positive) {
            Err(e) => Err(e),
            Ok(acc) => {
                let c = digits.last();
                if !is_ascii_digit(c) {
                    Err(IntErrorKind::InvalidDigit)
                } else if positive {
                    let v = acc * 10 + (c as int - '0' as int);
                    if v > i32::MAX {
                        Err(IntErrorKind::PosOverflow)
                    } else {
                        Ok(v)
                    }
                } else {
                    let v = acc * 10 - (c as int - '0' as int);
                    if v < i32::MIN {
                        Err(IntErrorKind::NegOverflow)
                    } else {
                        Ok(v)
                    }
                }
            },
        }
    }
}

/// What `str::parse::<i32>` gives back: an optional sign, then decimal digits.
pub open spec fn parse_i32_spec(s: Seq<char>) -> Result<int, IntErrorKind> {
    if s.len() == 0 {
        Err(IntErrorKind::Empty)
    } else if (s[0] == '+' || s[0] == '-') && s.len() == 1 {
        Err(IntErrorKind::InvalidDigit)
    } else if s[0] == '+' {
        fold_digits(s.drop_first(), true)
    } else if s[0] == '-' {
        fold_digits(s.drop_first(), false)
    } else {
        fold_digits(s, true)
    }
}

proof fn lemma_digit_char(d: nat)
    requires
        d < 10,
    ensures
        is_ascii_digit(digit_char(d)),
        digit_char(d) as int - '0' as int == d,
        digit_char(d) != '+' && digit_char(d) != '-',
{
    assert(('0' as int + d) as char as int == '0' as int + d);
}

/// The decimal text of a number reads back as that number.
proof fn lemma_fold_decimal(n: nat)
    requires
        n <= i32::MAX,
    ensures
        fold_digits(decimal(n), true) == Ok::<int, IntErrorKind>(n as int),
        decimal(n).len() > 0,
        decimal(n)[0] != '+' && decimal(n)[0] != '-',
    decreases n,
{
    lemma_digit_char(n % 10);
    if n < 10 {
        let d = decimal(n);
        assert(n % 10 == n);
        assert(d.drop_last() =~= Seq::<char>::empty());
        assert(d.last() == digit_char(n));
        assert(fold_digits(d.drop_last(), true) == Ok::<int, IntErrorKind>(0));
        assert(fold_digits(d, true) == Ok::<int, IntErrorKind>(0 * 10 + (digit_char(n) as int - '0' as int)));
    } else {
        lemma_fold_decimal(n / 10);
        let d = decimal(n);
        assert(d.drop_last() == decimal(n / 10));
        assert(d.last() == digit_char(n % 10));
        assert((n / 10) * 10 + n % 10 == n) by (nonlinear_arith);
        assert(fold_digits(d, true) == Ok::<int, IntErrorKind>((n / 10) * 10 + (digit_char(n % 10) as int - '0' as int)));
        assert(d[0] == decimal(n / 10)[0]);
    }
}

/// The decimal text of an `i32` that is not negative parses back as it.
pub proof fn lemma_decimal_parses_back(n: nat)
    requires
        n <= i32::MAX,
    ensures
        parse_i32_spec(decimal(n)) == Ok::<int, IntErrorKind>(n as int),
{
    lemma_fold_decimal(n);
}

proof fn lemma_fold_digits_range(digits: Seq<char>, positive: bool)
    ensures
        fold_digits(digits, positive) matches Ok(v) ==> (if positive {
            0 <= v <= i32::MAX
        } else {
            i32::MIN <= v <= 0
        }),
    decreases digits.len(),
{
    if digits.len() > 0 {
        lemma_fold_digits_range(digits.drop_last(), positive);
    }
}

fn fold_digits_exec(s: &str, from: usize, positive: bool) -> (r: Result<i32, IntErrorKind>)
    requires
        from <= s@.len(),
    ensures
        r matches Ok(v) ==> fold_digits(s@.skip(from as int), positive) == Ok::<int, IntErrorKind>(
            v as int,
        ),
        r matches Err(e) ==> fold_digits(s@.skip(from as int), positive) == Err::<int, IntErrorKind>(
            e,
        ),
{
    let n = s.unicode_len();
    let mut acc: i64 = 0;
    let mut i: usize = from;
    assert(s@.skip(from as int).take(0) =~= Seq::<char>::empty());
    while i < n
        invariant
            n == s@.len(),
            from <= i <= n,
            fold_digits(s@.skip(from as int).take(i - from), positive) == Ok::<int, IntErrorKind>(
                acc as int,
            ),
            i32::MIN <= acc <= i32::MAX,
        decreases n - i,
    {
        let c = s.get_char(i);
        let ghost d = s@.skip(from as int);
        proof {
            lemma_fold_digits_range(d.take(i - from), positive);
        }
        assert(d.take(i - from + 1).drop_last() =~= d.take(i - from));
        assert(d.take(i - from + 1).last() == c);
        if !('0' <= c && c <= '9') {
            proof {
                lemma_invalid_stops(d, (i - from) as int, positive);
            }
            return Err(IntErrorKind::InvalidDigit);
        }
        let digit: i64 = (c as u32 - '0' as u32) as i64;
        let v: i64 = if positive { acc * 10 + digit } else { acc * 10 - digit };
        if positive && v > i32::MAX as i64 {
            proof {
                lemma_error_stops(d, (i - from) as int, positive, IntErrorKind::PosOverflow);
            }
            return Err(IntErrorKind::PosOverflow);
        }
        if !positive && v < i32::MIN as i64 {
            proof {
                lemma_error_stops(d, (i - from) as int, positive, IntErrorKind::NegOverflow);
            }
            return Err(IntErrorKind::NegOverflow);
        }
        acc = v;
        i = i + 1;
    }
    assert(s@.skip(from as int).take(n - from) =~= s@.skip(from as int));
    Ok(acc as i32)
}

/// Once folding the first `k + 1` characters fails with `e`, folding all fails with `e`.
proof fn lemma_error_stops(d: Seq<char>, k: int, positive: bool, e: IntErrorKind)
    requires
        0 <= k < d.len(),
        fold_digits(d.take(k + 1), positive) == Err::<int, IntErrorKind>(e),
    ensures
        fold_digits(d, positive) == Err::<int, IntErrorKind>(e),
    decreases d.len() - k,
{
    if k + 1 < d.len() {
        let t = d.take(k + 2);
        assert(t.drop_last() =~= d.take(k + 1));
        lemma_error_stops(d, k + 1, positive, e);
    } else {
        assert(d.take(k + 1) =~= d);
    }
}

proof fn lemma_invalid_stops(d: Seq<char>, k: int, positive: bool)
    requires
        0 <= k < d.len(),
        fold_digits(d.take(k), positive) is Ok,
        !is_ascii_digit(d[k]),
    ensures
        fold_digits(d, positive) == Err::<int, IntErrorKind>(IntErrorKind::InvalidDigit),
{
    let t = d.take(k + 1);
    assert(t.drop_last() =~= d.take(k));
    assert(t.last() == d[k]);
    lemma_error_stops(d, k, positive, IntErrorKind::InvalidDigit);
}

/// Parses a decimal `i32` as `str::parse::<i32>` does.
pub fn parse_i32(s: &str) -> (r: Result<i32, IntErrorKind>)
    ensures
        r matches Ok(v) ==> parse_i32_spec(s@) == Ok::<int, IntErrorKind>(v as int),
        r matches Err(e) ==> parse_i32_spec(s@) == Err::<int, IntErrorKind>(e),
{
    let n = s.unicode_len();
    if n == 0 {
        return Err(IntErrorKind::Empty);
    }
    let first = s.get_char(0);
    if (first == '+' || first == '-') && n == 1 {
        return Err(IntErrorKind::InvalidDigit);
    }
    if first == '+' {
        assert(s@.skip(1) =~= s@.drop_first());
        fold_digits_exec(s, 1, true)
    } else if first == '-' {
        assert(s@.skip(1) =~= s@.drop_first());
        fold_digits_exec(s, 1, false)
    } else {
        assert(s@.skip(0) =~= s@);
        fold_digits_exec(s, 0, true)
    }
}


/// What `str::to_lowercase` gives back (Unicode lowercase mapping).
pub uninterp spec fn lowercased(s: Seq<char>) -> Seq<char>;

/// The lowercase form of `s`.
///
/// Calls `str::to_lowercase`; its result is named by `lowercased`.
#[verifier::external_body]
pub(crate) fn to_lowercase(s: &str) -> (r: String)
    ensures
        r@ == lowercased(s@),
{
    s.to_lowercase()
}

/// `prefix` followed by `s`.
pub fn prefixed(prefix: &str, s: &str) -> (r: String)
    ensures
        r@ == prefix@ + s@,
{
    let mut r = String::from_str(prefix);
    r.append(s);
    r
}

/// `a`, `sep` and `b` one after the other.
pub fn joined(a: &str, sep: &str, b: &str) -> (r: String)
    ensures
        r@ == a@ + sep@ + b@,
{
    let mut r = String::from_str(a);
    r.append(sep);
    r.append(b);
    r
}

} // verus!
