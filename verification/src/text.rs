//! Character-level text utilities used throughout the channel.
use vstd::prelude::*;

verus! {

broadcast use vstd::string::group_string_axioms;

/// Appends one character to a `String` (std's `String::push`).
#[verifier::external_body]
fn push_char(s: &mut String, c: char)
    ensures
        final(s)@ == old(s)@.push(c),
{
    s.push(c)
}

/// The characters of a string slice, in order.
pub fn to_chars(s: &str) -> (res: Vec<char>)
    ensures
        res@ == s@,
{
    let mut res: Vec<char> = Vec::new();
    for c in it: s.chars()
        invariant
            res@ == it.seq().take(it.index()),
            it.seq() == s@,
    {
        res.push(c);
    }
    res
}

/// Builds a `String` holding the characters `cs[lo..hi]`.
pub fn string_from_range(cs: &[char], lo: usize, hi: usize) -> (res: String)
    requires
        lo <= hi <= cs@.len(),
    ensures
        res@ == cs@.subrange(lo as int, hi as int),
{
    let mut res = String::new();
    let mut i = lo;
    while i < hi
        invariant
            lo <= i <= hi <= cs@.len(),
            res@ == cs@.subrange(lo as int, i as int),
        decreases hi - i,
    {
        push_char(&mut res, cs[i]);
        assert(cs@.subrange(lo as int, i + 1) == cs@.subrange(lo as int, i as int).push(cs@[i as int]));
        i = i + 1;
    }
    res
}

/// Builds a `String` holding exactly the given characters.
pub fn string_from_chars(cs: &[char]) -> (res: String)
    ensures
        res@ == cs@,
{
    let res = string_from_range(cs, 0, cs.len());
    assert(cs@.subrange(0, cs@.len() as int) == cs@);
    res
}

/// Concatenation of two string slices into a new `String`.
pub fn concat2(a: &str, b: &str) -> (res: String)
    ensures
        res@ == a@ + b@,
{
    let mut res = String::from_str(a);
    res.append(b);
    res
}

/// Concatenation of three string slices into a new `String`.
pub fn concat3(a: &str, b: &str, c: &str) -> (res: String)
    ensures
        res@ == a@ + b@ + c@,
{
    let mut res = String::from_str(a);
    res.append(b);
    res.append(c);
    res
}

/// Exact equality of two string slices.
pub fn str_eq(a: &str, b: &str) -> (res: bool)
    ensures
        res == (a@ == b@),
{
    let x = to_chars(a);
    let y = to_chars(b);
    if x.len() != y.len() {
        return false;
    }
    let n = x.len();
    for i in 0..n
        invariant
            n == x@.len(),
            n == y@.len(),
            x@ == a@,
            y@ == b@,
            forall|j: int| 0 <= j < i ==> x@[j] == y@[j],
    {
        if x[i] != y[i] {
            assert(x@[i as int] != y@[i as int]);
            return false;
        }
    }
    assert(x@ == y@);
    true
}

/// A copy of an optional string.
pub fn clone_opt(o: &Option<String>) -> (res: Option<String>)
    ensures
        res == *o,
{
    match o {
        Some(s) => Some(s.clone()),
        None => None,
    }
}

/// The characters that `clean_spaces` strips from both ends of a text.
pub open spec fn is_trim_char(c: char) -> bool {
    c == ' ' || c == '\u{00A0}' || c == '\n' || c == '\t' || c == '\r'
}

/// `s` without its leading trim characters.
pub open spec fn trim_start(s: Seq<char>) -> Seq<char>
    decreases s.len(),
{
    if s.len() > 0 && is_trim_char(s[0]) {
        trim_start(s.drop_first())
    } else {
        s
    }
}

/// `s` without its trailing trim characters.
pub open spec fn trim_end(s: Seq<char>) -> Seq<char>
    decreases s.len(),
{
    if s.len() > 0 && is_trim_char(s.last()) {
        trim_end(s.drop_last())
    } else {
        s
    }
}

/// `s` without trim characters at either end.
pub open spec fn trimmed(s: Seq<char>) -> Seq<char> {
    trim_end(trim_start(s))
}

proof fn lemma_trim_start_skip(s: Seq<char>, i: int)
    requires
        0 <= i < s.len(),
        is_trim_char(s[i]),
    ensures
        trim_start(s.skip(i)) == trim_start(s.skip(i + 1)),
{
    assert(s.skip(i).drop_first() == s.skip(i + 1));
}

proof fn lemma_trim_end_take(s: Seq<char>, i: int)
    requires
        0 < i <= s.len(),
        is_trim_char(s[i - 1]),
    ensures
        trim_end(s.take(i)) == trim_end(s.take(i - 1)),
{
    assert(s.take(i).drop_last() == s.take(i - 1));
}

/// `trim_end` keeps a prefix of its argument.
proof fn lemma_trim_end_prefix(s: Seq<char>)
    ensures
        trim_end(s).len() <= s.len(),
        trim_end(s) == s.take(trim_end(s).len() as int),
        trim_end(s).len() > 0 ==> !is_trim_char(trim_end(s).last()),
    decreases s.len(),
{
    if s.len() > 0 && is_trim_char(s.last()) {
        lemma_trim_end_prefix(s.drop_last());
        assert(s.drop_last().take(trim_end(s).len() as int) == s.take(trim_end(s).len() as int));
    } else {
        assert(s.take(s.len() as int) == s);
    }
}

/// `trim_start` keeps a suffix of its argument.
proof fn lemma_trim_start_first(s: Seq<char>)
    ensures
        trim_start(s).len() <= s.len(),
        trim_start(s).len() > 0 ==> !is_trim_char(trim_start(s)[0]),
    decreases s.len(),
{
    if s.len() > 0 && is_trim_char(s[0]) {
        lemma_trim_start_first(s.drop_first());
    }
}

proof fn lemma_trim_start_fixed(s: Seq<char>)
    requires
        s.len() == 0 || !is_trim_char(s[0]),
    ensures
        trim_start(s) == s,
{
}

proof fn lemma_trim_end_fixed(s: Seq<char>)
    requires
        s.len() == 0 || !is_trim_char(s.last()),
    ensures
        trim_end(s) == s,
{
}

/// Spaces, no-break spaces, newlines, tabs and carriage returns at either end are
/// dropped by trimming; any other character at an end is kept.
pub proof fn lemma_trimmed_chars(c: char, s: Seq<char>)
    ensures
        (c == ' ' || c == '\u{00A0}' || c == '\n' || c == '\t' || c == '\r') ==> trimmed(seq![c] + s)
            == trimmed(s) && trimmed(s + seq![c]) == trimmed(s),
        !(c == ' ' || c == '\u{00A0}' || c == '\n' || c == '\t' || c == '\r') ==> trimmed(seq![c])
            == seq![c],
{
    assert((seq![c] + s).drop_first() == s);
    if c == ' ' || c == '\u{00A0}' || c == '\n' || c == '\t' || c == '\r' {
        lemma_trim_start_append(s, seq![c]);
    } else {
        assert(seq![c].drop_first() =~= Seq::<char>::empty());
        assert(seq![c].drop_last() =~= Seq::<char>::empty());
    }
}

/// Trimming the front of a text followed by trailing trim characters, then its end,
/// drops those trailing characters.
proof fn lemma_trim_start_append(s: Seq<char>, t: Seq<char>)
    requires
        t.len() == 1,
        is_trim_char(t[0]),
    ensures
        trim_end(trim_start(s + t)) == trim_end(trim_start(s)),
    decreases s.len(),
{
    if s.len() > 0 && is_trim_char(s[0]) {
        assert((s + t).drop_first() == s.drop_first() + t);
        lemma_trim_start_append(s.drop_first(), t);
    } else if s.len() == 0 {
        assert(s + t == t);
        assert(t.drop_first() =~= Seq::<char>::empty());
        assert(trim_start(Seq::<char>::empty()) =~= Seq::<char>::empty());
        assert(trim_start(t) == trim_start(t.drop_first()));
        assert(trim_start(t) =~= Seq::<char>::empty());
    } else {
        assert(trim_start(s + t) == s + t);
        assert((s + t).drop_last() == s);
        assert(trim_start(s) == s);
    }
}

/// Trimming leaves no trim character at either end of the result.
pub proof fn lemma_trimmed_edges(s: Seq<char>)
    ensures
        trimmed(s).len() > 0 ==> !is_trim_char(trimmed(s)[0]) && !is_trim_char(trimmed(s).last()),
{
    lemma_trim_start_first(s);
    lemma_trim_end_prefix(trim_start(s));
}

/// Trimming an already trimmed text changes nothing.
pub proof fn lemma_trimmed_idempotent(s: Seq<char>)
    ensures
        trimmed(trimmed(s)) == trimmed(s),
{
    lemma_trimmed_edges(s);
    let t = trimmed(s);
    lemma_trim_start_fixed(t);
    lemma_trim_end_fixed(t);
}

/// Strips spaces, no-break spaces, newlines, tabs and carriage returns from both ends.
pub fn clean_spaces(content: &str) -> (res: String)
    ensures
        res@ == trimmed(content@),
{
    let cs = to_chars(content);
    let n = cs.len();
    let mut lo: usize = 0;
    assert(cs@.skip(0) == cs@);
    while lo < n && (cs[lo] == ' ' || cs[lo] == '\u{00A0}' || cs[lo] == '\n' || cs[lo] == '\t'
        || cs[lo] == '\r')
        invariant
            n == cs@.len(),
            lo <= n,
            trim_start(cs@) == trim_start(cs@.skip(lo as int)),
        decreases n - lo,
    {
        proof {
            lemma_trim_start_skip(cs@, lo as int);
        }
        lo = lo + 1;
    }
    let ghost tail = cs@.skip(lo as int);
    assert(trim_start(tail) == tail);
    assert(tail == cs@.subrange(lo as int, n as int));
    let mut hi: usize = n;
    assert(tail.take(n - lo) == tail);
    while hi > lo && (cs[hi - 1] == ' ' || cs[hi - 1] == '\u{00A0}' || cs[hi - 1] == '\n' || cs[hi
        - 1] == '\t' || cs[hi - 1] == '\r')
        invariant
            n == cs@.len(),
            lo <= hi <= n,
            tail == cs@.subrange(lo as int, n as int),
            trim_end(tail) == trim_end(tail.take(hi - lo)),
        decreases hi - lo,
    {
        proof {
            lemma_trim_end_take(tail, hi - lo);
        }
        hi = hi - 1;
    }
    let ghost kept = tail.take(hi - lo);
    assert(trim_end(kept) == kept);
    assert(kept == cs@.subrange(lo as int, hi as int));
    string_from_range(&cs, lo, hi)
}

/// ASCII case folding of one character: `A`..`Z` map to `a`..`z`, every other character to itself.
pub open spec fn ascii_fold(c: char) -> int {
    if 65 <= (c as u32) <= 90 {
        (c as u32) + 32
    } else {
        (c as u32) as int
    }
}

/// Equality of two texts up to ASCII case (std's `str::eq_ignore_ascii_case`).
pub open spec fn eq_ignore_ascii_case_spec(a: Seq<char>, b: Seq<char>) -> bool {
    &&& a.len() == b.len()
    &&& forall|i: int| 0 <= i < a.len() ==> #[trigger] ascii_fold(a[i]) == ascii_fold(b[i])
}

fn fold_char(c: char) -> (r: u32)
    ensures
        r == ascii_fold(c),
{
    let v = c as u32;
    if 65 <= v && v <= 90 {
        v + 32
    } else {
        v
    }
}

/// Compares two texts, treating ASCII letters case-insensitively.
pub fn eq_ignore_ascii_case(a: &str, b: &str) -> (res: bool)
    ensures
        res == eq_ignore_ascii_case_spec(a@, b@),
{
    let x = to_chars(a);
    let y = to_chars(b);
    if x.len() != y.len() {
        return false;
    }
    let n = x.len();
    for i in 0..n
        invariant
            n == x@.len(),
            n == y@.len(),
            x@ == a@,
            y@ == b@,
            forall|j: int| 0 <= j < i ==> #[trigger] ascii_fold(x@[j]) == ascii_fold(y@[j]),
    {
        if fold_char(x[i]) != fold_char(y[i]) {
            return false;
        }
    }
    true
}

/// Two texts are equal up to ASCII case exactly when they have the same length and each
/// pair of characters is equal, or the same ASCII letter in upper and lower case.
pub proof fn lemma_eq_ignore_ascii_case_letters(a: Seq<char>, b: Seq<char>)
    ensures
        eq_ignore_ascii_case_spec(a, b) <==> (a.len() == b.len() && forall|i: int|
            0 <= i < a.len() ==> {
                let x = #[trigger] a[i] as u32;
                let y = b[i] as u32;
                ||| a[i] == b[i]
                ||| (65 <= x <= 90 && y == x + 32)
                ||| (65 <= y <= 90 && x == y + 32)
            }),
{
    if eq_ignore_ascii_case_spec(a, b) {
        assert forall|i: int| 0 <= i < a.len() implies {
            let x = #[trigger] a[i] as u32;
            let y = b[i] as u32;
            ||| a[i] == b[i]
            ||| (65 <= x <= 90 && y == x + 32)
            ||| (65 <= y <= 90 && x == y + 32)
        } by {
            assert(ascii_fold(a[i]) == ascii_fold(b[i]));
            if (a[i] as u32) == (b[i] as u32) {
                vstd::utf8::char_u32_cast(a[i], a[i] as u32);
                vstd::utf8::char_u32_cast(b[i], b[i] as u32);
            }
        }
    }
    if a.len() == b.len() && forall|i: int|
        0 <= i < a.len() ==> {
            let x = #[trigger] a[i] as u32;
            let y = b[i] as u32;
            ||| a[i] == b[i]
            ||| (65 <= x <= 90 && y == x + 32)
            ||| (65 <= y <= 90 && x == y + 32)
        } {
        assert forall|i: int| 0 <= i < a.len() implies #[trigger] ascii_fold(a[i]) == ascii_fold(b[i]) by {
            let x = a[i] as u32;
            let y = b[i] as u32;
            assert(a[i] == b[i] || (65 <= x <= 90 && y == x + 32) || (65 <= y <= 90 && x == y + 32));
        }
    }
}

/// Case-insensitive equality is symmetric.
pub proof fn lemma_eq_ignore_ascii_case_symmetric(a: Seq<char>, b: Seq<char>)
    ensures
        eq_ignore_ascii_case_spec(a, b) == eq_ignore_ascii_case_spec(b, a),
{
}

/// Every text equals itself up to case.
pub proof fn lemma_eq_ignore_ascii_case_reflexive(a: Seq<char>)
    ensures
        eq_ignore_ascii_case_spec(a, a),
{
}

/// `p` is a prefix of `s`.
pub open spec fn has_prefix(s: Seq<char>, p: Seq<char>) -> bool {
    p.len() <= s.len() && s.take(p.len() as int) == p
}

/// The text after `prefix`, when `s` starts with it (std's `str::strip_prefix`).
pub fn strip_prefix(s: &str, prefix: &str) -> (res: Option<String>)
    ensures
        has_prefix(s@, prefix@) ==> (res matches Some(rest) && rest@ == s@.skip(prefix@.len() as int)),
        !has_prefix(s@, prefix@) ==> res is None,
{
    let x = to_chars(s);
    let p = to_chars(prefix);
    if p.len() > x.len() {
        return None;
    }
    let n = p.len();
    for i in 0..n
        invariant
            n == p@.len(),
            n <= x@.len(),
            x@ == s@,
            p@ == prefix@,
            forall|j: int| 0 <= j < i ==> x@[j] == p@[j],
    {
        if x[i] != p[i] {
            assert(x@.take(n as int)[i as int] != p@[i as int]);
            return None;
        }
    }
    assert(x@.take(n as int) == p@);
    let rest = string_from_range(&x, n, x.len());
    assert(x@.subrange(n as int, x@.len() as int) == x@.skip(n as int));
    Some(rest)
}

/// Whether `s` starts with `prefix` (std's `str::starts_with` with a text pattern).
pub fn starts_with(s: &str, prefix: &str) -> (res: bool)
    ensures
        res == has_prefix(s@, prefix@),
{
    strip_prefix(s, prefix).is_some()
}

/// The character of a decimal digit.
pub open spec fn digit_char(d: nat) -> char {
    ((48 + d) as u32) as char
}

/// Decimal rendering of a natural number, without sign or leading zeros.
pub open spec fn decimal(n: nat) -> Seq<char>
    decreases n,
{
    if n < 10 {
        seq![digit_char(n)]
    } else {
        decimal(n / 10).push(digit_char(n % 10))
    }
}

proof fn lemma_digit_char_injective(x: nat, y: nat)
    requires
        x < 10,
        y < 10,
        digit_char(x) == digit_char(y),
    ensures
        x == y,
{
    assert((digit_char(x) as u32) == 48 + x);
    assert((digit_char(y) as u32) == 48 + y);
}

proof fn lemma_decimal_len(n: nat)
    ensures
        decimal(n).len() >= 1,
        n >= 10 ==> decimal(n).len() >= 2,
    decreases n,
{
    if n >= 10 {
        lemma_decimal_len(n / 10);
    }
}

/// Different numbers have different decimal renderings.
pub proof fn lemma_decimal_injective(a: nat, b: nat)
    requires
        decimal(a) == decimal(b),
    ensures
        a == b,
    decreases a,
{
    lemma_decimal_len(a);
    lemma_decimal_len(b);
    if a < 10 && b < 10 {
        assert(decimal(a)[0] == digit_char(a));
        assert(decimal(b)[0] == digit_char(b));
        lemma_digit_char_injective(a, b);
    } else if a >= 10 && b >= 10 {
        assert(decimal(a).last() == digit_char(a % 10));
        assert(decimal(b).last() == digit_char(b % 10));
        lemma_digit_char_injective(a % 10, b % 10);
        assert(decimal(a).drop_last() == decimal(a / 10));
        assert(decimal(b).drop_last() == decimal(b / 10));
        lemma_decimal_injective(a / 10, b / 10);
    } else {
        assert(decimal(a).len() != decimal(b).len());
    }
}

fn digit(d: u64) -> (c: char)
    requires
        d < 10,
    ensures
        c == digit_char(d as nat),
{
    let v: u8 = 48 + (d as u8);
    v as char
}

/// Decimal rendering of an unsigned integer (what `to_string` gives for it).
pub fn decimal_string(n: u64) -> (res: String)
    ensures
        res@ == decimal(n as nat),
    decreases n,
{
    if n < 10 {
        let mut s = String::new();
        push_char(&mut s, digit(n));
        assert(s@ == seq![digit_char(n as nat)]);
        s
    } else {
        let mut s = decimal_string(n / 10);
        push_char(&mut s, digit(n % 10));
        s
    }
}

/// Decimal rendering of a signed integer: a minus sign before the magnitude of a negative one.
pub open spec fn signed_decimal(n: int) -> Seq<char> {
    if n < 0 {
        "-"@ + decimal((-n) as nat)
    } else {
        decimal(n as nat)
    }
}

/// Decimal rendering of a signed integer (what `to_string` gives for it).
pub fn signed_decimal_string(n: i64) -> (res: String)
    ensures
        res@ == signed_decimal(n as int),
{
    if n < 0 {
        let magnitude: u64 = (0i128 - (n as i128)) as u64;
        let digits = decimal_string(magnitude);
        concat2("-", digits.as_str())
    } else {
        decimal_string(n as u64)
    }
}

/// Why a text is not an unsigned 64-bit integer, as std names it.
#[derive(Debug, Clone, Copy, PartialEq, Eq, Structural)]
pub enum IntParseError {
    Empty,
    InvalidDigit,
    PosOverflow,
}

/// The message std gives for each kind of integer parse error.
pub open spec fn int_parse_error_message(e: IntParseError) -> Seq<char> {
    match e {
        IntParseError::Empty => "cannot parse integer from empty string"@,
        IntParseError::InvalidDigit => "invalid digit found in string"@,
        IntParseError::PosOverflow => "number too large to fit in target type"@,
    }
}

pub fn int_parse_error_text(e: IntParseError) -> (res: String)
    ensures
        res@ == int_parse_error_message(e),
{
    match e {
        IntParseError::Empty => String::from_str("cannot parse integer from empty string"),
        IntParseError::InvalidDigit => String::from_str("invalid digit found in string"),
        IntParseError::PosOverflow => String::from_str("number too large to fit in target type"),
    }
}

/// A decimal digit character.
pub open spec fn is_digit(c: char) -> bool {
    48 <= (c as u32) <= 57
}

/// Reading decimal digits left to right after the value `acc` so far: a non-digit is an
/// invalid digit, and a value past `u64::MAX` is an overflow, whichever comes first.
pub open spec fn read_digits(acc: int, s: Seq<char>) -> Result<int, IntParseError>
    decreases s.len(),
{
    if s.len() == 0 {
        Ok(acc)
    } else if !is_digit(s[0]) {
        Err(IntParseError::InvalidDigit)
    } else if acc * 10 + ((s[0] as u32) - 48) > u64::MAX {
        Err(IntParseError::PosOverflow)
    } else {
        read_digits(acc * 10 + ((s[0] as u32) - 48), s.drop_first())
    }
}

/// std's `u64::from_str`: an optional `+`, then decimal digits.
pub open spec fn parsed_u64(s: Seq<char>) -> Result<int, IntParseError> {
    if s.len() == 0 {
        Err(IntParseError::Empty)
    } else if s[0] == '+' {
        if s.len() == 1 {
            Err(IntParseError::InvalidDigit)
        } else {
            read_digits(0, s.drop_first())
        }
    } else {
        read_digits(0, s)
    }
}

proof fn lemma_read_digits_bound(acc: int, s: Seq<char>)
    requires
        0 <= acc <= u64::MAX,
    ensures
        read_digits(acc, s) matches Ok(v) ==> 0 <= v <= u64::MAX,
    decreases s.len(),
{
    if s.len() > 0 && is_digit(s[0]) && acc * 10 + ((s[0] as u32) - 48) <= u64::MAX {
        lemma_read_digits_bound(acc * 10 + ((s[0] as u32) - 48), s.drop_first());
    }
}

/// Parses an unsigned 64-bit integer as `str::parse::<u64>` does.
pub fn parse_u64(s: &str) -> (res: Result<u64, IntParseError>)
    ensures
        match parsed_u64(s@) {
            Ok(v) => res == Ok::<u64, IntParseError>(v as u64),
            Err(e) => res == Err::<u64, IntParseError>(e),
        },
        parsed_u64(s@) matches Ok(v) ==> 0 <= v <= u64::MAX,
{
    proof {
        lemma_read_digits_bound(0, s@);
        if s@.len() > 0 {
            lemma_read_digits_bound(0, s@.drop_first());
        }
    }
    let cs = to_chars(s);
    let n = cs.len();
    if n == 0 {
        return Err(IntParseError::Empty);
    }
    let mut i: usize = 0;
    if cs[0] == '+' {
        if n == 1 {
            return Err(IntParseError::InvalidDigit);
        }
        i = 1;
    }
    let ghost digits = cs@.skip(i as int);
    if i == 0 {
        assert(cs@.skip(0) == cs@);
    } else {
        assert(cs@.skip(1) == cs@.drop_first());
    }
    assert(parsed_u64(s@) == read_digits(0, digits));
    let mut acc: u64 = 0;
    while i < n
        invariant
            n == cs@.len(),
            1 <= n,
            i <= n,
            parsed_u64(s@) == read_digits(0, digits),
            read_digits(0, digits) == read_digits(acc as int, cs@.skip(i as int)),
        decreases n - i,
    {
        let c = cs[i];
        let v = c as u32;
        assert(cs@.skip(i as int)[0] == c);
        assert(cs@.skip(i as int).drop_first() == cs@.skip(i + 1));
        if v < 48 || v > 57 {
            return Err(IntParseError::InvalidDigit);
        }
        let d = (v - 48) as u64;
        if acc > 1844674407370955161 || (acc == 1844674407370955161 && d > 5) {
            assert(acc * 10 + d > u64::MAX) by (nonlinear_arith)
                requires
                    acc > 1844674407370955161 || (acc == 1844674407370955161 && d > 5),
            ;
            assert(read_digits(acc as int, cs@.skip(i as int)) == Err::<int, IntParseError>(
                IntParseError::PosOverflow,
            ));
            return Err(IntParseError::PosOverflow);
        }
        assert(acc * 10 + d <= u64::MAX) by (nonlinear_arith)
            requires
                acc <= 1844674407370955161,
                acc == 1844674407370955161 ==> d <= 5,
                d <= 9,
        ;
        acc = acc * 10 + d;
        i = i + 1;
    }
    assert(cs@.skip(n as int).len() == 0);
    Ok(acc)
}

/// `p` is a prefix of `s` exactly when `s` is at least as long and agrees with `p` on
/// each of `p`'s positions.
pub proof fn lemma_has_prefix_positions(s: Seq<char>, p: Seq<char>)
    ensures
        has_prefix(s, p) <==> (p.len() <= s.len() && forall|i: int| 0 <= i < p.len() ==> #[trigger] s[i] == p[i]),
{
    if p.len() <= s.len() && forall|i: int| 0 <= i < p.len() ==> #[trigger] s[i] == p[i] {
        assert(s.take(p.len() as int) =~= p);
    }
    if has_prefix(s, p) {
        assert forall|i: int| 0 <= i < p.len() implies #[trigger] s[i] == p[i] by {
            assert(s.take(p.len() as int)[i] == s[i]);
        }
    }
}

proof fn lemma_read_digits_push(acc: int, s: Seq<char>, c: char)
    ensures
        read_digits(acc, s.push(c)) == match read_digits(acc, s) {
            Ok(v) => read_digits(v, seq![c]),
            Err(e) => Err(e),
        },
    decreases s.len(),
{
    if s.len() == 0 {
        assert(s.push(c) =~= seq![c]);
    } else {
        assert(s.push(c)[0] == s[0]);
        assert(s.push(c).drop_first() =~= s.drop_first().push(c));
        if is_digit(s[0]) && acc * 10 + ((s[0] as u32) - 48) <= u64::MAX {
            lemma_read_digits_push(acc * 10 + ((s[0] as u32) - 48), s.drop_first(), c);
        }
    }
}

proof fn lemma_decimal_reads_back(n: nat)
    requires
        n <= u64::MAX,
    ensures
        read_digits(0, decimal(n)) == Ok::<int, IntParseError>(n as int),
        is_digit(decimal(n)[0]),
        decimal(n).len() >= 1,
    decreases n,
{
    if n < 10 {
        let d = digit_char(n);
        assert((d as u32) == 48 + n);
        assert(seq![d].drop_first() =~= Seq::<char>::empty());
        assert(decimal(n) == seq![d]);
        assert(read_digits(n as int, Seq::<char>::empty()) == Ok::<int, IntParseError>(n as int));
    } else {
        lemma_decimal_reads_back(n / 10);
        let d = digit_char(n % 10);
        assert((d as u32) == 48 + n % 10);
        lemma_read_digits_push(0, decimal(n / 10), d);
        assert(seq![d].drop_first() =~= Seq::<char>::empty());
        assert((n / 10) * 10 + n % 10 == n);
        assert(is_digit(d));
        assert(((n / 10) as int) * 10 + ((d as u32) - 48) == n);
        assert(read_digits(n as int, Seq::<char>::empty()) == Ok::<int, IntParseError>(n as int));
        assert(read_digits((n / 10) as int, seq![d]) == read_digits(n as int, seq![d].drop_first()));
        assert(decimal(n) == decimal(n / 10).push(d));
        assert(decimal(n)[0] == decimal(n / 10)[0]);
    }
}

/// Parsing the decimal rendering of an unsigned 64-bit integer gives that integer back.
pub proof fn lemma_decimal_parses_back(n: u64)
    ensures
        parsed_u64(decimal(n as nat)) == Ok::<int, IntParseError>(n as int),
{
    lemma_decimal_reads_back(n as nat);
}

/// An unsigned integer text is refused as empty when it has no characters, and as holding
/// an invalid digit when it is only `+` or holds a character other than `0`..`9` (after an
/// optional leading `+`) before any overflow.
pub proof fn lemma_parse_rejections(s: Seq<char>)
    ensures
        s.len() == 0 ==> parsed_u64(s) == Err::<int, IntParseError>(IntParseError::Empty),
        s =~= seq!['+'] ==> parsed_u64(s) == Err::<int, IntParseError>(IntParseError::InvalidDigit),
        s.len() > 0 && s[0] != '+' && !is_digit(s[0]) ==> parsed_u64(s) == Err::<int, IntParseError>(
            IntParseError::InvalidDigit,
        ),
        is_digit('0') && is_digit('9') && !is_digit('-') && !is_digit('a'),
{
}

/// A negative integer is written as a minus sign followed by the digits of its magnitude,
/// any other integer as its digits alone.
pub proof fn lemma_signed_decimal(n: int)
    ensures
        n < 0 ==> signed_decimal(n) == seq!['-'] + decimal((-n) as nat),
        n >= 0 ==> signed_decimal(n) == decimal(n as nat),
{
    reveal_strlit("-");
}

/// The messages of integer parse errors are std's.
pub proof fn lemma_int_parse_messages()
    ensures
        int_parse_error_message(IntParseError::Empty) == "cannot parse integer from empty string"@,
        int_parse_error_message(IntParseError::InvalidDigit) == "invalid digit found in string"@,
        int_parse_error_message(IntParseError::PosOverflow) == "number too large to fit in target type"@,
{
}

} // verus!
