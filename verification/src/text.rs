//! Text as sequences of characters.
//!
//! Every rule of this library that reads or builds a string is stated over
//! `Seq<char>`. The executable functions here work on `Vec<char>` and are
//! proved against those statements; `str_chars` and `chars_to_string` lead in
//! and out of `str` and `String`.

use vstd::prelude::*;
use vstd::string::*;

verus! {

/// `String::push` appends one character.
pub assume_specification[ String::push ](s: &mut String, c: char)
    ensures
        final(s)@ == old(s)@.push(c),
;

/// The characters of `s`, in order.
pub fn str_chars(s: &str) -> (v: Vec<char>)
    ensures
        v@ == s@,
{
    let mut v: Vec<char> = Vec::new();
    for c in it: s.chars()
        invariant
            it.seq() == s@,
            v@ == s@.take(it.index()),
    {
        v.push(c);
    }
    v
}

/// The string whose characters are `v`.
pub fn chars_to_string(v: &Vec<char>) -> (s: String)
    ensures
        s@ == v@,
{
    let mut s = String::new();
    let mut i: usize = 0;
    while i < v.len()
        invariant
            i <= v.len(),
            s@ == v@.take(i as int),
        decreases v.len() - i,
    {
        s.push(v[i]);
        i += 1;
    }
    s
}

/// Whether two strings hold the same characters.
pub fn str_eq(a: &str, b: &str) -> (r: bool)
    ensures
        r == (a@ == b@),
{
    let x = str_chars(a);
    let y = str_chars(b);
    chars_eq(&x, &y)
}

/// Whether two character vectors hold the same characters.
pub fn chars_eq(a: &Vec<char>, b: &Vec<char>) -> (r: bool)
    ensures
        r == (a@ == b@),
{
    if a.len() != b.len() {
        return false;
    }
    let mut i: usize = 0;
    while i < a.len()
        invariant
            i <= a.len(),
            a.len() == b.len(),
            a@.take(i as int) == b@.take(i as int),
        decreases a.len() - i,
    {
        if a[i] != b[i] {
            return false;
        }
        i += 1;
    }
    assert(a@.take(a.len() as int) == a@);
    assert(b@.take(b.len() as int) == b@);
    true
}

/// A copy of `v[from..to]`.
pub fn chars_range(v: &Vec<char>, from: usize, to: usize) -> (r: Vec<char>)
    requires
        from <= to <= v.len(),
    ensures
        r@ == v@.subrange(from as int, to as int),
{
    let mut r: Vec<char> = Vec::new();
    let mut i: usize = from;
    while i < to
        invariant
            from <= i <= to <= v.len(),
            r@ == v@.subrange(from as int, i as int),
        decreases to - i,
    {
        r.push(v[i]);
        i += 1;
    }
    r
}

/// A set of characters that a trimming or a scan goes by.
#[derive(Clone, Copy, Debug)]
pub enum CharClass {
    /// The characters with Unicode's `White_Space` property.
    Whitespace,
    /// One character.
    One(char),
    /// Either of two characters.
    Either(char, char),
}

/// Unicode's `White_Space` property.
pub open spec fn is_whitespace(c: char) -> bool {
    let n = c as u32;
    ||| 0x09 <= n <= 0x0D
    ||| n == 0x20
    ||| n == 0x85
    ||| n == 0xA0
    ||| n == 0x1680
    ||| 0x2000 <= n <= 0x200A
    ||| n == 0x2028
    ||| n == 0x2029
    ||| n == 0x202F
    ||| n == 0x205F
    ||| n == 0x3000
}

impl CharClass {
    /// Whether `c` belongs to the class.
    pub open spec fn has(self, c: char) -> bool {
        match self {
            CharClass::Whitespace => is_whitespace(c),
            CharClass::One(a) => c == a,
            CharClass::Either(a, b) => c == a || c == b,
        }
    }

    /// Whether `c` belongs to the class.
    pub fn contains(&self, c: char) -> (r: bool)
        ensures
            r == self.has(c),
    {
        match self {
            CharClass::Whitespace => {
                let n: u32 = c as u32;
                (0x09 <= n && n <= 0x0D) || n == 0x20 || n == 0x85 || n == 0xA0 || n == 0x1680 || (
                0x2000 <= n && n <= 0x200A) || n == 0x2028 || n == 0x2029 || n == 0x202F || n
                    == 0x205F || n == 0x3000
            },
            CharClass::One(a) => c == *a,
            CharClass::Either(a, b) => c == *a || c == *b,
        }
    }
}

/// The first index at or after `i` whose character is outside `k`, or the
/// length of `s` where there is none.
pub open spec fn skip_class(s: Seq<char>, k: CharClass, i: int) -> int
    decreases s.len() - i,
{
    if 0 <= i < s.len() && k.has(s[i]) {
        skip_class(s, k, i + 1)
    } else {
        i
    }
}

/// The end of the longest prefix of `s[..j]` that does not end in a character
/// of `k`.
pub open spec fn back_class(s: Seq<char>, k: CharClass, j: int) -> int
    decreases j,
{
    if 0 < j <= s.len() && k.has(s[j - 1]) {
        back_class(s, k, j - 1)
    } else {
        j
    }
}

/// `s` without its leading characters of `k`.
pub open spec fn trim_start_class(s: Seq<char>, k: CharClass) -> Seq<char> {
    s.skip(skip_class(s, k, 0))
}

/// `s` without its trailing characters of `k`.
pub open spec fn trim_end_class(s: Seq<char>, k: CharClass) -> Seq<char> {
    s.take(back_class(s, k, s.len() as int))
}

/// `s` without its leading and trailing characters of `k`.
pub open spec fn trim_class(s: Seq<char>, k: CharClass) -> Seq<char> {
    trim_end_class(trim_start_class(s, k), k)
}

/// `s` without leading and trailing white space.
pub open spec fn trim(s: Seq<char>) -> Seq<char> {
    trim_class(s, CharClass::Whitespace)
}

/// Trimming at the end leaves a prefix: the index that `back_class` returns
/// lies between zero and where it started.
pub proof fn lemma_back_class_bounds(s: Seq<char>, k: CharClass, j: int)
    requires
        0 <= j <= s.len(),
    ensures
        0 <= back_class(s, k, j) <= j,
    decreases j,
{
    if 0 < j && k.has(s[j - 1]) {
        lemma_back_class_bounds(s, k, j - 1);
    }
}

/// The number of leading characters of `v` that belong to `k`.
pub fn leading_in_class(v: &Vec<char>, k: CharClass) -> (n: usize)
    ensures
        n == skip_class(v@, k, 0),
        n <= v.len(),
{
    let mut i: usize = 0;
    while i < v.len() && k.contains(v[i])
        invariant
            i <= v.len(),
            skip_class(v@, k, 0) == skip_class(v@, k, i as int),
        decreases v.len() - i,
    {
        i += 1;
    }
    i
}

/// The length of `v` without its trailing characters of `k`.
pub fn trailing_in_class(v: &Vec<char>, k: CharClass) -> (n: usize)
    ensures
        n == back_class(v@, k, v@.len() as int),
        n <= v.len(),
{
    let mut j: usize = v.len();
    while j > 0 && k.contains(v[j - 1])
        invariant
            j <= v.len(),
            back_class(v@, k, v@.len() as int) == back_class(v@, k, j as int),
        decreases j,
    {
        j -= 1;
    }
    j
}

/// `v` without its leading characters of `k`.
pub fn trim_start_in(v: &Vec<char>, k: CharClass) -> (r: Vec<char>)
    ensures
        r@ == trim_start_class(v@, k),
{
    let n = leading_in_class(v, k);
    chars_range(v, n, v.len())
}

/// `v` without its trailing characters of `k`.
pub fn trim_end_in(v: &Vec<char>, k: CharClass) -> (r: Vec<char>)
    ensures
        r@ == trim_end_class(v@, k),
{
    let n = trailing_in_class(v, k);
    chars_range(v, 0, n)
}

/// `v` without its leading and trailing characters of `k`.
pub fn trim_in(v: &Vec<char>, k: CharClass) -> (r: Vec<char>)
    ensures
        r@ == trim_class(v@, k),
{
    let a = trim_start_in(v, k);
    trim_end_in(&a, k)
}

/// `v` without leading and trailing white space.
pub fn trim_chars(v: &Vec<char>) -> (r: Vec<char>)
    ensures
        r@ == trim(v@),
{
    trim_in(v, CharClass::Whitespace)
}

/// Whether `s` holds `p` at index `i`.
pub open spec fn holds_at(s: Seq<char>, p: Seq<char>, i: int) -> bool {
    0 <= i && i + p.len() <= s.len() && s.subrange(i, i + p.len()) == p
}

/// Whether `s` starts with `p`.
pub open spec fn starts_with(s: Seq<char>, p: Seq<char>) -> bool {
    holds_at(s, p, 0)
}

/// Whether `s` ends with `p`.
pub open spec fn ends_with(s: Seq<char>, p: Seq<char>) -> bool {
    holds_at(s, p, s.len() - p.len())
}

/// Whether `p` occurs somewhere in `s`.
pub open spec fn contains(s: Seq<char>, p: Seq<char>) -> bool {
    exists|i: int| holds_at(s, p, i)
}

/// Whether `v` holds `p` at index `i`.
pub fn chars_hold_at(v: &Vec<char>, p: &Vec<char>, i: usize) -> (r: bool)
    ensures
        r == holds_at(v@, p@, i as int),
{
    if p.len() > v.len() || i > v.len() - p.len() {
        return false;
    }
    let mut j: usize = 0;
    while j < p.len()
        invariant
            j <= p.len(),
            i + p.len() <= v.len(),
            v@.subrange(i as int, i + j) == p@.take(j as int),
        decreases p.len() - j,
    {
        if v[i + j] != p[j] {
            return false;
        }
        j += 1;
    }
    assert(p@.take(p.len() as int) == p@);
    true
}

/// Whether `v` starts with `p`.
pub fn chars_start_with(v: &Vec<char>, p: &Vec<char>) -> (r: bool)
    ensures
        r == starts_with(v@, p@),
{
    chars_hold_at(v, p, 0)
}

/// Whether `v` ends with `p`.
pub fn chars_end_with(v: &Vec<char>, p: &Vec<char>) -> (r: bool)
    ensures
        r == ends_with(v@, p@),
{
    if p.len() > v.len() {
        return false;
    }
    chars_hold_at(v, p, v.len() - p.len())
}

/// Whether `p` occurs somewhere in `v`.
pub fn chars_contain(v: &Vec<char>, p: &Vec<char>) -> (r: bool)
    ensures
        r == contains(v@, p@),
{
    if p.len() > v.len() {
        return false;
    }
    let last: usize = v.len() - p.len();
    let mut i: usize = 0;
    loop
        invariant
            i <= last,
            last == v.len() - p.len(),
            forall|k: int| 0 <= k < i ==> !holds_at(v@, p@, k),
        decreases last - i,
    {
        if chars_hold_at(v, p, i) {
            return true;
        }
        if i == last {
            return false;
        }
        i += 1;
    }
}

/// The first index at or after `i` at which `s` holds `c`, or the length of
/// `s` where there is none.
pub open spec fn index_of(s: Seq<char>, c: char, i: int) -> int
    decreases s.len() - i,
{
    if 0 <= i < s.len() && s[i] != c {
        index_of(s, c, i + 1)
    } else {
        i
    }
}

/// The first index at or after `from` at which `v` holds `c`, or the length
/// of `v`.
pub fn chars_index_of(v: &Vec<char>, c: char, from: usize) -> (n: usize)
    requires
        from <= v.len(),
    ensures
        n == index_of(v@, c, from as int),
        from <= n <= v.len(),
{
    let mut i: usize = from;
    while i < v.len() && v[i] != c
        invariant
            from <= i <= v.len(),
            index_of(v@, c, from as int) == index_of(v@, c, i as int),
        decreases v.len() - i,
    {
        i += 1;
    }
    i
}

/// The pieces of `s` between the occurrences of `sep`, from index `i` on.
/// A sequence that ends in `sep` ends in an empty piece.
pub open spec fn split_from(s: Seq<char>, sep: char, i: int) -> Seq<Seq<char>>
    decreases s.len() - i,
{
    if 0 <= i <= s.len() {
        let j = index_of(s, sep, i);
        if i <= j < s.len() {
            seq![s.subrange(i, j)] + split_from(s, sep, j + 1)
        } else {
            seq![s.subrange(i, s.len() as int)]
        }
    } else {
        Seq::empty()
    }
}

/// The pieces of `s` between the occurrences of `sep`.
pub open spec fn split(s: Seq<char>, sep: char) -> Seq<Seq<char>> {
    split_from(s, sep, 0)
}

/// The views of the strings of `v`.
pub open spec fn views(v: Seq<Vec<char>>) -> Seq<Seq<char>> {
    v.map_values(|x: Vec<char>| x@)
}

/// The views of the strings of `v`.
pub open spec fn string_views(v: Seq<String>) -> Seq<Seq<char>> {
    v.map_values(|x: String| x@)
}

/// The pieces of `v` between the occurrences of `sep`.
pub fn chars_split(v: &Vec<char>, sep: char) -> (r: Vec<Vec<char>>)
    ensures
        views(r@) == split(v@, sep),
        r.len() >= 1,
{
    let mut r: Vec<Vec<char>> = Vec::new();
    let mut i: usize = 0;
    loop
        invariant_except_break
            i <= v.len(),
            split(v@, sep) == views(r@) + split_from(v@, sep, i as int),
        ensures
            views(r@) == split(v@, sep),
            r.len() >= 1,
        decreases v.len() - i,
    {
        let j = chars_index_of(v, sep, i);
        let piece = chars_range(v, i, j);
        r.push(piece);
        if j < v.len() {
            i = j + 1;
        } else {
            break ;
        }
    }
    r
}

/// Whether `c` is one of the digits `0` to `9`.
pub open spec fn is_digit(c: char) -> bool {
    '0' <= c <= '9'
}

/// The value of the digit `c`.
pub open spec fn digit_value(c: char) -> nat {
    (c as u32 - '0' as u32) as nat
}

/// The number that the digits of `s` write in base ten.
pub open spec fn decimal_value(s: Seq<char>) -> nat
    decreases s.len(),
{
    if s.len() == 0 {
        0
    } else {
        decimal_value(s.drop_last()) * 10 + digit_value(s.last())
    }
}

/// Whether `s` is made of digits only.
pub open spec fn all_digits(s: Seq<char>) -> bool {
    forall|i: int| 0 <= i < s.len() ==> is_digit(#[trigger] s[i])
}

/// What `s` reads as an unsigned 64-bit number in base ten: one optional
/// `+`, then at least one digit, and a value that fits.
pub open spec fn parse_u64(s: Seq<char>) -> Option<u64> {
    let digits = if s.len() > 0 && s[0] == '+' {
        s.skip(1)
    } else {
        s
    };
    if digits.len() > 0 && all_digits(digits) && decimal_value(digits) <= u64::MAX {
        Some(decimal_value(digits) as u64)
    } else {
        None
    }
}

/// The value of a prefix of digits is at most the value of all of them.
pub proof fn lemma_decimal_value_grows(s: Seq<char>, n: int)
    requires
        0 <= n <= s.len(),
    ensures
        decimal_value(s.take(n)) <= decimal_value(s),
    decreases s.len() - n,
{
    if n < s.len() {
        lemma_decimal_value_grows(s, n + 1);
        assert(s.take(n + 1).drop_last() == s.take(n));
    } else {
        assert(s.take(n) == s);
    }
}

/// Reads `v` as an unsigned 64-bit number in base ten.
pub fn chars_parse_u64(v: &Vec<char>) -> (r: Option<u64>)
    ensures
        r == parse_u64(v@),
{
    let start: usize = if v.len() > 0 && v[0] == '+' {
        1
    } else {
        0
    };
    if start == v.len() {
        return None;
    }
    let ghost digits = v@.skip(start as int);
    let mut value: u64 = 0;
    let mut i: usize = start;
    while i < v.len()
        invariant
            start <= i <= v.len(),
            start == if v@.len() > 0 && v@[0] == '+' {
                1int
            } else {
                0int
            },
            digits == v@.skip(start as int),
            forall|k: int| 0 <= k < i - start ==> is_digit(#[trigger] digits[k]),
            value == decimal_value(digits.take(i - start)),
        decreases v.len() - i,
    {
        let c = v[i];
        assert(digits[i - start] == c);
        assert(v@.skip(0) == v@);
        if !(c >= '0' && c <= '9') {
            return None;
        }
        let d: u64 = (c as u32 - '0' as u32) as u64;
        assert(digits.take(i - start + 1).drop_last() == digits.take(i - start));
        proof {
            lemma_decimal_value_grows(digits, i - start + 1);
        }
        if value > (u64::MAX - d) / 10 {
            return None;
        }
        value = value * 10 + d;
        i += 1;
    }
    assert(digits.take(i - start) == digits);
    assert(v@.skip(0) == v@);
    Some(value)
}

/// The digits that write `n` in base ten, without leading zeros; `0` is
/// written `0`.
pub open spec fn decimal_digits(n: nat) -> Seq<char>
    decreases n,
{
    if n < 10 {
        seq![digit_char(n)]
    } else {
        decimal_digits(n / 10).push(digit_char(n % 10))
    }
}

/// The digit that writes `d`, for `d` below ten.
pub open spec fn digit_char(d: nat) -> char {
    (('0' as u32) + d as u32) as char
}

/// The digits that write `n` in base ten.
pub fn u64_to_chars(n: u64) -> (r: Vec<char>)
    ensures
        r@ == decimal_digits(n as nat),
{
    let mut rev: Vec<char> = Vec::new();
    let mut rest: u64 = n;
    while rest >= 10
        invariant
            decimal_digits(n as nat) == decimal_digits(rest as nat) + rev@.reverse(),
        decreases rest,
    {
        let d: u32 = (rest % 10) as u32;
        let c: char = char_of_digit(d);
        rev.push(c);
        rest = rest / 10;
    }
    let mut out: Vec<char> = Vec::new();
    out.push(char_of_digit(rest as u32));
    let mut j: usize = rev.len();
    while j > 0
        invariant
            j <= rev.len(),
            out@ == decimal_digits(rest as nat) + rev@.reverse().take(rev.len() - j),
        decreases j,
    {
        j -= 1;
        out.push(rev[j]);
    }
    out
}

/// The digit that writes `d`.
fn char_of_digit(d: u32) -> (c: char)
    requires
        d < 10,
    ensures
        c == digit_char(d as nat),
{
    if d == 0 {
        '0'
    } else if d == 1 {
        '1'
    } else if d == 2 {
        '2'
    } else if d == 3 {
        '3'
    } else if d == 4 {
        '4'
    } else if d == 5 {
        '5'
    } else if d == 6 {
        '6'
    } else if d == 7 {
        '7'
    } else if d == 8 {
        '8'
    } else {
        '9'
    }
}

/// An ASCII letter in lower case; any other character as it is.
pub open spec fn ascii_lower(c: char) -> char {
    if 'A' <= c <= 'Z' {
        ((c as u32) + 32) as char
    } else {
        c
    }
}

/// Whether `a` and `b` are equal up to the case of ASCII letters.
pub open spec fn eq_ignore_ascii_case(a: Seq<char>, b: Seq<char>) -> bool {
    a.len() == b.len() && forall|i: int|
        0 <= i < a.len() ==> ascii_lower(#[trigger] a[i]) == ascii_lower(b[i])
}

/// The lower-case code of `c`: that of `ascii_lower(c)`.
fn lower_code(c: char) -> (n: u32)
    ensures
        n == ascii_lower(c) as u32,
{
    let n: u32 = c as u32;
    if 65 <= n && n <= 90 {
        n + 32
    } else {
        n
    }
}

/// Whether `a` and `b` are equal up to the case of ASCII letters.
pub fn chars_eq_ignore_ascii_case(a: &Vec<char>, b: &Vec<char>) -> (r: bool)
    ensures
        r == eq_ignore_ascii_case(a@, b@),
{
    if a.len() != b.len() {
        return false;
    }
    let mut i: usize = 0;
    while i < a.len()
        invariant
            i <= a.len(),
            a.len() == b.len(),
            forall|k: int| 0 <= k < i ==> ascii_lower(#[trigger] a@[k]) == ascii_lower(b@[k]),
        decreases a.len() - i,
    {
        if lower_code(a[i]) != lower_code(b[i]) {
            return false;
        }
        i += 1;
    }
    true
}

/// `a` followed by `b`.
pub fn join2(a: &str, b: &str) -> (r: String)
    ensures
        r@ == a@ + b@,
{
    let mut r = String::from_str(a);
    r.append(b);
    r
}

/// `a`, `b` and `c` in a row.
pub fn join3(a: &str, b: &str, c: &str) -> (r: String)
    ensures
        r@ == a@ + b@ + c@,
{
    let mut r = join2(a, b);
    r.append(c);
    r
}

/// `a`, `b`, `c` and `d` in a row.
pub fn join4(a: &str, b: &str, c: &str, d: &str) -> (r: String)
    ensures
        r@ == a@ + b@ + c@ + d@,
{
    let mut r = join3(a, b, c);
    r.append(d);
    r
}

/// `a`, `b`, `c`, `d` and `e` in a row.
pub fn join5(a: &str, b: &str, c: &str, d: &str, e: &str) -> (r: String)
    ensures
        r@ == a@ + b@ + c@ + d@ + e@,
{
    let mut r = join4(a, b, c, d);
    r.append(e);
    r
}

/// The index after the copies of `p` that `s` holds in a row from `i` on.
/// An empty `p` is held nowhere.
pub open spec fn skip_repeats(s: Seq<char>, p: Seq<char>, i: int) -> int
    decreases s.len() - i,
{
    if p.len() > 0 && holds_at(s, p, i) {
        skip_repeats(s, p, i + p.len())
    } else {
        i
    }
}

/// `s` without the copies of `p` that it starts with.
pub open spec fn trim_start_str(s: Seq<char>, p: Seq<char>) -> Seq<char> {
    s.skip(skip_repeats(s, p, 0))
}

/// `v` without the copies of `p` that it starts with.
pub fn trim_start_matching(v: &Vec<char>, p: &Vec<char>) -> (r: Vec<char>)
    ensures
        r@ == trim_start_str(v@, p@),
{
    let mut i: usize = 0;
    if p.len() > 0 {
        while chars_hold_at(v, p, i)
            invariant
                i <= v.len(),
                p.len() > 0,
                skip_repeats(v@, p@, 0) == skip_repeats(v@, p@, i as int),
            decreases v.len() - i,
        {
            i += p.len();
        }
    }
    chars_range(v, i, v.len())
}

/// The first character of `s` where it has one.
pub open spec fn first_char(s: Seq<char>) -> Option<char> {
    if s.len() > 0 {
        Some(s[0])
    } else {
        None
    }
}

/// Whether `s` holds the character `c`.
pub open spec fn has_char(s: Seq<char>, c: char) -> bool {
    index_of(s, c, 0) < s.len()
}

/// `s` with every `from` turned into `to`.
pub open spec fn replace_char(s: Seq<char>, from: char, to: char) -> Seq<char> {
    s.map_values(
        |c: char|
            if c == from {
                to
            } else {
                c
            },
    )
}

/// `v` with every `from` turned into `to`.
pub fn chars_replace(v: &Vec<char>, from: char, to: char) -> (r: Vec<char>)
    ensures
        r@ == replace_char(v@, from, to),
{
    let mut r: Vec<char> = Vec::new();
    let mut i: usize = 0;
    while i < v.len()
        invariant
            i <= v.len(),
            r@ == replace_char(v@, from, to).take(i as int),
        decreases v.len() - i,
    {
        let c = v[i];
        r.push(if c == from {
            to
        } else {
            c
        });
        i += 1;
    }
    r
}

/// The start of the last piece of `s[..j]` that holds no character of `k`.
pub open spec fn back_to_class(s: Seq<char>, k: CharClass, j: int) -> int
    decreases j,
{
    if 0 < j <= s.len() && !k.has(s[j - 1]) {
        back_to_class(s, k, j - 1)
    } else {
        j
    }
}

/// What follows the last character of `k` in `s`; all of `s` where it holds
/// none.
pub open spec fn last_piece(s: Seq<char>, k: CharClass) -> Seq<char> {
    s.skip(back_to_class(s, k, s.len() as int))
}

/// What follows the last character of `k` in `v`.
pub fn chars_last_piece(v: &Vec<char>, k: CharClass) -> (r: Vec<char>)
    ensures
        r@ == last_piece(v@, k),
{
    let mut j: usize = v.len();
    while j > 0 && !k.contains(v[j - 1])
        invariant
            j <= v.len(),
            back_to_class(v@, k, v@.len() as int) == back_to_class(v@, k, j as int),
        decreases j,
    {
        j -= 1;
    }
    chars_range(v, j, v.len())
}

/// `line` without one trailing carriage return.
pub open spec fn strip_cr(line: Seq<char>) -> Seq<char> {
    if line.len() > 0 && line.last() == '\r' {
        line.drop_last()
    } else {
        line
    }
}

/// The lines of a text: what stands between line feeds, each without the
/// carriage return that stood before its line feed. What follows the last
/// line feed is a line only where there is any.
pub open spec fn file_lines(text: Seq<char>) -> Seq<Seq<char>> {
    let pieces = split(text, '\n');
    let n = pieces.len() as int;
    let count = if n > 0 && pieces[n - 1].len() == 0 {
        n - 1
    } else {
        n
    };
    Seq::new(
        count as nat,
        |i: int|
            if i < n - 1 {
                strip_cr(pieces[i])
            } else {
                pieces[i]
            },
    )
}

/// The lines of `v`.
pub fn chars_lines(v: &Vec<char>) -> (r: Vec<Vec<char>>)
    ensures
        views(r@) == file_lines(v@),
{
    let pieces = chars_split(v, '\n');
    let n = pieces.len();
    let count = if pieces[n - 1].len() == 0 {
        n - 1
    } else {
        n
    };
    let mut out: Vec<Vec<char>> = Vec::new();
    let mut i: usize = 0;
    while i < count
        invariant
            i <= count <= n,
            n == pieces.len(),
            n >= 1,
            views(pieces@) == split(v@, '\n'),
            count == file_lines(v@).len(),
            views(out@) == file_lines(v@).take(i as int),
        decreases count - i,
    {
        let piece = &pieces[i];
        let line: Vec<char> = if i < n - 1 && piece.len() > 0 && piece[piece.len() - 1] == '\r' {
            chars_range(piece, 0, piece.len() - 1)
        } else {
            chars_range(piece, 0, piece.len())
        };
        assert(piece@.subrange(0, piece@.len() as int) == piece@);
        let ghost before = out@;
        out.push(line);
        assert(views(out@) =~= views(before).push(file_lines(v@)[i as int]));
        i += 1;
    }
    out
}

/// The digit that writes a number below ten is a digit, and its value is
/// that number.
pub proof fn lemma_digit_char(d: nat)
    requires
        d < 10,
    ensures
        is_digit(digit_char(d)),
        digit_value(digit_char(d)) == d,
        !is_whitespace(digit_char(d)),
        digit_char(d) != '+',
{
    assert('0' as u32 == 48);
    assert('9' as u32 == 57);
    assert('+' as u32 == 43);
    let c = digit_char(d);
    assert(c as u32 == 48 + d);
}

/// What is written for a number is read as that number: its digits are
/// digits, their value is the number, and there is at least one.
pub proof fn lemma_decimal_digits_value(n: nat)
    ensures
        decimal_digits(n).len() > 0,
        all_digits(decimal_digits(n)),
        decimal_value(decimal_digits(n)) == n,
        !is_whitespace(decimal_digits(n)[0]),
        !is_whitespace(decimal_digits(n).last()),
        decimal_digits(n)[0] != '+',
    decreases n,
{
    if n < 10 {
        lemma_digit_char(n);
        let s = decimal_digits(n);
        assert(s.drop_last() =~= Seq::<char>::empty());
        assert(decimal_value(s.drop_last()) == 0);
    } else {
        lemma_decimal_digits_value(n / 10);
        lemma_digit_char(n % 10);
        let head = decimal_digits(n / 10);
        let s = decimal_digits(n);
        assert(s.drop_last() =~= head);
        assert(s[0] == head[0]);
        assert forall|i: int| 0 <= i < s.len() implies is_digit(#[trigger] s[i]) by {
            if i < head.len() {
                assert(s[i] == head[i]);
            }
        }
    }
}

/// What is written for a number is read back as that number, also with the
/// white space around it dropped first.
pub proof fn lemma_written_number_is_read(n: u64)
    ensures
        parse_u64(decimal_digits(n as nat)) == Some(n),
        trim(decimal_digits(n as nat)) == decimal_digits(n as nat),
{
    let s = decimal_digits(n as nat);
    lemma_decimal_digits_value(n as nat);
    assert(skip_class(s, CharClass::Whitespace, 0) == 0);
    assert(s.skip(0) =~= s);
    assert(back_class(s, CharClass::Whitespace, s.len() as int) == s.len());
    assert(s.take(s.len() as int) =~= s);
}

} // verus!
