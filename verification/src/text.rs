//! Characters and strings.
//!
//! A string is modelled by the sequence of its characters. The functions here
//! work on that sequence, so that a contract can say what a text is without
//! speaking of bytes.
use vstd::prelude::*;
use vstd::utf8::*;

verus! {

/// `String::push` appends one character.
pub assume_specification[ String::push ](s: &mut String, c: char)
    ensures
        final(s)@ == old(s)@.push(c),
;

/// The view of an optional text.
pub open spec fn opt_text(o: Option<String>) -> Option<Seq<char>> {
    match o {
        Some(s) => Some(s@),
        None => None,
    }
}

/// The views of a sequence of texts.
pub open spec fn texts(s: Seq<String>) -> Seq<Seq<char>> {
    Seq::new(s.len(), |i: int| s[i]@)
}

/// The characters of `s`, in order.
pub fn chars_of(s: &str) -> (r: Vec<char>)
    ensures
        r@ == s@,
{
    let mut out: Vec<char> = Vec::new();
    for c in it: s.chars()
        invariant
            out@ == it.seq().take(it.index() as int),
    {
        out.push(c);
    }
    out
}

/// The text made of the characters `from..to` of `v`.
pub fn text_of(v: &Vec<char>, from: usize, to: usize) -> (r: String)
    requires
        from <= to <= v@.len(),
    ensures
        r@ == v@.subrange(from as int, to as int),
{
    let mut out = String::new();
    let mut i: usize = from;
    while i < to
        invariant
            from <= i <= to <= v@.len(),
            out@ == v@.subrange(from as int, i as int),
        decreases to - i,
    {
        out.push(v[i]);
        i = i + 1;
    }
    out
}

/// A copy of an optional text.
pub fn clone_opt(o: &Option<String>) -> (r: Option<String>)
    ensures
        r == *o,
{
    match o {
        Some(s) => Some(s.clone()),
        None => None,
    }
}

/// A copy of a list of texts.
pub fn clone_texts(v: &[String]) -> (r: Vec<String>)
    ensures
        r@ == v@,
{
    let mut out: Vec<String> = Vec::new();
    let mut i: usize = 0;
    while i < v.len()
        invariant
            i <= v@.len(),
            out@ == v@.take(i as int),
        decreases v@.len() - i,
    {
        out.push(v[i].clone());
        i = i + 1;
    }
    out
}

/// Whether two texts are the same.
pub fn same_text(a: &str, b: &str) -> (r: bool)
    ensures
        r == (a@ == b@),
{
    let x = chars_of(a);
    let y = chars_of(b);
    if x.len() != y.len() {
        return false;
    }
    let mut i: usize = 0;
    while i < x.len()
        invariant
            i <= x@.len(),
            x@.len() == y@.len(),
            x@ == a@,
            y@ == b@,
            forall|k: int| 0 <= k < i ==> x@[k] == y@[k],
        decreases x@.len() - i,
    {
        if x[i] != y[i] {
            return false;
        }
        i = i + 1;
    }
    assert(a@ =~= b@);
    true
}

// ---------------------------------------------------------------------------
// Concatenation
// ---------------------------------------------------------------------------

/// `a` followed by `b`.
pub fn cat(a: &str, b: &str) -> (r: String)
    ensures
        r@ == a@ + b@,
{
    let mut out = a.to_owned();
    out.append(b);
    out
}

/// `a`, `b` and `c`, one after the other.
pub fn cat3(a: &str, b: &str, c: &str) -> (r: String)
    ensures
        r@ == a@ + b@ + c@,
{
    let mut out = a.to_owned();
    out.append(b);
    out.append(c);
    out
}

/// The texts of `parts` with `sep` between any two neighbours.
pub open spec fn joined(parts: Seq<Seq<char>>, sep: Seq<char>) -> Seq<char>
    decreases parts.len(),
{
    if parts.len() == 0 {
        Seq::empty()
    } else if parts.len() == 1 {
        parts[0]
    } else {
        joined(parts.drop_last(), sep) + sep + parts.last()
    }
}

/// Joins `parts` with `sep`.
pub fn join(parts: &[String], sep: &str) -> (r: String)
    ensures
        r@ == joined(texts(parts@), sep@),
{
    let mut out = String::new();
    let mut i: usize = 0;
    while i < parts.len()
        invariant
            i <= parts@.len(),
            out@ == joined(texts(parts@).take(i as int), sep@),
        decreases parts@.len() - i,
    {
        proof {
            let next = texts(parts@).take(i + 1);
            assert(next.drop_last() =~= texts(parts@).take(i as int));
            assert(next.last() == parts@[i as int]@);
        }
        if i > 0 {
            out.append(sep);
        }
        out.append(parts[i].as_str());
        i = i + 1;
    }
    assert(texts(parts@).take(i as int) =~= texts(parts@));
    out
}

// ---------------------------------------------------------------------------
// White space
// ---------------------------------------------------------------------------

/// The characters with the Unicode property `White_Space`.
pub open spec fn white(c: char) -> bool {
    let n = c as u32;
    ||| 0x09 <= n <= 0x0d
    ||| n == 0x20
    ||| n == 0x85
    ||| n == 0xa0
    ||| n == 0x1680
    ||| 0x2000 <= n <= 0x200a
    ||| n == 0x2028
    ||| n == 0x2029
    ||| n == 0x202f
    ||| n == 0x205f
    ||| n == 0x3000
}

/// Whether `c` is white space.
pub fn is_white(c: char) -> (r: bool)
    ensures
        r == white(c),
{
    let n: u32 = c as u32;
    (n >= 0x09 && n <= 0x0d) || n == 0x20 || n == 0x85 || n == 0xa0 || n == 0x1680 || (n >= 0x2000
        && n <= 0x200a) || n == 0x2028 || n == 0x2029 || n == 0x202f || n == 0x205f || n == 0x3000
}

/// `s` without its leading white space.
pub open spec fn trim_start(s: Seq<char>) -> Seq<char>
    decreases s.len(),
{
    if s.len() > 0 && white(s[0]) {
        trim_start(s.drop_first())
    } else {
        s
    }
}

/// `s` without its trailing white space.
pub open spec fn trim_end(s: Seq<char>) -> Seq<char>
    decreases s.len(),
{
    if s.len() > 0 && white(s.last()) {
        trim_end(s.drop_last())
    } else {
        s
    }
}

/// `s` without white space at either end.
pub open spec fn trimmed(s: Seq<char>) -> Seq<char> {
    trim_end(trim_start(s))
}

/// `s` without white space at either end.
pub fn trim(s: &str) -> (r: String)
    ensures
        r@ == trimmed(s@),
{
    let v = chars_of(s);
    let mut i: usize = 0;
    assert(s@.subrange(0, s@.len() as int) =~= s@);
    while i < v.len() && is_white(v[i])
        invariant
            v@ == s@,
            i <= v@.len(),
            trim_start(s@) == trim_start(s@.subrange(i as int, s@.len() as int)),
        decreases v@.len() - i,
    {
        proof {
            let rest = s@.subrange(i as int, s@.len() as int);
            assert(rest[0] == v@[i as int]);
            assert(rest.drop_first() =~= s@.subrange(i + 1, s@.len() as int));
        }
        i = i + 1;
    }
    let ghost head = s@.subrange(i as int, s@.len() as int);
    assert(trim_start(s@) == head);
    let mut j: usize = v.len();
    while j > i && is_white(v[j - 1])
        invariant
            v@ == s@,
            i <= j <= v@.len(),
            head == s@.subrange(i as int, s@.len() as int),
            trim_end(head) == trim_end(s@.subrange(i as int, j as int)),
        decreases j,
    {
        proof {
            let rest = s@.subrange(i as int, j as int);
            assert(rest.last() == v@[j - 1]);
            assert(rest.drop_last() =~= s@.subrange(i as int, j - 1));
        }
        j = j - 1;
    }
    assert(trim_end(s@.subrange(i as int, j as int)) == s@.subrange(i as int, j as int));
    text_of(&v, i, j)
}

/// What is left after trimming neither begins nor ends with white space, and is
/// a part of the text.
pub proof fn trimmed_is_tight(s: Seq<char>)
    ensures
        trimmed(s).len() <= s.len(),
        trimmed(s).len() > 0 ==> !white(trimmed(s)[0]) && !white(trimmed(s).last()),
        exists|i: int, j: int|
            0 <= i <= j <= s.len() && trimmed(s) == #[trigger] s.subrange(i, j),
{
    let (i, n) = trim_start_part(s);
    let j = trim_end_part(trim_start(s));
    assert(trimmed(s) =~= s.subrange(i, i + j));
    if trimmed(s).len() > 0 {
        assert(trimmed(s)[0] == trim_start(s)[0]);
    }
}

proof fn trim_start_part(s: Seq<char>) -> (r: (int, int))
    ensures
        0 <= r.0 <= s.len(),
        r.1 == s.len(),
        trim_start(s) == s.subrange(r.0, r.1),
        trim_start(s).len() > 0 ==> !white(trim_start(s)[0]),
    decreases s.len(),
{
    if s.len() > 0 && white(s[0]) {
        let (i, n) = trim_start_part(s.drop_first());
        assert(s.drop_first().subrange(i, n) =~= s.subrange(i + 1, s.len() as int));
        (i + 1, s.len() as int)
    } else {
        assert(s.subrange(0, s.len() as int) =~= s);
        (0, s.len() as int)
    }
}

proof fn trim_end_part(s: Seq<char>) -> (j: int)
    ensures
        0 <= j <= s.len(),
        trim_end(s) == s.subrange(0, j),
        trim_end(s).len() > 0 ==> !white(trim_end(s).last()),
    decreases s.len(),
{
    if s.len() > 0 && white(s.last()) {
        let j = trim_end_part(s.drop_last());
        assert(s.drop_last().subrange(0, j) =~= s.subrange(0, j));
        j
    } else {
        assert(s.subrange(0, s.len() as int) =~= s);
        s.len() as int
    }
}

/// A text that neither begins nor ends with white space is left as it is.
pub proof fn trimmed_fixed(s: Seq<char>)
    requires
        s.len() == 0 || !white(s[0]) && !white(s.last()),
    ensures
        trimmed(s) == s,
{
}

// ---------------------------------------------------------------------------
// ASCII case
// ---------------------------------------------------------------------------

/// `c` with an ASCII capital made small.
pub open spec fn lower_char(c: char) -> char {
    if 'A' <= c && c <= 'Z' {
        (c as u32 + 32) as char
    } else {
        c
    }
}

/// `s` with its ASCII capitals made small.
pub open spec fn lower(s: Seq<char>) -> Seq<char> {
    Seq::new(s.len(), |i: int| lower_char(s[i]))
}

/// Whether `a` and `b` differ in nothing but the case of ASCII letters.
pub open spec fn same_ignoring_case(a: Seq<char>, b: Seq<char>) -> bool {
    lower(a) == lower(b)
}

/// `c` with an ASCII capital made small.
pub fn to_lower_char(c: char) -> (r: char)
    ensures
        r == lower_char(c),
{
    if 'A' <= c && c <= 'Z' {
        ((c as u8) + 32) as char
    } else {
        c
    }
}

/// `s` with its ASCII capitals made small.
pub fn to_ascii_lower(s: &str) -> (r: String)
    ensures
        r@ == lower(s@),
{
    let v = chars_of(s);
    let mut out = String::new();
    let mut i: usize = 0;
    while i < v.len()
        invariant
            v@ == s@,
            i <= v@.len(),
            out@ == lower(s@.take(i as int)),
        decreases v@.len() - i,
    {
        out.push(to_lower_char(v[i]));
        i = i + 1;
        assert(lower(s@.take(i as int)) =~= lower(s@.take(i - 1)).push(lower_char(s@[i - 1])));
    }
    assert(s@.take(i as int) =~= s@);
    out
}

/// Whether `a` and `b` differ in nothing but the case of ASCII letters.
pub fn eq_ignore_case(a: &str, b: &str) -> (r: bool)
    ensures
        r == same_ignoring_case(a@, b@),
{
    let x = to_ascii_lower(a);
    let y = to_ascii_lower(b);
    same_text(x.as_str(), y.as_str())
}

/// Differing only in case is an equivalence.
pub proof fn ignoring_case_is_equivalence(a: Seq<char>, b: Seq<char>, c: Seq<char>)
    ensures
        same_ignoring_case(a, a),
        same_ignoring_case(a, b) ==> same_ignoring_case(b, a),
        same_ignoring_case(a, b) && same_ignoring_case(b, c) ==> same_ignoring_case(a, c),
{
}

// ---------------------------------------------------------------------------
// Character classes and searching
// ---------------------------------------------------------------------------

/// The ASCII digits.
pub open spec fn digit(c: char) -> bool {
    '0' <= c && c <= '9'
}

/// The ASCII letters and digits.
pub open spec fn alphanumeric(c: char) -> bool {
    ||| digit(c)
    ||| 'a' <= c && c <= 'z'
    ||| 'A' <= c && c <= 'Z'
}

/// Whether `c` is an ASCII digit.
pub fn is_digit(c: char) -> (r: bool)
    ensures
        r == digit(c),
{
    '0' <= c && c <= '9'
}

/// Whether `c` is an ASCII letter or digit.
pub fn is_alphanumeric(c: char) -> (r: bool)
    ensures
        r == alphanumeric(c),
{
    ('0' <= c && c <= '9') || ('a' <= c && c <= 'z') || ('A' <= c && c <= 'Z')
}

/// The place of the first `c` in `s`, or the length of `s`.
pub open spec fn first_of(s: Seq<char>, c: char) -> int
    decreases s.len(),
{
    if s.len() == 0 || s[0] == c {
        0
    } else {
        1 + first_of(s.drop_first(), c)
    }
}

/// The place behind the last `c` in `s`, or 0.
pub open spec fn behind_last_of(s: Seq<char>, c: char) -> int
    decreases s.len(),
{
    if s.len() == 0 || s.last() == c {
        s.len() as int
    } else {
        behind_last_of(s.drop_last(), c)
    }
}

/// `first_of` is the first place, and `behind_last_of` is behind the last.
pub proof fn places_of(s: Seq<char>, c: char)
    ensures
        0 <= first_of(s, c) <= s.len(),
        forall|k: int| 0 <= k < first_of(s, c) ==> s[k] != c,
        first_of(s, c) < s.len() ==> s[first_of(s, c)] == c,
        0 <= behind_last_of(s, c) <= s.len(),
        forall|k: int| behind_last_of(s, c) <= k < s.len() ==> s[k] != c,
        behind_last_of(s, c) > 0 ==> s[behind_last_of(s, c) - 1] == c,
    decreases s.len(),
{
    if s.len() > 0 {
        places_of(s.drop_first(), c);
        places_of(s.drop_last(), c);
        assert forall|k: int| 0 <= k < first_of(s, c) implies s[k] != c by {
            if k > 0 {
                assert(s[k] == s.drop_first()[k - 1]);
            }
        }
        assert forall|k: int| behind_last_of(s, c) <= k < s.len() implies s[k] != c by {
            if k < s.len() - 1 {
                assert(s[k] == s.drop_last()[k]);
            }
        }
    }
}

/// The place of the first `c` in `v` at or after `from`, or the length of `v`.
pub fn find_from(v: &Vec<char>, from: usize, c: char) -> (r: usize)
    requires
        from <= v@.len(),
    ensures
        from <= r <= v@.len(),
        r == from + first_of(v@.subrange(from as int, v@.len() as int), c),
{
    let mut i: usize = from;
    while i < v.len() && v[i] != c
        invariant
            from <= i <= v@.len(),
            i - from + first_of(v@.subrange(i as int, v@.len() as int), c) == first_of(
                v@.subrange(from as int, v@.len() as int),
                c,
            ),
        decreases v@.len() - i,
    {
        proof {
            let rest = v@.subrange(i as int, v@.len() as int);
            assert(rest.drop_first() =~= v@.subrange(i + 1, v@.len() as int));
        }
        i = i + 1;
    }
    i
}

/// The place behind the last `c` in `v`, or 0.
pub fn find_last(v: &Vec<char>, c: char) -> (r: usize)
    ensures
        r <= v@.len(),
        r == behind_last_of(v@, c),
{
    let mut i: usize = v.len();
    assert(v@.subrange(0, i as int) =~= v@);
    while i > 0 && v[i - 1] != c
        invariant
            i <= v@.len(),
            behind_last_of(v@, c) == behind_last_of(v@.subrange(0, i as int), c),
        decreases i,
    {
        assert(v@.subrange(0, i as int).drop_last() =~= v@.subrange(0, i - 1));
        i = i - 1;
    }
    i
}

/// Whether `c` occurs in `s`.
pub fn contains_char(s: &str, c: char) -> (r: bool)
    ensures
        r == s@.contains(c),
{
    let v = chars_of(s);
    let i = find_from(&v, 0, c);
    proof {
        assert(v@.subrange(0, v@.len() as int) =~= v@);
        places_of(v@, c);
        if i < v@.len() {
            assert(s@[i as int] == c);
        }
    }
    i < v.len()
}

/// Whether `s` occurs in `list`.
pub fn contains_text(list: &[String], s: &str) -> (r: bool)
    ensures
        r == texts(list@).contains(s@),
{
    let mut i: usize = 0;
    while i < list.len()
        invariant
            i <= list@.len(),
            forall|k: int| 0 <= k < i ==> texts(list@)[k] != s@,
        decreases list@.len() - i,
    {
        if same_text(list[i].as_str(), s) {
            assert(texts(list@)[i as int] == s@);
            return true;
        }
        i = i + 1;
    }
    false
}

// ---------------------------------------------------------------------------
// Lines and parts
// ---------------------------------------------------------------------------

/// `s` without a carriage return at its end.
pub open spec fn without_cr(s: Seq<char>) -> Seq<char> {
    if s.len() > 0 && s.last() == '\r' {
        s.drop_last()
    } else {
        s
    }
}

/// The lines of `s`. A line ends with `\n` or `\r\n`, and the last one may lack
/// its end.
pub open spec fn lines_of(s: Seq<char>) -> Seq<Seq<char>>
    decreases s.len(),
{
    let k = first_of(s, '\n');
    if s.len() == 0 {
        Seq::empty()
    } else if 0 <= k < s.len() {
        seq![without_cr(s.take(k))] + lines_of(s.skip(k + 1))
    } else {
        seq![s]
    }
}

/// The lines of `s`.
pub fn lines(s: &str) -> (r: Vec<String>)
    ensures
        texts(r@) == lines_of(s@),
{
    let v = chars_of(s);
    let mut out: Vec<String> = Vec::new();
    let mut i: usize = 0;
    assert(s@.skip(0) =~= s@);
    while i < v.len()
        invariant
            v@ == s@,
            i <= v@.len(),
            texts(out@) + lines_of(s@.skip(i as int)) == lines_of(s@),
        decreases v@.len() - i,
    {
        let ghost rest = s@.skip(i as int);
        let ghost before = out@;
        let k = find_from(&v, i, '\n');
        proof {
            assert(v@.subrange(i as int, v@.len() as int) =~= rest);
            places_of(rest, '\n');
        }
        if k == v.len() {
            out.push(text_of(&v, i, k));
            proof {
                assert(out@.last()@ =~= rest);
                assert(texts(out@) =~= texts(before) + seq![rest]);
                assert(s@.skip(k as int).len() == 0);
                assert(lines_of(s@.skip(k as int)) =~= Seq::<Seq<char>>::empty());
                assert(texts(out@) + lines_of(s@.skip(k as int)) =~= texts(before) + lines_of(rest));
            }
            i = k;
        } else {
            let end: usize = if k > i && v[k - 1] == '\r' {
                k - 1
            } else {
                k
            };
            out.push(text_of(&v, i, end));
            proof {
                assert(rest.take(k - i) =~= s@.subrange(i as int, k as int));
                assert(out@.last()@ =~= without_cr(rest.take(k - i)));
                assert(rest.skip(k - i + 1) =~= s@.skip(k + 1));
                assert(texts(out@) =~= texts(before) + seq![without_cr(rest.take(k - i))]);
                assert(texts(out@) + lines_of(s@.skip(k + 1)) =~= texts(before) + lines_of(rest));
            }
            i = k + 1;
        }
    }
    assert(s@.skip(i as int).len() == 0);
    assert(texts(out@) + lines_of(s@.skip(i as int)) =~= texts(out@));
    out
}

// ---------------------------------------------------------------------------
// Numbers
// ---------------------------------------------------------------------------

/// The digit for a value below ten.
pub open spec fn digit_char(d: nat) -> char {
    (d + 48) as char
}

/// `n` in decimal, without leading zeros.
pub open spec fn decimal(n: nat) -> Seq<char>
    decreases n,
{
    if n < 10 {
        seq![digit_char(n)]
    } else {
        decimal(n / 10).push(digit_char(n % 10))
    }
}

/// `n` in decimal, with a minus sign where it is negative.
pub open spec fn signed_decimal(n: int) -> Seq<char> {
    if n < 0 {
        seq!['-'] + decimal((-n) as nat)
    } else {
        decimal(n as nat)
    }
}

/// `n` in decimal.
pub fn unsigned_text(n: u64) -> (r: String)
    ensures
        r@ == decimal(n as nat),
    decreases n,
{
    let d: u8 = (n % 10) as u8;
    let c: char = (d + 48) as char;
    if n < 10 {
        let mut out = String::new();
        out.push(c);
        assert(out@ =~= decimal(n as nat));
        out
    } else {
        let mut out = unsigned_text(n / 10);
        out.push(c);
        out
    }
}

/// `n` in decimal.
pub fn signed_text(n: i64) -> (r: String)
    ensures
        r@ == signed_decimal(n as int),
{
    if n >= 0 {
        unsigned_text(n as u64)
    } else {
        let magnitude: u64 = (-(n + 1)) as u64 + 1;
        let mut out = String::new();
        out.push('-');
        let rest = unsigned_text(magnitude);
        out.append(rest.as_str());
        assert(out@ =~= signed_decimal(n as int));
        out
    }
}

/// The value of a text of digits.
pub open spec fn digits_value(s: Seq<char>) -> nat
    decreases s.len(),
{
    if s.len() == 0 {
        0
    } else {
        (digits_value(s.drop_last()) * 10 + (s.last() as int - 48)) as nat
    }
}

/// Whether `s` is made of digits, with at least one.
pub open spec fn all_digits(s: Seq<char>) -> bool {
    s.len() > 0 && forall|i: int| 0 <= i < s.len() ==> digit(#[trigger] s[i])
}

/// The digits of an unsigned number: a plus sign may stand before them.
pub open spec fn unsigned_digits(s: Seq<char>) -> Seq<char> {
    if s.len() > 0 && s[0] == '+' {
        s.drop_first()
    } else {
        s
    }
}

/// The unsigned number that `s` writes in decimal, where it is no larger than `max`.
pub open spec fn parsed_unsigned(s: Seq<char>, max: nat) -> Option<nat> {
    let d = unsigned_digits(s);
    if all_digits(d) && digits_value(d) <= max {
        Some(digits_value(d))
    } else {
        None
    }
}

proof fn digits_value_grows(s: Seq<char>, i: int)
    requires
        0 <= i <= s.len(),
        all_digits(s),
    ensures
        digits_value(s.take(i)) <= digits_value(s),
    decreases s.len() - i,
{
    if i < s.len() {
        digits_value_grows(s, i + 1);
        assert(s.take(i + 1).drop_last() =~= s.take(i));
        assert(digit(s[i]));
    } else {
        assert(s.take(i) =~= s);
    }
}

/// Parses an unsigned decimal number no larger than `max`.
pub fn parse_unsigned(s: &str, max: u64) -> (r: Option<u64>)
    ensures
        match r {
            Some(n) => parsed_unsigned(s@, max as nat) == Some(n as nat),
            None => parsed_unsigned(s@, max as nat) is None,
        },
{
    let v = chars_of(s);
    let start: usize = if v.len() > 0 && v[0] == '+' {
        1
    } else {
        0
    };
    let ghost d = unsigned_digits(s@);
    assert(d =~= s@.skip(start as int));
    if start == v.len() {
        return None;
    }
    let mut n: u64 = 0;
    let mut i: usize = start;
    while i < v.len()
        invariant
            v@ == s@,
            start <= i <= v@.len(),
            d == s@.skip(start as int),
            d == unsigned_digits(s@),
            n == digits_value(d.take(i - start)),
            n <= max,
            forall|k: int| 0 <= k < i - start ==> digit(#[trigger] d[k]),
        decreases v@.len() - i,
    {
        let c = v[i];
        assert(c == d[i - start]);
        if !is_digit(c) {
            return None;
        }
        let x: u64 = (c as u8 - 48) as u64;
        proof {
            let next = d.take(i - start + 1);
            assert(next.drop_last() =~= d.take(i - start));
            assert(next.last() == c);
            if all_digits(d) {
                digits_value_grows(d, i - start + 1);
            }
        }
        if n > 1844674407370955161 || n * 10 > u64::MAX - x || n * 10 + x > max {
            return None;
        }
        n = n * 10 + x;
        i = i + 1;
    }
    assert(d.take(i - start) =~= d);
    Some(n)
}

/// Writing a number and reading it back gives the number.
pub proof fn decimal_reads_back(n: nat)
    ensures
        all_digits(decimal(n)),
        digits_value(decimal(n)) == n,
        unsigned_digits(decimal(n)) == decimal(n),
    decreases n,
{
    if n < 10 {
        assert(decimal(n).drop_last() =~= Seq::<char>::empty());
        assert(digits_value(Seq::<char>::empty()) == 0);
        assert(digits_value(decimal(n)) == n);
    } else {
        decimal_reads_back(n / 10);
        assert(decimal(n).drop_last() =~= decimal(n / 10));
        assert(decimal(n)[0] == decimal(n / 10)[0]);
    }
}

/// Different numbers are written differently.
pub proof fn signed_decimals_differ(m: int, n: int)
    requires
        m != n,
    ensures
        signed_decimal(m) != signed_decimal(n),
{
    let a: nat = if m < 0 {
        (-m) as nat
    } else {
        m as nat
    };
    let b: nat = if n < 0 {
        (-n) as nat
    } else {
        n as nat
    };
    decimal_reads_back(a);
    decimal_reads_back(b);
    if m < 0 && n < 0 {
        assert(signed_decimal(m).skip(1) =~= decimal(a));
        assert(signed_decimal(n).skip(1) =~= decimal(b));
    } else if m < 0 {
        assert(digit(decimal(b)[0]));
        assert(signed_decimal(m)[0] == '-');
    } else if n < 0 {
        assert(digit(decimal(a)[0]));
        assert(signed_decimal(n)[0] == '-');
    }
}

// ---------------------------------------------------------------------------
// Cutting to a number of bytes
// ---------------------------------------------------------------------------

/// Whether `s` is no longer than `limit` bytes, or a character begins at byte `limit`.
pub open spec fn cuttable(s: Seq<char>, limit: int) -> bool {
    encode_utf8(s).len() <= limit || is_char_boundary(encode_utf8(s), limit)
}

/// `s` where it is no longer than `limit` bytes, else its first `limit` bytes and
/// three dots.
pub open spec fn cut(s: Seq<char>, limit: int) -> Seq<char> {
    if encode_utf8(s).len() <= limit {
        s
    } else {
        decode_utf8(encode_utf8(s).take(limit)) + "..."@
    }
}

/// Whether `s` can be cut at `limit` bytes.
pub fn is_cuttable(s: &str, limit: usize) -> (r: bool)
    ensures
        r == cuttable(s@, limit as int),
{
    let n: usize = s.as_bytes().len();
    n <= limit || s.is_char_boundary(limit)
}

/// Cuts `s` to `limit` bytes.
pub fn cut_text(s: &str, limit: usize) -> (r: String)
    requires
        cuttable(s@, limit as int),
    ensures
        r@ == cut(s@, limit as int),
{
    let n: usize = s.as_bytes().len();
    if n <= limit {
        s.to_owned()
    } else {
        let (head, _) = s.split_at(limit);
        proof {
            encode_utf8_decode_utf8(head@);
            assert(encode_utf8(head@) =~= encode_utf8(s@).take(limit as int));
        }
        cat(head, "...")
    }
}

// ---------------------------------------------------------------------------
// What the standard library computes
// ---------------------------------------------------------------------------

/// The lower case of a text, by the rules of Unicode.
pub uninterp spec fn lowercase(s: Seq<char>) -> Seq<char>;

/// `str::to_lowercase`. The result depends on the text alone, and on a text of
/// ASCII characters it is `lower`. What it is on other texts is left open.
#[verifier::external_body]
pub(crate) fn to_lowercase(s: &str) -> (r: String)
    ensures
        r@ == lowercase(s@),
        is_ascii_chars(s@) ==> r@ == lower(s@),
{
    s.to_lowercase()
}

/// The text that stands for a sequence of bytes.
pub uninterp spec fn lossy(bytes: Seq<u8>) -> Seq<char>;

/// `String::from_utf8_lossy`. The result depends on the bytes alone, and valid
/// UTF-8 is decoded. Which replacement characters stand for other bytes is left
/// open.
#[verifier::external_body]
pub(crate) fn from_utf8_lossy(bytes: &[u8]) -> (r: String)
    ensures
        r@ == lossy(bytes@),
        valid_utf8(bytes@) ==> r@ == decode_utf8(bytes@),
{
    String::from_utf8_lossy(bytes).to_string()
}

/// A text in quotes, with escapes, as `{:?}` writes it.
pub uninterp spec fn quoted(s: Seq<char>) -> Seq<char>;

/// The `Debug` form of a `str`. The result depends on the text alone. Which
/// characters are escaped is left open.
#[verifier::external_body]
pub(crate) fn debug_text(s: &str) -> (r: String)
    ensures
        r@ == quoted(s@),
{
    format!("{s:?}")
}

/// Why a text is no unsigned number of 32 bits, in words.
pub uninterp spec fn number_fault(s: Seq<char>) -> Seq<char>;

/// `str::parse::<u32>`. It succeeds on decimal digits, with or without a plus
/// sign before them, whose value fits. The message of the error depends on the
/// text alone. What the message says is left open.
#[verifier::external_body]
pub(crate) fn parse_u32(s: &str) -> (r: Result<u32, String>)
    ensures
        match r {
            Ok(n) => parsed_unsigned(s@, u32::MAX as nat) == Some(n as nat),
            Err(m) => parsed_unsigned(s@, u32::MAX as nat) is None && m@ == number_fault(s@),
        },
{
    s.parse::<u32>().map_err(|e| e.to_string())
}

} // verus!
