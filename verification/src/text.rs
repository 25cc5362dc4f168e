//! Character-level helpers shared by the rest of the library.
//!
//! Every string in a contract is spoken of through its view, a `Seq<char>`.
//! The functions here move between `String` and `Vec<char>`, render numbers
//! in decimal, and cut white space or a repeated character off the ends.

use vstd::prelude::*;

verus! {

/// `String::push` appends one character to the end of the string.
pub assume_specification[ std::string::String::push ](s: &mut std::string::String, ch: char)
    ensures
        final(s)@ == old(s)@.push(ch),
;

/// The text that an optional string holds, if any.
pub open spec fn text_of(s: Option<String>) -> Option<Seq<char>> {
    match s {
        Some(t) => Some(t@),
        None => None,
    }
}

/// The text that an optional string slice holds, if any.
pub open spec fn str_text_of(s: Option<&str>) -> Option<Seq<char>> {
    match s {
        Some(t) => Some(t@),
        None => None,
    }
}

/// The characters of `s`, in order.
pub fn chars_of(s: &str) -> (out: Vec<char>)
    ensures
        out@ == s@,
{
    let mut out: Vec<char> = Vec::new();
    for c in it: s.chars()
        invariant
            it.seq() == s@,
            out@ == it.seq().take(it.index() as int),
    {
        out.push(c);
    }
    out
}

/// The string made of `chars[from..to]`.
pub fn string_of_range(chars: &Vec<char>, from: usize, to: usize) -> (out: String)
    requires
        from <= to <= chars.len(),
    ensures
        out@ == chars@.subrange(from as int, to as int),
{
    let mut out = String::new();
    let mut i: usize = from;
    while i < to
        invariant
            from <= i <= to <= chars.len(),
            out@ == chars@.subrange(from as int, i as int),
        decreases to - i,
    {
        out.push(chars[i]);
        i += 1;
    }
    out
}

/// The string made of all of `chars`.
pub fn string_of(chars: &Vec<char>) -> (out: String)
    ensures
        out@ == chars@,
{
    let out = string_of_range(chars, 0, chars.len());
    assert(chars@.subrange(0, chars@.len() as int) == chars@);
    out
}

/// `a` followed by `b`.
pub fn concat2(a: &str, b: &str) -> (out: String)
    ensures
        out@ == a@ + b@,
{
    let mut out = String::from_str(a);
    out.append(b);
    out
}

/// `a`, `b` and `c` one after the other.
pub fn concat3(a: &str, b: &str, c: &str) -> (out: String)
    ensures
        out@ == a@ + b@ + c@,
{
    let mut out = String::from_str(a);
    out.append(b);
    out.append(c);
    out
}

/// The character that stands for the decimal digit `d`.
pub open spec fn digit_char(d: nat) -> char {
    if d == 0 {
        '0'
    } else if d == 1 {
        '1'
    } else if d == 2 {
        '2'
    } else if d == 3 {
        '3'
    } else if d == 4 {
        '4'
    } else if d == 5 {
        '5'
    } else if d == 6 {
        '6'
    } else if d == 7 {
        '7'
    } else if d == 8 {
        '8'
    } else {
        '9'
    }
}

/// The decimal numeral of `n`, without sign and without leading zeros.
pub open spec fn decimal_text(n: nat) -> Seq<char>
    decreases n,
{
    if n < 10 {
        seq![digit_char(n)]
    } else {
        decimal_text(n / 10).push(digit_char(n % 10))
    }
}

/// The decimal numeral of a signed number: a minus sign before the numeral
/// of the magnitude when the number is negative.
pub open spec fn signed_decimal_text(i: int) -> Seq<char> {
    if i < 0 {
        seq!['-'] + decimal_text((-i) as nat)
    } else {
        decimal_text(i as nat)
    }
}

fn digit_of(d: u64) -> (c: char)
    requires
        d < 10,
    ensures
        c == digit_char(d as nat),
{
    if d == 0 {
        '0'
    } else if d == 1 {
        '1'
    } else if d == 2 {
        '2'
    } else if d == 3 {
        '3'
    } else if d == 4 {
        '4'
    } else if d == 5 {
        '5'
    } else if d == 6 {
        '6'
    } else if d == 7 {
        '7'
    } else if d == 8 {
        '8'
    } else {
        '9'
    }
}

/// Appends the decimal numeral of `n` to `out`.
pub fn push_decimal(out: &mut String, n: u64)
    ensures
        final(out)@ == old(out)@ + decimal_text(n as nat),
    decreases n,
{
    if n >= 10 {
        push_decimal(out, n / 10);
    }
    out.push(digit_of(n % 10));
    assert(final(out)@ == old(out)@ + decimal_text(n as nat));
}

/// The decimal numeral of `n`.
pub fn decimal_string(n: u64) -> (out: String)
    ensures
        out@ == decimal_text(n as nat),
{
    let mut out = String::new();
    push_decimal(&mut out, n);
    assert(Seq::<char>::empty() + decimal_text(n as nat) == decimal_text(n as nat));
    out
}

/// The decimal numeral of a signed number.
pub fn signed_decimal_string(i: i64) -> (out: String)
    ensures
        out@ == signed_decimal_text(i as int),
{
    let mut out = String::new();
    if i < 0 {
        out.push('-');
        let magnitude: u64 = (-(i + 1)) as u64 + 1;
        push_decimal(&mut out, magnitude);
        assert(out@ == seq!['-'] + decimal_text((-i) as nat));
    } else {
        push_decimal(&mut out, i as u64);
        assert(Seq::<char>::empty() + decimal_text(i as nat) == decimal_text(i as nat));
    }
    out
}

/// Whether `c` is white space, as Unicode's `White_Space` property has it.
pub open spec fn is_whitespace(c: char) -> bool {
    let u = c as u32;
    ||| 0x09 <= u <= 0x0D
    ||| u == 0x20
    ||| u == 0x85
    ||| u == 0xA0
    ||| u == 0x1680
    ||| 0x2000 <= u <= 0x200A
    ||| u == 0x2028
    ||| u == 0x2029
    ||| u == 0x202F
    ||| u == 0x205F
    ||| u == 0x3000
}

/// Tells whether `c` is white space.
pub fn char_is_whitespace(c: char) -> (b: bool)
    ensures
        b == is_whitespace(c),
{
    let u: u32 = c as u32;
    (0x09 <= u && u <= 0x0D) || u == 0x20 || u == 0x85 || u == 0xA0 || u == 0x1680 || (0x2000 <= u
        && u <= 0x200A) || u == 0x2028 || u == 0x2029 || u == 0x202F || u == 0x205F || u == 0x3000
}

/// `s` without the white space at its start.
pub open spec fn trim_start(s: Seq<char>) -> Seq<char>
    decreases s.len(),
{
    if s.len() > 0 && is_whitespace(s.first()) {
        trim_start(s.drop_first())
    } else {
        s
    }
}

/// `s` without the white space at its end.
pub open spec fn trim_end(s: Seq<char>) -> Seq<char>
    decreases s.len(),
{
    if s.len() > 0 && is_whitespace(s.last()) {
        trim_end(s.drop_last())
    } else {
        s
    }
}

/// `s` without the white space at either end.
pub open spec fn trimmed(s: Seq<char>) -> Seq<char> {
    trim_end(trim_start(s))
}

/// What is left of a text after trimming is a part of the text, in one
/// piece, and it neither begins nor ends with white space.
pub proof fn lemma_trimmed(s: Seq<char>)
    ensures
        exists|i: int, j: int| 0 <= i <= j <= s.len() && trimmed(s) == s.subrange(i, j),
        trimmed(s).len() > 0 ==> !is_whitespace(trimmed(s).first()) && !is_whitespace(
            trimmed(s).last(),
        ),
{
    lemma_trim_start(s);
    let front = trim_start(s);
    lemma_trim_end(front);
    let i = s.len() - front.len();
    let j = i + trimmed(s).len();
    assert(trimmed(s) =~= s.subrange(i, j));
    if trimmed(s).len() > 0 {
        assert(trimmed(s).first() == front.first());
    }
}

/// Trimming at the start leaves the end of the text, and what is left does
/// not begin with white space.
pub proof fn lemma_trim_start(s: Seq<char>)
    ensures
        trim_start(s).len() <= s.len(),
        trim_start(s) == s.skip(s.len() - trim_start(s).len()),
        trim_start(s).len() > 0 ==> !is_whitespace(trim_start(s).first()),
    decreases s.len(),
{
    if s.len() > 0 && is_whitespace(s.first()) {
        lemma_trim_start(s.drop_first());
        assert(trim_start(s) =~= s.skip(s.len() - trim_start(s).len()));
    } else {
        assert(s =~= s.skip(0));
    }
}

/// Trimming at the end leaves the start of the text, and what is left does
/// not end with white space.
pub proof fn lemma_trim_end(s: Seq<char>)
    ensures
        trim_end(s).len() <= s.len(),
        trim_end(s) == s.take(trim_end(s).len() as int),
        trim_end(s).len() > 0 ==> !is_whitespace(trim_end(s).last()),
    decreases s.len(),
{
    if s.len() > 0 && is_whitespace(s.last()) {
        lemma_trim_end(s.drop_last());
        assert(trim_end(s) =~= s.take(trim_end(s).len() as int));
    } else {
        assert(s =~= s.take(s.len() as int));
    }
}

/// The trimmed form of `chars[from..to]`, as a new string.
pub fn trimmed_range(chars: &Vec<char>, from: usize, to: usize) -> (out: String)
    requires
        from <= to <= chars.len(),
    ensures
        out@ == trimmed(chars@.subrange(from as int, to as int)),
{
    let ghost whole = chars@.subrange(from as int, to as int);
    let mut i: usize = from;
    while i < to && char_is_whitespace(chars[i])
        invariant
            from <= i <= to <= chars.len(),
            trim_start(whole) == trim_start(chars@.subrange(i as int, to as int)),
        decreases to - i,
    {
        proof {
            let cur = chars@.subrange(i as int, to as int);
            assert(cur.first() == chars@[i as int]);
            assert(cur.drop_first() == chars@.subrange(i + 1, to as int));
        }
        i += 1;
    }
    let ghost front = chars@.subrange(i as int, to as int);
    assert(trim_start(whole) == front) by {
        if i < to {
            assert(front.first() == chars@[i as int]);
        }
    }
    let mut j: usize = to;
    while i < j && char_is_whitespace(chars[j - 1])
        invariant
            from <= i <= j <= to <= chars.len(),
            trim_end(front) == trim_end(chars@.subrange(i as int, j as int)),
        decreases j - i,
    {
        proof {
            let cur = chars@.subrange(i as int, j as int);
            assert(cur.last() == chars@[j - 1]);
            assert(cur.drop_last() == chars@.subrange(i as int, j - 1));
        }
        j -= 1;
    }
    assert(trim_end(front) == chars@.subrange(i as int, j as int)) by {
        if i < j {
            assert(chars@.subrange(i as int, j as int).last() == chars@[j - 1]);
        }
    }
    string_of_range(chars, i, j)
}

/// `s` with every `c` at its end removed.
pub open spec fn without_trailing(s: Seq<char>, c: char) -> Seq<char>
    decreases s.len(),
{
    if s.len() > 0 && s.last() == c {
        without_trailing(s.drop_last(), c)
    } else {
        s
    }
}

/// What is left after the trailing `c`s are removed is the start of the
/// text, does not end with `c`, and is followed in the text by nothing but
/// `c`s.
pub proof fn lemma_without_trailing(s: Seq<char>, c: char)
    ensures
        without_trailing(s, c).len() <= s.len(),
        without_trailing(s, c) == s.take(without_trailing(s, c).len() as int),
        without_trailing(s, c).len() > 0 ==> without_trailing(s, c).last() != c,
        forall|k: int| without_trailing(s, c).len() <= k < s.len() ==> s[k] == c,
    decreases s.len(),
{
    if s.len() > 0 && s.last() == c {
        let front = s.drop_last();
        lemma_without_trailing(front, c);
        assert(without_trailing(s, c) =~= s.take(without_trailing(s, c).len() as int));
        assert forall|k: int| without_trailing(s, c).len() <= k < s.len() implies s[k] == c by {
            if k < front.len() {
                assert(front[k] == s[k]);
            }
        }
    } else {
        assert(s =~= s.take(s.len() as int));
    }
}

/// A copy of `s` with every `c` at its end removed.
pub fn strip_trailing(s: &str, c: char) -> (out: String)
    ensures
        out@ == without_trailing(s@, c),
{
    let chars = chars_of(s);
    let mut j: usize = chars.len();
    assert(chars@.subrange(0, j as int) == s@);
    while 0 < j && chars[j - 1] == c
        invariant
            j <= chars.len(),
            without_trailing(s@, c) == without_trailing(chars@.subrange(0, j as int), c),
        decreases j,
    {
        proof {
            let cur = chars@.subrange(0, j as int);
            assert(cur.last() == chars@[j - 1]);
            assert(cur.drop_last() == chars@.subrange(0, j - 1));
        }
        j -= 1;
    }
    assert(without_trailing(s@, c) == chars@.subrange(0, j as int)) by {
        if 0 < j {
            assert(chars@.subrange(0, j as int).last() == chars@[j - 1]);
        }
    }
    string_of_range(&chars, 0, j)
}

/// The lower-case form of an ASCII capital letter; any other character is
/// left as it is.
pub open spec fn ascii_lower(c: char) -> char {
    if 'A' <= c <= 'Z' {
        ((c as u8) + 32) as char
    } else {
        c
    }
}

/// Whether `a` and `b` are the same text when ASCII letters are compared
/// without regard to case.
pub open spec fn eq_ignore_ascii_case(a: Seq<char>, b: Seq<char>) -> bool {
    a.map_values(|c: char| ascii_lower(c)) == b.map_values(|c: char| ascii_lower(c))
}

fn lower_of(c: char) -> (l: char)
    ensures
        l == ascii_lower(c),
{
    if 'A' <= c && c <= 'Z' {
        ((c as u8) + 32) as char
    } else {
        c
    }
}

/// Tells whether `chars[from..]` and `word` are the same text when ASCII
/// letters are compared without regard to case.
pub fn range_eq_ignore_ascii_case(chars: &Vec<char>, from: usize, word: &str) -> (b: bool)
    requires
        from <= chars.len(),
    ensures
        b == eq_ignore_ascii_case(chars@.skip(from as int), word@),
{
    let other = chars_of(word);
    let ghost a = chars@.skip(from as int).map_values(|c: char| ascii_lower(c));
    let ghost w = word@.map_values(|c: char| ascii_lower(c));
    if chars.len() - from != other.len() {
        assert(a.len() != w.len());
        return false;
    }
    let mut i: usize = 0;
    while i < other.len()
        invariant
            from <= chars.len(),
            chars.len() - from == other.len(),
            other@ == word@,
            i <= other.len(),
            a == chars@.skip(from as int).map_values(|c: char| ascii_lower(c)),
            w == word@.map_values(|c: char| ascii_lower(c)),
            forall|k: int| 0 <= k < i ==> a[k] == w[k],
        decreases other.len() - i,
    {
        if lower_of(chars[from + i]) != lower_of(other[i]) {
            assert(a[i as int] != w[i as int]);
            return false;
        }
        i += 1;
    }
    assert(a =~= w);
    true
}

/// How often `c` occurs in `s`.
pub open spec fn count_char(s: Seq<char>, c: char) -> nat
    decreases s.len(),
{
    if s.len() == 0 {
        0
    } else {
        count_char(s.drop_last(), c) + if s.last() == c {
            1nat
        } else {
            0nat
        }
    }
}

/// The index of the first `c` in `s`, or the length of `s` where it holds
/// none.
pub open spec fn first_index_of(s: Seq<char>, c: char) -> int
    decreases s.len(),
{
    if s.len() == 0 {
        0
    } else if first_index_of(s.drop_last(), c) < s.len() - 1 {
        first_index_of(s.drop_last(), c)
    } else if s.last() == c {
        s.len() - 1
    } else {
        s.len() as int
    }
}

/// `first_index_of` points at the first `c`: no `c` stands before it, and
/// it is the length of `s` exactly where `s` holds no `c`.
pub proof fn lemma_first_index_of(s: Seq<char>, c: char)
    ensures
        0 <= first_index_of(s, c) <= s.len(),
        first_index_of(s, c) < s.len() ==> s[first_index_of(s, c)] == c,
        forall|k: int| 0 <= k < first_index_of(s, c) ==> s[k] != c,
        first_index_of(s, c) == s.len() <==> count_char(s, c) == 0,
    decreases s.len(),
{
    if s.len() > 0 {
        let front = s.drop_last();
        lemma_first_index_of(front, c);
        assert forall|k: int| 0 <= k < first_index_of(s, c) implies s[k] != c by {
            if k < front.len() {
                assert(front[k] == s[k]);
            }
        }
        if first_index_of(front, c) < front.len() {
            assert(front[first_index_of(front, c)] == s[first_index_of(front, c)]);
        }
    }
}

/// Counts the occurrences of `c` in `chars` and finds the first of them.
pub fn count_and_find(chars: &Vec<char>, c: char) -> (found: (usize, usize))
    ensures
        found.0 == count_char(chars@, c),
        found.1 == first_index_of(chars@, c),
        found.1 <= chars.len(),
{
    let mut count: usize = 0;
    let mut first: usize = 0;
    let mut k: usize = 0;
    while k < chars.len()
        invariant
            k <= chars.len(),
            count <= k,
            first <= k,
            count == count_char(chars@.take(k as int), c),
            first == first_index_of(chars@.take(k as int), c),
        decreases chars.len() - k,
    {
        proof {
            let next = chars@.take(k + 1);
            assert(next.drop_last() == chars@.take(k as int));
            assert(next.last() == chars@[k as int]);
        }
        if chars[k] == c {
            count += 1;
        } else if first == k {
            first = k + 1;
        }
        k += 1;
    }
    assert(chars@.take(k as int) == chars@);
    (count, first)
}

} // verus!
