//! Text as sequences of characters: comparison, decimal numbers in and out.

use vstd::prelude::*;

verus! {

/// The characters of `s`, in order.
pub fn chars_of(s: &str) -> (chars: Vec<char>)
    ensures
        chars@ == s@,
{
    let mut chars: Vec<char> = Vec::new();
    for c in it: s.chars()
        invariant
            it.seq() == s@,
            chars@ == s@.take(it.index() as int),
    {
        chars.push(c);
        assert(s@.take(it.index() + 1) == s@.take(it.index() as int).push(s@[it.index() as int]));
    }
    assert(s@.take(s@.len() as int) == s@);
    chars
}

/// Whether two texts hold the same characters.
pub fn text_eq(a: &str, b: &str) -> (same: bool)
    ensures
        same == (a@ == b@),
{
    let x = chars_of(a);
    let y = chars_of(b);
    if x.len() != y.len() {
        return false;
    }
    let mut i: usize = 0;
    while i < x.len()
        invariant
            i <= x.len(),
            x.len() == y.len(),
            x@ == a@,
            y@ == b@,
            forall|k: int| 0 <= k < i ==> x[k] == y[k],
        decreases x.len() - i,
    {
        if x[i] != y[i] {
            return false;
        }
        i = i + 1;
    }
    assert(x@ =~= y@);
    true
}

/// Whether `c` is one of `0` to `9`.
pub open spec fn is_digit(c: char) -> bool {
    48 <= c as u32 <= 57
}

/// The number that a digit stands for.
pub open spec fn digit_value(c: char) -> nat {
    (c as u32 - 48) as nat
}

pub open spec fn all_digits(s: Seq<char>) -> bool {
    forall|i: int| 0 <= i < s.len() ==> is_digit(#[trigger] s[i])
}

/// The number that a run of digits spells, the empty run spelling zero.
pub open spec fn digits_value(s: Seq<char>) -> nat
    decreases s.len(),
{
    if s.len() == 0 {
        0
    } else {
        digits_value(s.drop_last()) * 10 + digit_value(s.last())
    }
}

/// `s` without a leading plus sign.
pub open spec fn unsigned_digits(s: Seq<char>) -> Seq<char> {
    if s.len() > 0 && s[0] == '+' {
        s.drop_first()
    } else {
        s
    }
}

/// The number that `s` spells as an unsigned decimal of at most `max`: an
/// optional plus sign and then one digit or more, nothing before or after.
pub open spec fn parse_unsigned(s: Seq<char>, max: nat) -> Option<nat> {
    let digits = unsigned_digits(s);
    if digits.len() > 0 && all_digits(digits) && digits_value(digits) <= max {
        Some(digits_value(digits))
    } else {
        None
    }
}

/// A longer run of digits spells no smaller a number than its start.
pub proof fn lemma_digits_value_grows(s: Seq<char>, n: int)
    requires
        0 <= n <= s.len(),
    ensures
        digits_value(s.take(n)) <= digits_value(s),
    decreases s.len(),
{
    if n == s.len() {
        assert(s.take(n) == s);
    } else {
        lemma_digits_value_grows(s.drop_last(), n);
        assert(s.drop_last().take(n) == s.take(n));
    }
}

fn parse_bounded(s: &str, max: u64) -> (value: Option<u64>)
    ensures
        value.is_some() == parse_unsigned(s@, max as nat).is_some(),
        value.is_some() ==> value.unwrap() == parse_unsigned(s@, max as nat).unwrap(),
{
    let chars = chars_of(s);
    let start: usize = if chars.len() > 0 && chars[0] == '+' {
        1
    } else {
        0
    };
    let ghost digits = unsigned_digits(s@);
    assert(digits == s@.subrange(start as int, s@.len() as int));
    if start == chars.len() {
        return None;
    }
    let mut acc: u128 = 0;
    let mut i: usize = start;
    while i < chars.len()
        invariant
            start <= i <= chars.len(),
            chars@ == s@,
            digits == s@.subrange(start as int, s@.len() as int),
            digits == unsigned_digits(s@),
            all_digits(digits.take(i - start)),
            acc == digits_value(digits.take(i - start)),
            acc <= max,
        decreases chars.len() - i,
    {
        let c = chars[i];
        let code: u32 = c as u32;
        assert(digits[i - start] == c);
        if code < 48 || code > 57 {
            assert(!is_digit(digits[i - start]));
            return None;
        }
        let next: u128 = acc * 10 + (code - 48) as u128;
        proof {
            let longer = digits.take(i - start + 1);
            assert(longer.drop_last() == digits.take(i - start));
            assert(longer.last() == c);
            assert(digits_value(longer) == next);
            lemma_digits_value_grows(digits, i - start + 1);
            assert forall|k: int| 0 <= k < longer.len() implies is_digit(#[trigger] longer[k]) by {
                if k < i - start {
                    assert(longer[k] == digits.take(i - start)[k]);
                }
            }
        }
        if next > max as u128 {
            return None;
        }
        acc = next;
        i = i + 1;
    }
    assert(digits.take(i - start) == digits);
    Some(acc as u64)
}

/// Reads `s` as a decimal number that fits thirty-two bits.
pub fn parse_u32(s: &str) -> (value: Option<u32>)
    ensures
        value.is_some() == parse_unsigned(s@, u32::MAX as nat).is_some(),
        value.is_some() ==> value.unwrap() == parse_unsigned(s@, u32::MAX as nat).unwrap(),
{
    match parse_bounded(s, u32::MAX as u64) {
        Some(v) => Some(v as u32),
        None => None,
    }
}

/// Reads `s` as a decimal number that fits sixty-four bits.
pub fn parse_u64(s: &str) -> (value: Option<u64>)
    ensures
        value.is_some() == parse_unsigned(s@, u64::MAX as nat).is_some(),
        value.is_some() ==> value.unwrap() == parse_unsigned(s@, u64::MAX as nat).unwrap(),
{
    parse_bounded(s, u64::MAX)
}

/// Reads `s` as a decimal number that fits a machine word.
pub fn parse_usize(s: &str) -> (value: Option<usize>)
    ensures
        value.is_some() == parse_unsigned(s@, usize::MAX as nat).is_some(),
        value.is_some() ==> value.unwrap() == parse_unsigned(s@, usize::MAX as nat).unwrap(),
{
    match parse_bounded(s, usize::MAX as u64) {
        Some(v) => Some(v as usize),
        None => None,
    }
}

/// The digit that stands for a number below ten.
pub open spec fn digit_char(d: nat) -> char {
    if d == 0 {
        '0'
    } else if d == 1 {
        '1'
    } else if d == 2 {
        '2'
    } else if d == 3 {
        '3'
    } else if d == 4 {
        '4'
    } else if d == 5 {
        '5'
    } else if d == 6 {
        '6'
    } else if d == 7 {
        '7'
    } else if d == 8 {
        '8'
    } else {
        '9'
    }
}

/// `n` written in decimal, without leading zeros.
pub open spec fn decimal(n: nat) -> Seq<char>
    decreases n,
{
    if n < 10 {
        seq![digit_char(n)]
    } else {
        decimal(n / 10).push(digit_char(n % 10))
    }
}

fn push_digit(out: &mut String, d: u64)
    requires
        d < 10,
    ensures
        final(out)@ == old(out)@.push(digit_char(d as nat)),
{
    proof {
        reveal_strlit("0");
        reveal_strlit("1");
        reveal_strlit("2");
        reveal_strlit("3");
        reveal_strlit("4");
        reveal_strlit("5");
        reveal_strlit("6");
        reveal_strlit("7");
        reveal_strlit("8");
        reveal_strlit("9");
    }
    let digit: &str = if d == 0 {
        "0"
    } else if d == 1 {
        "1"
    } else if d == 2 {
        "2"
    } else if d == 3 {
        "3"
    } else if d == 4 {
        "4"
    } else if d == 5 {
        "5"
    } else if d == 6 {
        "6"
    } else if d == 7 {
        "7"
    } else if d == 8 {
        "8"
    } else {
        "9"
    };
    assert(digit@ == seq![digit_char(d as nat)]);
    out.append(digit);
    assert(old(out)@ + seq![digit_char(d as nat)] == old(out)@.push(digit_char(d as nat)));
}

/// Appends `n` in decimal to `out`.
pub fn push_decimal(out: &mut String, n: u64)
    ensures
        final(out)@ == old(out)@ + decimal(n as nat),
    decreases n,
{
    if n >= 10 {
        push_decimal(out, n / 10);
    }
    push_digit(out, n % 10);
    proof {
        if n >= 10 {
            assert((old(out)@ + decimal((n / 10) as nat)).push(digit_char((n % 10) as nat)) == old(
                out,
            )@ + decimal(n as nat));
        } else {
            assert(old(out)@.push(digit_char(n as nat)) == old(out)@ + decimal(n as nat));
        }
    }
}

/// `n` in decimal.
pub fn decimal_string(n: u64) -> (text: String)
    ensures
        text@ == decimal(n as nat),
{
    let mut text = String::new();
    push_decimal(&mut text, n);
    assert(Seq::<char>::empty() + decimal(n as nat) == decimal(n as nat));
    text
}

/// `s` without the run of `c` that it starts with.
pub open spec fn skip_leading(s: Seq<char>, c: char) -> Seq<char>
    decreases s.len(),
{
    if s.len() > 0 && s[0] == c {
        skip_leading(s.drop_first(), c)
    } else {
        s
    }
}

/// `s` without the run of `c` that it ends with.
pub open spec fn drop_trailing(s: Seq<char>, c: char) -> Seq<char>
    decreases s.len(),
{
    if s.len() > 0 && s.last() == c {
        drop_trailing(s.drop_last(), c)
    } else {
        s
    }
}

/// The part of `s` that is left when every `lead` at its start and then
/// every `trail` at its end is taken away.
pub fn trim_ends<'a>(s: &'a str, lead: char, trail: char) -> (rest: &'a str)
    ensures
        rest@ == drop_trailing(skip_leading(s@, lead), trail),
{
    let chars = chars_of(s);
    let mut from: usize = 0;
    assert(s@.subrange(0, s@.len() as int) == s@);
    while from < chars.len() && chars[from] == lead
        invariant
            from <= chars.len(),
            chars@ == s@,
            skip_leading(s@, lead) == skip_leading(s@.subrange(from as int, s@.len() as int), lead),
        decreases chars.len() - from,
    {
        assert(s@.subrange(from as int, s@.len() as int).drop_first() == s@.subrange(
            from + 1,
            s@.len() as int,
        ));
        from = from + 1;
    }
    let ghost middle = s@.subrange(from as int, s@.len() as int);
    assert(skip_leading(s@, lead) == middle);
    let mut to: usize = chars.len();
    while to > from && chars[to - 1] == trail
        invariant
            from <= to <= chars.len(),
            chars@ == s@,
            middle == s@.subrange(from as int, s@.len() as int),
            drop_trailing(middle, trail) == drop_trailing(s@.subrange(from as int, to as int), trail),
        decreases to,
    {
        assert(s@.subrange(from as int, to as int).drop_last() == s@.subrange(
            from as int,
            to - 1,
        ));
        to = to - 1;
    }
    s.substring_char(from, to)
}

/// Whether `s` starts with `prefix`.
pub open spec fn starts_with(s: Seq<char>, prefix: Seq<char>) -> bool {
    prefix.len() <= s.len() && s.subrange(0, prefix.len() as int) == prefix
}

/// The run of digits that `s` starts with.
pub open spec fn leading_digits(s: Seq<char>) -> Seq<char>
    decreases s.len(),
{
    if s.len() > 0 && is_digit(s[0]) {
        seq![s[0]] + leading_digits(s.drop_first())
    } else {
        Seq::empty()
    }
}

/// What is left of `s` behind `prefix`, where `s` starts with it.
pub fn strip_prefix<'a>(s: &'a str, prefix: &str) -> (rest: Option<&'a str>)
    ensures
        rest.is_some() == starts_with(s@, prefix@),
        rest.is_some() ==> rest.unwrap()@ == s@.subrange(prefix@.len() as int, s@.len() as int),
{
    let chars = chars_of(s);
    let lead = chars_of(prefix);
    if lead.len() > chars.len() {
        return None;
    }
    let mut i: usize = 0;
    while i < lead.len()
        invariant
            i <= lead.len() <= chars.len(),
            chars@ == s@,
            lead@ == prefix@,
            forall|k: int| 0 <= k < i ==> chars@[k] == lead@[k],
        decreases lead.len() - i,
    {
        if chars[i] != lead[i] {
            assert(s@.subrange(0, prefix@.len() as int)[i as int] != prefix@[i as int]);
            return None;
        }
        i = i + 1;
    }
    assert(s@.subrange(0, prefix@.len() as int) =~= prefix@);
    Some(s.substring_char(lead.len(), chars.len()))
}

/// The run of digits that `s` starts with.
pub fn take_digits<'a>(s: &'a str) -> (digits: &'a str)
    ensures
        digits@ == leading_digits(s@),
{
    let chars = chars_of(s);
    let mut i: usize = 0;
    proof {
        assert(s@.subrange(0, s@.len() as int) == s@);
        assert(s@.subrange(0, 0) + leading_digits(s@) == leading_digits(s@));
    }
    while i < chars.len() && 48 <= chars[i] as u32 && chars[i] as u32 <= 57
        invariant
            i <= chars.len(),
            chars@ == s@,
            leading_digits(s@) == s@.subrange(0, i as int) + leading_digits(
                s@.subrange(i as int, s@.len() as int),
            ),
        decreases chars.len() - i,
    {
        proof {
            let rest = s@.subrange(i as int, s@.len() as int);
            assert(rest.drop_first() == s@.subrange(i + 1, s@.len() as int));
            assert(s@.subrange(0, i as int) + seq![rest[0]] == s@.subrange(0, i + 1));
            assert(s@.subrange(0, i as int) + (seq![rest[0]] + leading_digits(rest.drop_first()))
                == s@.subrange(0, i as int) + seq![rest[0]] + leading_digits(rest.drop_first()));
        }
        i = i + 1;
    }
    proof {
        assert(s@.subrange(0, s@.len() as int) == s@);
        let rest = s@.subrange(i as int, s@.len() as int);
        assert(leading_digits(rest) == Seq::<char>::empty());
        assert(s@.subrange(0, i as int) + Seq::<char>::empty() == s@.subrange(0, i as int));
    }
    s.substring_char(0, i)
}

/// Whether `a` comes before `b` in the order of texts: character by
/// character by their codes, a text before those that it starts.
pub open spec fn text_lt(a: Seq<char>, b: Seq<char>) -> bool
    decreases a.len(),
{
    if b.len() == 0 {
        false
    } else if a.len() == 0 {
        true
    } else if a[0] != b[0] {
        (a[0] as u32) < (b[0] as u32)
    } else {
        text_lt(a.drop_first(), b.drop_first())
    }
}

/// No text comes before itself.
pub proof fn lemma_text_lt_irreflexive(a: Seq<char>)
    ensures
        !text_lt(a, a),
    decreases a.len(),
{
    if a.len() > 0 {
        lemma_text_lt_irreflexive(a.drop_first());
    }
}

/// What comes before a text comes before all that the text comes before.
pub proof fn lemma_text_lt_transitive(a: Seq<char>, b: Seq<char>, c: Seq<char>)
    requires
        text_lt(a, b),
        text_lt(b, c),
    ensures
        text_lt(a, c),
    decreases a.len(),
{
    if a.len() > 0 && b.len() > 0 && c.len() > 0 && a[0] == b[0] && b[0] == c[0] {
        lemma_text_lt_transitive(a.drop_first(), b.drop_first(), c.drop_first());
    }
}

/// Whether `a` comes before `b` in the order of texts.
pub fn text_before(a: &str, b: &str) -> (before: bool)
    ensures
        before == text_lt(a@, b@),
{
    let x = chars_of(a);
    let y = chars_of(b);
    let mut i: usize = 0;
    proof {
        assert(a@.subrange(0, a@.len() as int) == a@);
        assert(b@.subrange(0, b@.len() as int) == b@);
    }
    while i < x.len() && i < y.len()
        invariant
            i <= x.len(),
            i <= y.len(),
            x@ == a@,
            y@ == b@,
            text_lt(a@, b@) == text_lt(
                a@.subrange(i as int, a@.len() as int),
                b@.subrange(i as int, b@.len() as int),
            ),
        decreases x.len() - i,
    {
        let ghost ra = a@.subrange(i as int, a@.len() as int);
        let ghost rb = b@.subrange(i as int, b@.len() as int);
        assert(ra[0] == x@[i as int] && rb[0] == y@[i as int]);
        if x[i] != y[i] {
            return (x[i] as u32) < (y[i] as u32);
        }
        assert(ra.drop_first() == a@.subrange(i + 1, a@.len() as int));
        assert(rb.drop_first() == b@.subrange(i + 1, b@.len() as int));
        i = i + 1;
    }
    i < y.len()
}

/// A character with the capital letters A to Z made small.
pub open spec fn lower_char(c: char) -> char {
    if 65 <= c as u32 <= 90 {
        ((c as u32 + 32) as u8) as char
    } else {
        c
    }
}

/// A text with its capital letters A to Z made small.
pub open spec fn lowered(s: Seq<char>) -> Seq<char> {
    s.map_values(|c: char| lower_char(c))
}

/// `str::to_ascii_lowercase`: a copy in which each of the letters A to Z
/// is replaced by its small letter, and nothing else is changed.
#[verifier::external_body]
pub(crate) fn to_ascii_lowercase(s: &str) -> (lower: String)
    ensures
        lower@ == lowered(s@),
{
    s.to_ascii_lowercase()
}

/// Whether `c` is white space.
pub open spec fn is_space(c: char) -> bool {
    let code = c as u32;
    ||| 0x09 <= code <= 0x0d
    ||| code == 0x20
    ||| code == 0x85
    ||| code == 0xa0
    ||| code == 0x1680
    ||| 0x2000 <= code <= 0x200a
    ||| code == 0x2028
    ||| code == 0x2029
    ||| code == 0x202f
    ||| code == 0x205f
    ||| code == 0x3000
}

/// `s` without the white space at its end.
pub open spec fn trimmed_end(s: Seq<char>) -> Seq<char>
    decreases s.len(),
{
    if s.len() > 0 && is_space(s.last()) {
        trimmed_end(s.drop_last())
    } else {
        s
    }
}

fn is_space_char(c: char) -> (space: bool)
    ensures
        space == is_space(c),
{
    let code = c as u32;
    (0x09 <= code && code <= 0x0d) || code == 0x20 || code == 0x85 || code == 0xa0 || code
        == 0x1680 || (0x2000 <= code && code <= 0x200a) || code == 0x2028 || code == 0x2029
        || code == 0x202f || code == 0x205f || code == 0x3000
}

/// The place of the first `c` in `s`.
pub open spec fn first_index(s: Seq<char>, c: char) -> Option<int> {
    if exists|i: int| is_first(s, c, i) {
        Some(choose|i: int| is_first(s, c, i))
    } else {
        None
    }
}

pub open spec fn is_first(s: Seq<char>, c: char, i: int) -> bool {
    &&& 0 <= i < s.len()
    &&& s[i] == c
    &&& forall|j: int| 0 <= j < i ==> s[j] != c
}

/// The two parts of `s` around its first `c`, `from` behind `c` without
/// the white space at its end; nothing where `s` holds no `c` or starts
/// with it.
pub open spec fn key_value(s: Seq<char>, c: char) -> Option<(Seq<char>, Seq<char>)> {
    match first_index(s, c) {
        Some(i) => if i > 0 {
            Some((s.subrange(0, i), trimmed_end(s.subrange(i + 1, s.len() as int))))
        } else {
            None
        },
        None => None,
    }
}

/// Splits `s` at its first `c` into what stands before it and what stands
/// behind it.
pub fn split_key_value<'a>(s: &'a str, c: char) -> (parts: Option<(&'a str, &'a str)>)
    ensures
        parts.is_some() == key_value(s@, c).is_some(),
        parts matches Some((key, value)) ==> key@ == key_value(s@, c).unwrap().0 && value@
            == key_value(s@, c).unwrap().1,
{
    let chars = chars_of(s);
    let mut i: usize = 0;
    while i < chars.len()
        invariant
            i <= chars.len(),
            chars@ == s@,
            forall|j: int| 0 <= j < i ==> s@[j] != c,
        decreases chars.len() - i,
    {
        if chars[i] == c {
            assert(is_first(s@, c, i as int));
            proof {
                let k = choose|k: int| is_first(s@, c, k);
                assert(k == i);
            }
            if i == 0 {
                return None;
            }
            let ghost rest = s@.subrange(i + 1, s@.len() as int);
            let mut to: usize = chars.len();
            assert(s@.subrange(i + 1, to as int) == rest);
            while to > i + 1 && is_space_char(chars[to - 1])
                invariant
                    i + 1 <= to <= chars.len(),
                    chars@ == s@,
                    trimmed_end(rest) == trimmed_end(s@.subrange(i + 1, to as int)),
                decreases to,
            {
                assert(s@.subrange(i + 1, to as int).drop_last() == s@.subrange(i + 1, to - 1));
                to = to - 1;
            }
            return Some((s.substring_char(0, i), s.substring_char(i + 1, to)));
        }
        i = i + 1;
    }
    assert forall|k: int| !is_first(s@, c, k) by {}
    None
}

/// `s` with `with` in the place of each `c`.
pub open spec fn replaced(s: Seq<char>, c: char, with: Seq<char>) -> Seq<char>
    decreases s.len(),
{
    if s.len() == 0 {
        Seq::empty()
    } else {
        replaced(s.drop_last(), c, with) + (if s.last() == c {
            with
        } else {
            seq![s.last()]
        })
    }
}

/// A copy of `s` with `with` in the place of each `c`.
pub fn replace_char(s: &str, c: char, with: &str) -> (out: String)
    ensures
        out@ == replaced(s@, c, with@),
{
    let chars = chars_of(s);
    let mut out = String::new();
    let mut i: usize = 0;
    assert(s@.subrange(0, 0) =~= Seq::<char>::empty());
    while i < chars.len()
        invariant
            i <= chars.len(),
            chars@ == s@,
            out@ == replaced(s@.subrange(0, i as int), c, with@),
        decreases chars.len() - i,
    {
        proof {
            let longer = s@.subrange(0, i + 1);
            assert(longer.drop_last() == s@.subrange(0, i as int));
            assert(longer.last() == s@[i as int]);
            assert(s@.subrange(i as int, i + 1) =~= seq![s@[i as int]]);
        }
        if chars[i] == c {
            out.append(with);
        } else {
            out.append(s.substring_char(i, i + 1));
        }
        i = i + 1;
    }
    assert(s@.subrange(0, s@.len() as int) == s@);
    out
}

} // verus!
