//! Text operations on character sequences: trimming, searching and cutting.

use vstd::prelude::*;

verus! {

/// `s` without its trailing run of `c`.
pub open spec fn trim_end(s: Seq<char>, c: char) -> Seq<char>
    decreases s.len(),
{
    if s.len() > 0 && s.last() == c {
        trim_end(s.drop_last(), c)
    } else {
        s
    }
}

/// The result of trimming is a prefix of the input that does not end in `c`,
/// and everything cut off is `c`.
pub proof fn lemma_trim_end(s: Seq<char>, c: char)
    ensures
        trim_end(s, c).len() <= s.len(),
        trim_end(s, c) == s.subrange(0, trim_end(s, c).len() as int),
        trim_end(s, c).len() > 0 ==> trim_end(s, c).last() != c,
        forall|i: int| trim_end(s, c).len() <= i < s.len() ==> s[i] == c,
    decreases s.len(),
{
    if s.len() > 0 && s.last() == c {
        let t = s.drop_last();
        lemma_trim_end(t, c);
        let r = trim_end(t, c);
        assert(r == s.subrange(0, r.len() as int)) by {
            assert(t.subrange(0, r.len() as int) =~= s.subrange(0, r.len() as int));
        }
        assert forall|i: int| r.len() <= i < s.len() implies s[i] == c by {
            if i < t.len() {
                assert(t[i] == c);
            }
        }
    } else {
        assert(s =~= s.subrange(0, s.len() as int));
    }
}

/// Removes every trailing `c` from `s`.
pub fn trim_end_matches(s: &str, c: char) -> (r: String)
    ensures
        r@ == trim_end(s@, c),
{
    let mut end: usize = s.unicode_len();
    assert(s@.subrange(0, end as int) =~= s@);
    while end > 0 && s.get_char(end - 1) == c
        invariant
            end <= s@.len(),
            trim_end(s@, c) == trim_end(s@.subrange(0, end as int), c),
        decreases end,
    {
        proof {
            let cur = s@.subrange(0, end as int);
            assert(cur.last() == s@[end - 1]);
            assert(cur.drop_last() =~= s@.subrange(0, end - 1));
        }
        end = end - 1;
    }
    proof {
        let cur = s@.subrange(0, end as int);
        if end > 0 {
            assert(cur.last() == s@[end - 1]);
        }
    }
    s.substring_char(0, end).to_owned()
}

/// Whether `needle` stands in `s` at position `at`.
pub open spec fn occurs_at(s: Seq<char>, needle: Seq<char>, at: int) -> bool {
    0 <= at && at + needle.len() <= s.len() && s.subrange(at, at + needle.len()) == needle
}

/// The first position at or after `from` where `needle` stands in `s`.
pub open spec fn find_from(s: Seq<char>, needle: Seq<char>, from: int) -> Option<int>
    decreases s.len() - from,
{
    if from < 0 || from + needle.len() > s.len() {
        None
    } else if occurs_at(s, needle, from) {
        Some(from)
    } else if from >= s.len() {
        None
    } else {
        find_from(s, needle, from + 1)
    }
}

/// Whether `needle` stands somewhere in `s`.
pub open spec fn contains(s: Seq<char>, needle: Seq<char>) -> bool {
    find_from(s, needle, 0) is Some
}

/// What follows the first `needle` in `s`, if there is one.
pub open spec fn after_first(s: Seq<char>, needle: Seq<char>) -> Option<Seq<char>> {
    match find_from(s, needle, 0) {
        Some(i) => Some(s.subrange(i + needle.len(), s.len() as int)),
        None => None,
    }
}

/// What precedes the first `needle` in `s`; all of `s` if there is none.
pub open spec fn before_first(s: Seq<char>, needle: Seq<char>) -> Seq<char> {
    match find_from(s, needle, 0) {
        Some(i) => s.subrange(0, i),
        None => s,
    }
}

/// The second of the pieces into which the occurrences of `needle` cut `s`:
/// what stands between the first occurrence and the next one, or the end.
pub open spec fn second_piece(s: Seq<char>, needle: Seq<char>) -> Option<Seq<char>> {
    match after_first(s, needle) {
        Some(rest) => Some(before_first(rest, needle)),
        None => None,
    }
}

/// `find_from` gives the least position of an occurrence, and `None` only
/// where there is no occurrence at all.
pub proof fn lemma_find_from(s: Seq<char>, needle: Seq<char>, from: int)
    requires
        0 <= from,
    ensures
        match find_from(s, needle, from) {
            Some(i) => from <= i && occurs_at(s, needle, i) && forall|j: int|
                from <= j < i ==> !#[trigger] occurs_at(s, needle, j),
            None => forall|j: int| from <= j ==> !#[trigger] occurs_at(s, needle, j),
        },
    decreases s.len() - from,
{
    if from + needle.len() > s.len() {
    } else if occurs_at(s, needle, from) {
    } else {
        assert(from < s.len()) by {
            if from == s.len() {
                assert(s.subrange(from, from + needle.len()) =~= needle);
            }
        }
        lemma_find_from(s, needle, from + 1);
    }
}

/// Tests whether `needle` stands in `s` at character position `at`.
pub fn matches_at(s: &str, needle: &str, at: usize) -> (r: bool)
    ensures
        r == occurs_at(s@, needle@, at as int),
{
    let total: usize = s.unicode_len();
    let n: usize = needle.unicode_len();
    if n > total || at > total - n {
        return false;
    }
    let mut k: usize = 0;
    while k < n
        invariant
            n == needle@.len(),
            total == s@.len(),
            k <= n,
            at + n <= total,
            s@.subrange(at as int, at + k) == needle@.subrange(0, k as int),
        decreases n - k,
    {
        if s.get_char(at + k) != needle.get_char(k) {
            proof {
                assert(s@.subrange(at as int, at + n)[k as int] == s@[at + k]);
            }
            return false;
        }
        proof {
            assert(s@.subrange(at as int, at + k + 1) =~= s@.subrange(at as int, at + k).push(
                s@[at + k],
            ));
            assert(needle@.subrange(0, k + 1) =~= needle@.subrange(0, k as int).push(
                needle@[k as int],
            ));
        }
        k = k + 1;
    }
    proof {
        assert(needle@.subrange(0, n as int) =~= needle@);
    }
    true
}

/// Searches `s` for `needle` from character position `from` on.
pub fn find(s: &str, needle: &str, from: usize) -> (r: Option<usize>)
    ensures
        match r {
            Some(i) => find_from(s@, needle@, from as int) == Some(i as int),
            None => find_from(s@, needle@, from as int) is None,
        },
{
    let total: usize = s.unicode_len();
    let n: usize = needle.unicode_len();
    if n > total || from > total - n {
        return None;
    }
    let last: usize = total - n;
    let mut i: usize = from;
    loop
        invariant
            n == needle@.len(),
            total == s@.len(),
            last == total - n,
            from <= i <= last,
            find_from(s@, needle@, from as int) == find_from(s@, needle@, i as int),
        decreases last - i,
    {
        if matches_at(s, needle, i) {
            return Some(i);
        }
        if i == last {
            assert(find_from(s@, needle@, i + 1) is None);
            return None;
        }
        i = i + 1;
    }
}

/// Cuts out what stands between the first `needle` in `s` and the next one.
pub fn second_piece_of(s: &str, needle: &str) -> (r: Option<String>)
    ensures
        match r {
            Some(t) => second_piece(s@, needle@) == Some(t@),
            None => second_piece(s@, needle@) is None,
        },
{
    let total: usize = s.unicode_len();
    let n: usize = needle.unicode_len();
    match find(s, needle, 0) {
        None => None,
        Some(i) => {
            proof {
                lemma_find_from(s@, needle@, 0);
            }
            let rest = s.substring_char(i + n, total);
            Some(before_first_of(rest, needle))
        },
    }
}

/// Cuts `s` off before its first `needle`.
pub fn before_first_of(s: &str, needle: &str) -> (r: String)
    ensures
        r@ == before_first(s@, needle@),
{
    match find(s, needle, 0) {
        None => s.to_owned(),
        Some(i) => {
            proof {
                lemma_find_from(s@, needle@, 0);
            }
            s.substring_char(0, i).to_owned()
        },
    }
}

/// The character of a decimal digit.
pub open spec fn digit(d: nat) -> char {
    if d == 0 {
        '0'
    } else if d == 1 {
        '1'
    } else if d == 2 {
        '2'
    } else if d == 3 {
        '3'
    } else if d == 4 {
        '4'
    } else if d == 5 {
        '5'
    } else if d == 6 {
        '6'
    } else if d == 7 {
        '7'
    } else if d == 8 {
        '8'
    } else {
        '9'
    }
}

/// The decimal numeral of `n`, without leading zeros.
pub open spec fn decimal(n: nat) -> Seq<char>
    decreases n,
{
    if n < 10 {
        seq![digit(n)]
    } else {
        decimal(n / 10).push(digit(n % 10))
    }
}

/// The decimal numeral of `i`, with a minus sign where it is negative.
pub open spec fn signed_decimal(i: int) -> Seq<char> {
    if i < 0 {
        seq!['-'] + decimal((-i) as nat)
    } else {
        decimal(i as nat)
    }
}

fn digit_text(d: u64) -> (r: &'static str)
    requires
        d < 10,
    ensures
        r@ == seq![digit(d as nat)],
{
    proof {
        reveal_strlit("0");
        reveal_strlit("1");
        reveal_strlit("2");
        reveal_strlit("3");
        reveal_strlit("4");
        reveal_strlit("5");
        reveal_strlit("6");
        reveal_strlit("7");
        reveal_strlit("8");
        reveal_strlit("9");
    }
    let r = if d == 0 {
        "0"
    } else if d == 1 {
        "1"
    } else if d == 2 {
        "2"
    } else if d == 3 {
        "3"
    } else if d == 4 {
        "4"
    } else if d == 5 {
        "5"
    } else if d == 6 {
        "6"
    } else if d == 7 {
        "7"
    } else if d == 8 {
        "8"
    } else {
        "9"
    };
    assert(r@ =~= seq![digit(d as nat)]);
    r
}

/// Writes `n` as a decimal numeral.
pub fn decimal_of(n: u64) -> (r: String)
    ensures
        r@ == decimal(n as nat),
    decreases n,
{
    if n < 10 {
        digit_text(n).to_owned()
    } else {
        let mut r = decimal_of(n / 10);
        r.append(digit_text(n % 10));
        assert(r@ =~= decimal((n / 10) as nat).push(digit((n % 10) as nat)));
        r
    }
}

/// Writes `i` as a decimal numeral, with a minus sign where it is negative.
pub fn signed_decimal_of(i: i64) -> (r: String)
    ensures
        r@ == signed_decimal(i as int),
{
    if i < 0 {
        let magnitude: u64 = if i == i64::MIN {
            9223372036854775808u64
        } else {
            (-i) as u64
        };
        proof {
            reveal_strlit("-");
        }
        let mut r = "-".to_owned();
        r.append(decimal_of(magnitude).as_str());
        assert(r@ =~= seq!['-'] + decimal((-i) as nat));
        r
    } else {
        decimal_of(i as u64)
    }
}

/// A text that holds `needle` holds every tail of `needle` too.
pub proof fn lemma_contains_tail(s: Seq<char>, needle: Seq<char>, skip: int)
    requires
        contains(s, needle),
        0 <= skip <= needle.len(),
    ensures
        contains(s, needle.subrange(skip, needle.len() as int)),
{
    let tail = needle.subrange(skip, needle.len() as int);
    lemma_find_from(s, needle, 0);
    let i = find_from(s, needle, 0)->Some_0;
    assert(s.subrange(i + skip, i + skip + tail.len()) =~= tail);
    assert(occurs_at(s, tail, i + skip));
    lemma_find_from(s, tail, 0);
}

/// Whether a character is a decimal digit.
pub open spec fn is_digit(c: char) -> bool {
    '0' <= c && c <= '9'
}

/// The value of a decimal digit.
pub open spec fn digit_value(c: char) -> nat {
    (c as int - '0' as int) as nat
}

/// Whether a text is made of decimal digits only.
pub open spec fn all_digits(s: Seq<char>) -> bool {
    forall|i: int| 0 <= i < s.len() ==> is_digit(#[trigger] s[i])
}

/// The number that a text of decimal digits writes.
pub open spec fn digits_value(s: Seq<char>) -> nat
    decreases s.len(),
{
    if s.len() == 0 {
        0
    } else {
        digits_value(s.drop_last()) * 10 + digit_value(s.last())
    }
}

/// The integer that a text writes: decimal digits, at least one, after an
/// optional minus sign.
pub open spec fn integer_of(s: Seq<char>) -> Option<int> {
    if s.len() > 0 && s[0] == '-' {
        let digits = s.subrange(1, s.len() as int);
        if digits.len() > 0 && all_digits(digits) {
            Some(-(digits_value(digits) as int))
        } else {
            None
        }
    } else if s.len() > 0 && all_digits(s) {
        Some(digits_value(s) as int)
    } else {
        None
    }
}

/// The integer that a text writes, where it is one that 64 bits hold.
pub open spec fn i64_of(s: Seq<char>) -> Option<i64> {
    match integer_of(s) {
        Some(v) => if i64::MIN <= v <= i64::MAX {
            Some(v as i64)
        } else {
            None
        },
        None => None,
    }
}

/// The number that the first `k` digits write is no greater than the number
/// that all of them write.
pub proof fn lemma_digits_value_prefix(s: Seq<char>, k: int)
    requires
        0 <= k <= s.len(),
    ensures
        digits_value(s.subrange(0, k)) <= digits_value(s),
    decreases s.len() - k,
{
    if k == s.len() {
        assert(s.subrange(0, k) =~= s);
    } else {
        lemma_digits_value_prefix(s.drop_last(), k);
        assert(s.drop_last().subrange(0, k) =~= s.subrange(0, k));
    }
}

/// The numeral of a number is made of digits, at least one, and writes that
/// number.
pub proof fn lemma_decimal_digits(n: nat)
    ensures
        decimal(n).len() > 0,
        all_digits(decimal(n)),
        digits_value(decimal(n)) == n,
    decreases n,
{
    if n < 10 {
        assert(decimal(n).drop_last() =~= Seq::<char>::empty());
        assert(digits_value(decimal(n)) == digits_value(Seq::<char>::empty()) * 10 + digit_value(
            digit(n),
        ));
    } else {
        lemma_decimal_digits(n / 10);
        let head = decimal(n / 10);
        assert(decimal(n).drop_last() =~= head);
        assert(decimal(n).last() == digit(n % 10));
        assert forall|i: int| 0 <= i < decimal(n).len() implies is_digit(
            #[trigger] decimal(n)[i],
        ) by {
            if i < head.len() {
                assert(decimal(n)[i] == head[i]);
            }
        }
    }
}

/// Reading the numeral of an integer gives the integer back.
pub proof fn lemma_integer_of_signed_decimal(i: int)
    ensures
        integer_of(signed_decimal(i)) == Some(i),
{
    if i < 0 {
        let digits = decimal((-i) as nat);
        lemma_decimal_digits((-i) as nat);
        let s = signed_decimal(i);
        assert(s[0] == '-');
        assert(s.subrange(1, s.len() as int) =~= digits);
    } else {
        lemma_decimal_digits(i as nat);
        let s = signed_decimal(i);
        assert(is_digit(s[0]));
    }
}

/// Reads an integer that 64 bits hold.
pub fn parse_integer(text: &str) -> (r: Option<i64>)
    ensures
        r == i64_of(text@),
{
    let n: usize = text.unicode_len();
    if n == 0 {
        return None;
    }
    let negative: bool = text.get_char(0) == '-';
    let start: usize = if negative {
        1
    } else {
        0
    };
    if start == n {
        assert(text@.subrange(1, n as int).len() == 0);
        return None;
    }
    let ghost digits = text@.subrange(start as int, n as int);
    let limit: u64 = if negative {
        9223372036854775808u64
    } else {
        9223372036854775807u64
    };
    let mut acc: u64 = 0;
    let mut i: usize = start;
    assert(digits.subrange(0, 0) =~= Seq::<char>::empty());
    while i < n
        invariant
            n == text@.len(),
            start <= i <= n,
            start < n,
            start == (if negative { 1usize } else { 0usize }),
            negative == (text@[0] == '-'),
            digits == text@.subrange(start as int, n as int),
            limit == (if negative { 9223372036854775808u64 } else { 9223372036854775807u64 }),
            acc <= limit,
            acc == digits_value(digits.subrange(0, i - start)),
            forall|k: int| 0 <= k < i - start ==> is_digit(#[trigger] digits[k]),
        decreases n - i,
    {
        let c: char = text.get_char(i);
        assert(c == digits[i - start]);
        if !('0' <= c && c <= '9') {
            assert(!all_digits(digits));
            assert(!negative ==> digits =~= text@);
            return None;
        }
        let d: u64 = (c as u32 - '0' as u32) as u64;
        proof {
            let next = digits.subrange(0, i - start + 1);
            assert(next.drop_last() =~= digits.subrange(0, i - start));
            assert(next.last() == c);
            assert(digits_value(next) == acc * 10 + d);
            lemma_digits_value_prefix(digits, i - start + 1);
        }
        if acc > (limit - d) / 10 {
            assert(acc * 10 + d > limit);
            assert(!negative ==> digits =~= text@);
            return None;
        }
        acc = acc * 10 + d;
        i = i + 1;
    }
    proof {
        assert(digits.subrange(0, n - start) =~= digits);
        assert(all_digits(digits));
        assert(!negative ==> digits =~= text@);
    }
    if negative {
        if acc == 9223372036854775808u64 {
            Some(i64::MIN)
        } else {
            Some(-(acc as i64))
        }
    } else {
        Some(acc as i64)
    }
}

/// Whether two texts are the same, character for character.
pub fn same_text(a: &str, b: &str) -> (r: bool)
    ensures
        r == (a@ == b@),
{
    a.to_owned() == b.to_owned()
}

} // verus!
