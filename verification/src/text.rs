//! Text: trimming, splitting, decimal numbers and grouped amounts.
//!
//! Everything here is stated over the characters of a string, so the messages and pages built
//! from it can be stated the same way.

use vstd::prelude::*;

verus! {

/// The characters with the Unicode property `White_Space`.
pub open spec fn is_white_space(c: char) -> bool {
    ||| '\u{9}' <= c <= '\u{d}'
    ||| c == '\u{20}'
    ||| c == '\u{85}'
    ||| c == '\u{a0}'
    ||| c == '\u{1680}'
    ||| '\u{2000}' <= c <= '\u{200a}'
    ||| c == '\u{2028}'
    ||| c == '\u{2029}'
    ||| c == '\u{202f}'
    ||| c == '\u{205f}'
    ||| c == '\u{3000}'
}

/// `s` without the white space it starts with.
pub open spec fn trim_start(s: Seq<char>) -> Seq<char>
    decreases s.len(),
{
    if s.len() > 0 && is_white_space(s[0]) {
        trim_start(s.skip(1))
    } else {
        s
    }
}

/// `s` without the white space it ends with.
pub open spec fn trim_end(s: Seq<char>) -> Seq<char>
    decreases s.len(),
{
    if s.len() > 0 && is_white_space(s.last()) {
        trim_end(s.drop_last())
    } else {
        s
    }
}

/// `s` without the white space around it.
pub open spec fn trimmed(s: Seq<char>) -> Seq<char> {
    trim_end(trim_start(s))
}

/// Whether `c` is white space.
pub fn white_space(c: char) -> (result: bool)
    ensures
        result == is_white_space(c),
{
    ('\u{9}' <= c && c <= '\u{d}') || c == '\u{20}' || c == '\u{85}' || c == '\u{a0}' || c
        == '\u{1680}' || ('\u{2000}' <= c && c <= '\u{200a}') || c == '\u{2028}' || c == '\u{2029}'
        || c == '\u{202f}' || c == '\u{205f}' || c == '\u{3000}'
}

/// Removes the white space around `s`.
pub fn trim(s: &str) -> (result: &str)
    ensures
        result@ == trimmed(s@),
{
    let len: usize = s.unicode_len();
    let mut from: usize = 0;
    assert(s@.skip(0) =~= s@);
    while from < len && white_space(s.get_char(from))
        invariant
            from <= len,
            len == s@.len(),
            trim_start(s@) == trim_start(s@.skip(from as int)),
        decreases len - from,
    {
        assert(s@.skip(from as int).skip(1) =~= s@.skip(from + 1));
        from = from + 1;
    }
    assert(trim_start(s@) == s@.skip(from as int));
    let mut to: usize = len;
    assert(s@.subrange(from as int, len as int) =~= s@.skip(from as int));
    while from < to && white_space(s.get_char(to - 1))
        invariant
            from <= to <= len,
            len == s@.len(),
            trimmed(s@) == trim_end(s@.subrange(from as int, to as int)),
        decreases to,
    {
        assert(s@.subrange(from as int, to as int).drop_last() =~= s@.subrange(
            from as int,
            to - 1,
        ));
        to = to - 1;
    }
    s.substring_char(from, to)
}

/// What is left at the end starts with no white space.
proof fn lemma_trim_start(s: Seq<char>)
    ensures
        trim_start(s).len() <= s.len(),
        trim_start(s) == s.skip(s.len() - trim_start(s).len()),
        trim_start(s).len() > 0 ==> !is_white_space(trim_start(s)[0]),
    decreases s.len(),
{
    if s.len() > 0 && is_white_space(s[0]) {
        lemma_trim_start(s.skip(1));
        assert(s.skip(1).skip(s.skip(1).len() - trim_start(s).len()) =~= s.skip(
            s.len() - trim_start(s).len(),
        ));
    } else {
        assert(s.skip(0) =~= s);
    }
}

/// What is left at the start ends with no white space.
proof fn lemma_trim_end(s: Seq<char>)
    ensures
        trim_end(s).len() <= s.len(),
        trim_end(s) == s.take(trim_end(s).len() as int),
        trim_end(s).len() > 0 ==> !is_white_space(trim_end(s).last()),
    decreases s.len(),
{
    if s.len() > 0 && is_white_space(s.last()) {
        lemma_trim_end(s.drop_last());
        assert(s.drop_last().take(trim_end(s).len() as int) =~= s.take(trim_end(s).len() as int));
    } else {
        assert(s.take(s.len() as int) =~= s);
    }
}

/// Trimming brings in no character, and there is nothing left to trim afterwards.
pub proof fn trimmed_text_stays_trimmed(s: Seq<char>)
    ensures
        forall|c: char| #[trigger] trimmed(s).contains(c) ==> s.contains(c),
        trimmed(trimmed(s)) == trimmed(s),
{
    let rest = trim_start(s);
    let part = trimmed(s);
    lemma_trim_start(s);
    lemma_trim_end(rest);
    assert forall|c: char| #[trigger] part.contains(c) implies s.contains(c) by {
        let i = choose|i: int| 0 <= i < part.len() && part[i] == c;
        assert(part[i] == rest[i]);
        assert(rest[i] == s[s.len() - rest.len() + i]);
    }
    if part.len() > 0 {
        assert(part[0] == rest[0]);
    }
}

/// The text of an optional string.
pub open spec fn optional(text: Option<String>) -> Option<Seq<char>> {
    match text {
        Some(text) => Some(text@),
        None => None,
    }
}

/// The texts of some strings.
pub open spec fn all(strings: Seq<String>) -> Seq<Seq<char>> {
    strings.map_values(|s: String| s@)
}

/// The result with the text of its failure.
pub open spec fn failure<T>(outcome: Result<T, String>) -> Result<T, Seq<char>> {
    match outcome {
        Ok(value) => Ok(value),
        Err(text) => Err(text@),
    }
}

/// The texts of a result that is a string either way.
pub open spec fn either(outcome: Result<String, String>) -> Result<Seq<char>, Seq<char>> {
    match outcome {
        Ok(text) => Ok(text@),
        Err(text) => Err(text@),
    }
}

/// Whether two strings hold the same characters.
pub fn same_text(a: &str, b: &str) -> (result: bool)
    ensures
        result == (a@ == b@),
{
    a.to_string() == b.to_string()
}

/// What follows `prefix` in `s`, where `s` starts with it.
pub open spec fn after_prefix(s: Seq<char>, prefix: Seq<char>) -> Option<Seq<char>> {
    if prefix.len() <= s.len() && s.take(prefix.len() as int) == prefix {
        Some(s.skip(prefix.len() as int))
    } else {
        None
    }
}

/// Removes `prefix` from the start of `s`, or says that `s` does not start with it.
pub fn strip_prefix<'a>(s: &'a str, prefix: &str) -> (result: Option<&'a str>)
    ensures
        match result {
            Some(rest) => after_prefix(s@, prefix@) == Some(rest@),
            None => after_prefix(s@, prefix@) is None,
        },
{
    let len: usize = s.unicode_len();
    let cut: usize = prefix.unicode_len();
    if cut > len {
        return None;
    }
    assert(s@.subrange(0, cut as int) =~= s@.take(cut as int));
    if same_text(s.substring_char(0, cut), prefix) {
        assert(s@.subrange(cut as int, len as int) =~= s@.skip(cut as int));
        Some(s.substring_char(cut, len))
    } else {
        None
    }
}

/// The part of `s` before the first `c`, which is all of `s` where there is none.
pub open spec fn up_to(s: Seq<char>, c: char) -> Seq<char>
    decreases s.len(),
{
    if s.len() == 0 || s[0] == c {
        Seq::empty()
    } else {
        seq![s[0]] + up_to(s.skip(1), c)
    }
}

/// The part of `s` before the first `c`.
pub fn before_first(s: &str, c: char) -> (result: &str)
    ensures
        result@ == up_to(s@, c),
{
    let len: usize = s.unicode_len();
    let mut at: usize = 0;
    assert(s@.take(0) + up_to(s@.skip(0), c) =~= up_to(s@, c)) by {
        assert(s@.skip(0) =~= s@);
    }
    while at < len && s.get_char(at) != c
        invariant
            at <= len,
            len == s@.len(),
            up_to(s@, c) == s@.take(at as int) + up_to(s@.skip(at as int), c),
        decreases len - at,
    {
        proof {
            let rest = s@.skip(at as int);
            assert(rest.skip(1) =~= s@.skip(at + 1));
            assert(s@.take(at as int) + (seq![rest[0]] + up_to(rest.skip(1), c)) =~= s@.take(at + 1)
                + up_to(s@.skip(at + 1), c));
        }
        at = at + 1;
    }
    assert(up_to(s@.skip(at as int), c) =~= Seq::<char>::empty());
    assert(s@.subrange(0, at as int) =~= up_to(s@, c));
    s.substring_char(0, at)
}

/// The parts of `s` on either side of the last `c`.
pub open spec fn around_last(s: Seq<char>, c: char) -> Option<(Seq<char>, Seq<char>)>
    decreases s.len(),
{
    if s.len() == 0 {
        None
    } else if s.last() == c {
        Some((s.drop_last(), Seq::empty()))
    } else {
        match around_last(s.drop_last(), c) {
            Some((head, tail)) => Some((head, tail.push(s.last()))),
            None => None,
        }
    }
}

/// Splits `s` at the last `c`.
pub fn split_last<'a>(s: &'a str, c: char) -> (result: Option<(&'a str, &'a str)>)
    ensures
        match result {
            Some((head, tail)) => around_last(s@, c) == Some((head@, tail@)),
            None => around_last(s@, c) is None,
        },
{
    let len: usize = s.unicode_len();
    let mut at: usize = len;
    assert(s@.take(len as int) =~= s@);
    assert forall|tail: Seq<char>| #[trigger] (tail + s@.skip(len as int)) == tail by {
        assert(tail + s@.skip(len as int) =~= tail);
    }
    while at > 0
        invariant
            at <= len,
            len == s@.len(),
            around_last(s@, c) == match around_last(s@.take(at as int), c) {
                Some((head, tail)) => Some((head, tail + s@.skip(at as int))),
                None => None,
            },
        decreases at,
    {
        let ghost front = s@.take(at as int);
        assert(front.drop_last() =~= s@.take(at - 1));
        if s.get_char(at - 1) == c {
            assert(s@.subrange(0, at - 1) =~= front.drop_last());
            assert(Seq::<char>::empty() + s@.skip(at as int) =~= s@.subrange(at as int, len as int));
            return Some((s.substring_char(0, at - 1), s.substring_char(at, len)));
        }
        proof {
            if let Some((head, tail)) = around_last(front.drop_last(), c) {
                assert(tail.push(front.last()) + s@.skip(at as int) =~= tail + s@.skip(at - 1));
            }
        }
        at = at - 1;
    }
    None
}

/// The first `count` characters of `s`, or all of them where there are fewer.
pub open spec fn shortened(s: Seq<char>, count: nat) -> Seq<char> {
    if count <= s.len() {
        s.take(count as int)
    } else {
        s
    }
}

/// Keeps the first `count` characters of `s`.
pub fn shorten(s: &str, count: usize) -> (result: String)
    ensures
        result@ == shortened(s@, count as nat),
{
    let len: usize = s.unicode_len();
    if count <= len {
        assert(s@.subrange(0, count as int) =~= s@.take(count as int));
        s.substring_char(0, count).to_string()
    } else {
        s.to_string()
    }
}

/// The decimal digit for a number below ten.
pub open spec fn digit(n: nat) -> char {
    (('0' as nat) + n) as char
}

/// `n` in decimal, without leading zeros.
pub open spec fn decimal(n: nat) -> Seq<char>
    decreases n,
{
    if n < 10 {
        seq![digit(n)]
    } else {
        decimal(n / 10).push(digit(n % 10))
    }
}

/// The text of one decimal digit.
fn digit_text(n: u64) -> (result: &'static str)
    requires
        n < 10,
    ensures
        result@ == seq![digit(n as nat)],
{
    proof {
        reveal_strlit("0");
        reveal_strlit("1");
        reveal_strlit("2");
        reveal_strlit("3");
        reveal_strlit("4");
        reveal_strlit("5");
        reveal_strlit("6");
        reveal_strlit("7");
        reveal_strlit("8");
        reveal_strlit("9");
    }
    if n == 0 {
        "0"
    } else if n == 1 {
        "1"
    } else if n == 2 {
        "2"
    } else if n == 3 {
        "3"
    } else if n == 4 {
        "4"
    } else if n == 5 {
        "5"
    } else if n == 6 {
        "6"
    } else if n == 7 {
        "7"
    } else if n == 8 {
        "8"
    } else {
        "9"
    }
}

/// Writes `n` in decimal.
pub fn decimal_text(n: u64) -> (result: String)
    ensures
        result@ == decimal(n as nat),
    decreases n,
{
    if n < 10 {
        digit_text(n).to_string()
    } else {
        let result = decimal_text(n / 10).concat(digit_text(n % 10));
        assert(result@ =~= decimal(n as nat));
        result
    }
}

/// Digits in groups of three, counted from the right and separated by commas.
pub open spec fn grouped(digits: Seq<char>) -> Seq<char>
    decreases digits.len(),
{
    if digits.len() <= 3 {
        digits
    } else {
        grouped(digits.take(digits.len() - 3)) + ","@ + digits.skip(digits.len() - 3)
    }
}

/// Separates groups of three digits by commas.
fn group_digits(digits: &str) -> (result: String)
    ensures
        result@ == grouped(digits@),
    decreases digits@.len(),
{
    let len: usize = digits.unicode_len();
    if len <= 3 {
        digits.to_string()
    } else {
        assert(digits@.subrange(0, len - 3) =~= digits@.take(len - 3));
        assert(digits@.subrange(len - 3, len as int) =~= digits@.skip(len - 3));
        group_digits(digits.substring_char(0, len - 3)).concat(",").concat(
            digits.substring_char(len - 3, len),
        )
    }
}

/// An amount of satoshis as it is shown: grouped digits and the unit.
pub open spec fn sats_text(amount: u64) -> Seq<char> {
    grouped(decimal(amount as nat)) + " sats"@
}

/// Writes an amount with its digits grouped: a bond amount is easy to misread by a factor of
/// ten.
pub fn sats(amount: u64) -> (result: String)
    ensures
        result@ == sats_text(amount),
{
    group_digits(decimal_text(amount).as_str()).concat(" sats")
}

/// Whether `c` is one of the ten decimal digits.
pub open spec fn is_digit(c: char) -> bool {
    '0' <= c <= '9'
}

/// Whether `s` holds nothing but decimal digits.
pub open spec fn all_digits(s: Seq<char>) -> bool {
    forall|i: int| 0 <= i < s.len() ==> is_digit(#[trigger] s[i])
}

/// The number that a sequence of digits stands for.
pub open spec fn digits_value(digits: Seq<char>) -> nat
    decreases digits.len(),
{
    if digits.len() == 0 {
        0
    } else {
        10 * digits_value(digits.drop_last()) + (digits.last() as nat - '0' as nat) as nat
    }
}

/// The number written in `s`: an optional plus sign and then only digits, at least one of them.
pub open spec fn number_in(s: Seq<char>) -> Option<nat> {
    let digits = if s.len() > 0 && s[0] == '+' {
        s.skip(1)
    } else {
        s
    };
    if digits.len() > 0 && all_digits(digits) {
        Some(digits_value(digits))
    } else {
        None
    }
}

/// The number in `s`, where there is one and it fits.
pub open spec fn number_within(s: Seq<char>, limit: u64) -> Option<u64> {
    match number_in(s) {
        Some(n) => if n <= limit {
            Some(n as u64)
        } else {
            None
        },
        None => None,
    }
}

/// A number has no more than any number that its digits begin.
proof fn lemma_value_of_prefix(digits: Seq<char>, at: int)
    requires
        0 <= at <= digits.len(),
    ensures
        digits_value(digits.take(at)) <= digits_value(digits),
    decreases digits.len(),
{
    if at == digits.len() {
        assert(digits.take(at) =~= digits);
    } else {
        lemma_value_of_prefix(digits.drop_last(), at);
        assert(digits.drop_last().take(at) =~= digits.take(at));
    }
}

/// Reads a whole number of at most `limit`.
pub fn parse_number(s: &str, limit: u64) -> (result: Option<u64>)
    ensures
        result == number_within(s@, limit),
{
    let len: usize = s.unicode_len();
    let start: usize = if len > 0 && s.get_char(0) == '+' {
        1
    } else {
        0
    };
    let ghost digits = s@.skip(start as int);
    assert(s@.skip(0) =~= s@);
    if start == len {
        return None;
    }
    let mut value: u64 = 0;
    let mut at: usize = start;
    while at < len
        invariant
            start <= at <= len,
            start <= 1,
            len == s@.len(),
            digits == s@.skip(start as int),
            digits.len() > 0,
            number_in(s@) == if all_digits(digits) {
                Some(digits_value(digits))
            } else {
                None::<nat>
            },
            forall|i: int| 0 <= i < at - start ==> is_digit(#[trigger] digits[i]),
            value == digits_value(digits.take(at - start)),
            value <= limit,
        decreases len - at,
    {
        let c: char = s.get_char(at);
        assert(c == digits[at - start]);
        if c < '0' || c > '9' {
            return None;
        }
        let figure: u64 = (c as u32 - '0' as u32) as u64;
        proof {
            let next = digits.take(at - start + 1);
            assert(next.drop_last() =~= digits.take(at - start));
            lemma_value_of_prefix(digits, at - start + 1);
            assert(digits_value(next) == 10 * value + figure);
        }
        if value > limit / 10 || figure > limit - 10 * value {
            return None;
        }
        value = 10 * value + figure;
        at = at + 1;
    }
    assert(digits.take(len - start) =~= digits);
    Some(value)
}

/// Writing a number and reading it back gives the number.
pub proof fn written_numbers_read_back(n: nat)
    ensures
        number_in(decimal(n)) == Some(n),
{
    lemma_decimal(n);
}

/// A decimal is a non-empty sequence of digits with the value that it was written for.
proof fn lemma_decimal(n: nat)
    ensures
        decimal(n).len() > 0,
        all_digits(decimal(n)),
        digits_value(decimal(n)) == n,
    decreases n,
{
    if n < 10 {
        reveal_with_fuel(digits_value, 2);
        assert(decimal(n).drop_last() =~= Seq::<char>::empty());
    } else {
        lemma_decimal(n / 10);
        assert(decimal(n).drop_last() =~= decimal(n / 10));
    }
}

/// The digits among the characters of `s`.
pub open spec fn digits_of(s: Seq<char>) -> Seq<char> {
    s.filter(|c: char| is_digit(c))
}

/// Grouping adds separators and changes no digit, so the amount shown is the amount.
pub proof fn grouping_keeps_the_digits(n: nat)
    ensures
        digits_of(grouped(decimal(n))) == decimal(n),
{
    lemma_decimal(n);
    lemma_grouped(decimal(n));
}

proof fn lemma_grouped(digits: Seq<char>)
    requires
        all_digits(digits),
    ensures
        digits_of(grouped(digits)) == digits,
    decreases digits.len(),
{
    let keep = |c: char| is_digit(c);
    if digits.len() <= 3 {
        lemma_all_kept(digits);
    } else {
        let front = digits.take(digits.len() - 3);
        let back = digits.skip(digits.len() - 3);
        lemma_grouped(front);
        lemma_all_kept(back);
        reveal_strlit(",");
        assert(","@ =~= seq![',']);
        Seq::filter_distributes_over_add(grouped(front) + ","@, back, keep);
        Seq::filter_distributes_over_add(grouped(front), ","@, keep);
        assert(","@.filter(keep) =~= Seq::<char>::empty()) by {
            reveal(Seq::filter);
            reveal_with_fuel(Seq::filter, 2);
            assert(","@.drop_last() =~= Seq::<char>::empty());
        }
        assert(front + back =~= digits);
    }
}

proof fn lemma_all_kept(digits: Seq<char>)
    requires
        all_digits(digits),
    ensures
        digits_of(digits) == digits,
    decreases digits.len(),
{
    reveal(Seq::filter);
    if digits.len() > 0 {
        lemma_all_kept(digits.drop_last());
        assert(digits.drop_last().push(digits.last()) =~= digits);
    }
}

/// Whether `part` stands somewhere in `whole`.
pub open spec fn mentions(whole: Seq<char>, part: Seq<char>) -> bool {
    exists|at: int| #[trigger] stands_at(whole, part, at)
}

/// Whether `part` stands in `whole` from position `at` on.
pub open spec fn stands_at(whole: Seq<char>, part: Seq<char>, at: int) -> bool {
    &&& 0 <= at
    &&& at + part.len() <= whole.len()
    &&& whole.subrange(at, at + part.len()) == part
}

/// A text mentions what it ends with.
pub(crate) broadcast proof fn lemma_mentions_end(front: Seq<char>, part: Seq<char>)
    ensures
        #[trigger] mentions(front + part, part),
{
    assert((front + part).subrange(front.len() as int, (front + part).len() as int) =~= part);
    assert(stands_at(front + part, part, front.len() as int));
}

/// A text that goes on mentions what it mentioned before.
pub(crate) broadcast proof fn lemma_mentions_front(front: Seq<char>, more: Seq<char>, part: Seq<char>)
    requires
        mentions(front, part),
    ensures
        #[trigger] mentions(front + more, part),
{
    let at = choose|at: int| #[trigger] stands_at(front, part, at);
    assert((front + more).subrange(at, at + part.len()) =~= front.subrange(at, at + part.len()));
    assert(stands_at(front + more, part, at));
}

/// What a text ends with may itself mention something.
pub(crate) proof fn lemma_mentions_back(front: Seq<char>, more: Seq<char>, part: Seq<char>)
    requires
        mentions(more, part),
    ensures
        mentions(front + more, part),
{
    let at = choose|at: int| #[trigger] stands_at(more, part, at);
    let there = front.len() + at;
    assert((front + more).subrange(there, there + part.len()) =~= more.subrange(
        at,
        at + part.len(),
    ));
    assert(stands_at(front + more, part, there));
}

/// A text mentions itself.
pub(crate) proof fn lemma_mentions_itself(whole: Seq<char>)
    ensures
        mentions(whole, whole),
{
    assert(whole.subrange(0, whole.len() as int) =~= whole);
    assert(stands_at(whole, whole, 0));
}

/// Trimming cuts white space off both ends and nothing else: what is left is a piece of the text
/// that neither starts nor ends with white space, and all there was around it is white space.
pub proof fn trimming_cuts_white_space_off_the_ends(s: Seq<char>)
    ensures
        trimmed(s).len() > 0 ==> !is_white_space(trimmed(s)[0]) && !is_white_space(
            trimmed(s).last(),
        ),
        exists|from: int|
            {
                &&& #[trigger] stands_at(s, trimmed(s), from)
                &&& forall|i: int| 0 <= i < from ==> is_white_space(#[trigger] s[i])
                &&& forall|i: int|
                    from + trimmed(s).len() <= i < s.len() ==> is_white_space(#[trigger] s[i])
            },
{
    let rest = trim_start(s);
    let from = s.len() - rest.len();
    lemma_trim_start(s);
    lemma_trim_end(rest);
    lemma_cut_at_start(s);
    lemma_cut_at_end(rest);
    let part = trimmed(s);
    assert(s.subrange(from, from + part.len()) =~= part);
    assert(stands_at(s, part, from));
    assert forall|i: int| from + part.len() <= i < s.len() implies is_white_space(
        #[trigger] s[i],
    ) by {
        assert(rest[i - from] == s[i]);
    }
    if part.len() > 0 {
        assert(part[0] == rest[0]);
    }
}

proof fn lemma_cut_at_start(s: Seq<char>)
    ensures
        forall|i: int| 0 <= i < s.len() - trim_start(s).len() ==> is_white_space(#[trigger] s[i]),
    decreases s.len(),
{
    lemma_trim_start(s);
    if s.len() > 0 && is_white_space(s[0]) {
        let rest = s.skip(1);
        lemma_cut_at_start(rest);
        assert forall|i: int| 0 <= i < s.len() - trim_start(s).len() implies is_white_space(
            #[trigger] s[i],
        ) by {
            if i > 0 {
                assert(rest[i - 1] == s[i]);
            }
        }
    }
}

proof fn lemma_cut_at_end(s: Seq<char>)
    ensures
        forall|i: int| trim_end(s).len() <= i < s.len() ==> is_white_space(#[trigger] s[i]),
    decreases s.len(),
{
    lemma_trim_end(s);
    if s.len() > 0 && is_white_space(s.last()) {
        let rest = s.drop_last();
        lemma_cut_at_end(rest);
        assert forall|i: int| trim_end(s).len() <= i < s.len() implies is_white_space(
            #[trigger] s[i],
        ) by {
            if i < rest.len() {
                assert(rest[i] == s[i]);
            }
        }
    }
}

/// A text that neither starts nor ends with white space is left as it is.
pub proof fn a_tidy_text_is_not_trimmed(s: Seq<char>)
    requires
        s.len() > 0,
        !is_white_space(s[0]),
        !is_white_space(s.last()),
    ensures
        trimmed(s) == s,
{
}

/// Space, tab and the line breaks are the white space among the first hundred and twenty-eight
/// characters, so no letter, digit or punctuation mark of them is ever trimmed; and beyond the
/// ideographic space there is none.
pub proof fn plain_white_space(c: char)
    ensures
        (c as u32) < 128 ==> (is_white_space(c) <==> c as u32 == 32 || 9 <= c as u32 <= 13),
        c as u32 > 0x3000 ==> !is_white_space(c),
        c as u32 == 0xa0 || c as u32 == 0x3000 || c as u32 == 0x2003 ==> is_white_space(c),
{
}

/// Removing a prefix undoes putting it in front, and gives nothing where it is not in front.
pub proof fn removing_a_prefix_undoes_adding_it(s: Seq<char>, prefix: Seq<char>, rest: Seq<char>)
    ensures
        after_prefix(prefix + rest, prefix) == Some(rest),
        after_prefix(s, prefix) == Some(rest) <==> s == prefix + rest,
{
    assert((prefix + rest).take(prefix.len() as int) =~= prefix);
    assert((prefix + rest).skip(prefix.len() as int) =~= rest);
    if after_prefix(s, prefix) == Some(rest) {
        assert(s =~= prefix + rest);
    }
}

/// What stands before the first `c` holds no `c`, and in the text a `c` follows it, or nothing.
pub proof fn the_part_before_the_first(s: Seq<char>, c: char)
    ensures
        up_to(s, c).len() <= s.len(),
        up_to(s, c) == s.take(up_to(s, c).len() as int),
        !up_to(s, c).contains(c),
        up_to(s, c).len() < s.len() ==> s[up_to(s, c).len() as int] == c,
    decreases s.len(),
{
    if s.len() > 0 && s[0] != c {
        let rest = s.skip(1);
        let front = up_to(rest, c);
        the_part_before_the_first(rest, c);
        assert(up_to(s, c) == seq![s[0]] + front);
        assert(up_to(s, c) =~= s.take(up_to(s, c).len() as int));
        assert forall|i: int| 0 <= i < up_to(s, c).len() implies up_to(s, c)[i] != c by {
            if i > 0 {
                assert(front.contains(front[i - 1]));
            }
        }
    } else {
        assert(up_to(s, c) =~= s.take(0));
    }
}

/// Splitting at the last `c` gives the parts before and after it, with no `c` after it, and fails
/// only where there is no `c`.
pub proof fn the_parts_around_the_last(s: Seq<char>, c: char)
    ensures
        match around_last(s, c) {
            Some((head, tail)) => s == head.push(c) + tail && !tail.contains(c),
            None => !s.contains(c),
        },
    decreases s.len(),
{
    if s.len() > 0 {
        let front = s.drop_last();
        the_parts_around_the_last(front, c);
        if s.last() == c {
            assert(s =~= front.push(c) + Seq::<char>::empty());
        } else {
            match around_last(front, c) {
                Some((head, tail)) => {
                    assert(s =~= front.push(s.last()));
                    assert((head.push(c) + tail).push(s.last()) =~= head.push(c) + tail.push(
                        s.last(),
                    ));
                    let longer = tail.push(s.last());
                    assert forall|i: int| 0 <= i < longer.len() implies longer[i] != c by {
                        if i < tail.len() {
                            assert(tail.contains(tail[i]));
                        }
                    }
                },
                None => {
                    assert forall|i: int| 0 <= i < s.len() implies s[i] != c by {
                        if i < front.len() {
                            assert(front.contains(front[i]));
                        }
                    }
                },
            }
        }
    }
}

/// A shortened text is the start of the text: all of it, or exactly as much as asked for.
pub proof fn a_shortened_text_is_its_start(s: Seq<char>, count: nat)
    ensures
        shortened(s, count).len() == if s.len() < count {
            s.len()
        } else {
            count
        },
        forall|i: int| 0 <= i < shortened(s, count).len() ==> #[trigger] shortened(s, count)[i] == s[i],
        s.len() <= count ==> shortened(s, count) == s,
{
    if s.len() == count {
        assert(s.take(count as int) =~= s);
    }
}

/// A decimal ends with the digit of the ones, and the number without it is what stands before.
/// The first digit is zero only for zero.
pub proof fn decimals_are_written_digit_by_digit(n: nat, ones: nat)
    requires
        ones < 10,
    ensures
        decimal(ones) == seq![digit(ones)],
        digit(ones) as nat == 48 + ones,
        n > 0 ==> decimal(10 * n + ones) == decimal(n).push(digit(ones)),
        n > 0 ==> decimal(n)[0] as nat != 48,
    decreases n,
{
    if n > 0 {
        assert((10 * n + ones) / 10 == n && (10 * n + ones) % 10 == ones);
        if n >= 10 {
            decimals_are_written_digit_by_digit(n / 10, n % 10);
            lemma_decimal(n / 10);
        }
    }
}

/// Two numbers that read the same are the same.
pub proof fn decimals_tell_numbers_apart(a: nat, b: nat)
    requires
        decimal(a) == decimal(b),
    ensures
        a == b,
{
    lemma_decimal(a);
    lemma_decimal(b);
}

/// A number is read exactly from what writes it, with or without a plus sign, as long as it is not
/// above the limit. Leading zeros do not matter, and nothing that holds another character, or no
/// digit, is a number.
pub proof fn numbers_are_read_from_digits(s: Seq<char>, n: nat, limit: u64)
    ensures
        number_within(decimal(n), limit) == if n <= limit {
            Some(n as u64)
        } else {
            None
        },
        number_within(seq!['+'] + decimal(n), limit) == number_within(decimal(n), limit),
        number_within(seq!['0'] + decimal(n), limit) == number_within(decimal(n), limit),
        number_within(Seq::empty(), limit) is None,
        number_within(seq!['+'], limit) is None,
        number_within(s, limit) is Some ==> forall|i: int|
            0 <= i < s.len() ==> 48 <= #[trigger] s[i] as nat <= 57 || (i == 0 && s[i] == '+'),
{
    lemma_decimal(n);
    let plus = seq!['+'] + decimal(n);
    assert(plus.skip(1) =~= decimal(n));
    let zero = seq!['0'] + decimal(n);
    assert(all_digits(zero)) by {
        assert forall|i: int| 0 <= i < zero.len() implies is_digit(#[trigger] zero[i]) by {
            if i > 0 {
                assert(zero[i] == decimal(n)[i - 1]);
            }
        }
    }
    lemma_leading_zero(decimal(n));
    assert(decimal(n)[0] != '+') by {
        assert(is_digit(decimal(n)[0]));
    }
    assert(seq!['+'].skip(1) =~= Seq::<char>::empty());
    if number_within(s, limit) is Some {
        assert forall|i: int| 0 <= i < s.len() implies 48 <= #[trigger] s[i] as nat <= 57 || (i == 0
            && s[i] == '+') by {
            if s[0] == '+' {
                if i > 0 {
                    assert(is_digit(s.skip(1)[i - 1]));
                }
            } else {
                assert(is_digit(s[i]));
            }
        }
    }
}

proof fn lemma_leading_zero(digits: Seq<char>)
    ensures
        digits_value(seq!['0'] + digits) == digits_value(digits),
    decreases digits.len(),
{
    let longer = seq!['0'] + digits;
    if digits.len() == 0 {
        reveal_with_fuel(digits_value, 2);
        assert(longer.drop_last() =~= Seq::<char>::empty());
    } else {
        lemma_leading_zero(digits.drop_last());
        assert(longer.drop_last() =~= seq!['0'] + digits.drop_last());
        assert(longer.last() == digits.last());
    }
}

/// Grouping puts a comma before every third digit, counted from the right, and nowhere else.
pub proof fn commas_stand_before_every_third_digit(n: nat, at: int)
    requires
        0 <= at < grouped(decimal(n)).len(),
    ensures
        grouped(decimal(n))[at] == ',' <==> (grouped(decimal(n)).len() - 1 - at) % 4 == 3,
{
    lemma_decimal(n);
    lemma_commas(decimal(n), at);
}

proof fn lemma_commas(digits: Seq<char>, at: int)
    requires
        all_digits(digits),
        digits.len() > 0,
        0 <= at < grouped(digits).len(),
    ensures
        grouped(digits)[at] == ',' <==> (grouped(digits).len() - 1 - at) % 4 == 3,
    decreases digits.len(),
{
    reveal_strlit(",");
    if digits.len() <= 3 {
        assert(is_digit(digits[at]));
    } else {
        let front = digits.take(digits.len() - 3);
        let back = digits.skip(digits.len() - 3);
        let first = grouped(front);
        assert(all_digits(front)) by {
            assert forall|i: int| 0 <= i < front.len() implies is_digit(#[trigger] front[i]) by {
                assert(front[i] == digits[i]);
            }
        }
        assert(grouped(digits).len() == first.len() + 4);
        if at < first.len() {
            lemma_commas(front, at);
            assert(grouped(digits)[at] == first[at]);
        } else if at > first.len() {
            assert(grouped(digits)[at] == back[at - first.len() - 1]);
            assert(is_digit(digits[digits.len() - 3 + (at - first.len() - 1)]));
        } else {
            assert(grouped(digits)[at] == ',');
        }
    }
}

/// An amount is shown by its own digits and in satoshis, so two amounts that look the same are.
pub proof fn amounts_are_shown_as_they_are(amount: u64, other: u64)
    ensures
        digits_of(sats_text(amount)) == decimal(amount as nat),
        sats_text(amount) == grouped(decimal(amount as nat)) + " sats"@,
        sats_text(amount) == sats_text(other) ==> amount == other,
{
    lemma_digits_shown(amount);
    lemma_digits_shown(other);
    if sats_text(amount) == sats_text(other) {
        decimals_tell_numbers_apart(amount as nat, other as nat);
    }
}

proof fn lemma_digits_shown(amount: u64)
    ensures
        digits_of(sats_text(amount)) == decimal(amount as nat),
{
    let keep = |c: char| is_digit(c);
    let unit = " sats"@;
    grouping_keeps_the_digits(amount as nat);
    Seq::filter_distributes_over_add(grouped(decimal(amount as nat)), unit, keep);
    reveal_strlit(" sats");
    assert(unit =~= seq![' ', 's', 'a', 't', 's']);
    lemma_none_kept(unit);
}

proof fn lemma_none_kept(s: Seq<char>)
    requires
        forall|i: int| 0 <= i < s.len() ==> !is_digit(#[trigger] s[i]),
    ensures
        digits_of(s) == Seq::<char>::empty(),
    decreases s.len(),
{
    reveal(Seq::filter);
    if s.len() > 0 {
        lemma_none_kept(s.drop_last());
    }
}

/// White space around a text does not matter once it is trimmed.
pub proof fn white_space_around_does_not_matter(before: Seq<char>, s: Seq<char>, after: Seq<char>)
    requires
        forall|i: int| 0 <= i < before.len() ==> is_white_space(#[trigger] before[i]),
        forall|i: int| 0 <= i < after.len() ==> is_white_space(#[trigger] after[i]),
    ensures
        trimmed(before + s + after) == trimmed(s),
{
    assert(before + s + after =~= before + (s + after));
    lemma_start_ignored(before, s + after);
    lemma_start_of_sum(s, after);
    if trim_start(s).len() > 0 {
        lemma_end_ignored(trim_start(s), after);
    } else {
        lemma_start_ignored(after, Seq::empty());
        assert(after + Seq::<char>::empty() =~= after);
        assert(trim_start(s) =~= Seq::empty());
    }
}

proof fn lemma_start_ignored(before: Seq<char>, s: Seq<char>)
    requires
        forall|i: int| 0 <= i < before.len() ==> is_white_space(#[trigger] before[i]),
    ensures
        trim_start(before + s) == trim_start(s),
    decreases before.len(),
{
    if before.len() > 0 {
        let fewer = before.skip(1);
        assert(is_white_space(before[0]));
        assert forall|i: int| 0 <= i < fewer.len() implies is_white_space(#[trigger] fewer[i]) by {
            assert(fewer[i] == before[i + 1]);
        }
        lemma_start_ignored(fewer, s);
        assert((before + s).skip(1) =~= fewer + s);
    } else {
        assert(before + s =~= s);
    }
}

proof fn lemma_start_of_sum(s: Seq<char>, after: Seq<char>)
    ensures
        trim_start(s + after) == if trim_start(s).len() > 0 {
            trim_start(s) + after
        } else {
            trim_start(after)
        },
    decreases s.len(),
{
    if s.len() > 0 && is_white_space(s[0]) {
        lemma_start_of_sum(s.skip(1), after);
        assert((s + after).skip(1) =~= s.skip(1) + after);
    } else if s.len() == 0 {
        assert(s + after =~= after);
    }
}

proof fn lemma_end_ignored(s: Seq<char>, after: Seq<char>)
    requires
        forall|i: int| 0 <= i < after.len() ==> is_white_space(#[trigger] after[i]),
    ensures
        trim_end(s + after) == trim_end(s),
    decreases after.len(),
{
    if after.len() > 0 {
        let fewer = after.drop_last();
        assert(is_white_space(after[after.len() - 1]));
        assert forall|i: int| 0 <= i < fewer.len() implies is_white_space(#[trigger] fewer[i]) by {
            assert(fewer[i] == after[i]);
        }
        lemma_end_ignored(s, fewer);
        assert((s + after).drop_last() =~= s + fewer);
    } else {
        assert(s + after =~= s);
    }
}

/// What stands before a `c` that is the first is found whatever follows.
pub proof fn the_first_is_found(front: Seq<char>, c: char, back: Seq<char>)
    requires
        !front.contains(c),
    ensures
        up_to(front.push(c) + back, c) == front,
        up_to(front, c) == front,
    decreases front.len(),
{
    let whole = front.push(c) + back;
    if front.len() > 0 {
        let rest = front.skip(1);
        assert(front.contains(front[0]));
        assert forall|i: int| 0 <= i < rest.len() implies rest[i] != c by {
            assert(front.contains(front[i + 1]));
        }
        the_first_is_found(rest, c, back);
        assert(whole.skip(1) =~= rest.push(c) + back);
        assert(seq![front[0]] + rest =~= front);
    } else {
        assert(front =~= Seq::empty());
    }
}

/// The parts around a `c` that is the last are found whatever stands before.
pub proof fn the_last_is_found(front: Seq<char>, c: char, back: Seq<char>)
    requires
        !back.contains(c),
    ensures
        around_last(front.push(c) + back, c) == Some((front, back)),
    decreases back.len(),
{
    let whole = front.push(c) + back;
    if back.len() > 0 {
        let fewer = back.drop_last();
        assert(back.contains(back[back.len() - 1]));
        assert forall|i: int| 0 <= i < fewer.len() implies fewer[i] != c by {
            assert(back.contains(back[i]));
        }
        the_last_is_found(front, c, fewer);
        assert(whole.drop_last() =~= front.push(c) + fewer);
        assert(fewer.push(back.last()) =~= back);
    } else {
        assert(whole =~= front.push(c));
        assert(whole.drop_last() =~= front);
        assert(back =~= Seq::empty());
    }
}

/// A decimal holds digits and nothing else.
pub(crate) proof fn lemma_only_digits(n: nat, c: char)
    requires
        !is_digit(c),
    ensures
        decimal(n).len() > 0,
        !decimal(n).contains(c),
{
    lemma_decimal(n);
    assert forall|i: int| 0 <= i < decimal(n).len() implies decimal(n)[i] != c by {
        assert(is_digit(decimal(n)[i]));
    }
}

/// A text begins with itself.
pub(crate) broadcast proof fn lemma_begins_itself(s: Seq<char>)
    ensures
        #[trigger] s.is_prefix_of(s),
{
    assert(s.subrange(0, s.len() as int) =~= s);
}

/// What a text begins with, it also begins with when more is put behind it.
pub(crate) broadcast proof fn lemma_begins_more(
    start: Seq<char>,
    front: Seq<char>,
    more: Seq<char>,
)
    requires
        start.is_prefix_of(front),
    ensures
        #[trigger] start.is_prefix_of(front + more),
{
    let whole = front + more;
    assert forall|i: int| 0 <= i < start.len() implies start[i] == whole[i] by {
        assert(start[i] == front.subrange(0, start.len() as int)[i]);
    }
    assert(start =~= whole.subrange(0, start.len() as int));
}

/// Strings are taken for their characters, wherever they stand.
pub proof fn strings_are_taken_for_their_characters(
    optional_text: Option<String>,
    strings: Seq<String>,
    at: int,
    done: Result<(), String>,
    said: Result<String, String>,
)
    ensures
        optional_text is None <==> optional(optional_text) is None,
        optional_text matches Some(s) ==> optional(optional_text)->Some_0 == s@,
        all(strings).len() == strings.len(),
        0 <= at < strings.len() ==> all(strings)[at] == strings[at]@,
        failure(done) is Ok <==> done is Ok,
        done matches Err(s) ==> failure(done)->Err_0 == s@,
        either(said) is Ok <==> said is Ok,
        said matches Ok(s) ==> either(said)->Ok_0 == s@,
        said matches Err(s) ==> either(said)->Err_0 == s@,
{
}

} // verus!
