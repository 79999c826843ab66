//! Percentages read from the progress lines of a compression tool.

use crate::text::chars_of;
use vstd::prelude::*;

verus! {

/// A decimal digit.
pub open spec fn is_digit(c: char) -> bool {
    '0' <= c && c <= '9'
}

/// A character that a numeral is made of: a decimal digit or the point.
pub open spec fn is_numeral_char(c: char) -> bool {
    is_digit(c) || c == '.'
}

/// A decimal numeral: digits and at most one point, with at least one digit.
/// `45`, `45.2`, `.5` and `5.` are numerals; `.`, `1.2.3` and the empty text
/// are none.
pub open spec fn is_numeral(t: Seq<char>) -> bool {
    &&& forall|i: int| 0 <= i < t.len() ==> is_numeral_char(#[trigger] t[i])
    &&& exists|i: int| 0 <= i < t.len() && is_digit(#[trigger] t[i])
    &&& forall|i: int, j: int|
        0 <= i < j < t.len() ==> !(#[trigger] t[i] == '.' && #[trigger] t[j] == '.')
}

/// The number that the digit `c` stands for.
pub open spec fn digit_value(c: char) -> nat {
    (c as int - '0' as int) as nat
}

/// The digits of `t` read as one whole number, the point passed over: 452
/// for `45.2`.
pub open spec fn digits_value(t: Seq<char>) -> nat
    decreases t.len(),
{
    if t.len() == 0 {
        0
    } else if is_digit(t.last()) {
        10 * digits_value(t.drop_last()) + digit_value(t.last())
    } else {
        digits_value(t.drop_last())
    }
}

/// How many characters of `t` stand after its first point; none if it has no
/// point. In a numeral these are the digits of the fraction.
pub open spec fn decimals(t: Seq<char>) -> nat
    decreases t.len(),
{
    if t.len() == 0 {
        0
    } else if t.first() == '.' {
        (t.len() - 1) as nat
    } else {
        decimals(t.drop_first())
    }
}

/// Ten to the power `n`.
pub open spec fn power_of_ten(n: nat) -> nat
    decreases n,
{
    if n == 0 {
        1
    } else {
        10 * power_of_ten((n - 1) as nat)
    }
}

/// A number of percent, kept exactly as the decimal numeral that denotes it.
/// The number is `numerator()` over ten to the power `decimals()`.
#[derive(Debug, PartialEq, Eq)]
pub struct Percentage {
    numeral: String,
}

impl View for Percentage {
    type V = Seq<char>;

    /// The numeral.
    closed spec fn view(&self) -> Seq<char> {
        self.numeral@
    }
}

impl Percentage {
    #[verifier::type_invariant]
    spec fn well_formed(self) -> bool {
        is_numeral(self.numeral@)
    }

    /// The digits of the numeral read as one whole number.
    pub open spec fn numerator(&self) -> nat {
        digits_value(self@)
    }

    /// How many of those digits belong to the fraction.
    pub open spec fn decimals(&self) -> nat {
        decimals(self@)
    }

    /// The numeral that denotes this percentage.
    pub fn as_str(&self) -> (r: &str)
        ensures
            r@ == self@,
            is_numeral(r@),
    {
        proof {
            use_type_invariant(self);
        }
        self.numeral.as_str()
    }
}

/// Whether `c` is a decimal digit or the point.
fn numeral_char(c: char) -> (r: bool)
    ensures
        r == is_numeral_char(c),
{
    (c >= '0' && c <= '9') || c == '.'
}

impl Percentage {
    /// The percentage that `text` denotes, if `text` is a numeral.
    pub fn from_numeral(text: &str) -> (r: Option<Percentage>)
        ensures
            r is Some <==> is_numeral(text@),
            r matches Some(p) ==> p@ == text@,
    {
        let chars = chars_of(text);
        let mut points: usize = 0;
        let mut digits: usize = 0;
        let ghost mut first_point: int = -1;
        let ghost mut some_digit: int = -1;
        let mut i: usize = 0;
        while i < chars.len()
            invariant
                i <= chars.len(),
                chars@ == text@,
                forall|j: int| 0 <= j < i ==> is_numeral_char(#[trigger] chars@[j]),
                points <= 1,
                points + digits == i,
                digits > 0 ==> 0 <= some_digit < i && is_digit(chars@[some_digit]),
                digits == 0 ==> forall|j: int| 0 <= j < i ==> !is_digit(#[trigger] chars@[j]),
                points == 1 ==> 0 <= first_point < i && chars@[first_point] == '.',
                points == 1 ==> forall|j: int|
                    0 <= j < i && j != first_point ==> #[trigger] chars@[j] != '.',
                points == 0 ==> forall|j: int| 0 <= j < i ==> #[trigger] chars@[j] != '.',
            decreases chars.len() - i,
        {
            let c = chars[i];
            if !numeral_char(c) {
                return None;
            }
            if c == '.' {
                if points == 1 {
                    return None;
                }
                points = 1;
                proof {
                    first_point = i as int;
                }
            } else {
                digits += 1;
                proof {
                    some_digit = i as int;
                }
            }
            i += 1;
        }
        if digits == 0 {
            return None;
        }
        Some(Percentage { numeral: text.to_owned() })
    }

    /// Nothing done yet: the numeral `0`.
    pub fn zero() -> (r: Percentage)
        ensures
            r@ == "0"@,
            r.numerator() == 0,
            r.decimals() == 0,
    {
        proof {
            reveal_strlit("0");
            assert(is_digit("0"@[0]));
            lemma_value_of_digits("0"@);
            reveal_with_fuel(digits_value, 2);
        }
        Percentage { numeral: "0".to_owned() }
    }

    /// All done: the numeral `100`.
    pub fn complete() -> (r: Percentage)
        ensures
            r@ == "100"@,
            r.numerator() == 100,
            r.decimals() == 0,
    {
        proof {
            reveal_strlit("100");
            assert(is_digit("100"@[0]));
            lemma_value_of_digits("100"@);
            let t = "100"@;
            assert(t.drop_last() =~= seq!['1', '0']);
            assert(t.drop_last().drop_last() =~= seq!['1']);
            reveal_with_fuel(digits_value, 4);
        }
        Percentage { numeral: "100".to_owned() }
    }
}

/// A text without a point has no digits of a fraction.
pub proof fn lemma_value_of_digits(t: Seq<char>)
    requires
        forall|i: int| 0 <= i < t.len() ==> #[trigger] t[i] != '.',
    ensures
        decimals(t) == 0,
    decreases t.len(),
{
    if t.len() > 0 {
        let rest = t.drop_first();
        assert forall|i: int| 0 <= i < rest.len() implies #[trigger] rest[i] != '.' by {
            assert(rest[i] == t[i + 1]);
        }
        lemma_value_of_digits(rest);
    }
}

/// A numeral with a point denotes its whole part and its fraction: the
/// numerator of `whole . fraction` is the whole part, moved left by the
/// length of the fraction, plus the fraction; and all of the fraction counts
/// as decimals.
pub proof fn law_value_of_a_decimal(whole: Seq<char>, fraction: Seq<char>)
    requires
        forall|i: int| 0 <= i < whole.len() ==> is_digit(#[trigger] whole[i]),
        forall|i: int| 0 <= i < fraction.len() ==> is_digit(#[trigger] fraction[i]),
    ensures
        digits_value(whole + seq!['.'] + fraction) == digits_value(whole) * power_of_ten(
            fraction.len(),
        ) + digits_value(fraction),
        decimals(whole + seq!['.'] + fraction) == fraction.len(),
        decimals(whole) == 0,
{
    lemma_digits_of_a_decimal(whole, fraction);
    lemma_decimals_of_a_decimal(whole, fraction);
    lemma_value_of_digits(whole);
}

/// The numerator of `whole . fraction`.
proof fn lemma_digits_of_a_decimal(whole: Seq<char>, fraction: Seq<char>)
    requires
        forall|i: int| 0 <= i < fraction.len() ==> is_digit(#[trigger] fraction[i]),
    ensures
        digits_value(whole + seq!['.'] + fraction) == digits_value(whole) * power_of_ten(
            fraction.len(),
        ) + digits_value(fraction),
    decreases fraction.len(),
{
    let t = whole + seq!['.'] + fraction;
    let w = digits_value(whole);
    if fraction.len() == 0 {
        assert(t.drop_last() =~= whole);
        assert(t.last() == '.');
        assert(digits_value(t) == w);
        assert(w * power_of_ten(0) == w) by (nonlinear_arith)
            requires
                power_of_ten(0) == 1,
        ;
    } else {
        let front = fraction.drop_last();
        assert(t.drop_last() =~= whole + seq!['.'] + front);
        assert(t.last() == fraction.last());
        assert forall|i: int| 0 <= i < front.len() implies is_digit(#[trigger] front[i]) by {
            assert(front[i] == fraction[i]);
        }
        lemma_digits_of_a_decimal(whole, front);
        let p = power_of_ten(front.len());
        let f = digits_value(front);
        let d = digit_value(fraction.last());
        assert(is_digit(fraction[fraction.len() - 1]));
        assert(digits_value(t) == 10 * (w * p + f) + d);
        assert(digits_value(fraction) == 10 * f + d);
        assert(power_of_ten(fraction.len()) == 10 * p);
        assert(10 * (w * p + f) + d == w * (10 * p) + (10 * f + d)) by (nonlinear_arith);
    }
}

/// The decimals of `whole . fraction`.
proof fn lemma_decimals_of_a_decimal(whole: Seq<char>, fraction: Seq<char>)
    requires
        forall|i: int| 0 <= i < whole.len() ==> is_digit(#[trigger] whole[i]),
    ensures
        decimals(whole + seq!['.'] + fraction) == fraction.len(),
    decreases whole.len(),
{
    let t = whole + seq!['.'] + fraction;
    if whole.len() == 0 {
        assert(t.first() == '.');
    } else {
        let rest = whole.drop_first();
        assert(t.first() == whole[0]);
        assert(t.drop_first() =~= rest + seq!['.'] + fraction);
        assert forall|i: int| 0 <= i < rest.len() implies is_digit(#[trigger] rest[i]) by {
            assert(rest[i] == whole[i + 1]);
        }
        lemma_decimals_of_a_decimal(rest, fraction);
    }
}

/// Where the first `%` of `line` stands; the length of `line` if it has none.
pub open spec fn percent_position(line: Seq<char>) -> int
    decreases line.len(),
{
    if line.len() == 0 || line.first() == '%' {
        0
    } else {
        1 + percent_position(line.drop_first())
    }
}

/// Where the run of digits and points that ends just before `end` begins.
pub open spec fn run_start(line: Seq<char>, end: int) -> int
    decreases end,
{
    if 0 < end <= line.len() && is_numeral_char(line[end - 1]) {
        run_start(line, end - 1)
    } else {
        end
    }
}

/// The numeral that stands immediately before the first `%` of `line`: the
/// longest run of digits and points that ends there, if that run is a
/// numeral. A line without `%` has none.
pub open spec fn percentage_text(line: Seq<char>) -> Option<Seq<char>> {
    let pos = percent_position(line);
    let run = line.subrange(run_start(line, pos), pos);
    if pos < line.len() && is_numeral(run) {
        Some(run)
    } else {
        None
    }
}

/// `percent_position` finds the first `%`, and nothing before it is one.
pub proof fn lemma_percent_position(line: Seq<char>)
    ensures
        0 <= percent_position(line) <= line.len(),
        forall|i: int| 0 <= i < percent_position(line) ==> #[trigger] line[i] != '%',
        percent_position(line) < line.len() ==> line[percent_position(line)] == '%',
    decreases line.len(),
{
    if line.len() > 0 && line.first() != '%' {
        let rest = line.drop_first();
        lemma_percent_position(rest);
        assert forall|i: int| 0 <= i < percent_position(line) implies #[trigger] line[i]
            != '%' by {
            if i > 0 {
                assert(line[i] == rest[i - 1]);
            }
        }
    }
}

/// `run_start` is where the longest run of digits and points before `end`
/// begins.
pub proof fn lemma_run_start(line: Seq<char>, end: int)
    requires
        0 <= end <= line.len(),
    ensures
        0 <= run_start(line, end) <= end,
        forall|i: int| run_start(line, end) <= i < end ==> is_numeral_char(#[trigger] line[i]),
        run_start(line, end) > 0 ==> !is_numeral_char(line[run_start(line, end) - 1]),
    decreases end,
{
    if 0 < end && is_numeral_char(line[end - 1]) {
        lemma_run_start(line, end - 1);
    }
}

/// Reads the percentage that a progress line reports: the numeral that
/// stands immediately before the first `%` of the line. No line makes it
/// fail: a line that reports no percentage gives none.
pub fn parse_percentage(line: &str) -> (r: Option<Percentage>)
    ensures
        r is Some <==> percentage_text(line@) is Some,
        r matches Some(p) ==> Some(p@) == percentage_text(line@),
{
    let chars = chars_of(line);
    let n = chars.len();
    let mut pos: usize = 0;
    assert(line@.skip(0) =~= line@);
    while pos < n && chars[pos] != '%'
        invariant
            pos <= n,
            n == chars.len(),
            chars@ == line@,
            percent_position(line@) == pos + percent_position(line@.skip(pos as int)),
        decreases n - pos,
    {
        assert(line@.skip(pos as int).drop_first() =~= line@.skip(pos + 1));
        pos += 1;
    }
    if pos == n {
        return None;
    }
    let mut start: usize = pos;
    while start > 0 && numeral_char(chars[start - 1])
        invariant
            start <= pos < n,
            n == chars.len(),
            chars@ == line@,
            run_start(line@, pos as int) == run_start(line@, start as int),
        decreases start,
    {
        start -= 1;
    }
    Percentage::from_numeral(line.substring_char(start, pos))
}

/// A numeral that stands between a text that does not end in a digit or a
/// point and the first `%` of a line is the percentage of that line,
/// whatever follows the `%`.
pub proof fn law_percentage_before_first_percent(
    before: Seq<char>,
    numeral: Seq<char>,
    after: Seq<char>,
)
    requires
        is_numeral(numeral),
        forall|i: int| 0 <= i < before.len() ==> #[trigger] before[i] != '%',
        before.len() > 0 ==> !is_numeral_char(before.last()),
    ensures
        percentage_text(before + numeral + seq!['%'] + after) == Some(numeral),
{
    let line = before + numeral + seq!['%'] + after;
    let pos: int = (before.len() + numeral.len()) as int;
    lemma_percent_position(line);
    assert(line[pos] == '%');
    assert(percent_position(line) == pos);
    lemma_run_start(line, pos);
    let start = run_start(line, pos);
    assert(start == before.len()) by {
        if start < before.len() {
            assert(line[before.len() - 1] == before.last());
        }
    }
    assert(line.subrange(start, pos) =~= numeral);
}

/// A line without `%` reports no percentage.
pub proof fn law_no_percent_sign(line: Seq<char>)
    requires
        forall|i: int| 0 <= i < line.len() ==> #[trigger] line[i] != '%',
    ensures
        percentage_text(line) is None,
{
    lemma_percent_position(line);
}

/// A line whose first `%` does not follow a digit or a point reports no
/// percentage.
pub proof fn law_percent_without_numeral(line: Seq<char>)
    requires
        percent_position(line) == 0 || !is_numeral_char(line[percent_position(line) - 1]),
    ensures
        percentage_text(line) is None,
{
    lemma_percent_position(line);
}

impl Clone for Percentage {
    fn clone(&self) -> (r: Self)
        ensures
            r@ == self@,
    {
        proof {
            use_type_invariant(self);
        }
        Percentage { numeral: self.numeral.clone() }
    }
}

} // verus!
