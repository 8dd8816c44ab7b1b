use vstd::prelude::*;

verus! {

/// The character of a decimal digit `d < 10`.
pub open spec fn digit_char(d: nat) -> char {
    seq!['0', '1', '2', '3', '4', '5', '6', '7', '8', '9'][d as int]
}

pub open spec fn is_digit(c: char) -> bool {
    48 <= (c as u32) <= 57
}

/// The value of a decimal digit character.
pub open spec fn digit_value(c: char) -> nat {
    ((c as u32) - 48) as nat
}

/// The decimal notation of `n`: no sign, no leading zeros, `"0"` for zero.
pub open spec fn decimal(n: nat) -> Seq<char>
    decreases n,
{
    if n < 10 {
        seq![digit_char(n)]
    } else {
        decimal(n / 10).push(digit_char(n % 10))
    }
}

pub open spec fn all_digits(s: Seq<char>) -> bool {
    forall|i: int| 0 <= i < s.len() ==> is_digit(#[trigger] s[i])
}

/// The number that a string of decimal digits denotes.
pub open spec fn digits_value(s: Seq<char>) -> nat
    decreases s.len(),
{
    if s.len() == 0 {
        0
    } else {
        digits_value(s.drop_last()) * 10 + digit_value(s.last())
    }
}

/// What reading an unsigned machine integer from text gives: an optional
/// `+`, then one or more decimal digits whose value fits in a `usize`;
/// anything else is refused.
pub open spec fn parse_usize_spec(s: Seq<char>) -> Option<usize> {
    let digits = if s.len() > 0 && s[0] == '+' {
        s.drop_first()
    } else {
        s
    };
    if digits.len() > 0 && all_digits(digits) && digits_value(digits) <= usize::MAX {
        Some(digits_value(digits) as usize)
    } else {
        None
    }
}

/// `usize`'s `Display` writes the number in decimal, with no sign and no
/// leading zeros.
#[verifier::external_body]
fn decimal_text(n: usize) -> (r: String)
    ensures
        r@ == decimal(n as nat),
{
    format!("{}", n)
}

/// `str::parse::<usize>` (that is, `usize::from_str`) accepts an optional
/// `+` followed by decimal digits and fails on anything else, including a
/// value above `usize::MAX`; its error is dropped here.
#[verifier::external_body]
fn parse_usize(text: &str) -> (r: Option<usize>)
    ensures
        r == parse_usize_spec(text@),
{
    text.parse::<usize>().ok()
}

/// How many worker threads serve each of the two task queues.
pub struct Runtime {
    pub high_num: usize,
    pub low_num: usize,
}

impl Runtime {
    /// The default sizing for a machine with `num_cores` cores: all but two
    /// cores for the high-priority queue, one thread for the low-priority one.
    pub fn new(num_cores: usize) -> (r: Runtime)
        requires
            num_cores >= 2,
        ensures
            r.high_num == num_cores - 2,
            r.low_num == 1,
    {
        Runtime { high_num: num_cores - 2, low_num: 1 }
    }

    pub fn with_high_num(self, num: usize) -> (r: Runtime)
        ensures
            r.high_num == num,
            r.low_num == self.low_num,
    {
        let mut s = self;
        s.high_num = num;
        s
    }

    pub fn with_low_num(self, num: usize) -> (r: Runtime)
        ensures
            r.high_num == self.high_num,
            r.low_num == num,
    {
        let mut s = self;
        s.low_num = num;
        s
    }

    /// The text under which the number of high-priority workers is handed on
    /// to the code that starts them.
    pub fn high_num_setting(&self) -> (r: String)
        ensures
            r@ == decimal(self.high_num as nat),
    {
        decimal_text(self.high_num)
    }

    /// The text under which the number of low-priority workers is handed on.
    pub fn low_num_setting(&self) -> (r: String)
        ensures
            r@ == decimal(self.low_num as nat),
    {
        decimal_text(self.low_num)
    }
}

/// Reads a number of workers back from its setting text; `None` where the
/// text is not a number that fits in a `usize`.
pub fn parse_worker_count(text: &str) -> (r: Option<usize>)
    ensures
        r == parse_usize_spec(text@),
{
    parse_usize(text)
}

proof fn lemma_digit_char(d: nat)
    requires
        d < 10,
    ensures
        is_digit(digit_char(d)),
        digit_value(digit_char(d)) == d,
        digit_char(d) != '+',
{
}

/// The decimal notation of a number is a non-empty run of digits, not
/// starting with `+`, whose value is the number.
pub proof fn lemma_decimal_digits(n: nat)
    ensures
        decimal(n).len() > 0,
        all_digits(decimal(n)),
        decimal(n)[0] != '+',
        digits_value(decimal(n)) == n,
    decreases n,
{
    if n < 10 {
        lemma_digit_char(n);
        let s = decimal(n);
        assert(s.drop_last() =~= Seq::<char>::empty());
        assert(digits_value(s) == digits_value(s.drop_last()) * 10 + digit_value(s.last()));
    } else {
        lemma_decimal_digits(n / 10);
        lemma_digit_char(n % 10);
        let s = decimal(n);
        assert(s.drop_last() =~= decimal(n / 10));
        assert(s[0] == decimal(n / 10)[0]);
        assert(s.last() == digit_char(n % 10));
        assert(digits_value(s) == digits_value(s.drop_last()) * 10 + digit_value(s.last()));
        assert(n == (n / 10) * 10 + n % 10);
    }
}

/// A worker count read back from its setting text is the count that was
/// written: `parse_worker_count` undoes `high_num_setting` and
/// `low_num_setting`.
pub proof fn lemma_setting_round_trip(n: usize)
    ensures
        parse_usize_spec(decimal(n as nat)) == Some(n),
{
    lemma_decimal_digits(n as nat);
}

} // verus!
