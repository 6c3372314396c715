use vstd::prelude::*;

verus! {

/// The character of a decimal digit.
pub open spec fn digit_char(d: nat) -> char {
    if d == 0 { '0' }
    else if d == 1 { '1' }
    else if d == 2 { '2' }
    else if d == 3 { '3' }
    else if d == 4 { '4' }
    else if d == 5 { '5' }
    else if d == 6 { '6' }
    else if d == 7 { '7' }
    else if d == 8 { '8' }
    else { '9' }
}

/// The decimal digits of a natural number, most significant first, without
/// leading zeros (zero itself is written "0").
pub open spec fn digits(n: nat) -> Seq<char>
    decreases n,
{
    if n < 10 {
        seq![digit_char(n)]
    } else {
        digits(n / 10) + seq![digit_char(n % 10)]
    }
}

/// How an integer is written in decimal: a minus sign before the digits of
/// its magnitude when it is negative.
pub open spec fn decimal(i: int) -> Seq<char> {
    if i < 0 {
        seq!['-'] + digits((-i) as nat)
    } else {
        digits(i as nat)
    }
}

/// The text of the battery label: nothing while charging, otherwise the
/// percentage followed by a percent sign.
pub open spec fn battery_percentage_text(charging: bool, percentage: int) -> Seq<char> {
    if charging {
        Seq::empty()
    } else {
        decimal(percentage) + seq!['%']
    }
}

fn digit_str(d: u32) -> (s: &'static str)
    requires
        d < 10,
    ensures
        s@ == seq![digit_char(d as nat)],
{
    if d == 0 {
        proof { reveal_strlit("0"); }
        "0"
    } else if d == 1 {
        proof { reveal_strlit("1"); }
        "1"
    } else if d == 2 {
        proof { reveal_strlit("2"); }
        "2"
    } else if d == 3 {
        proof { reveal_strlit("3"); }
        "3"
    } else if d == 4 {
        proof { reveal_strlit("4"); }
        "4"
    } else if d == 5 {
        proof { reveal_strlit("5"); }
        "5"
    } else if d == 6 {
        proof { reveal_strlit("6"); }
        "6"
    } else if d == 7 {
        proof { reveal_strlit("7"); }
        "7"
    } else if d == 8 {
        proof { reveal_strlit("8"); }
        "8"
    } else {
        proof { reveal_strlit("9"); }
        "9"
    }
}

fn append_digits(n: u32, s: &mut String)
    ensures
        final(s)@ == old(s)@ + digits(n as nat),
    decreases n,
{
    if n >= 10 {
        append_digits(n / 10, s);
    }
    let d: u32 = n % 10;
    s.append(digit_str(d));
    proof {
        assert(n < 10 ==> d == n);
    }
}

/// Writes `percentage` in decimal with a percent sign, or returns an empty
/// string while the battery is charging.
pub fn format_battery_percentage(charging: bool, percentage: i32) -> (text: String)
    ensures
        text@ == battery_percentage_text(charging, percentage as int),
{
    let mut text = String::new();
    if charging {
        return text;
    }
    if percentage < 0 {
        proof { reveal_strlit("-"); }
        text.append("-");
        let magnitude: u32 = if percentage == i32::MIN {
            2147483648u32
        } else {
            (-percentage) as u32
        };
        append_digits(magnitude, &mut text);
    } else {
        append_digits(percentage as u32, &mut text);
    }
    proof { reveal_strlit("%"); }
    text.append("%");
    text
}

/// The value of a decimal digit character.
pub open spec fn digit_value(c: char) -> int {
    if c == '0' { 0 }
    else if c == '1' { 1 }
    else if c == '2' { 2 }
    else if c == '3' { 3 }
    else if c == '4' { 4 }
    else if c == '5' { 5 }
    else if c == '6' { 6 }
    else if c == '7' { 7 }
    else if c == '8' { 8 }
    else { 9 }
}

/// The value of a string of decimal digits, most significant first.
pub open spec fn digits_value(s: Seq<char>) -> int
    decreases s.len(),
{
    if s.len() == 0 {
        0
    } else {
        digits_value(s.drop_last()) * 10 + digit_value(s.last())
    }
}

/// Reading the digits of `n` back gives `n`, and there is at least one.
pub proof fn lemma_digits_read_back(n: nat)
    ensures
        digits(n).len() >= 1,
        digits_value(digits(n)) == n,
    decreases n,
{
    let s = digits(n);
    if n >= 10 {
        lemma_digits_read_back(n / 10);
        assert(s.drop_last() =~= digits(n / 10));
        assert(s.last() == digit_char(n % 10));
        assert(digit_value(digit_char(n % 10)) == n % 10);
        assert(digits_value(s) == digits_value(digits(n / 10)) * 10 + (n % 10));
        assert(n == (n / 10) * 10 + n % 10) by (nonlinear_arith);
    } else {
        assert(s.drop_last() =~= Seq::<char>::empty());
        assert(digit_value(digit_char(n)) == n);
        assert(digits_value(s) == digits_value(s.drop_last()) * 10 + digit_value(s.last()));
        assert(digits_value(s) == n);
    }
}

/// The label of a battery that is not charging is the decimal percentage
/// followed by a percent sign, and the percentage reads back from it.
pub proof fn lemma_percentage_text_reads_back(percentage: int)
    ensures
        battery_percentage_text(false, percentage).last() == '%',
        percentage >= 0 ==> digits_value(battery_percentage_text(false, percentage).drop_last()) == percentage,
        percentage < 0 ==> battery_percentage_text(false, percentage)[0] == '-'
            && digits_value(battery_percentage_text(false, percentage).drop_last().drop_first()) == -percentage,
        battery_percentage_text(true, percentage).len() == 0,
{
    if percentage >= 0 {
        lemma_digits_read_back(percentage as nat);
        assert(battery_percentage_text(false, percentage).drop_last() =~= digits(percentage as nat));
    } else {
        lemma_digits_read_back((-percentage) as nat);
        assert(battery_percentage_text(false, percentage).drop_last().drop_first() =~= digits((-percentage) as nat));
    }
}

} // verus!
