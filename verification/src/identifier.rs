//! Checkpoint names: a 64-bit draw rendered as decimal text.
//!
//! A name is the shortest decimal numeral of the number drawn, so a name can
//! be read back as the very number it was made from, and two draws share a
//! name only when they are the same number.

use rand::Rng;
use vstd::prelude::*;
use vstd::string::*;

verus! {

/// The character that writes the digit `d`.
pub open spec fn digit_char(d: nat) -> char
    recommends
        d < 10,
{
    if d == 0 {
        '0'
    } else if d == 1 {
        '1'
    } else if d == 2 {
        '2'
    } else if d == 3 {
        '3'
    } else if d == 4 {
        '4'
    } else if d == 5 {
        '5'
    } else if d == 6 {
        '6'
    } else if d == 7 {
        '7'
    } else if d == 8 {
        '8'
    } else {
        '9'
    }
}

/// The digit that `c` writes, if it writes one.
pub open spec fn digit_value(c: char) -> Option<nat> {
    if c == '0' {
        Some(0)
    } else if c == '1' {
        Some(1)
    } else if c == '2' {
        Some(2)
    } else if c == '3' {
        Some(3)
    } else if c == '4' {
        Some(4)
    } else if c == '5' {
        Some(5)
    } else if c == '6' {
        Some(6)
    } else if c == '7' {
        Some(7)
    } else if c == '8' {
        Some(8)
    } else if c == '9' {
        Some(9)
    } else {
        None
    }
}

/// The decimal numeral of `n`: most significant digit first, no leading zero
/// (zero itself is written `0`).
pub open spec fn decimal(n: nat) -> Seq<char>
    decreases n,
{
    if n < 10 {
        seq![digit_char(n)]
    } else {
        decimal(n / 10).push(digit_char(n % 10))
    }
}

/// The number that the digits of `s` denote, read most significant first;
/// `None` when `s` is empty or holds anything but digits.
pub open spec fn decimal_value(s: Seq<char>) -> Option<nat>
    decreases s.len(),
{
    if s.len() == 0 {
        None
    } else if s.len() == 1 {
        digit_value(s[0])
    } else {
        match (decimal_value(s.drop_last()), digit_value(s.last())) {
            (Some(high), Some(low)) => Some(10 * high + low),
            _ => None,
        }
    }
}

/// `s` reads as an unsigned 64-bit integer.
pub open spec fn parses_as_u64(s: Seq<char>) -> bool {
    decimal_value(s) matches Some(n) && n <= u64::MAX
}

/// `s` is a checkpoint name: the numeral of some 64-bit draw.
pub open spec fn is_checkpoint_name(s: Seq<char>) -> bool {
    exists|draw: u64| s == decimal(draw as nat)
}

/// A numeral is never empty.
pub proof fn lemma_decimal_nonempty(n: nat)
    ensures
        decimal(n).len() >= 1,
    decreases n,
{
    if n >= 10 {
        lemma_decimal_nonempty(n / 10);
    }
}

/// Reading the numeral of `n` gives `n` back.
pub proof fn lemma_decimal_value(n: nat)
    ensures
        decimal_value(decimal(n)) == Some(n),
    decreases n,
{
    if n >= 10 {
        let high = decimal(n / 10);
        let s = decimal(n);
        lemma_decimal_value(n / 10);
        lemma_decimal_nonempty(n / 10);
        assert(s == high.push(digit_char(n % 10)));
        assert(s.drop_last() =~= high);
        assert(s.last() == digit_char(n % 10));
        assert(digit_value(digit_char(n % 10)) == Some(n % 10));
    }
}

/// Two numbers with the same numeral are the same number.
pub proof fn lemma_decimal_injective(a: nat, b: nat)
    ensures
        decimal(a) == decimal(b) <==> a == b,
{
    lemma_decimal_value(a);
    lemma_decimal_value(b);
}

/// Every checkpoint name reads as an unsigned 64-bit integer.
pub proof fn lemma_checkpoint_name_parses(s: Seq<char>)
    requires
        is_checkpoint_name(s),
    ensures
        parses_as_u64(s),
{
    let draw = choose|draw: u64| s == decimal(draw as nat);
    lemma_decimal_value(draw as nat);
}

/// The one-character text of the digit `d`.
fn digit_text(d: u64) -> (text: &'static str)
    requires
        d < 10,
    ensures
        text@ == seq![digit_char(d as nat)],
{
    proof {
        reveal_strlit("0");
        reveal_strlit("1");
        reveal_strlit("2");
        reveal_strlit("3");
        reveal_strlit("4");
        reveal_strlit("5");
        reveal_strlit("6");
        reveal_strlit("7");
        reveal_strlit("8");
        reveal_strlit("9");
    }
    let text: &'static str = if d == 0 {
        "0"
    } else if d == 1 {
        "1"
    } else if d == 2 {
        "2"
    } else if d == 3 {
        "3"
    } else if d == 4 {
        "4"
    } else if d == 5 {
        "5"
    } else if d == 6 {
        "6"
    } else if d == 7 {
        "7"
    } else if d == 8 {
        "8"
    } else {
        "9"
    };
    assert(text@ =~= seq![digit_char(d as nat)]);
    text
}

/// Appends the numeral of `n` to `out`.
fn push_decimal(n: u64, out: &mut String)
    ensures
        final(out)@ == old(out)@ + decimal(n as nat),
    decreases n,
{
    if n >= 10 {
        push_decimal(n / 10, out);
    }
    out.append(digit_text(n % 10));
    assert(final(out)@ =~= old(out)@ + decimal(n as nat)) by {
        if n >= 10 {
            assert(decimal(n as nat) == decimal((n / 10) as nat).push(digit_char((n % 10) as nat)));
        }
    }
}

/// The name under which the draw `draw` is checkpointed.
pub fn checkpoint_name(draw: u64) -> (name: String)
    ensures
        name@ == decimal(draw as nat),
        is_checkpoint_name(name@),
{
    let mut name = String::new();
    push_decimal(draw, &mut name);
    assert(name@ =~= decimal(draw as nat));
    name
}

/// Draws one value from the thread-local generator of `rand`, through
/// `rand::thread_rng` and `Rng::gen`. Nothing is claimed of the value: any
/// 64-bit number may come back, and two draws may be equal.
#[verifier::external_body]
pub(crate) fn draw_identifier() -> (draw: u64) {
    rand::thread_rng().gen::<u64>()
}

/// A fresh checkpoint name, made from a random 64-bit draw.
pub fn fresh_checkpoint_name() -> (name: String)
    ensures
        is_checkpoint_name(name@),
{
    checkpoint_name(draw_identifier())
}

} // verus!
