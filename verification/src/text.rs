//! Decimal texts of natural numbers.

use vstd::prelude::*;

verus! {

/// The character of the decimal digit `d`.
pub open spec fn digit(d: nat) -> char {
    if d == 0 {
        '0'
    } else if d == 1 {
        '1'
    } else if d == 2 {
        '2'
    } else if d == 3 {
        '3'
    } else if d == 4 {
        '4'
    } else if d == 5 {
        '5'
    } else if d == 6 {
        '6'
    } else if d == 7 {
        '7'
    } else if d == 8 {
        '8'
    } else {
        '9'
    }
}

/// The decimal text of `n`, without leading zeros.
pub open spec fn decimal(n: nat) -> Seq<char>
    decreases n,
{
    if n < 10 {
        seq![digit(n)]
    } else {
        decimal(n / 10).push(digit(n % 10))
    }
}

/// Whether `c` is one of the ten decimal digits.
pub open spec fn is_digit(c: char) -> bool {
    '0' <= c && c <= '9'
}

/// The text of one decimal digit.
fn digit_text(d: u64) -> (text: &'static str)
    requires
        d < 10,
    ensures
        text@ == seq![digit(d as nat)],
{
    proof {
        reveal_strlit("0");
        reveal_strlit("1");
        reveal_strlit("2");
        reveal_strlit("3");
        reveal_strlit("4");
        reveal_strlit("5");
        reveal_strlit("6");
        reveal_strlit("7");
        reveal_strlit("8");
        reveal_strlit("9");
    }
    if d == 0 {
        "0"
    } else if d == 1 {
        "1"
    } else if d == 2 {
        "2"
    } else if d == 3 {
        "3"
    } else if d == 4 {
        "4"
    } else if d == 5 {
        "5"
    } else if d == 6 {
        "6"
    } else if d == 7 {
        "7"
    } else if d == 8 {
        "8"
    } else {
        "9"
    }
}

/// Writes `n` in decimal.
pub fn decimal_text(n: u64) -> (text: String)
    ensures
        text@ == decimal(n as nat),
    decreases n,
{
    if n < 10 {
        digit_text(n).to_owned()
    } else {
        let leading: String = decimal_text(n / 10);
        let text = leading.concat(digit_text(n % 10));
        assert(text@ =~= decimal(n as nat));
        text
    }
}

/// A decimal text is not empty and consists of digits.
pub proof fn lemma_decimal_is_digits(n: nat)
    ensures
        decimal(n).len() > 0,
        forall|i: int| 0 <= i < decimal(n).len() ==> is_digit(#[trigger] decimal(n)[i]),
    decreases n,
{
    if n >= 10 {
        lemma_decimal_is_digits(n / 10);
    }
}

/// Different numbers have different decimal texts.
pub proof fn lemma_decimal_injective(m: nat, n: nat)
    requires
        decimal(m) == decimal(n),
    ensures
        m == n,
    decreases m,
{
    lemma_decimal_is_digits(m / 10);
    lemma_decimal_is_digits(n / 10);
    if m >= 10 && n >= 10 {
        assert(decimal(m).drop_last() =~= decimal(m / 10));
        assert(decimal(n).drop_last() =~= decimal(n / 10));
        assert(decimal(m).last() == digit(m % 10));
        assert(decimal(n).last() == digit(n % 10));
        lemma_decimal_injective(m / 10, n / 10);
    } else if m >= 10 {
        assert(decimal(m).len() == decimal(m / 10).len() + 1);
        assert(decimal(n).len() == 1);
    } else if n >= 10 {
        assert(decimal(n).len() == decimal(n / 10).len() + 1);
        assert(decimal(m).len() == 1);
    } else {
        assert(decimal(m)[0] == digit(m));
        assert(decimal(n)[0] == digit(n));
    }
}

/// The number that a text of digits stands for.
pub open spec fn number_in(text: Seq<char>) -> nat
    decreases text.len(),
{
    if text.len() == 0 {
        0
    } else {
        10 * number_in(text.drop_last()) + (text.last() as nat - '0' as nat) as nat
    }
}

/// Whether `text` writes `n` in digits, with no zero in front of them.
pub open spec fn writes(text: Seq<char>, n: nat) -> bool {
    &&& text.len() > 0
    &&& forall|i: int| 0 <= i < text.len() ==> '0' <= (#[trigger] text[i]) <= '9'
    &&& text[0] == '0' ==> text.len() == 1
    &&& number_in(text) == n
}

/// A text of digits that does not begin with a zero stands for a number greater than zero.
proof fn lemma_leading_digit_counts(text: Seq<char>)
    requires
        text.len() > 0,
        forall|i: int| 0 <= i < text.len() ==> '0' <= (#[trigger] text[i]) <= '9',
        text[0] != '0',
    ensures
        number_in(text) > 0,
    decreases text.len(),
{
    if text.len() == 1 {
        assert(number_in(text.drop_last()) == 0);
        assert(text.last() == text[0]);
    } else {
        let front = text.drop_last();
        assert(front[0] == text[0]);
        lemma_leading_digit_counts(front);
    }
}

/// The decimal text of a number stands for that number.
pub proof fn lemma_decimal_writes(n: nat)
    ensures
        writes(decimal(n), n),
    decreases n,
{
    let text = decimal(n);
    if n < 10 {
        assert(number_in(text.drop_last()) == 0);
        assert(text.last() == digit(n));
    } else {
        let front = decimal(n / 10);
        lemma_decimal_writes(n / 10);
        assert(text.drop_last() =~= front);
        assert(text.last() == digit(n % 10));
        assert(text[0] == front[0]);
        assert forall|i: int| 0 <= i < text.len() implies '0' <= (#[trigger] text[i]) <= '9' by {
            if i < front.len() {
                assert(text[i] == front[i]);
            }
        }
        if front[0] == '0' {
            assert(front.len() == 1);
            assert(number_in(front.drop_last()) == 0);
            assert(number_in(front) == 0);
        }
    }
}

/// Only one text writes a number.
pub proof fn lemma_written_one_way(text: Seq<char>, n: nat)
    requires
        writes(text, n),
    ensures
        text == decimal(n),
    decreases text.len(),
{
    let front = text.drop_last();
    let d: nat = (text.last() as nat - '0' as nat) as nat;
    assert(text.last() == text[text.len() - 1]);
    assert(d < 10 && digit(d) == text.last());
    if text.len() == 1 {
        assert(number_in(front) == 0);
        assert(n == d);
        assert(text =~= decimal(n));
    } else {
        assert(front[0] == text[0]);
        assert forall|i: int| 0 <= i < front.len() implies '0' <= (#[trigger] front[i]) <= '9' by {
            assert(front[i] == text[i]);
        }
        lemma_leading_digit_counts(front);
        let m = number_in(front);
        assert(n == 10 * m + d);
        lemma_written_one_way(front, m);
        assert(n / 10 == m && n % 10 == d);
        assert(text =~= front.push(text.last()));
    }
}

} // verus!
