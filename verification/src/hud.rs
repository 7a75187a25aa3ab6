//! Texts of the heads-up display.
use vstd::prelude::*;

verus! {

/// The text in front of the healed counter.
pub const HEALED_LABEL_PREFIX: &'static str = "Healed: ";

/// The character of a decimal digit.
pub open spec fn digit_char(d: nat) -> char {
    if d == 0 {
        '0'
    } else if d == 1 {
        '1'
    } else if d == 2 {
        '2'
    } else if d == 3 {
        '3'
    } else if d == 4 {
        '4'
    } else if d == 5 {
        '5'
    } else if d == 6 {
        '6'
    } else if d == 7 {
        '7'
    } else if d == 8 {
        '8'
    } else {
        '9'
    }
}

/// The decimal notation of a number, without leading zeros.
pub open spec fn decimal(n: nat) -> Seq<char>
    decreases n,
{
    if n < 10 {
        seq![digit_char(n)]
    } else {
        decimal(n / 10).push(digit_char(n % 10))
    }
}

/// The text of one decimal digit.
fn digit_text(d: u16) -> (s: &'static str)
    requires
        d < 10,
    ensures
        s@ == seq![digit_char(d as nat)],
{
    proof {
        reveal_strlit("0");
        reveal_strlit("1");
        reveal_strlit("2");
        reveal_strlit("3");
        reveal_strlit("4");
        reveal_strlit("5");
        reveal_strlit("6");
        reveal_strlit("7");
        reveal_strlit("8");
        reveal_strlit("9");
    }
    match d {
        0 => {
            assert("0"@ =~= seq!['0']);
            "0"
        },
        1 => {
            assert("1"@ =~= seq!['1']);
            "1"
        },
        2 => {
            assert("2"@ =~= seq!['2']);
            "2"
        },
        3 => {
            assert("3"@ =~= seq!['3']);
            "3"
        },
        4 => {
            assert("4"@ =~= seq!['4']);
            "4"
        },
        5 => {
            assert("5"@ =~= seq!['5']);
            "5"
        },
        6 => {
            assert("6"@ =~= seq!['6']);
            "6"
        },
        7 => {
            assert("7"@ =~= seq!['7']);
            "7"
        },
        8 => {
            assert("8"@ =~= seq!['8']);
            "8"
        },
        _ => {
            assert("9"@ =~= seq!['9']);
            "9"
        },
    }
}

/// Writes a number in decimal.
pub fn decimal_text(n: u16) -> (s: String)
    ensures
        s@ == decimal(n as nat),
        digits_value(s@) == n,
    decreases n,
{
    proof {
        law_decimal_reads_back(n as nat);
    }
    if n < 10 {
        String::from_str(digit_text(n))
    } else {
        let mut s = decimal_text(n / 10);
        s.append(digit_text(n % 10));
        assert(s@ =~= decimal((n / 10) as nat).push(digit_char((n % 10) as nat)));
        s
    }
}

/// The healed counter's text: `Healed: ` and the number in decimal.
pub fn healed_label(n: u16) -> (s: String)
    ensures
        s@ == HEALED_LABEL_PREFIX@ + decimal(n as nat),
{
    let digits = decimal_text(n);
    String::from_str(HEALED_LABEL_PREFIX).concat(digits.as_str())
}

/// Different digits have different characters.
proof fn lemma_digit_char_injective(x: nat, y: nat)
    requires
        x < 10,
        y < 10,
        digit_char(x) == digit_char(y),
    ensures
        x == y,
{
}

/// Every notation has at least one digit.
proof fn lemma_decimal_nonempty(a: nat)
    ensures
        decimal(a).len() >= 1,
    decreases a,
{
    if a >= 10 {
        lemma_decimal_nonempty(a / 10);
    }
}

/// Every number has a notation of at least one digit, and numbers with the
/// same notation are equal.
pub proof fn law_decimal_is_faithful(a: nat, b: nat)
    ensures
        decimal(a).len() >= 1,
        decimal(a) == decimal(b) ==> a == b,
    decreases a + b,
{
    lemma_decimal_nonempty(a);
    if decimal(a) == decimal(b) {
        if a < 10 && b < 10 {
            assert(decimal(a)[0] == decimal(b)[0]);
            lemma_digit_char_injective(a, b);
        } else if a < 10 {
            lemma_decimal_nonempty(b / 10);
            assert(decimal(b).len() >= 2);
        } else if b < 10 {
            lemma_decimal_nonempty(a / 10);
            assert(decimal(a).len() >= 2);
        } else {
            assert(decimal(a).drop_last() =~= decimal(a / 10));
            assert(decimal(b).drop_last() =~= decimal(b / 10));
            law_decimal_is_faithful(a / 10, b / 10);
            assert(decimal(a).last() == digit_char(a % 10));
            assert(decimal(b).last() == digit_char(b % 10));
            lemma_digit_char_injective(a % 10, b % 10);
        }
    }
}

/// The number a sequence of decimal digit characters stands for, read in
/// base ten from the most significant digit.
pub open spec fn digits_value(s: Seq<char>) -> int
    decreases s.len(),
{
    if s.len() == 0 {
        0
    } else {
        digits_value(s.drop_last()) * 10 + (s.last() as int - '0' as int)
    }
}

/// Each digit's character is the one whose code is that of `0` plus the
/// digit.
pub proof fn law_digit_char_is_ascii_digit(d: nat)
    requires
        d < 10,
    ensures
        digit_char(d) as int == '0' as int + d,
{
}

/// The notation of a number, read back in base ten, gives the number, and
/// it consists of digit characters only.
pub proof fn law_decimal_reads_back(n: nat)
    ensures
        digits_value(decimal(n)) == n,
        forall|i: int|
            0 <= i < decimal(n).len() ==> '0' as int <= #[trigger] decimal(n)[i] as int <= '9' as int,
    decreases n,
{
    if n < 10 {
        law_digit_char_is_ascii_digit(n);
        assert(decimal(n).drop_last() =~= Seq::<char>::empty());
        assert(digits_value(Seq::<char>::empty()) == 0);
        assert(digits_value(decimal(n)) == digits_value(decimal(n).drop_last()) * 10 + (
        decimal(n).last() as int - '0' as int));
    } else {
        law_decimal_reads_back(n / 10);
        law_digit_char_is_ascii_digit(n % 10);
        assert(decimal(n).drop_last() =~= decimal(n / 10));
        assert(decimal(n).last() == digit_char(n % 10));
        assert((n / 10) * 10 + n % 10 == n);
        assert(digits_value(decimal(n)) == digits_value(decimal(n).drop_last()) * 10 + (
        decimal(n).last() as int - '0' as int));
        assert forall|i: int| 0 <= i < decimal(n).len() implies '0' as int <= #[trigger] decimal(
            n,
        )[i] as int <= '9' as int by {
            if i < decimal(n / 10).len() {
                assert(decimal(n)[i] == decimal(n / 10)[i]);
            }
        }
    }
}

} // verus!
