//! Decimal quantities with two fractional digits.

use crate::text::{digit_char, digit_str, digits, magnitude, render_nat};
use vstd::prelude::*;
use vstd::string::*;

verus! {

/// A decimal quantity with two fractional digits, held as a whole number of
/// hundredths: `Decimal { hundredths: 1525 }` is 15.25.
#[derive(Clone, Copy, Debug, PartialEq, Eq, Structural)]
pub struct Decimal {
    pub hundredths: i64,
}

/// The sign that precedes a quantity of `h` hundredths in text.
pub open spec fn sign_text(h: int) -> Seq<char> {
    if h < 0 {
        seq!['-']
    } else {
        Seq::<char>::empty()
    }
}

/// The absolute value.
pub open spec fn abs(h: int) -> nat {
    if h < 0 {
        (-h) as nat
    } else {
        h as nat
    }
}

/// A quantity of `h` hundredths with exactly two fractional digits, as in
/// `15.20`.
pub open spec fn fixed_text(h: int) -> Seq<char> {
    sign_text(h) + digits(abs(h) / 100) + seq![
        '.',
        digit_char((abs(h) % 100 / 10) as int),
        digit_char((abs(h) % 10) as int),
    ]
}

/// A quantity of `h` hundredths with no more fractional digits than it
/// needs, as in `15.2` or `15`.
pub open spec fn short_text(h: int) -> Seq<char> {
    if abs(h) % 100 == 0 {
        sign_text(h) + digits(abs(h) / 100)
    } else if abs(h) % 10 == 0 {
        sign_text(h) + digits(abs(h) / 100) + seq!['.', digit_char((abs(h) % 100 / 10) as int)]
    } else {
        fixed_text(h)
    }
}

impl Decimal {
    /// The quantity as a number of hundredths.
    pub open spec fn value(self) -> int {
        self.hundredths as int
    }

    /// The sign and the whole part, the text that both renderings begin with.
    fn render_whole(&self) -> (text: String)
        ensures
            text@ == sign_text(self.value()) + digits(abs(self.value()) / 100),
    {
        let whole = render_nat(magnitude(self.hundredths) / 100);
        if self.hundredths < 0 {
            let text = String::from_str("-").concat(whole.as_str());
            proof {
                reveal_strlit("-");
                assert(text@ =~= sign_text(self.value()) + digits(abs(self.value()) / 100));
            }
            text
        } else {
            assert(whole@ =~= sign_text(self.value()) + digits(abs(self.value()) / 100));
            whole
        }
    }

    /// Writes the quantity with exactly two fractional digits.
    pub fn render_fixed(&self) -> (text: String)
        ensures
            text@ == fixed_text(self.value()),
    {
        let fraction: u64 = magnitude(self.hundredths) % 100;
        let mut text = self.render_whole();
        text.append(".");
        text.append(digit_str((fraction / 10) as u8));
        text.append(digit_str((fraction % 10) as u8));
        proof {
            reveal_strlit(".");
            assert(text@ =~= fixed_text(self.value()));
        }
        text
    }

    /// Writes the quantity with as few fractional digits as it needs.
    pub fn render_short(&self) -> (text: String)
        ensures
            text@ == short_text(self.value()),
    {
        let fraction: u64 = magnitude(self.hundredths) % 100;
        if fraction == 0 {
            self.render_whole()
        } else if fraction % 10 == 0 {
            let mut text = self.render_whole();
            text.append(".");
            text.append(digit_str((fraction / 10) as u8));
            proof {
                reveal_strlit(".");
                assert(text@ =~= short_text(self.value()));
            }
            text
        } else {
            self.render_fixed()
        }
    }
}

} // verus!
