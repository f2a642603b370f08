//! Exact money amounts: a sign, whole units and cents.

use crate::decimal::{
    decimal_digits, group_by_three, grouped_by_three, parse_i32_in, parse_u32_in, parsed_i32,
    parsed_u32, two_digits, u32_to_string, u32_to_two_digits,
};
use crate::text::{find, first_occurrence, to_chars};
use vstd::prelude::*;
use vstd::string::*;

verus! {

/// Whether an amount is money coming in or money going out.
#[derive(Debug, Clone, Copy, PartialEq, Eq, Hash, Structural)]
pub enum MoneyAmountType {
    Credit,
    Debit,
}

/// The value of a money amount: its sign, its whole units and its cents.
pub struct Money {
    pub amount_type: MoneyAmountType,
    pub whole: nat,
    pub cents: nat,
}

impl Money {
    /// Cents stay below one hundred, and zero is a credit.
    pub open spec fn well_formed(self) -> bool {
        &&& self.cents <= 99
        &&& self.whole == 0 && self.cents == 0 ==> self.amount_type == MoneyAmountType::Credit
    }

    /// The amount in cents, negative for a debit.
    pub open spec fn minor_units(self) -> int {
        let magnitude = self.whole * 100 + self.cents;
        if self.amount_type == MoneyAmountType::Debit {
            -magnitude
        } else {
            magnitude as int
        }
    }

    /// The amount that is worth `amount` cents.
    pub open spec fn from_minor_units(amount: int) -> Money {
        let magnitude = if amount >= 0 {
            amount
        } else {
            -amount
        };
        Money {
            amount_type: if amount >= 0 {
                MoneyAmountType::Credit
            } else {
                MoneyAmountType::Debit
            },
            whole: (magnitude / 100) as nat,
            cents: (magnitude % 100) as nat,
        }
    }

    /// The amount written as a signed whole part and a cents part. The sign is
    /// that of the whole part, so a whole part of zero gives a credit.
    pub open spec fn from_parts(whole: int, cents: nat) -> Money {
        Money {
            amount_type: if whole >= 0 {
                MoneyAmountType::Credit
            } else {
                MoneyAmountType::Debit
            },
            whole: (if whole >= 0 {
                whole
            } else {
                -whole
            }) as nat,
            cents,
        }
    }
}

/// The amount that `text` writes with `sep` as its decimal separator.
///
/// `text` is cut at each occurrence of `sep`, from the left. In one piece it
/// is a whole number of units. In two pieces the first is the signed whole
/// part and the second the cents, at most 99. More pieces are refused, and so
/// is every text where `sep` is empty.
pub open spec fn parsed_amount(text: Seq<char>, sep: Seq<char>) -> Option<Money> {
    if sep.len() == 0 {
        None
    } else {
        match first_occurrence(text, sep, 0) {
            None => match parsed_i32(text) {
                Some(whole) => Some(Money::from_parts(whole as int, 0)),
                None => None,
            },
            Some(i) => {
                let rest = i + sep.len();
                if first_occurrence(text, sep, rest) is Some {
                    None
                } else {
                    match (parsed_i32(text.take(i)), parsed_u32(text.skip(rest))) {
                        (Some(whole), Some(cents)) => if cents <= 99 {
                            Some(Money::from_parts(whole as int, cents as nat))
                        } else {
                            None
                        },
                        _ => None,
                    }
                }
            },
        }
    }
}

/// A money amount held exactly, as a sign, whole units and cents.
#[derive(Debug, Clone, Copy, PartialEq, Eq)]
pub struct MoneyAmount {
    amount_type: MoneyAmountType,
    whole: u32,
    cents: u32,
}

impl View for MoneyAmount {
    type V = Money;

    closed spec fn view(&self) -> Money {
        Money {
            amount_type: self.amount_type,
            whole: self.whole as nat,
            cents: self.cents as nat,
        }
    }
}

impl MoneyAmount {
    #[verifier::type_invariant]
    closed spec fn valid(self) -> bool {
        self@.well_formed()
    }

    /// The amount made of the given parts, where they form one: cents below
    /// one hundred, and no debit of zero.
    pub fn new(amount_type: MoneyAmountType, whole: u32, cents: u32) -> (r: Option<Self>)
        ensures
            match r {
                Some(m) => m@ == (Money { amount_type, whole: whole as nat, cents: cents as nat }),
                None => !(Money { amount_type, whole: whole as nat, cents: cents as nat })
                    .well_formed(),
            },
            r is Some ==> r.unwrap()@.well_formed(),
    {
        let zero_debit = match amount_type {
            MoneyAmountType::Debit => whole == 0 && cents == 0,
            MoneyAmountType::Credit => false,
        };
        if cents > 99 || zero_debit {
            None
        } else {
            Some(MoneyAmount { amount_type, whole, cents })
        }
    }

    fn from_parts(whole: i32, cents: u32) -> (r: Self)
        requires
            cents <= 99,
        ensures
            r@ == Money::from_parts(whole as int, cents as nat),
    {
        if whole >= 0 {
            MoneyAmount { amount_type: MoneyAmountType::Credit, whole: whole as u32, cents }
        } else {
            MoneyAmount {
                amount_type: MoneyAmountType::Debit,
                whole: (-(whole as i64)) as u32,
                cents,
            }
        }
    }

    /// Reads an amount from `amount_str`, written with `decimal_separator`
    /// between the whole units and the cents.
    pub fn from_string(amount_str: &str, decimal_separator: &str) -> (r: Option<Self>)
        ensures
            match r {
                Some(m) => parsed_amount(amount_str@, decimal_separator@) == Some(m@),
                None => parsed_amount(amount_str@, decimal_separator@) is None,
            },
            r is Some ==> r.unwrap()@.well_formed(),
    {
        let text = to_chars(amount_str);
        let sep = to_chars(decimal_separator);
        if sep.len() == 0 {
            return None;
        }
        proof {
            assert(text@.subrange(0, text@.len() as int) == text@);
        }
        match find(&text, &sep, 0) {
            None => match parse_i32_in(&text, 0, text.len()) {
                Some(whole) => Some(Self::from_parts(whole, 0)),
                None => None,
            },
            Some(i) => {
                proof {
                    crate::text::lemma_first_occurrence(text@, sep@, 0);
                }
                let rest = i + sep.len();
                if find(&text, &sep, rest).is_some() {
                    return None;
                }
                proof {
                    assert(text@.subrange(0, i as int) == text@.take(i as int));
                    assert(text@.subrange(rest as int, text@.len() as int) == text@.skip(
                        rest as int,
                    ));
                }
                match (parse_i32_in(&text, 0, i), parse_u32_in(&text, rest, text.len())) {
                    (Some(whole), Some(cents)) => if cents <= 99 {
                        Some(Self::from_parts(whole, cents))
                    } else {
                        None
                    },
                    _ => None,
                }
            },
        }
    }

    /// The amount that is worth `amount` cents.
    pub fn from_i32(amount: i32) -> (r: Self)
        ensures
            r@ == Money::from_minor_units(amount as int),
            r@.minor_units() == amount,
            r@.well_formed(),
    {
        let magnitude: u32 = if amount >= 0 {
            amount as u32
        } else {
            (-(amount as i64)) as u32
        };
        let whole = magnitude / 100;
        let cents = magnitude % 100;
        if amount >= 0 {
            MoneyAmount { amount_type: MoneyAmountType::Credit, whole, cents }
        } else {
            MoneyAmount { amount_type: MoneyAmountType::Debit, whole, cents }
        }
    }

    /// The amount in cents, negative for a debit.
    pub fn to_i64(&self) -> (r: i64)
        ensures
            r == self@.minor_units(),
            self@.well_formed(),
            self@.whole <= u32::MAX,
    {
        proof {
            use_type_invariant(self);
        }
        let magnitude: i64 = self.whole as i64 * 100 + self.cents as i64;
        match self.amount_type {
            MoneyAmountType::Debit => -magnitude,
            MoneyAmountType::Credit => magnitude,
        }
    }

    /// Whether the amount in cents fits a signed 32-bit number.
    pub fn fits_i32(&self) -> (r: bool)
        ensures
            r == (i32::MIN <= self@.minor_units() <= i32::MAX),
    {
        let cents = self.to_i64();
        -0x8000_0000 <= cents && cents <= 0x7fff_ffff
    }

    /// The amount in cents, negative for a debit.
    pub fn to_i32(&self) -> (r: i32)
        requires
            i32::MIN <= self@.minor_units() <= i32::MAX,
        ensures
            r == self@.minor_units(),
    {
        self.to_i64() as i32
    }

    /// The sign, the whole units and the cents of the amount. They are well
    /// formed, so `new` makes the same amount of them again.
    pub fn parts(&self) -> (r: (MoneyAmountType, u32, u32))
        ensures
            self@ == (Money { amount_type: r.0, whole: r.1 as nat, cents: r.2 as nat }),
            self@.well_formed(),
    {
        proof {
            use_type_invariant(self);
        }
        (self.amount_type, self.whole, self.cents)
    }

    /// Whether the amount is a credit or a debit.
    pub fn amount_type(&self) -> (r: MoneyAmountType)
        ensures
            r == self@.amount_type,
    {
        self.amount_type
    }

    /// The whole units, without the sign.
    pub fn whole(&self) -> (r: u32)
        ensures
            r == self@.whole,
    {
        self.whole
    }

    /// The cents, below one hundred.
    pub fn cents(&self) -> (r: u32)
        ensures
            r == self@.cents,
            r <= 99,
    {
        proof {
            use_type_invariant(self);
        }
        self.cents
    }

    /// The whole units in base ten, in groups of three digits with `sep`
    /// between the groups.
    pub fn whole_with_separator(&self, sep: &str) -> (r: String)
        ensures
            r@ == grouped_by_three(decimal_digits(self@.whole), sep@),
    {
        let digits = u32_to_string(self.whole);
        group_by_three(digits.as_str(), sep)
    }

    /// The cents as two digits.
    pub fn cents_padded(&self) -> (r: String)
        ensures
            r@ == two_digits(self@.cents),
            r@.len() == 2,
    {
        proof {
            use_type_invariant(self);
            reveal_with_fuel(decimal_digits, 2);
        }
        u32_to_two_digits(self.cents)
    }

    /// The sign in front of the amount: `-` for a debit, nothing for a credit.
    pub fn sign(&self) -> (r: String)
        ensures
            r@ == if self@.amount_type == MoneyAmountType::Debit {
                seq!['-']
            } else {
                Seq::<char>::empty()
            },
    {
        proof {
            reveal_strlit("-");
            reveal_strlit("");
        }
        let r = match self.amount_type {
            MoneyAmountType::Debit => String::from_str("-"),
            MoneyAmountType::Credit => String::from_str(""),
        };
        assert(r@ =~= if self@.amount_type == MoneyAmountType::Debit {
            seq!['-']
        } else {
            Seq::<char>::empty()
        });
        r
    }
}

impl Default for MoneyAmount {
    /// Zero, as a credit.
    fn default() -> (r: Self)
        ensures
            r@ == Money::from_minor_units(0),
    {
        MoneyAmount { amount_type: MoneyAmountType::Credit, whole: 0, cents: 0 }
    }
}

/// Turning a number of cents into an amount and back gives the number, and the
/// amount is well formed.
pub proof fn lemma_minor_units_round_trip(amount: int)
    ensures
        Money::from_minor_units(amount).minor_units() == amount,
        Money::from_minor_units(amount).well_formed(),
{
}

/// A well-formed amount is the one that its number of cents gives back: the
/// two conversions are inverse to each other.
pub proof fn lemma_amount_round_trip(money: Money)
    requires
        money.well_formed(),
    ensures
        Money::from_minor_units(money.minor_units()) == money,
{
    let magnitude = money.whole * 100 + money.cents;
    assert(magnitude / 100 == money.whole && magnitude % 100 == money.cents) by (nonlinear_arith)
        requires
            magnitude == money.whole * 100 + money.cents,
            money.cents <= 99,
    ;
}

/// An amount of zero is a credit, never a debit.
pub proof fn lemma_zero_is_credit(money: Money)
    requires
        money.well_formed(),
        money.minor_units() == 0,
    ensures
        money.amount_type == MoneyAmountType::Credit,
        money == Money::from_minor_units(0),
{
}

} // verus!
