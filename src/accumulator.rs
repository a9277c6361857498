//! The calculator's accumulator: two operands and a pending operator, changed
//! by digit, operator, clear and equals events.

use vstd::prelude::*;
use vstd::string::*;
use crate::decimal::{decimal, decimal_string};

verus! {

/// An arithmetic operator that waits for its second operand.
#[derive(Clone, Copy, Debug, PartialEq, Eq, Structural)]
pub enum Operator {
    Add,
    Sub,
    Mul,
    Div,
    Percent,
}

impl Operator {
    /// The text that the display shows when the operator is chosen.
    pub open spec fn spec_symbol(self) -> Seq<char> {
        match self {
            Operator::Add => seq!['+'],
            Operator::Sub => seq!['-'],
            Operator::Mul => seq!['x'],
            Operator::Div => seq!['/'],
            Operator::Percent => seq!['%'],
        }
    }

    pub fn symbol(self) -> (r: String)
        ensures
            r@ == self.spec_symbol(),
    {
        proof {
            reveal_strlit("+");
            reveal_strlit("-");
            reveal_strlit("x");
            reveal_strlit("/");
            reveal_strlit("%");
        }
        match self {
            Operator::Add => String::from_str("+"),
            Operator::Sub => String::from_str("-"),
            Operator::Mul => String::from_str("x"),
            Operator::Div => String::from_str("/"),
            Operator::Percent => String::from_str("%"),
        }
    }
}

/// `|a|`.
pub open spec fn magnitude(a: int) -> int {
    if a < 0 {
        -a
    } else {
        a
    }
}

/// `a / b` rounded toward zero (for `b != 0`).
pub open spec fn truncated_quotient(a: int, b: int) -> int {
    let q = magnitude(a) / magnitude(b);
    if (a < 0) == (b < 0) {
        q
    } else {
        -q
    }
}

/// `x` clamped to the range of `i32`.
pub open spec fn saturate(x: int) -> int {
    if x > i32::MAX {
        i32::MAX as int
    } else if x < i32::MIN {
        i32::MIN as int
    } else {
        x
    }
}

/// The accumulator as mathematical values.
pub struct AccumulatorState {
    pub operand1: int,
    pub operand2: int,
    pub pending_operator: Option<Operator>,
}

impl AccumulatorState {
    /// The state at start and after a clear: `(0, 0, None)`.
    pub open spec fn cleared() -> Self {
        AccumulatorState { operand1: 0, operand2: 0, pending_operator: None }
    }

    /// Both operands fit in an `i32`.
    pub open spec fn in_range(self) -> bool {
        i32::MIN <= self.operand1 <= i32::MAX && i32::MIN <= self.operand2 <= i32::MAX
    }

    /// The second operand is only ever nonzero while an operator waits.
    pub open spec fn well_formed(self) -> bool {
        self.pending_operator is None ==> self.operand2 == 0
    }

    /// The operand that digits go to: the first one until an operator is chosen.
    pub open spec fn active(self) -> int {
        if self.pending_operator is None {
            self.operand1
        } else {
            self.operand2
        }
    }

    /// The state after the digit `d` is entered.
    pub open spec fn digit(self, d: int) -> Self {
        if self.pending_operator is None {
            AccumulatorState { operand1: self.operand1 * 10 + d, ..self }
        } else {
            AccumulatorState { operand2: self.operand2 * 10 + d, ..self }
        }
    }

    /// The state after the digits `ds` are entered, first to last.
    pub open spec fn digits(self, ds: Seq<u8>) -> Self
        decreases ds.len(),
    {
        if ds.len() == 0 {
            self
        } else {
            self.digits(ds.drop_last()).digit(ds.last() as int)
        }
    }

    /// The state after `op` is chosen.
    pub open spec fn operator(self, op: Operator) -> Self {
        AccumulatorState { pending_operator: Some(op), ..self }
    }

    /// The value that equals leaves in the first operand. A division by zero
    /// gives 0, as a clear does; division and percent round toward zero and
    /// clamp to the range of `i32`.
    pub open spec fn result(self) -> int {
        match self.pending_operator {
            None => self.operand1,
            Some(Operator::Add) => self.operand1 + self.operand2,
            Some(Operator::Sub) => self.operand1 - self.operand2,
            Some(Operator::Mul) => self.operand1 * self.operand2,
            Some(Operator::Div) => if self.operand2 == 0 {
                0
            } else {
                saturate(truncated_quotient(self.operand1, self.operand2))
            },
            Some(Operator::Percent) => saturate(
                truncated_quotient(self.operand1 * self.operand2, 100),
            ),
        }
    }

    /// The state after equals: the result, with the operator applied and gone.
    pub open spec fn equals(self) -> Self {
        AccumulatorState { operand1: self.result(), operand2: 0, pending_operator: None }
    }
}

/// The calculator's state: two operands and the operator that waits to be
/// applied to them.
#[derive(Clone, Copy, Debug, PartialEq, Eq, Structural)]
pub struct Accumulator {
    pub operand1: i32,
    pub operand2: i32,
    pub pending_operator: Option<Operator>,
}

impl View for Accumulator {
    type V = AccumulatorState;

    open spec fn view(&self) -> AccumulatorState {
        AccumulatorState {
            operand1: self.operand1 as int,
            operand2: self.operand2 as int,
            pending_operator: self.pending_operator,
        }
    }
}

/// `a / b` rounded toward zero.
fn quotient_toward_zero(a: i64, b: i64) -> (r: i64)
    requires
        b != 0,
        a > i64::MIN,
        b > i64::MIN,
    ensures
        r == truncated_quotient(a as int, b as int),
{
    let ua: i64 = if a < 0 { -a } else { a };
    let ub: i64 = if b < 0 { -b } else { b };
    let q: i64 = ua / ub;
    if (a < 0) == (b < 0) {
        q
    } else {
        -q
    }
}

/// `x` clamped to the range of `i32`.
fn saturate_to_i32(x: i64) -> (r: i32)
    ensures
        r == saturate(x as int),
{
    if x > i32::MAX as i64 {
        i32::MAX
    } else if x < i32::MIN as i64 {
        i32::MIN
    } else {
        x as i32
    }
}

impl Accumulator {
    /// A fresh accumulator, `(0, 0, None)`.
    pub fn new() -> (r: Self)
        ensures
            r@ == AccumulatorState::cleared(),
            r@.well_formed(),
    {
        Accumulator { operand1: 0, operand2: 0, pending_operator: None }
    }

    /// Whether `on_digit(d)` may be called: `d` is a digit and the operand it
    /// goes to still fits in an `i32` afterwards.
    pub fn accepts_digit(&self, d: u8) -> (r: bool)
        ensures
            r == (d <= 9 && self@.digit(d as int).in_range()),
    {
        if d > 9 {
            return false;
        }
        let t: i64 = match self.pending_operator {
            None => self.operand1 as i64,
            Some(_) => self.operand2 as i64,
        };
        let v: i64 = t * 10 + d as i64;
        i32::MIN as i64 <= v && v <= i32::MAX as i64
    }

    /// Enters the digit `d` into the active operand (the first one until an
    /// operator is chosen) and returns that operand's decimal text.
    pub fn on_digit(&mut self, d: u8) -> (r: String)
        requires
            d <= 9,
            old(self)@.digit(d as int).in_range(),
        ensures
            final(self)@ == old(self)@.digit(d as int),
            r@ == decimal(final(self)@.active()),
            old(self)@.well_formed() ==> final(self)@.well_formed(),
    {
        match self.pending_operator {
            None => {
                self.operand1 = (self.operand1 as i64 * 10 + d as i64) as i32;
                decimal_string(self.operand1)
            },
            Some(_) => {
                self.operand2 = (self.operand2 as i64 * 10 + d as i64) as i32;
                decimal_string(self.operand2)
            },
        }
    }

    /// Chooses `op` as the pending operator, leaving both operands as they are,
    /// and returns its symbol.
    pub fn on_operator(&mut self, op: Operator) -> (r: String)
        ensures
            final(self)@ == old(self)@.operator(op),
            final(self).operand1 == old(self).operand1,
            final(self).operand2 == old(self).operand2,
            final(self).pending_operator == Some(op),
            r@ == op.spec_symbol(),
            final(self)@.well_formed(),
    {
        self.pending_operator = Some(op);
        op.symbol()
    }

    /// Resets to `(0, 0, None)` and returns `"0"`.
    pub fn on_clear(&mut self) -> (r: String)
        ensures
            final(self)@ == AccumulatorState::cleared(),
            final(self)@.well_formed(),
            r@ == seq!['0'],
    {
        self.operand1 = 0;
        self.operand2 = 0;
        self.pending_operator = None;
        decimal_string(0)
    }

    /// Whether `on_equals` may be called: the result fits in an `i32`.
    pub fn accepts_equals(&self) -> (r: bool)
        ensures
            r == self@.equals().in_range(),
    {
        let a: i64 = self.operand1 as i64;
        let b: i64 = self.operand2 as i64;
        assert(-0x4000_0000_0000_0000 <= a * b <= 0x4000_0000_0000_0000) by (nonlinear_arith)
            requires
                i32::MIN <= a <= i32::MAX,
                i32::MIN <= b <= i32::MAX,
        ;
        let v: i64 = match self.pending_operator {
            Some(Operator::Add) => a + b,
            Some(Operator::Sub) => a - b,
            Some(Operator::Mul) => a * b,
            _ => 0,
        };
        i32::MIN as i64 <= v && v <= i32::MAX as i64
    }

    /// Applies the pending operator, stores the result in the first operand,
    /// resets the second operand and the operator, and returns the result's
    /// decimal text. With no operator pending the first operand stays as it is;
    /// a division by zero resets everything, as `on_clear` does.
    pub fn on_equals(&mut self) -> (r: String)
        requires
            old(self)@.equals().in_range(),
        ensures
            final(self)@ == old(self)@.equals(),
            final(self)@.well_formed(),
            r@ == decimal(final(self)@.operand1),
    {
        let a: i32 = self.operand1;
        let b: i32 = self.operand2;
        let value: i32 = match self.pending_operator {
            None => a,
            Some(Operator::Add) => a + b,
            Some(Operator::Sub) => a - b,
            Some(Operator::Mul) => a * b,
            Some(Operator::Div) => {
                if b != 0 {
                    saturate_to_i32(quotient_toward_zero(a as i64, b as i64))
                } else {
                    0
                }
            },
            Some(Operator::Percent) => {
                assert(-0x4000_0000_0000_0000 <= (a as int) * (b as int) <= 0x4000_0000_0000_0000)
                    by (nonlinear_arith)
                    requires
                        i32::MIN <= a <= i32::MAX,
                        i32::MIN <= b <= i32::MAX,
                ;
                saturate_to_i32(quotient_toward_zero(a as i64 * b as i64, 100))
            },
        };
        self.operand1 = value;
        self.operand2 = 0;
        self.pending_operator = None;
        decimal_string(value)
    }
}

} // verus!
