//! What holds of the accumulator across events and over all inputs.

use vstd::prelude::*;
use crate::accumulator::{AccumulatorState, Operator};
use crate::decimal::{decimal, digit_char, digits};

verus! {

/// The number that the digits `ds` spell in base ten, most significant first.
pub open spec fn base10(ds: Seq<u8>) -> int
    decreases ds.len(),
{
    if ds.len() == 0 {
        0
    } else {
        base10(ds.drop_last()) * 10 + ds.last() as int
    }
}

/// `10` to the power `n`.
pub open spec fn pow10(n: nat) -> int
    decreases n,
{
    if n == 0 {
        1
    } else {
        10 * pow10((n - 1) as nat)
    }
}

/// The characters of the digits `ds`.
pub open spec fn digit_chars(ds: Seq<u8>) -> Seq<char> {
    ds.map_values(|d: u8| digit_char(d as nat))
}

/// Every element of `ds` is a decimal digit.
pub open spec fn all_digits(ds: Seq<u8>) -> bool {
    forall|i: int| 0 <= i < ds.len() ==> #[trigger] ds[i] <= 9
}

/// Digits entered while no operator waits are appended to the first operand
/// in base ten: it becomes `operand1 * 10^n` plus the number that the `n`
/// digits spell. The second operand and the (absent) operator stay.
pub proof fn digits_shift_into_first_operand(s: AccumulatorState, ds: Seq<u8>)
    requires
        s.pending_operator is None,
        all_digits(ds),
    ensures
        s.digits(ds).operand1 == s.operand1 * pow10(ds.len()) + base10(ds),
        s.digits(ds).operand2 == s.operand2,
        s.digits(ds).pending_operator is None,
    decreases ds.len(),
{
    if ds.len() > 0 {
        let init = ds.drop_last();
        assert(all_digits(init)) by {
            assert forall|i: int| 0 <= i < init.len() implies #[trigger] init[i] <= 9 by {
                assert(init[i] == ds[i]);
            }
        }
        digits_shift_into_first_operand(s, init);
        let x = s.operand1;
        let p = pow10(init.len());
        let b = base10(init);
        let d = ds.last() as int;
        assert((x * p + b) * 10 + d == x * (10 * p) + (b * 10 + d)) by (nonlinear_arith);
    }
}

/// From a first operand of 0 (a fresh or cleared accumulator), the digits
/// entered with no operator in between make the first operand the number they
/// spell in base ten.
pub proof fn digits_read_in_base_ten(s: AccumulatorState, ds: Seq<u8>)
    requires
        s.pending_operator is None,
        s.operand1 == 0,
        all_digits(ds),
    ensures
        s.digits(ds).operand1 == base10(ds),
        s.digits(ds).active() == base10(ds),
{
    digits_shift_into_first_operand(s, ds);
}

proof fn base10_bounds(ds: Seq<u8>)
    requires
        all_digits(ds),
    ensures
        base10(ds) >= 0,
        ds.len() > 0 && ds[0] != 0 ==> base10(ds) >= 1,
    decreases ds.len(),
{
    if ds.len() > 0 {
        let init = ds.drop_last();
        assert(all_digits(init)) by {
            assert forall|i: int| 0 <= i < init.len() implies #[trigger] init[i] <= 9 by {
                assert(init[i] == ds[i]);
            }
        }
        base10_bounds(init);
        if init.len() > 0 {
            assert(init[0] == ds[0]);
        }
    }
}

/// The decimal text of the number that digits spell is those digits
/// themselves, when there is no leading zero (or the only digit is 0): the
/// display after each digit shows exactly what was typed.
pub proof fn display_shows_typed_digits(ds: Seq<u8>)
    requires
        all_digits(ds),
        ds.len() > 0,
        ds[0] != 0 || ds.len() == 1,
    ensures
        decimal(base10(ds)) == digit_chars(ds),
    decreases ds.len(),
{
    base10_bounds(ds);
    if ds.len() == 1 {
        assert(ds.drop_last().len() == 0);
        assert(base10(ds.drop_last()) == 0);
        assert(base10(ds) == ds[0] as int);
        assert(digits(ds[0] as nat) == seq![digit_char(ds[0] as nat)]);
        assert(digit_chars(ds) =~= seq![digit_char(ds[0] as nat)]);
    } else {
        let init = ds.drop_last();
        assert(all_digits(init)) by {
            assert forall|i: int| 0 <= i < init.len() implies #[trigger] init[i] <= 9 by {
                assert(init[i] == ds[i]);
            }
        }
        assert(init[0] == ds[0]);
        display_shows_typed_digits(init);
        base10_bounds(init);
        let n = base10(ds);
        let k = base10(init);
        let d = ds.last() as int;
        assert(n / 10 == k && n % 10 == d);
        assert(digits(n as nat) == digits(k as nat).push(digit_char(d as nat)));
        assert(digit_chars(ds) =~= digit_chars(init).push(digit_char(d as nat)));
    }
}

/// Choosing an operator changes neither operand, only the pending operator.
pub proof fn operator_keeps_operands(s: AccumulatorState, op: Operator)
    ensures
        s.operator(op).operand1 == s.operand1,
        s.operator(op).operand2 == s.operand2,
        s.operator(op).pending_operator == Some(op),
{
}

/// Equals on a division by zero ends where a clear does, `(0, 0, None)`, and
/// shows the same `"0"`.
pub proof fn divide_by_zero_is_clear(s: AccumulatorState)
    requires
        s.pending_operator == Some(Operator::Div),
        s.operand2 == 0,
    ensures
        s.equals() == AccumulatorState::cleared(),
        decimal(s.equals().operand1) == seq!['0'],
{
}

/// A second equals right after an equals changes nothing: the operator is
/// already gone, so the first operand stays.
pub proof fn equals_twice_keeps_result(s: AccumulatorState)
    ensures
        s.equals().pending_operator is None,
        s.equals().equals().operand1 == s.equals().operand1,
        s.equals().equals() == s.equals(),
{
}

} // verus!
