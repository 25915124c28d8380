//! The comparison of what the two backends answered. Two answers agree only where both
//! were decoded and hold the same value; anything else is a defect that shows both.

use crate::codec::{Account, DecodeError};
use vstd::prelude::*;

verus! {

/// A decoded answer.
#[derive(Clone, Copy, Debug, PartialEq, Eq)]
pub enum Value {
    Balance(u128),
    Address(Account),
    Liquidity(u128, u128, u128),
}

/// The two answers that did not agree, each as it came.
#[derive(Clone, Copy, Debug, PartialEq, Eq)]
pub struct Mismatch {
    pub left: Result<Value, DecodeError>,
    pub right: Result<Value, DecodeError>,
}

/// Two answers agree where the first is a value and the second is the same value. A
/// failure agrees with nothing, not even with the same failure.
pub open spec fn agree(a: Result<Value, DecodeError>, b: Result<Value, DecodeError>) -> bool {
    a is Ok && a == b
}

pub fn same_account(a: &Account, b: &Account) -> (same: bool)
    ensures
        same == (*a == *b),
{
    let mut i: usize = 0;
    while i < 32
        invariant
            i <= 32,
            forall|k: int| 0 <= k < i ==> a.id@[k] == b.id@[k],
        decreases 32 - i,
    {
        if a.id[i] != b.id[i] {
            return false;
        }
        i = i + 1;
    }
    assert(a.id =~= b.id);
    true
}

pub fn same_value(a: &Value, b: &Value) -> (same: bool)
    ensures
        same == (*a == *b),
{
    match (a, b) {
        (Value::Balance(x), Value::Balance(y)) => *x == *y,
        (Value::Address(x), Value::Address(y)) => same_account(x, y),
        (Value::Liquidity(x0, x1, x2), Value::Liquidity(y0, y1, y2)) => *x0 == *y0 && *x1 == *y1
            && *x2 == *y2,
        _ => false,
    }
}

/// Hands back the value on which both backends agree, or both answers where they do
/// not: where they differ in any bit, and where either is a failure.
pub fn assert_equal(a: Result<Value, DecodeError>, b: Result<Value, DecodeError>) -> (r: Result<
    Value,
    Mismatch,
>)
    ensures
        agree(a, b) ==> r == Ok::<Value, Mismatch>(a->Ok_0),
        !agree(a, b) ==> r == Err::<Value, Mismatch>((Mismatch { left: a, right: b })),
{
    match (a, b) {
        (Ok(x), Ok(y)) => {
            if same_value(&x, &y) {
                Ok(x)
            } else {
                Err(Mismatch { left: a, right: b })
            }
        },
        _ => Err(Mismatch { left: a, right: b }),
    }
}

/// Agreement does not depend on which backend is named first.
pub proof fn lemma_agree_symmetric(a: Result<Value, DecodeError>, b: Result<Value, DecodeError>)
    ensures
        agree(a, b) == agree(b, a),
{
}

/// Agreement is exact: two answers that differ never agree, and two failures never
/// agree, whether they are the same failure or not.
pub proof fn lemma_agree_exact(a: Result<Value, DecodeError>, b: Result<Value, DecodeError>)
    ensures
        a != b ==> !agree(a, b),
        a is Err || b is Err ==> !agree(a, b),
        a is Ok && a == b ==> agree(a, b),
{
}

} // verus!
