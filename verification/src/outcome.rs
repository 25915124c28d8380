//! What the two answers to one step amount to: the value that the next step builds on,
//! or the reason why the scenario ends here. An answer that cannot be read ends it, and
//! so do two answers that had to be the same and are not.

use crate::codec::{wire_account, Account, DecodeError};
use crate::equivalence::{assert_equal, Mismatch, Value};
use crate::reply::{
    decode_balance, decode_liquidity, decode_pair_address, parse_balance, parse_liquidity,
    parse_pair_address,
};
use crate::scenario::{Backend, Fatal};
use vstd::prelude::*;

verus! {

/// The liquidity minted, where both backends returned the same three amounts.
pub open spec fn spec_liquidity_minted(riscv: Seq<u8>, wasm: Seq<u8>) -> Result<u128, Fatal> {
    match parse_liquidity(riscv) {
        Err(e) => Err(Fatal::Decode(Backend::Riscv, e)),
        Ok(a) => match parse_liquidity(wasm) {
            Err(e) => Err(Fatal::Decode(Backend::Wasm, e)),
            Ok(b) => if a == b {
                Ok(a.2)
            } else {
                Err(
                    Fatal::Mismatch(
                        Mismatch {
                            left: Ok(Value::Liquidity(a.0, a.1, a.2)),
                            right: Ok(Value::Liquidity(b.0, b.1, b.2)),
                        },
                    ),
                )
            },
        },
    }
}

/// The balance of pool tokens, where both backends report exactly what was minted.
pub open spec fn spec_pool_balance(minted: u128, riscv: Seq<u8>, wasm: Seq<u8>) -> Result<
    u128,
    Fatal,
> {
    match parse_balance(riscv) {
        Err(e) => Err(Fatal::Decode(Backend::Riscv, e)),
        Ok(a) => match parse_balance(wasm) {
            Err(e) => Err(Fatal::Decode(Backend::Wasm, e)),
            Ok(b) => if a != minted {
                Err(
                    Fatal::Mismatch(
                        Mismatch { left: Ok(Value::Balance(minted)), right: Ok(Value::Balance(a)) },
                    ),
                )
            } else if b != minted {
                Err(
                    Fatal::Mismatch(
                        Mismatch { left: Ok(Value::Balance(minted)), right: Ok(Value::Balance(b)) },
                    ),
                )
            } else {
                Ok(minted)
            },
        },
    }
}

/// The pair's address on either backend. The two are not compared: each backend has
/// instances of its own.
pub open spec fn spec_pair_addresses(riscv: Seq<u8>, wasm: Seq<u8>) -> Result<
    (Seq<u8>, Seq<u8>),
    Fatal,
> {
    match parse_pair_address(riscv) {
        Err(e) => Err(Fatal::Decode(Backend::Riscv, e)),
        Ok(a) => match parse_pair_address(wasm) {
            Err(e) => Err(Fatal::Decode(Backend::Wasm, e)),
            Ok(b) => Ok((a, b)),
        },
    }
}

pub fn liquidity_minted(riscv_return: &[u8], wasm_return: &[u8]) -> (r: Result<u128, Fatal>)
    ensures
        r == spec_liquidity_minted(riscv_return@, wasm_return@),
{
    let a = match decode_liquidity(riscv_return) {
        Ok(a) => a,
        Err(e) => {
            return Err(Fatal::Decode(Backend::Riscv, e));
        },
    };
    let b = match decode_liquidity(wasm_return) {
        Ok(b) => b,
        Err(e) => {
            return Err(Fatal::Decode(Backend::Wasm, e));
        },
    };
    match assert_equal(Ok(Value::Liquidity(a.0, a.1, a.2)), Ok(Value::Liquidity(b.0, b.1, b.2))) {
        Ok(_) => Ok(a.2),
        Err(mismatch) => Err(Fatal::Mismatch(mismatch)),
    }
}

pub fn pool_balance(minted: u128, riscv_return: &[u8], wasm_return: &[u8]) -> (r: Result<
    u128,
    Fatal,
>)
    ensures
        r == spec_pool_balance(minted, riscv_return@, wasm_return@),
{
    let a = match decode_balance(riscv_return) {
        Ok(a) => a,
        Err(e) => {
            return Err(Fatal::Decode(Backend::Riscv, e));
        },
    };
    let b = match decode_balance(wasm_return) {
        Ok(b) => b,
        Err(e) => {
            return Err(Fatal::Decode(Backend::Wasm, e));
        },
    };
    match assert_equal(Ok(Value::Balance(minted)), Ok(Value::Balance(a))) {
        Ok(_) => {},
        Err(mismatch) => {
            return Err(Fatal::Mismatch(mismatch));
        },
    }
    match assert_equal(Ok(Value::Balance(minted)), Ok(Value::Balance(b))) {
        Ok(_) => Ok(minted),
        Err(mismatch) => Err(Fatal::Mismatch(mismatch)),
    }
}

pub fn pair_addresses(riscv_return: &[u8], wasm_return: &[u8]) -> (r: Result<
    (Account, Account),
    Fatal,
>)
    ensures
        match r {
            Ok((a, b)) => spec_pair_addresses(riscv_return@, wasm_return@) == Ok::<
                (Seq<u8>, Seq<u8>),
                Fatal,
            >((wire_account(a), wire_account(b))),
            Err(f) => spec_pair_addresses(riscv_return@, wasm_return@) == Err::<
                (Seq<u8>, Seq<u8>),
                Fatal,
            >(f),
        },
{
    let a = match decode_pair_address(riscv_return) {
        Ok(a) => a,
        Err(e) => {
            return Err(Fatal::Decode(Backend::Riscv, e));
        },
    };
    let b = match decode_pair_address(wasm_return) {
        Ok(b) => b,
        Err(e) => {
            return Err(Fatal::Decode(Backend::Wasm, e));
        },
    };
    Ok((a, b))
}

/// Where the balance check passes, both backends reported the minted liquidity, and so
/// the same number.
pub proof fn lemma_pool_balance_is_what_was_minted(minted: u128, riscv: Seq<u8>, wasm: Seq<u8>)
    requires
        spec_pool_balance(minted, riscv, wasm) is Ok,
    ensures
        spec_pool_balance(minted, riscv, wasm) == Ok::<u128, Fatal>(minted),
        parse_balance(riscv) == Ok::<u128, DecodeError>(minted),
        parse_balance(wasm) == Ok::<u128, DecodeError>(minted),
{
}

/// Where either answer cannot be read, no value comes out, whatever the other holds.
pub proof fn lemma_unreadable_answer_is_fatal(riscv: Seq<u8>, wasm: Seq<u8>, minted: u128)
    ensures
        parse_liquidity(riscv) is Err || parse_liquidity(wasm) is Err ==> spec_liquidity_minted(
            riscv,
            wasm,
        ) is Err,
        parse_balance(riscv) is Err || parse_balance(wasm) is Err ==> spec_pool_balance(
            minted,
            riscv,
            wasm,
        ) is Err,
        parse_pair_address(riscv) is Err || parse_pair_address(wasm) is Err
            ==> spec_pair_addresses(riscv, wasm) is Err,
{
}

} // verus!
