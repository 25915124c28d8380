//! The answers of the contract messages whose results the benchmark looks at. Each is
//! a value inside one or two envelopes; a whole buffer is read, and any layer that
//! signals failure, any missing value and any stray byte is an error.

use crate::codec::{
    decode_account, decode_end, decode_envelope, decode_presence, decode_u128, parse_account,
    parse_end, parse_envelope, parse_presence, parse_u128, wire_account, wire_presence, wire_u128,
    wire_verdict, Account, DecodeError, Layer,
};
use crate::roundtrip::{lemma_account_round_trip, lemma_u128_round_trip};
use vstd::prelude::*;

verus! {

/// A token balance: a 128-bit integer in the dispatch envelope.
pub open spec fn parse_balance(bytes: Seq<u8>) -> Result<u128, DecodeError> {
    match parse_envelope(bytes, 0, Layer::Dispatch) {
        Err(e) => Err(e),
        Ok(at) => match parse_u128(bytes, at) {
            Err(e) => Err(e),
            Ok((balance, end)) => match parse_end(bytes, end) {
                Err(e) => Err(e),
                Ok(_) => Ok(balance),
            },
        },
    }
}

/// The address of a trading pair: an optional account in the dispatch envelope. A
/// missing pair is an error.
pub open spec fn parse_pair_address(bytes: Seq<u8>) -> Result<Seq<u8>, DecodeError> {
    match parse_envelope(bytes, 0, Layer::Dispatch) {
        Err(e) => Err(e),
        Ok(at) => match parse_presence(bytes, at) {
            Err(e) => Err(e),
            Ok((present, at)) => if !present {
                Err(DecodeError::Missing)
            } else {
                match parse_account(bytes, at) {
                    Err(e) => Err(e),
                    Ok((id, end)) => match parse_end(bytes, end) {
                        Err(e) => Err(e),
                        Ok(_) => Ok(id),
                    },
                }
            },
        },
    }
}

/// What adding liquidity returns: the two amounts taken and the liquidity minted, three
/// 128-bit integers in the application envelope inside the dispatch envelope.
pub open spec fn parse_liquidity(bytes: Seq<u8>) -> Result<(u128, u128, u128), DecodeError> {
    match parse_envelope(bytes, 0, Layer::Dispatch) {
        Err(e) => Err(e),
        Ok(at) => match parse_envelope(bytes, at, Layer::Application) {
            Err(e) => Err(e),
            Ok(at) => match parse_u128(bytes, at) {
                Err(e) => Err(e),
                Ok((first, at)) => match parse_u128(bytes, at) {
                    Err(e) => Err(e),
                    Ok((second, at)) => match parse_u128(bytes, at) {
                        Err(e) => Err(e),
                        Ok((minted, end)) => match parse_end(bytes, end) {
                            Err(e) => Err(e),
                            Ok(_) => Ok((first, second, minted)),
                        },
                    },
                },
            },
        },
    }
}

pub fn decode_balance(bytes: &[u8]) -> (r: Result<u128, DecodeError>)
    ensures
        r == parse_balance(bytes@),
{
    let at = decode_envelope(bytes, 0, Layer::Dispatch)?;
    let (balance, end) = decode_u128(bytes, at)?;
    decode_end(bytes, end)?;
    Ok(balance)
}

pub fn decode_pair_address(bytes: &[u8]) -> (r: Result<Account, DecodeError>)
    ensures
        match r {
            Ok(pair) => parse_pair_address(bytes@) == Ok::<Seq<u8>, DecodeError>(
                wire_account(pair),
            ),
            Err(e) => parse_pair_address(bytes@) == Err::<Seq<u8>, DecodeError>(e),
        },
{
    let at = decode_envelope(bytes, 0, Layer::Dispatch)?;
    let (present, at) = decode_presence(bytes, at)?;
    if !present {
        return Err(DecodeError::Missing);
    }
    let (pair, end) = decode_account(bytes, at)?;
    decode_end(bytes, end)?;
    Ok(pair)
}

pub fn decode_liquidity(bytes: &[u8]) -> (r: Result<(u128, u128, u128), DecodeError>)
    ensures
        r == parse_liquidity(bytes@),
{
    let at = decode_envelope(bytes, 0, Layer::Dispatch)?;
    let at = decode_envelope(bytes, at, Layer::Application)?;
    let (first, at) = decode_u128(bytes, at)?;
    let (second, at) = decode_u128(bytes, at)?;
    let (minted, end) = decode_u128(bytes, at)?;
    decode_end(bytes, end)?;
    Ok((first, second, minted))
}

/// A buffer that opens with the "err" discriminant yields no value in any of the three
/// shapes: each reader reports the failure of the dispatch layer.
pub proof fn lemma_outer_err_yields_no_value(bytes: Seq<u8>)
    requires
        bytes.len() > 0,
        bytes[0] == 1,
    ensures
        parse_balance(bytes) == Err::<u128, DecodeError>(DecodeError::Failed(Layer::Dispatch)),
        parse_pair_address(bytes) == Err::<Seq<u8>, DecodeError>(
            DecodeError::Failed(Layer::Dispatch),
        ),
        parse_liquidity(bytes) == Err::<(u128, u128, u128), DecodeError>(
            DecodeError::Failed(Layer::Dispatch),
        ),
{
}

/// An "err" in the inner envelope is a failure of the application layer, whatever
/// follows it.
pub proof fn lemma_inner_err_yields_no_value(rest: Seq<u8>)
    ensures
        parse_liquidity(wire_verdict(true) + wire_verdict(false) + rest) == Err::<
            (u128, u128, u128),
            DecodeError,
        >(DecodeError::Failed(Layer::Application)),
{
}

/// Round trip of a balance in its envelope.
pub proof fn lemma_balance_round_trip(balance: u128)
    ensures
        parse_balance(wire_verdict(true) + wire_u128(balance)) == Ok::<u128, DecodeError>(
            balance,
        ),
{
    let bytes = wire_verdict(true) + wire_u128(balance);
    lemma_u128_round_trip(balance, wire_verdict(true), Seq::empty());
    assert(bytes =~= wire_verdict(true) + wire_u128(balance) + Seq::<u8>::empty());
    crate::wire::lemma_le_bytes_len(balance as nat, 16);
}

/// Round trip of an optional account in its envelope: a present one is read back, a
/// missing one is reported as missing.
pub proof fn lemma_pair_address_round_trip(pair: Account)
    ensures
        parse_pair_address(wire_verdict(true) + wire_presence(true) + wire_account(pair)) == Ok::<
            Seq<u8>,
            DecodeError,
        >(wire_account(pair)),
        parse_pair_address(wire_verdict(true) + wire_presence(false)) == Err::<
            Seq<u8>,
            DecodeError,
        >(DecodeError::Missing),
{
    let head = wire_verdict(true) + wire_presence(true);
    let bytes = head + wire_account(pair);
    lemma_account_round_trip(pair, head, Seq::empty());
    assert(bytes =~= head + wire_account(pair) + Seq::<u8>::empty());
}

/// Round trip of three integers inside two nested envelopes.
pub proof fn lemma_liquidity_round_trip(first: u128, second: u128, minted: u128)
    ensures
        parse_liquidity(
            wire_verdict(true) + wire_verdict(true) + wire_u128(first) + wire_u128(second)
                + wire_u128(minted),
        ) == Ok::<(u128, u128, u128), DecodeError>((first, second, minted)),
{
    let head = wire_verdict(true) + wire_verdict(true);
    let a = wire_u128(first);
    let b = wire_u128(second);
    let c = wire_u128(minted);
    let bytes = head + a + b + c;
    crate::wire::lemma_le_bytes_len(first as nat, 16);
    crate::wire::lemma_le_bytes_len(second as nat, 16);
    crate::wire::lemma_le_bytes_len(minted as nat, 16);
    lemma_u128_round_trip(first, head, b + c);
    assert(bytes =~= head + a + (b + c));
    lemma_u128_round_trip(second, head + a, c);
    assert(bytes =~= (head + a) + b + c);
    lemma_u128_round_trip(minted, head + a + b, Seq::empty());
    assert(bytes =~= (head + a + b) + c + Seq::<u8>::empty());
}

} // verus!
