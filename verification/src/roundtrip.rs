//! Reading back what was written: for each shape, the reader that stands at the start of
//! an encoded value finds that value and stops right behind it, whatever surrounds it.

use crate::codec::{
    parse_optional_bytes, wire_optional_bytes,
    concat_accounts, ids_of, parse_accounts, wire_accounts,
    parse_account, parse_bytes, parse_envelope, parse_length, parse_presence, parse_u128,
    parse_u32, parse_u64, parse_u8, parse_uint, wire_account, wire_bytes, wire_length,
    wire_presence, wire_u128, wire_u32, wire_u64, wire_u8, wire_verdict, Account, DecodeError,
    Layer,
};
use crate::wire::{
    le_bytes, lemma_le_bytes_len, lemma_le_value_of_bytes, lemma_pow256_values, pow256,
};
use vstd::prelude::*;

verus! {

/// A number written in `width` bytes is read back from those bytes.
pub proof fn lemma_uint_round_trip(value: nat, width: usize, before: Seq<u8>, after: Seq<u8>)
    requires
        value < pow256(width as nat),
        before.len() + width <= usize::MAX,
    ensures
        parse_uint(before + le_bytes(value, width as nat) + after, before.len() as usize, width)
            == Ok::<(nat, usize), DecodeError>((value, (before.len() + width) as usize)),
{
    let all = before + le_bytes(value, width as nat) + after;
    lemma_le_bytes_len(value, width as nat);
    lemma_le_value_of_bytes(value, width as nat);
    assert(all.subrange(before.len() as int, before.len() + width) =~= le_bytes(
        value,
        width as nat,
    ));
}

/// Round trip of an 8-bit integer.
pub proof fn lemma_u8_round_trip(v: u8, before: Seq<u8>, after: Seq<u8>)
    requires
        before.len() + 1 <= usize::MAX,
    ensures
        parse_u8(before + wire_u8(v) + after, before.len() as usize) == Ok::<
            (u8, usize),
            DecodeError,
        >((v, (before.len() + 1) as usize)),
{
    lemma_pow256_values();
    lemma_uint_round_trip(v as nat, 1, before, after);
}

/// Round trip of a 32-bit integer.
pub proof fn lemma_u32_round_trip(v: u32, before: Seq<u8>, after: Seq<u8>)
    requires
        before.len() + 4 <= usize::MAX,
    ensures
        parse_u32(before + wire_u32(v) + after, before.len() as usize) == Ok::<
            (u32, usize),
            DecodeError,
        >((v, (before.len() + 4) as usize)),
{
    lemma_pow256_values();
    lemma_uint_round_trip(v as nat, 4, before, after);
}

/// Round trip of a 64-bit integer.
pub proof fn lemma_u64_round_trip(v: u64, before: Seq<u8>, after: Seq<u8>)
    requires
        before.len() + 8 <= usize::MAX,
    ensures
        parse_u64(before + wire_u64(v) + after, before.len() as usize) == Ok::<
            (u64, usize),
            DecodeError,
        >((v, (before.len() + 8) as usize)),
{
    lemma_pow256_values();
    lemma_uint_round_trip(v as nat, 8, before, after);
}

/// Round trip of a 128-bit integer.
pub proof fn lemma_u128_round_trip(v: u128, before: Seq<u8>, after: Seq<u8>)
    requires
        before.len() + 16 <= usize::MAX,
    ensures
        parse_u128(before + wire_u128(v) + after, before.len() as usize) == Ok::<
            (u128, usize),
            DecodeError,
        >((v, (before.len() + 16) as usize)),
{
    lemma_pow256_values();
    lemma_uint_round_trip(v as nat, 16, before, after);
}

/// Round trip of a fixed-size byte array.
pub proof fn lemma_account_round_trip(a: Account, before: Seq<u8>, after: Seq<u8>)
    requires
        before.len() + 32 <= usize::MAX,
    ensures
        parse_account(before + wire_account(a) + after, before.len() as usize) == Ok::<
            (Seq<u8>, usize),
            DecodeError,
        >((wire_account(a), (before.len() + 32) as usize)),
{
    let all = before + wire_account(a) + after;
    assert(all.subrange(before.len() as int, before.len() as int + 32) =~= wire_account(a));
}

/// Round trip of a length prefix, in each of its four forms.
pub proof fn lemma_length_round_trip(n: u32, before: Seq<u8>, after: Seq<u8>)
    requires
        before.len() + 5 <= usize::MAX,
    ensures
        parse_length(before + wire_length(n) + after, before.len() as usize) == Ok::<
            (u32, usize),
            DecodeError,
        >((n, (before.len() + wire_length(n).len()) as usize)),
        1 <= wire_length(n).len() <= 5,
{
    let all = before + wire_length(n) + after;
    let at = before.len() as int;
    lemma_pow256_values();
    reveal_with_fuel(le_bytes, 2);
    if n < 0x40 {
        let x = (n * 4) as nat;
        lemma_le_bytes_len(x, 1);
        assert(all[at] == le_bytes(x, 1)[0]);
    } else if n < 0x4000 {
        let x = (n * 4 + 1) as nat;
        lemma_le_bytes_len(x, 2);
        lemma_uint_round_trip(x, 2, before, after);
        assert(all[at] == le_bytes(x, 2)[0]);
    } else if n < 0x4000_0000 {
        let x = (n * 4 + 2) as nat;
        lemma_le_bytes_len(x, 4);
        lemma_uint_round_trip(x, 4, before, after);
        assert(all[at] == le_bytes(x, 4)[0]);
    } else {
        lemma_le_bytes_len(n as nat, 4);
        lemma_uint_round_trip(n as nat, 4, before + seq![3u8], after);
        assert(all =~= (before + seq![3u8]) + le_bytes(n as nat, 4) + after);
        assert(all[at] == 3u8);
    }
}

/// Round trip of an optional value's tag: presence and absence are both read back.
pub proof fn lemma_presence_round_trip(present: bool, before: Seq<u8>, after: Seq<u8>)
    requires
        before.len() + 1 <= usize::MAX,
    ensures
        parse_presence(before + wire_presence(present) + after, before.len() as usize) == Ok::<
            (bool, usize),
            DecodeError,
        >((present, (before.len() + 1) as usize)),
{
}

/// An "ok" discriminant lets the reader through to the payload; an "err" discriminant
/// is a failure of its layer, never a cursor to go on from.
pub proof fn lemma_envelope_round_trip(ok: bool, layer: Layer, before: Seq<u8>, after: Seq<u8>)
    requires
        before.len() + 1 <= usize::MAX,
    ensures
        parse_envelope(before + wire_verdict(ok) + after, before.len() as usize, layer) == if ok {
            Ok::<usize, DecodeError>((before.len() + 1) as usize)
        } else {
            Err::<usize, DecodeError>(DecodeError::Failed(layer))
        },
{
}

/// Round trip of a run of bytes with its length in front.
pub proof fn lemma_bytes_round_trip(content: Seq<u8>, before: Seq<u8>, after: Seq<u8>)
    requires
        content.len() <= u32::MAX,
        before.len() + 5 + content.len() <= usize::MAX,
    ensures
        parse_bytes(before + wire_bytes(content) + after, before.len() as usize) == Ok::<
            (Seq<u8>, usize),
            DecodeError,
        >((content, (before.len() + wire_bytes(content).len()) as usize)),
{
    let n = content.len() as u32;
    let all = before + wire_bytes(content) + after;
    lemma_length_round_trip(n, before, content + after);
    assert(all =~= before + wire_length(n) + (content + after));
    let start = (before.len() + wire_length(n).len()) as int;
    assert(all.subrange(start, start + content.len()) =~= content);
}

/// The encodings of `accounts` take 32 bytes each.
pub proof fn lemma_concat_accounts_len(accounts: Seq<Account>)
    ensures
        concat_accounts(accounts).len() == 32 * accounts.len(),
    decreases accounts.len(),
{
    if accounts.len() > 0 {
        lemma_concat_accounts_len(accounts.drop_last());
    }
}

/// The `i`-th run of 32 bytes is the `i`-th account.
pub proof fn lemma_concat_accounts_at(accounts: Seq<Account>, i: int)
    requires
        0 <= i < accounts.len(),
    ensures
        concat_accounts(accounts).subrange(32 * i, 32 * i + 32) == wire_account(accounts[i]),
    decreases accounts.len(),
{
    let front = accounts.drop_last();
    lemma_concat_accounts_len(front);
    if i == accounts.len() - 1 {
        assert(concat_accounts(accounts).subrange(32 * i, 32 * i + 32) =~= wire_account(
            accounts[i],
        ));
    } else {
        lemma_concat_accounts_at(front, i);
        assert(concat_accounts(accounts).subrange(32 * i, 32 * i + 32) =~= concat_accounts(
            front,
        ).subrange(32 * i, 32 * i + 32));
    }
}

/// Round trip of a sequence of accounts with its length in front.
pub proof fn lemma_accounts_round_trip(accounts: Seq<Account>, before: Seq<u8>, after: Seq<u8>)
    requires
        accounts.len() <= u32::MAX,
        before.len() + 5 + 32 * accounts.len() <= usize::MAX,
    ensures
        parse_accounts(before + wire_accounts(accounts) + after, before.len() as usize) == Ok::<
            (Seq<Seq<u8>>, usize),
            DecodeError,
        >((ids_of(accounts), (before.len() + wire_accounts(accounts).len()) as usize)),
{
    let n = accounts.len() as u32;
    let body = concat_accounts(accounts);
    let all = before + wire_accounts(accounts) + after;
    lemma_length_round_trip(n, before, body + after);
    lemma_concat_accounts_len(accounts);
    assert(all =~= before + wire_length(n) + (body + after));
    let start = (before.len() + wire_length(n).len()) as int;
    let found = Seq::new(n as nat, |i: int| all.subrange(start + 32 * i, start + 32 * i + 32));
    assert forall|i: int| 0 <= i < n implies found[i] == ids_of(accounts)[i] by {
        lemma_concat_accounts_at(accounts, i);
        assert(all.subrange(start + 32 * i, start + 32 * i + 32) =~= body.subrange(
            32 * i,
            32 * i + 32,
        ));
    }
    assert(found =~= ids_of(accounts));
}

/// Round trip of a run of bytes that may be missing: a present one is read back with its
/// content, a missing one as missing.
pub proof fn lemma_optional_bytes_round_trip(
    content: Option<Seq<u8>>,
    before: Seq<u8>,
    after: Seq<u8>,
)
    requires
        content is Some ==> content->Some_0.len() <= u32::MAX,
        content is Some ==> before.len() + 6 + content->Some_0.len() <= usize::MAX,
        before.len() + 1 <= usize::MAX,
    ensures
        parse_optional_bytes(
            before + wire_optional_bytes(content) + after,
            before.len() as usize,
        ) == Ok::<(Option<Seq<u8>>, usize), DecodeError>(
            (content, (before.len() + wire_optional_bytes(content).len()) as usize),
        ),
{
    let all = before + wire_optional_bytes(content) + after;
    match content {
        None => {},
        Some(c) => {
            let head = before + wire_presence(true);
            lemma_bytes_round_trip(c, head, after);
            assert(all =~= head + wire_bytes(c) + after);
            assert(all[before.len() as int] == 1u8);
        },
    }
}

} // verus!
