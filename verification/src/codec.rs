//! The byte encoding of the values that contract messages take and return.
//!
//! Every shape has a spec function `wire_*` that says which bytes stand for a value and a
//! spec function `parse_*` that says what a reader finds at a cursor. The executable
//! encoders append to a buffer; the executable decoders read at a cursor and hand back
//! the value together with the cursor behind it.

use crate::wire::{le_bytes, le_value, lemma_le_value_bound, lemma_pow256_values, push_le, read_le};
use vstd::prelude::*;

verus! {

/// Which of the two nested envelopes around a returned value.
#[derive(Clone, Copy, Debug, PartialEq, Eq)]
pub enum Layer {
    /// The outer envelope: whether the message was dispatched at all.
    Dispatch,
    /// The inner envelope: whether the contract's own logic succeeded.
    Application,
}

/// Why a buffer could not be read as the expected shape.
#[derive(Clone, Copy, Debug, PartialEq, Eq)]
pub enum DecodeError {
    /// The buffer ends before the value does.
    UnexpectedEnd,
    /// Bytes are left behind the value.
    TrailingBytes,
    /// A presence tag or a discriminant that is neither 0 nor 1.
    BadTag,
    /// A length prefix that is not in its shortest form, or too large.
    BadLength,
    /// An envelope of the given layer carries its "err" discriminant.
    Failed(Layer),
    /// An optional value is missing where one is needed.
    Missing,
}

/// A 32-byte account identifier.
#[derive(Clone, Copy, Debug, PartialEq, Eq)]
pub struct Account {
    pub id: [u8; 32],
}

pub open spec fn wire_u8(v: u8) -> Seq<u8> {
    le_bytes(v as nat, 1)
}

pub open spec fn wire_u32(v: u32) -> Seq<u8> {
    le_bytes(v as nat, 4)
}

pub open spec fn wire_u64(v: u64) -> Seq<u8> {
    le_bytes(v as nat, 8)
}

pub open spec fn wire_u128(v: u128) -> Seq<u8> {
    le_bytes(v as nat, 16)
}

/// An account identifier stands for itself: its 32 bytes, no prefix.
pub open spec fn wire_account(a: Account) -> Seq<u8> {
    a.id@
}

/// Whether the array `bytes` holds the run of bytes `id`.
pub open spec fn spells(bytes: [u8; 32], id: Seq<u8>) -> bool {
    bytes@ == id
}

/// The account whose identifier is `id`, for a run of 32 bytes.
pub open spec fn account_of(id: Seq<u8>) -> Account {
    Account { id: choose|bytes: [u8; 32]| spells(bytes, id) }
}

/// An account is the account of its own identifier.
pub proof fn lemma_account_of(a: Account)
    ensures
        account_of(wire_account(a)) == a,
{
    let found = choose|bytes: [u8; 32]| spells(bytes, a.id@);
    assert(spells(a.id, a.id@));
    assert(found =~= a.id);
}

/// A length prefix in its shortest form. The two low bits of the first byte say how
/// many bytes follow: none, one, three, or (with the rest of the byte zero) four.
pub open spec fn wire_length(n: u32) -> Seq<u8> {
    if n < 0x40 {
        le_bytes((n * 4) as nat, 1)
    } else if n < 0x4000 {
        le_bytes((n * 4 + 1) as nat, 2)
    } else if n < 0x4000_0000 {
        le_bytes((n * 4 + 2) as nat, 4)
    } else {
        seq![3u8] + le_bytes(n as nat, 4)
    }
}

/// A boolean: one byte, 1 for true and 0 for false.
pub open spec fn wire_bool(v: bool) -> Seq<u8> {
    seq![if v { 1u8 } else { 0u8 }]
}

/// The tag in front of an optional value: 0 for a missing one, 1 for a present one.
pub open spec fn wire_presence(present: bool) -> Seq<u8> {
    seq![if present { 1u8 } else { 0u8 }]
}

/// The discriminant in front of an envelope's payload: 0 for "ok", 1 for "err".
pub open spec fn wire_verdict(ok: bool) -> Seq<u8> {
    seq![if ok { 0u8 } else { 1u8 }]
}

/// A run of bytes (a text in UTF-8, say): its length, then the bytes.
pub open spec fn wire_bytes(content: Seq<u8>) -> Seq<u8> {
    wire_length(content.len() as u32) + content
}

/// The identifiers of `accounts` one after the other.
pub open spec fn concat_accounts(accounts: Seq<Account>) -> Seq<u8>
    decreases accounts.len(),
{
    if accounts.len() == 0 {
        Seq::empty()
    } else {
        concat_accounts(accounts.drop_last()) + wire_account(accounts.last())
    }
}

/// A sequence of accounts: its length, then each element's encoding.
pub open spec fn wire_accounts(accounts: Seq<Account>) -> Seq<u8> {
    wire_length(accounts.len() as u32) + concat_accounts(accounts)
}

pub fn encode_u8(v: u8, out: &mut Vec<u8>)
    ensures
        final(out)@ == old(out)@ + wire_u8(v),
{
    push_le(out, v as u128, 1);
}

pub fn encode_u32(v: u32, out: &mut Vec<u8>)
    ensures
        final(out)@ == old(out)@ + wire_u32(v),
{
    push_le(out, v as u128, 4);
}

pub fn encode_u64(v: u64, out: &mut Vec<u8>)
    ensures
        final(out)@ == old(out)@ + wire_u64(v),
{
    push_le(out, v as u128, 8);
}

pub fn encode_u128(v: u128, out: &mut Vec<u8>)
    ensures
        final(out)@ == old(out)@ + wire_u128(v),
{
    push_le(out, v, 16);
}

/// Appends `bytes` to `out` as they are.
pub fn encode_raw(bytes: &[u8], out: &mut Vec<u8>)
    ensures
        final(out)@ == old(out)@ + bytes@,
{
    let n: usize = bytes.len();
    let mut i: usize = 0;
    while i < n
        invariant
            i <= n,
            n == bytes@.len(),
            out@ == old(out)@ + bytes@.subrange(0, i as int),
        decreases n - i,
    {
        out.push(bytes[i]);
        assert(bytes@.subrange(0, i + 1) =~= bytes@.subrange(0, i as int).push(bytes@[i as int]));
        i = i + 1;
    }
    assert(bytes@.subrange(0, n as int) =~= bytes@);
}

pub fn encode_account(a: &Account, out: &mut Vec<u8>)
    ensures
        final(out)@ == old(out)@ + wire_account(*a),
{
    let mut i: usize = 0;
    while i < 32
        invariant
            i <= 32,
            out@ == old(out)@ + a.id@.subrange(0, i as int),
        decreases 32 - i,
    {
        out.push(a.id[i]);
        assert(a.id@.subrange(0, i + 1) =~= a.id@.subrange(0, i as int).push(a.id@[i as int]));
        i = i + 1;
    }
    assert(a.id@.subrange(0, 32) =~= a.id@);
}

pub fn encode_length(n: u32, out: &mut Vec<u8>)
    ensures
        final(out)@ == old(out)@ + wire_length(n),
{
    if n < 0x40 {
        push_le(out, (n * 4) as u128, 1);
    } else if n < 0x4000 {
        push_le(out, (n * 4 + 1) as u128, 2);
    } else if n < 0x4000_0000 {
        push_le(out, (n * 4 + 2) as u128, 4);
    } else {
        out.push(3u8);
        push_le(out, n as u128, 4);
        assert(old(out)@.push(3u8) + le_bytes(n as nat, 4) =~= old(out)@ + (seq![3u8] + le_bytes(
            n as nat,
            4,
        )));
    }
}

pub fn encode_bool(v: bool, out: &mut Vec<u8>)
    ensures
        final(out)@ == old(out)@ + wire_bool(v),
{
    out.push(if v { 1u8 } else { 0u8 });
    assert(out@ =~= old(out)@ + wire_bool(v));
}

pub fn encode_presence(present: bool, out: &mut Vec<u8>)
    ensures
        final(out)@ == old(out)@ + wire_presence(present),
{
    out.push(if present { 1u8 } else { 0u8 });
    assert(out@ =~= old(out)@ + wire_presence(present));
}

pub fn encode_verdict(ok: bool, out: &mut Vec<u8>)
    ensures
        final(out)@ == old(out)@ + wire_verdict(ok),
{
    out.push(if ok { 0u8 } else { 1u8 });
    assert(out@ =~= old(out)@ + wire_verdict(ok));
}

/// Appends a run of bytes with its length in front.
pub fn encode_bytes(content: &[u8], out: &mut Vec<u8>)
    requires
        content@.len() <= u32::MAX,
    ensures
        final(out)@ == old(out)@ + wire_bytes(content@),
{
    encode_length(content.len() as u32, out);
    encode_raw(content, out);
    assert(out@ =~= old(out)@ + wire_bytes(content@));
}

/// Appends a sequence of accounts with its length in front.
pub fn encode_accounts(accounts: &Vec<Account>, out: &mut Vec<u8>)
    requires
        accounts@.len() <= u32::MAX,
    ensures
        final(out)@ == old(out)@ + wire_accounts(accounts@),
{
    let n: usize = accounts.len();
    encode_length(n as u32, out);
    let ghost start = out@;
    let mut i: usize = 0;
    assert(start + concat_accounts(accounts@.subrange(0, 0)) =~= start);
    while i < n
        invariant
            i <= n,
            n == accounts@.len(),
            out@ == start + concat_accounts(accounts@.subrange(0, i as int)),
        decreases n - i,
    {
        let ghost before = out@;
        encode_account(&accounts[i], out);
        proof {
            let next = accounts@.subrange(0, i + 1);
            assert(next.drop_last() =~= accounts@.subrange(0, i as int));
            assert(next.last() == accounts@[i as int]);
            assert(out@ =~= start + concat_accounts(next));
        }
        i = i + 1;
    }
    assert(accounts@.subrange(0, n as int) =~= accounts@);
    assert(out@ =~= old(out)@ + wire_accounts(accounts@));
}


/// What a reader finds when it takes `width` bytes at `cursor` as one number.
pub open spec fn parse_uint(bytes: Seq<u8>, cursor: usize, width: usize) -> Result<
    (nat, usize),
    DecodeError,
> {
    if cursor + width <= bytes.len() {
        Ok((le_value(bytes.subrange(cursor as int, cursor + width)), (cursor + width) as usize))
    } else {
        Err(DecodeError::UnexpectedEnd)
    }
}

pub open spec fn parse_u8(bytes: Seq<u8>, cursor: usize) -> Result<(u8, usize), DecodeError> {
    match parse_uint(bytes, cursor, 1) {
        Ok((v, next)) => Ok((v as u8, next)),
        Err(e) => Err(e),
    }
}

pub open spec fn parse_u32(bytes: Seq<u8>, cursor: usize) -> Result<(u32, usize), DecodeError> {
    match parse_uint(bytes, cursor, 4) {
        Ok((v, next)) => Ok((v as u32, next)),
        Err(e) => Err(e),
    }
}

pub open spec fn parse_u64(bytes: Seq<u8>, cursor: usize) -> Result<(u64, usize), DecodeError> {
    match parse_uint(bytes, cursor, 8) {
        Ok((v, next)) => Ok((v as u64, next)),
        Err(e) => Err(e),
    }
}

pub open spec fn parse_u128(bytes: Seq<u8>, cursor: usize) -> Result<(u128, usize), DecodeError> {
    match parse_uint(bytes, cursor, 16) {
        Ok((v, next)) => Ok((v as u128, next)),
        Err(e) => Err(e),
    }
}

/// The 32 bytes of an account identifier at `cursor`.
pub open spec fn parse_account(bytes: Seq<u8>, cursor: usize) -> Result<
    (Seq<u8>, usize),
    DecodeError,
> {
    if cursor + 32 <= bytes.len() {
        Ok((bytes.subrange(cursor as int, cursor + 32), (cursor + 32) as usize))
    } else {
        Err(DecodeError::UnexpectedEnd)
    }
}

/// A length prefix at `cursor`. A prefix longer than its value needs is refused.
pub open spec fn parse_length(bytes: Seq<u8>, cursor: usize) -> Result<(u32, usize), DecodeError> {
    if cursor >= bytes.len() {
        Err(DecodeError::UnexpectedEnd)
    } else {
        let first = bytes[cursor as int];
        if first % 4 == 0 {
            Ok(((first / 4) as u32, (cursor + 1) as usize))
        } else if first % 4 == 1 {
            match parse_uint(bytes, cursor, 2) {
                Ok((x, next)) => if x / 4 < 0x40 {
                    Err(DecodeError::BadLength)
                } else {
                    Ok(((x / 4) as u32, next))
                },
                Err(e) => Err(e),
            }
        } else if first % 4 == 2 {
            match parse_uint(bytes, cursor, 4) {
                Ok((x, next)) => if x / 4 < 0x4000 {
                    Err(DecodeError::BadLength)
                } else {
                    Ok(((x / 4) as u32, next))
                },
                Err(e) => Err(e),
            }
        } else if first != 3 {
            Err(DecodeError::BadLength)
        } else {
            match parse_uint(bytes, (cursor + 1) as usize, 4) {
                Ok((x, next)) => if x < 0x4000_0000 {
                    Err(DecodeError::BadLength)
                } else {
                    Ok((x as u32, next))
                },
                Err(e) => Err(e),
            }
        }
    }
}

/// The presence tag of an optional value at `cursor`.
pub open spec fn parse_presence(bytes: Seq<u8>, cursor: usize) -> Result<
    (bool, usize),
    DecodeError,
> {
    if cursor >= bytes.len() {
        Err(DecodeError::UnexpectedEnd)
    } else if bytes[cursor as int] == 0 {
        Ok((false, (cursor + 1) as usize))
    } else if bytes[cursor as int] == 1 {
        Ok((true, (cursor + 1) as usize))
    } else {
        Err(DecodeError::BadTag)
    }
}

/// The discriminant of an envelope at `cursor`. Only "ok" lets the reader go on to the
/// payload; "err" is a failure of that layer.
pub open spec fn parse_envelope(bytes: Seq<u8>, cursor: usize, layer: Layer) -> Result<
    usize,
    DecodeError,
> {
    if cursor >= bytes.len() {
        Err(DecodeError::UnexpectedEnd)
    } else if bytes[cursor as int] == 0 {
        Ok((cursor + 1) as usize)
    } else if bytes[cursor as int] == 1 {
        Err(DecodeError::Failed(layer))
    } else {
        Err(DecodeError::BadTag)
    }
}

/// A run of bytes with its length in front.
pub open spec fn parse_bytes(bytes: Seq<u8>, cursor: usize) -> Result<
    (Seq<u8>, usize),
    DecodeError,
> {
    match parse_length(bytes, cursor) {
        Ok((n, start)) => if start + n <= bytes.len() {
            Ok((bytes.subrange(start as int, start + n), (start + n) as usize))
        } else {
            Err(DecodeError::UnexpectedEnd)
        },
        Err(e) => Err(e),
    }
}

/// A run of bytes that may be missing: the presence tag, then the run if it is there.
pub open spec fn wire_optional_bytes(content: Option<Seq<u8>>) -> Seq<u8> {
    match content {
        None => wire_presence(false),
        Some(c) => wire_presence(true) + wire_bytes(c),
    }
}

/// A run of bytes that may be missing, at `cursor`.
pub open spec fn parse_optional_bytes(bytes: Seq<u8>, cursor: usize) -> Result<
    (Option<Seq<u8>>, usize),
    DecodeError,
> {
    match parse_presence(bytes, cursor) {
        Ok((present, at)) => if !present {
            Ok((None, at))
        } else {
            match parse_bytes(bytes, at) {
                Ok((content, next)) => Ok((Some(content), next)),
                Err(e) => Err(e),
            }
        },
        Err(e) => Err(e),
    }
}

/// The identifiers of `accounts`, one run of bytes for each.
pub open spec fn ids_of(accounts: Seq<Account>) -> Seq<Seq<u8>> {
    Seq::new(accounts.len(), |i: int| wire_account(accounts[i]))
}

/// A sequence of accounts with its length in front: the identifiers found, in order.
pub open spec fn parse_accounts(bytes: Seq<u8>, cursor: usize) -> Result<
    (Seq<Seq<u8>>, usize),
    DecodeError,
> {
    match parse_length(bytes, cursor) {
        Ok((n, start)) => if start + 32 * n <= bytes.len() {
            Ok(
                (
                    Seq::new(
                        n as nat,
                        |i: int| bytes.subrange(start + 32 * i, start + 32 * i + 32),
                    ),
                    (start + 32 * n) as usize,
                ),
            )
        } else {
            Err(DecodeError::UnexpectedEnd)
        },
        Err(e) => Err(e),
    }
}

/// A buffer is read to its end when the cursor stands at its length.
pub open spec fn parse_end(bytes: Seq<u8>, cursor: usize) -> Result<(), DecodeError> {
    if cursor == bytes.len() {
        Ok(())
    } else if cursor < bytes.len() {
        Err(DecodeError::TrailingBytes)
    } else {
        Err(DecodeError::UnexpectedEnd)
    }
}

/// Takes `width` bytes at `cursor` as one number, if the buffer holds that many.
pub fn decode_uint(bytes: &[u8], cursor: usize, width: usize) -> (r: Result<
    (u128, usize),
    DecodeError,
>)
    requires
        width <= 16,
    ensures
        match r {
            Ok((v, next)) => parse_uint(bytes@, cursor, width) == Ok::<(nat, usize), DecodeError>(
                (v as nat, next),
            ),
            Err(e) => parse_uint(bytes@, cursor, width) == Err::<(nat, usize), DecodeError>(e),
        },
{
    if bytes.len() < width || cursor > bytes.len() - width {
        return Err(DecodeError::UnexpectedEnd);
    }
    let v = read_le(bytes, cursor, width);
    Ok((v, cursor + width))
}

pub fn decode_u8(bytes: &[u8], cursor: usize) -> (r: Result<(u8, usize), DecodeError>)
    ensures
        r == parse_u8(bytes@, cursor),
{
    match decode_uint(bytes, cursor, 1) {
        Ok((v, next)) => {
            proof {
                lemma_le_value_bound(bytes@.subrange(cursor as int, cursor + 1));
                lemma_pow256_values();
            }
            Ok((v as u8, next))
        },
        Err(e) => Err(e),
    }
}

pub fn decode_u32(bytes: &[u8], cursor: usize) -> (r: Result<(u32, usize), DecodeError>)
    ensures
        r == parse_u32(bytes@, cursor),
{
    match decode_uint(bytes, cursor, 4) {
        Ok((v, next)) => {
            proof {
                lemma_le_value_bound(bytes@.subrange(cursor as int, cursor + 4));
                lemma_pow256_values();
            }
            Ok((v as u32, next))
        },
        Err(e) => Err(e),
    }
}

pub fn decode_u64(bytes: &[u8], cursor: usize) -> (r: Result<(u64, usize), DecodeError>)
    ensures
        r == parse_u64(bytes@, cursor),
{
    match decode_uint(bytes, cursor, 8) {
        Ok((v, next)) => {
            proof {
                lemma_le_value_bound(bytes@.subrange(cursor as int, cursor + 8));
                lemma_pow256_values();
            }
            Ok((v as u64, next))
        },
        Err(e) => Err(e),
    }
}

pub fn decode_u128(bytes: &[u8], cursor: usize) -> (r: Result<(u128, usize), DecodeError>)
    ensures
        r == parse_u128(bytes@, cursor),
{
    match decode_uint(bytes, cursor, 16) {
        Ok((v, next)) => Ok((v, next)),
        Err(e) => Err(e),
    }
}

pub fn decode_account(bytes: &[u8], cursor: usize) -> (r: Result<(Account, usize), DecodeError>)
    ensures
        match r {
            Ok((a, next)) => parse_account(bytes@, cursor) == Ok::<(Seq<u8>, usize), DecodeError>(
                (wire_account(a), next),
            ),
            Err(e) => parse_account(bytes@, cursor) == Err::<(Seq<u8>, usize), DecodeError>(e),
        },
{
    if bytes.len() < 32 || cursor > bytes.len() - 32 {
        return Err(DecodeError::UnexpectedEnd);
    }
    let total: usize = bytes.len();
    let mut id: [u8; 32] = [0u8; 32];
    let mut i: usize = 0;
    while i < 32
        invariant
            i <= 32,
            total == bytes@.len(),
            cursor + 32 <= total,
            forall|k: int| 0 <= k < i ==> id@[k] == bytes@[cursor + k],
        decreases 32 - i,
    {
        id[i] = bytes[cursor + i];
        i = i + 1;
    }
    assert(id@ =~= bytes@.subrange(cursor as int, cursor + 32));
    Ok((Account { id }, cursor + 32))
}

pub fn decode_length(bytes: &[u8], cursor: usize) -> (r: Result<(u32, usize), DecodeError>)
    ensures
        r == parse_length(bytes@, cursor),
{
    if cursor >= bytes.len() {
        return Err(DecodeError::UnexpectedEnd);
    }
    let first: u8 = bytes[cursor];
    let mode: u8 = first % 4;
    if mode == 0 {
        Ok(((first / 4) as u32, cursor + 1))
    } else if mode == 1 {
        match decode_uint(bytes, cursor, 2) {
            Ok((x, next)) => {
                proof {
                    lemma_le_value_bound(bytes@.subrange(cursor as int, cursor + 2));
                    lemma_pow256_values();
                }
                if x / 4 < 0x40 {
                    Err(DecodeError::BadLength)
                } else {
                    Ok(((x / 4) as u32, next))
                }
            },
            Err(e) => Err(e),
        }
    } else if mode == 2 {
        match decode_uint(bytes, cursor, 4) {
            Ok((x, next)) => {
                proof {
                    lemma_le_value_bound(bytes@.subrange(cursor as int, cursor + 4));
                    lemma_pow256_values();
                }
                if x / 4 < 0x4000 {
                    Err(DecodeError::BadLength)
                } else {
                    Ok(((x / 4) as u32, next))
                }
            },
            Err(e) => Err(e),
        }
    } else if first != 3 {
        Err(DecodeError::BadLength)
    } else {
        match decode_uint(bytes, cursor + 1, 4) {
            Ok((x, next)) => {
                proof {
                    lemma_le_value_bound(bytes@.subrange(cursor + 1, cursor + 5));
                    lemma_pow256_values();
                }
                if x < 0x4000_0000 {
                    Err(DecodeError::BadLength)
                } else {
                    Ok((x as u32, next))
                }
            },
            Err(e) => Err(e),
        }
    }
}

pub fn decode_presence(bytes: &[u8], cursor: usize) -> (r: Result<(bool, usize), DecodeError>)
    ensures
        r == parse_presence(bytes@, cursor),
{
    if cursor >= bytes.len() {
        Err(DecodeError::UnexpectedEnd)
    } else if bytes[cursor] == 0 {
        Ok((false, cursor + 1))
    } else if bytes[cursor] == 1 {
        Ok((true, cursor + 1))
    } else {
        Err(DecodeError::BadTag)
    }
}

pub fn decode_envelope(bytes: &[u8], cursor: usize, layer: Layer) -> (r: Result<
    usize,
    DecodeError,
>)
    ensures
        r == parse_envelope(bytes@, cursor, layer),
{
    if cursor >= bytes.len() {
        Err(DecodeError::UnexpectedEnd)
    } else if bytes[cursor] == 0 {
        Ok(cursor + 1)
    } else if bytes[cursor] == 1 {
        Err(DecodeError::Failed(layer))
    } else {
        Err(DecodeError::BadTag)
    }
}

/// Reads a run of bytes with its length in front.
pub fn decode_bytes(bytes: &[u8], cursor: usize) -> (r: Result<(Vec<u8>, usize), DecodeError>)
    ensures
        match r {
            Ok((content, next)) => parse_bytes(bytes@, cursor) == Ok::<
                (Seq<u8>, usize),
                DecodeError,
            >((content@, next)),
            Err(e) => parse_bytes(bytes@, cursor) == Err::<(Seq<u8>, usize), DecodeError>(e),
        },
{
    match decode_length(bytes, cursor) {
        Ok((n, start)) => {
            let n: usize = n as usize;
            if start > bytes.len() || n > bytes.len() - start {
                return Err(DecodeError::UnexpectedEnd);
            }
            let total: usize = bytes.len();
            let mut content: Vec<u8> = Vec::new();
            let mut i: usize = 0;
            while i < n
                invariant
                    i <= n,
                    total == bytes@.len(),
                    start + n <= total,
                    content@ == bytes@.subrange(start as int, start + i),
                decreases n - i,
            {
                content.push(bytes[start + i]);
                assert(bytes@.subrange(start as int, start + i + 1) =~= bytes@.subrange(
                    start as int,
                    start + i,
                ).push(bytes@[start + i]));
                i = i + 1;
            }
            Ok((content, start + n))
        },
        Err(e) => Err(e),
    }
}

/// What an optional run of bytes is to the contracts.
pub open spec fn optional_view(content: Option<Vec<u8>>) -> Option<Seq<u8>> {
    match content {
        None => None,
        Some(c) => Some(c@),
    }
}

/// Reads a run of bytes that may be missing.
pub fn decode_optional_bytes(bytes: &[u8], cursor: usize) -> (r: Result<
    (Option<Vec<u8>>, usize),
    DecodeError,
>)
    ensures
        match r {
            Ok((content, next)) => parse_optional_bytes(bytes@, cursor) == Ok::<
                (Option<Seq<u8>>, usize),
                DecodeError,
            >((optional_view(content), next)),
            Err(e) => parse_optional_bytes(bytes@, cursor) == Err::<
                (Option<Seq<u8>>, usize),
                DecodeError,
            >(e),
        },
{
    match decode_presence(bytes, cursor) {
        Ok((present, at)) => {
            if !present {
                Ok((None, at))
            } else {
                match decode_bytes(bytes, at) {
                    Ok((content, next)) => Ok((Some(content), next)),
                    Err(e) => Err(e),
                }
            }
        },
        Err(e) => Err(e),
    }
}

/// Reads a sequence of accounts with its length in front.
pub fn decode_accounts(bytes: &[u8], cursor: usize) -> (r: Result<
    (Vec<Account>, usize),
    DecodeError,
>)
    ensures
        match r {
            Ok((accounts, next)) => parse_accounts(bytes@, cursor) == Ok::<
                (Seq<Seq<u8>>, usize),
                DecodeError,
            >((ids_of(accounts@), next)),
            Err(e) => parse_accounts(bytes@, cursor) == Err::<(Seq<Seq<u8>>, usize), DecodeError>(
                e,
            ),
        },
{
    match decode_length(bytes, cursor) {
        Ok((n, start)) => {
            let total: usize = bytes.len();
            if start > total || 32 * (n as u64) > (total - start) as u64 {
                return Err(DecodeError::UnexpectedEnd);
            }
            let count: usize = n as usize;
            let mut accounts: Vec<Account> = Vec::new();
            let mut at: usize = start;
            let mut i: usize = 0;
            while i < count
                invariant
                    i <= count,
                    total == bytes@.len(),
                    start + 32 * count <= total,
                    at == start + 32 * i,
                    accounts@.len() == i,
                    forall|k: int|
                        0 <= k < i ==> wire_account(#[trigger] accounts@[k]) == bytes@.subrange(
                            start + 32 * k,
                            start + 32 * k + 32,
                        ),
                decreases count - i,
            {
                match decode_account(bytes, at) {
                    Ok((account, next)) => {
                        accounts.push(account);
                        at = next;
                    },
                    Err(e) => {
                        assert(false);
                        return Err(e);
                    },
                }
                i = i + 1;
            }
            assert(ids_of(accounts@) =~= Seq::new(
                n as nat,
                |i: int| bytes@.subrange(start + 32 * i, start + 32 * i + 32),
            ));
            Ok((accounts, at))
        },
        Err(e) => Err(e),
    }
}

/// Succeeds only where the cursor stands at the end of the buffer.
pub fn decode_end(bytes: &[u8], cursor: usize) -> (r: Result<(), DecodeError>)
    ensures
        r == parse_end(bytes@, cursor),
{
    if cursor == bytes.len() {
        Ok(())
    } else if cursor < bytes.len() {
        Err(DecodeError::TrailingBytes)
    } else {
        Err(DecodeError::UnexpectedEnd)
    }
}

} // verus!
