//! The payloads of the steps of the two scenarios. A step is sent to both backends with
//! the payload that one function builds: the two payloads differ only where the
//! addresses and code hashes of the backend's own instances go in.

use crate::call::{Message, PSP22_DECIMALS, PSP22_SUPPLY};
use crate::codec::{
    decode_end, decode_optional_bytes, decode_u128, decode_u8, encode_account, encode_accounts,
    encode_bool, encode_bytes, encode_presence, encode_raw, encode_u128, encode_u64, encode_u8,
    optional_view, parse_end, parse_optional_bytes, parse_u128, parse_u8, wire_account,
    wire_accounts, wire_bool, wire_bytes, wire_length, wire_optional_bytes, wire_presence,
    wire_u128, wire_u64, wire_u8, Account, DecodeError,
};
use crate::roundtrip::{
    lemma_length_round_trip, lemma_optional_bytes_round_trip, lemma_u128_round_trip,
    lemma_u8_round_trip,
};
use crate::wire::lemma_le_bytes_len;
use vstd::prelude::*;

verus! {

/// A payload that holds the selector of `message` and nothing else yet.
pub fn open_call(message: Message) -> (payload: Vec<u8>)
    ensures
        payload@ == message.spec_selector(),
{
    let selector = message.selector();
    let mut payload: Vec<u8> = Vec::new();
    encode_raw(selector.as_slice(), &mut payload);
    assert(payload@ =~= message.spec_selector());
    payload
}

/// Deploys the toggle contract with its first value.
pub open spec fn spec_flipper_deploy_payload(initial: bool) -> Seq<u8> {
    Message::New.spec_selector() + wire_bool(initial)
}

/// Builds what `spec_flipper_deploy_payload` describes.
pub fn flipper_deploy_payload(initial: bool) -> (payload: Vec<u8>)
    ensures
        payload@ == spec_flipper_deploy_payload(initial),
{
    let mut payload = open_call(Message::New);
    encode_bool(initial, &mut payload);
    payload
}

/// Toggles the stored value. The message takes no argument.
pub open spec fn spec_flip_payload() -> Seq<u8> {
    Message::Flip.spec_selector()
}

/// Builds what `spec_flip_payload` describes.
pub fn flip_payload() -> (payload: Vec<u8>)
    ensures
        payload@ == spec_flip_payload(),
{
    open_call(Message::Flip)
}

/// Deploys the factory: who may set the fee collector, and the hash of the pair's code.
pub open spec fn spec_factory_setup_payload(
    fee_to_setter: Account,
    pair_code_hash: Seq<u8>,
) -> Seq<u8> {
    Message::New.spec_selector() + wire_account(fee_to_setter) + pair_code_hash
}

/// Builds what `spec_factory_setup_payload` describes.
pub fn factory_setup_payload(fee_to_setter: &Account, pair_code_hash: &[u8; 32]) -> (payload: Vec<
    u8,
>)
    ensures
        payload@ == spec_factory_setup_payload(*fee_to_setter, pair_code_hash@),
{
    let mut payload = open_call(Message::New);
    encode_account(fee_to_setter, &mut payload);
    encode_raw(pair_code_hash.as_slice(), &mut payload);
    payload
}

/// Deploys a token: supply, name, symbol (the name again) and decimals.
pub open spec fn spec_psp22_setup_payload(name: Seq<u8>) -> Seq<u8> {
    Message::New.spec_selector() + wire_u128(PSP22_SUPPLY) + wire_presence(true)
        + wire_bytes(name) + wire_presence(true) + wire_bytes(name) + wire_u8(PSP22_DECIMALS)
}

/// Builds what `spec_psp22_setup_payload` describes.
pub fn psp22_setup_payload(name: &[u8]) -> (payload: Vec<u8>)
    requires
        name@.len() <= u32::MAX,
    ensures
        payload@ == spec_psp22_setup_payload(name@),
{
    let mut payload = open_call(Message::New);
    encode_u128(PSP22_SUPPLY, &mut payload);
    encode_presence(true, &mut payload);
    encode_bytes(name, &mut payload);
    encode_presence(true, &mut payload);
    encode_bytes(name, &mut payload);
    encode_u8(PSP22_DECIMALS, &mut payload);
    payload
}

/// Deploys the wrapped native asset. The constructor takes no argument.
pub open spec fn spec_wazero_setup_payload() -> Seq<u8> {
    Message::New.spec_selector()
}

/// Builds what `spec_wazero_setup_payload` describes.
pub fn wazero_setup_payload() -> (payload: Vec<u8>)
    ensures
        payload@ == spec_wazero_setup_payload(),
{
    open_call(Message::New)
}

/// Deploys the router, which refers to the factory and to the wrapped native asset.
pub open spec fn spec_router_setup_payload(factory: Account, wazero: Account) -> Seq<u8> {
    Message::New.spec_selector() + wire_account(factory) + wire_account(wazero)
}

/// Builds what `spec_router_setup_payload` describes.
pub fn router_setup_payload(factory: &Account, wazero: &Account) -> (payload: Vec<u8>)
    ensures
        payload@ == spec_router_setup_payload(*factory, *wazero),
{
    let mut payload = open_call(Message::New);
    encode_account(factory, &mut payload);
    encode_account(wazero, &mut payload);
    payload
}

/// Names the account that collects the fees.
pub open spec fn spec_set_fee_collector_payload(collector: Account) -> Seq<u8> {
    Message::SetFeeCollector.spec_selector() + wire_account(collector)
}

/// Builds what `spec_set_fee_collector_payload` describes.
pub fn set_fee_collector_payload(collector: &Account) -> (payload: Vec<u8>)
    ensures
        payload@ == spec_set_fee_collector_payload(*collector),
{
    let mut payload = open_call(Message::SetFeeCollector);
    encode_account(collector, &mut payload);
    payload
}

/// Lets `router` take up to `allowance` more of the caller's tokens.
pub open spec fn spec_psp22_increase_allowance_payload(
    router: Account,
    allowance: u128,
) -> Seq<u8> {
    Message::IncreaseAllowance.spec_selector() + wire_account(router) + wire_u128(allowance)
}

/// Builds what `spec_psp22_increase_allowance_payload` describes.
pub fn psp22_increase_allowance_payload(router: &Account, allowance: u128) -> (payload: Vec<u8>)
    ensures
        payload@ == spec_psp22_increase_allowance_payload(*router, allowance),
{
    let mut payload = open_call(Message::IncreaseAllowance);
    encode_account(router, &mut payload);
    encode_u128(allowance, &mut payload);
    payload
}

/// Adds liquidity: the two tokens, the desired amount of each, the least amount of each,
/// the receiver of the pool tokens and the deadline.
pub open spec fn spec_router_add_liquidity_payload(
    ice: Account,
    wood: Account,
    desired_token_amount: u128,
    min_token_amount: u128,
    caller: Account,
    deadline: u64,
) -> Seq<u8> {
    Message::AddLiquidity.spec_selector() + wire_account(ice) + wire_account(wood)
        + wire_u128(desired_token_amount) + wire_u128(desired_token_amount)
        + wire_u128(min_token_amount) + wire_u128(min_token_amount) + wire_account(caller)
        + wire_u64(deadline)
}

/// Builds what `spec_router_add_liquidity_payload` describes.
pub fn router_add_liquidity_payload(
    ice: &Account,
    wood: &Account,
    desired_token_amount: u128,
    min_token_amount: u128,
    caller: &Account,
    deadline: u64,
) -> (payload: Vec<u8>)
    ensures
        payload@ == spec_router_add_liquidity_payload(
            *ice,
            *wood,
            desired_token_amount,
            min_token_amount,
            *caller,
            deadline,
        ),
{
    let mut payload = open_call(Message::AddLiquidity);
    encode_account(ice, &mut payload);
    encode_account(wood, &mut payload);
    encode_u128(desired_token_amount, &mut payload);
    encode_u128(desired_token_amount, &mut payload);
    encode_u128(min_token_amount, &mut payload);
    encode_u128(min_token_amount, &mut payload);
    encode_account(caller, &mut payload);
    encode_u64(deadline, &mut payload);
    payload
}

/// Asks the factory for the pair of two tokens.
pub open spec fn spec_get_pair_payload(ice: Account, wood: Account) -> Seq<u8> {
    Message::GetPair.spec_selector() + wire_account(ice) + wire_account(wood)
}

/// Builds what `spec_get_pair_payload` describes.
pub fn get_pair_payload(ice: &Account, wood: &Account) -> (payload: Vec<u8>)
    ensures
        payload@ == spec_get_pair_payload(*ice, *wood),
{
    let mut payload = open_call(Message::GetPair);
    encode_account(ice, &mut payload);
    encode_account(wood, &mut payload);
    payload
}

/// Asks a token for the balance of `owner`.
pub open spec fn spec_psp22_balance_of_payload(owner: Account) -> Seq<u8> {
    Message::BalanceOf.spec_selector() + wire_account(owner)
}

/// Builds what `spec_psp22_balance_of_payload` describes.
pub fn psp22_balance_of_payload(owner: &Account) -> (payload: Vec<u8>)
    ensures
        payload@ == spec_psp22_balance_of_payload(*owner),
{
    let mut payload = open_call(Message::BalanceOf);
    encode_account(owner, &mut payload);
    payload
}

/// Swaps `amount_in` along `path`, for at least `min_amount_out`, to `receiver`.
pub open spec fn spec_swap_exact_tokens_payload(
    amount_in: u128,
    min_amount_out: u128,
    path: Seq<Account>,
    receiver: Account,
    deadline: u64,
) -> Seq<u8> {
    Message::SwapExactTokens.spec_selector() + wire_u128(amount_in) + wire_u128(min_amount_out)
        + wire_accounts(path) + wire_account(receiver) + wire_u64(deadline)
}

/// Builds what `spec_swap_exact_tokens_payload` describes.
pub fn swap_exact_tokens_payload(
    amount_in: u128,
    min_amount_out: u128,
    path: &Vec<Account>,
    receiver: &Account,
    deadline: u64,
) -> (payload: Vec<u8>)
    requires
        path@.len() <= u32::MAX,
    ensures
        payload@ == spec_swap_exact_tokens_payload(
            amount_in,
            min_amount_out,
            path@,
            *receiver,
            deadline,
        ),
{
    let mut payload = open_call(Message::SwapExactTokens);
    encode_u128(amount_in, &mut payload);
    encode_u128(min_amount_out, &mut payload);
    encode_accounts(path, &mut payload);
    encode_account(receiver, &mut payload);
    encode_u64(deadline, &mut payload);
    payload
}

/// What a token constructor's payload holds behind its selector: supply, name, symbol
/// and decimals, and nothing after them.
pub open spec fn parse_psp22_setup(payload: Seq<u8>) -> Result<
    (u128, Option<Seq<u8>>, Option<Seq<u8>>, u8),
    DecodeError,
> {
    match parse_u128(payload, 4) {
        Err(e) => Err(e),
        Ok((supply, at)) => match parse_optional_bytes(payload, at) {
            Err(e) => Err(e),
            Ok((name, at)) => match parse_optional_bytes(payload, at) {
                Err(e) => Err(e),
                Ok((symbol, at)) => match parse_u8(payload, at) {
                    Err(e) => Err(e),
                    Ok((decimals, end)) => match parse_end(payload, end) {
                        Err(e) => Err(e),
                        Ok(_) => Ok((supply, name, symbol, decimals)),
                    },
                },
            },
        },
    }
}

/// Reads the arguments of a token constructor back out of its payload.
pub fn decode_psp22_setup(payload: &[u8]) -> (r: Result<
    (u128, Option<Vec<u8>>, Option<Vec<u8>>, u8),
    DecodeError,
>)
    ensures
        match r {
            Ok((supply, name, symbol, decimals)) => parse_psp22_setup(payload@) == Ok::<
                (u128, Option<Seq<u8>>, Option<Seq<u8>>, u8),
                DecodeError,
            >((supply, optional_view(name), optional_view(symbol), decimals)),
            Err(e) => parse_psp22_setup(payload@) == Err::<
                (u128, Option<Seq<u8>>, Option<Seq<u8>>, u8),
                DecodeError,
            >(e),
        },
{
    let (supply, at) = decode_u128(payload, 4)?;
    let (name, at) = decode_optional_bytes(payload, at)?;
    let (symbol, at) = decode_optional_bytes(payload, at)?;
    let (decimals, end) = decode_u8(payload, at)?;
    decode_end(payload, end)?;
    Ok((supply, name, symbol, decimals))
}

/// Round trip of the token constructor's arguments: read behind the selector, the
/// payload gives the supply, the name twice and the decimals, and no byte is left. The
/// payload does not depend on the backend.
pub proof fn lemma_psp22_setup_round_trip(name: Seq<u8>)
    requires
        name.len() <= u32::MAX,
        2 * name.len() + 33 <= usize::MAX,
    ensures
        parse_psp22_setup(spec_psp22_setup_payload(name)) == Ok::<
            (u128, Option<Seq<u8>>, Option<Seq<u8>>, u8),
            DecodeError,
        >((PSP22_SUPPLY, Some(name), Some(name), PSP22_DECIMALS)),
{
    let selector = Message::New.spec_selector();
    let supply = wire_u128(PSP22_SUPPLY);
    let text = wire_optional_bytes(Some(name));
    let decimals = wire_u8(PSP22_DECIMALS);
    let payload = spec_psp22_setup_payload(name);
    let empty = Seq::<u8>::empty();
    assert(selector.len() == 4);
    lemma_le_bytes_len(PSP22_SUPPLY as nat, 16);
    lemma_le_bytes_len(PSP22_DECIMALS as nat, 1);
    lemma_length_round_trip(name.len() as u32, empty, empty);
    assert(text.len() == 1 + wire_length(name.len() as u32).len() + name.len());
    assert(payload =~= selector + supply + text + text + decimals);
    lemma_u128_round_trip(PSP22_SUPPLY, selector, text + text + decimals);
    assert(payload =~= selector + supply + (text + text + decimals));
    lemma_optional_bytes_round_trip(Some(name), selector + supply, text + decimals);
    assert(payload =~= (selector + supply) + text + (text + decimals));
    lemma_optional_bytes_round_trip(Some(name), selector + supply + text, decimals);
    assert(payload =~= (selector + supply + text) + text + decimals);
    lemma_u8_round_trip(PSP22_DECIMALS, selector + supply + text + text, empty);
    assert(payload =~= (selector + supply + text + text) + decimals + empty);
}

} // verus!
