use simulation::call::{build_call, Arg, Message, PSP22_DECIMALS, PSP22_SUPPLY};
use simulation::codec::Account;
use simulation::codec::DecodeError;
use simulation::messages::{
    decode_psp22_setup,
    factory_setup_payload, flip_payload, flipper_deploy_payload, get_pair_payload, open_call,
    psp22_balance_of_payload, psp22_increase_allowance_payload, psp22_setup_payload,
    router_add_liquidity_payload, router_setup_payload, set_fee_collector_payload,
    swap_exact_tokens_payload, wazero_setup_payload,
};

const BOB: Account = Account { id: [1; 32] };
const CHARLIE: Account = Account { id: [3; 32] };

#[test]
fn selectors_are_the_given_constants() {
    assert_eq!(Message::New.selector(), [155, 174, 157, 94]);
    assert_eq!(Message::Flip.selector(), [99, 58, 165, 81]);
    assert_eq!(Message::SetFeeCollector.selector(), [62, 242, 5, 167]);
    assert_eq!(Message::IncreaseAllowance.selector(), [150, 214, 181, 122]);
    assert_eq!(Message::AddLiquidity.selector(), [165, 183, 213, 151]);
    assert_eq!(Message::GetPair.selector(), [69, 163, 192, 246]);
    assert_eq!(Message::BalanceOf.selector(), [101, 104, 56, 47]);
    assert_eq!(Message::SwapExactTokens.selector(), [175, 10, 136, 54]);
}

#[test]
fn constructor_selector_and_limit() {
    assert_eq!(simulation::NEW_SELECTOR, [155, 174, 157, 94]);
    assert_eq!(simulation::NEW_SELECTOR, Message::New.selector());
    assert_eq!(simulation::GAS_LIMIT, 500_000_000_000);
    let payload = [simulation::NEW_SELECTOR.to_vec(), vec![1]].concat();
    assert_eq!(payload, build_call(simulation::NEW_SELECTOR, &vec![Arg::Flag(true)]));
}

#[test]
fn constants_of_the_token() {
    assert_eq!(PSP22_SUPPLY, 1_000_000_000u128 * 10u128.pow(18));
    assert_eq!(PSP22_DECIMALS, 18);
}

#[test]
fn call_without_arguments_is_the_selector() {
    assert_eq!(build_call([99, 58, 165, 81], &vec![]), vec![99, 58, 165, 81]);
    assert_eq!(flip_payload(), vec![99, 58, 165, 81]);
    assert_eq!(wazero_setup_payload(), vec![155, 174, 157, 94]);
    assert_eq!(open_call(Message::GetPair), vec![69, 163, 192, 246]);
}

#[test]
fn flipper_is_deployed_with_true() {
    assert_eq!(flipper_deploy_payload(true), vec![155, 174, 157, 94, 1]);
    assert_eq!(flipper_deploy_payload(false), vec![155, 174, 157, 94, 0]);
    assert_eq!(
        build_call(Message::New.selector(), &vec![Arg::Flag(true)]),
        flipper_deploy_payload(true)
    );
}

#[test]
fn arguments_follow_in_order() {
    let payload = build_call(
        [1, 2, 3, 4],
        &vec![Arg::U8(5), Arg::U32(6), Arg::U64(7), Arg::U128(u128::MAX)],
    );
    let mut expected = vec![1, 2, 3, 4, 5, 6, 0, 0, 0, 7, 0, 0, 0, 0, 0, 0, 0];
    expected.extend_from_slice(&[0xff; 16]);
    assert_eq!(payload, expected);
    let swapped = build_call(
        [1, 2, 3, 4],
        &vec![Arg::U32(6), Arg::U8(5), Arg::U64(7), Arg::U128(u128::MAX)],
    );
    assert_ne!(payload, swapped);
}

#[test]
fn every_argument_shape() {
    let payload = build_call(
        [0, 0, 0, 0],
        &vec![
            Arg::Account(BOB),
            Arg::Hash([7; 32]),
            Arg::Accounts(vec![BOB, CHARLIE]),
            Arg::Text(b"ICE".to_vec()),
            Arg::OptionalText(None),
            Arg::OptionalText(Some(b"ICE".to_vec())),
        ],
    );
    let mut expected = vec![0u8; 4];
    expected.extend_from_slice(&[1; 32]);
    expected.extend_from_slice(&[7; 32]);
    expected.push(8);
    expected.extend_from_slice(&[1; 32]);
    expected.extend_from_slice(&[3; 32]);
    expected.extend_from_slice(&[12, b'I', b'C', b'E']);
    expected.push(0);
    expected.extend_from_slice(&[1, 12, b'I', b'C', b'E']);
    assert_eq!(payload, expected);
}

#[test]
fn token_constructor() {
    let payload = psp22_setup_payload(b"ICE");
    let mut expected = vec![155, 174, 157, 94];
    expected.extend_from_slice(&PSP22_SUPPLY.to_le_bytes());
    expected.extend_from_slice(&[1, 12, b'I', b'C', b'E']);
    expected.extend_from_slice(&[1, 12, b'I', b'C', b'E']);
    expected.push(18);
    assert_eq!(payload, expected);
}

#[test]
fn factory_and_router_constructors() {
    let mut expected = vec![155, 174, 157, 94];
    expected.extend_from_slice(&[1; 32]);
    expected.extend_from_slice(&[0xab; 32]);
    assert_eq!(factory_setup_payload(&BOB, &[0xab; 32]), expected);
    let mut expected = vec![155, 174, 157, 94];
    expected.extend_from_slice(&[1; 32]);
    expected.extend_from_slice(&[3; 32]);
    assert_eq!(router_setup_payload(&BOB, &CHARLIE), expected);
}

#[test]
fn fee_collector_and_balance_query() {
    let mut expected = vec![62, 242, 5, 167];
    expected.extend_from_slice(&[3; 32]);
    assert_eq!(set_fee_collector_payload(&CHARLIE), expected);
    let mut expected = vec![101, 104, 56, 47];
    expected.extend_from_slice(&[1; 32]);
    assert_eq!(psp22_balance_of_payload(&BOB), expected);
}

#[test]
fn allowance_of_the_largest_amount() {
    let mut expected = vec![150, 214, 181, 122];
    expected.extend_from_slice(&[3; 32]);
    expected.extend_from_slice(&[0xff; 16]);
    assert_eq!(psp22_increase_allowance_payload(&CHARLIE, u128::MAX), expected);
}

#[test]
fn add_liquidity_repeats_each_amount() {
    let amount: u128 = 1_000_000 * 10u128.pow(18);
    let ice = Account { id: [5; 32] };
    let wood = Account { id: [6; 32] };
    let mut expected = vec![165, 183, 213, 151];
    expected.extend_from_slice(&[5; 32]);
    expected.extend_from_slice(&[6; 32]);
    for _ in 0..4 {
        expected.extend_from_slice(&amount.to_le_bytes());
    }
    expected.extend_from_slice(&[1; 32]);
    expected.extend_from_slice(&10u64.to_le_bytes());
    assert_eq!(router_add_liquidity_payload(&ice, &wood, amount, amount, &BOB, 10), expected);
}

#[test]
fn both_backends_get_the_same_bytes_but_for_the_handles() {
    let amount: u128 = 1_000_000 * 10u128.pow(18);
    let a = router_add_liquidity_payload(
        &Account { id: [5; 32] },
        &Account { id: [6; 32] },
        amount,
        amount,
        &BOB,
        10,
    );
    let b = router_add_liquidity_payload(
        &Account { id: [8; 32] },
        &Account { id: [9; 32] },
        amount,
        amount,
        &BOB,
        10,
    );
    assert_eq!(a.len(), b.len());
    assert_eq!(&a[..4], &b[..4]);
    assert_eq!(&a[68..], &b[68..]);
}

#[test]
fn pair_query_and_swap() {
    let ice = Account { id: [5; 32] };
    let wood = Account { id: [6; 32] };
    let mut expected = vec![69, 163, 192, 246];
    expected.extend_from_slice(&[5; 32]);
    expected.extend_from_slice(&[6; 32]);
    assert_eq!(get_pair_payload(&ice, &wood), expected);

    let amount: u128 = 10_000 * 10u128.pow(18);
    let mut expected = vec![175, 10, 136, 54];
    expected.extend_from_slice(&amount.to_le_bytes());
    expected.extend_from_slice(&0u128.to_le_bytes());
    expected.push(8);
    expected.extend_from_slice(&[5; 32]);
    expected.extend_from_slice(&[6; 32]);
    expected.extend_from_slice(&[1; 32]);
    expected.extend_from_slice(&10u64.to_le_bytes());
    assert_eq!(swap_exact_tokens_payload(amount, 0, &vec![ice, wood], &BOB, 10), expected);
}

#[test]
fn token_constructor_round_trip() {
    let long = "a name of more than sixty-three bytes, so that its length takes two bytes";
    for name in ["ICE", "WOOD", "", long] {
        let payload = psp22_setup_payload(name.as_bytes());
        let decoded = decode_psp22_setup(&payload).unwrap();
        let text = Some(name.as_bytes().to_vec());
        assert_eq!(decoded, (1_000_000_000u128 * 10u128.pow(18), text.clone(), text, 18));
        assert_eq!(String::from_utf8(decoded.1.unwrap()).unwrap(), name);
    }
}

#[test]
fn token_constructor_with_stray_or_missing_bytes() {
    let mut payload = psp22_setup_payload(b"ICE");
    payload.push(0);
    assert_eq!(decode_psp22_setup(&payload), Err(DecodeError::TrailingBytes));
    payload.truncate(payload.len() - 2);
    assert_eq!(decode_psp22_setup(&payload), Err(DecodeError::UnexpectedEnd));
    assert_eq!(decode_psp22_setup(&[155, 174, 157, 94]), Err(DecodeError::UnexpectedEnd));
}
