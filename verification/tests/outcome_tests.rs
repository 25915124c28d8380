use simulation::codec::{Account, DecodeError, Layer};
use simulation::equivalence::{Mismatch, Value};
use simulation::outcome::{liquidity_minted, pair_addresses, pool_balance};
use simulation::scenario::{Backend, Fatal, Scenario};
use simulation::script::{composite_script, minimal_script, Step};

fn liquidity_bytes(a: u128, b: u128, c: u128) -> Vec<u8> {
    let mut bytes = vec![0u8, 0];
    bytes.extend_from_slice(&a.to_le_bytes());
    bytes.extend_from_slice(&b.to_le_bytes());
    bytes.extend_from_slice(&c.to_le_bytes());
    bytes
}

fn balance_bytes(v: u128) -> Vec<u8> {
    let mut bytes = vec![0u8];
    bytes.extend_from_slice(&v.to_le_bytes());
    bytes
}

#[test]
fn minted_liquidity_is_the_third_amount() {
    let amount: u128 = 1_000_000 * 10u128.pow(18);
    let bytes = liquidity_bytes(amount, amount, amount - 1000);
    assert_eq!(liquidity_minted(&bytes, &bytes), Ok(amount - 1000));
}

#[test]
fn differing_liquidity_shows_both_sides() {
    let a = liquidity_bytes(1, 2, 3);
    let b = liquidity_bytes(1, 2, 4);
    assert_eq!(
        liquidity_minted(&a, &b),
        Err(Fatal::Mismatch(Mismatch {
            left: Ok(Value::Liquidity(1, 2, 3)),
            right: Ok(Value::Liquidity(1, 2, 4)),
        }))
    );
}

#[test]
fn unreadable_liquidity_names_the_backend() {
    let good = liquidity_bytes(1, 2, 3);
    assert_eq!(
        liquidity_minted(&[1], &good),
        Err(Fatal::Decode(Backend::Riscv, DecodeError::Failed(Layer::Dispatch)))
    );
    assert_eq!(
        liquidity_minted(&good, &[0, 1]),
        Err(Fatal::Decode(Backend::Wasm, DecodeError::Failed(Layer::Application)))
    );
    assert_eq!(
        liquidity_minted(&[1], &[1]),
        Err(Fatal::Decode(Backend::Riscv, DecodeError::Failed(Layer::Dispatch)))
    );
}

#[test]
fn pool_balance_must_be_what_was_minted() {
    let minted: u128 = 999_999_999_999_999_999_999_000;
    assert_eq!(pool_balance(minted, &balance_bytes(minted), &balance_bytes(minted)), Ok(minted));
    assert_eq!(
        pool_balance(minted, &balance_bytes(minted - 1), &balance_bytes(minted)),
        Err(Fatal::Mismatch(Mismatch {
            left: Ok(Value::Balance(minted)),
            right: Ok(Value::Balance(minted - 1)),
        }))
    );
    assert_eq!(
        pool_balance(minted, &balance_bytes(minted), &balance_bytes(0)),
        Err(Fatal::Mismatch(Mismatch {
            left: Ok(Value::Balance(minted)),
            right: Ok(Value::Balance(0)),
        }))
    );
    assert_eq!(
        pool_balance(minted, &balance_bytes(minted), &[0]),
        Err(Fatal::Decode(Backend::Wasm, DecodeError::UnexpectedEnd))
    );
}

#[test]
fn pair_addresses_of_both_backends() {
    let mut a = vec![0u8, 1];
    a.extend_from_slice(&[5; 32]);
    let mut b = vec![0u8, 1];
    b.extend_from_slice(&[6; 32]);
    assert_eq!(pair_addresses(&a, &b), Ok((Account { id: [5; 32] }, Account { id: [6; 32] })));
    assert_eq!(
        pair_addresses(&a, &[0, 0]),
        Err(Fatal::Decode(Backend::Wasm, DecodeError::Missing))
    );
    assert_eq!(
        pair_addresses(&[0, 0], &b),
        Err(Fatal::Decode(Backend::Riscv, DecodeError::Missing))
    );
}

#[test]
fn scripts_of_the_two_scenarios() {
    assert_eq!(minimal_script(), vec![Step::FlipperDeploy, Step::FlipperFlip]);
    let script = composite_script();
    assert_eq!(script.len(), 12);
    assert_eq!(script[0], Step::FactoryDeploy);
    assert_eq!(script[4], Step::RouterDeploy);
    assert_eq!(script[5], Step::SetFeeCollector);
    assert_eq!(script[8], Step::AddLiquidity);
    assert_eq!(script[11], Step::Swap);
    let deploys: Vec<bool> = script.iter().map(|s| s.deploys()).collect();
    assert_eq!(deploys[..5], [true; 5]);
    assert_eq!(deploys[5..], [false; 7]);
}

#[test]
fn labels_of_the_reported_steps() {
    assert_eq!(Step::FlipperDeploy.label(), Some(("flipper", "deploy")));
    assert_eq!(Step::FlipperFlip.label(), Some(("flipper", "flip")));
    assert_eq!(Step::SetFeeCollector.label(), Some(("factory", "set_fee_collector")));
    assert_eq!(Step::IceAllowance.label(), Some(("psp22", "increase_allowance")));
    assert_eq!(Step::WoodAllowance.label(), None);
    assert_eq!(Step::AddLiquidity.label(), Some(("router", "add_liquidity")));
    assert_eq!(Step::GetPair.label(), Some(("factory", "get_pair")));
    assert_eq!(Step::BalanceOf.label(), Some(("psp22", "balance_of")));
    assert_eq!(Step::Swap.label(), Some(("router", "swap_exact_tokens")));
    assert_eq!(Step::FactoryDeploy.label(), None);
    assert_eq!(Step::RouterDeploy.label(), None);
}

#[test]
fn a_script_runs_to_its_end_in_pairs() {
    let script = composite_script();
    let mut s = Scenario::new(script.len(), 0);
    s.advance(simulation::scenario::Event::Begin);
    let mut action = s.advance(simulation::scenario::Event::Start);
    let mut issued: Vec<(usize, Backend)> = Vec::new();
    while let simulation::scenario::Action::Issue { step, backend } = action {
        issued.push((step, backend));
        action = s.advance(simulation::scenario::Event::Done { gas: 1 + step as u64 });
    }
    assert_eq!(action, simulation::scenario::Action::Finish);
    assert_eq!(issued.len(), 24);
    for (i, (step, backend)) in issued.iter().enumerate() {
        assert_eq!(*step, i / 2);
        assert_eq!(*backend, if i % 2 == 0 { Backend::Riscv } else { Backend::Wasm });
    }
    assert_eq!(s.completed_steps(), 12);
    assert_eq!(s.measured(11), (12, 12));
}
