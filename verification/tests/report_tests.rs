use simulation::codec::{Account, DecodeError, Layer};
use simulation::equivalence::{assert_equal, same_account, same_value, Mismatch, Value};
use simulation::report::{
    decimal_text, report_gas, speedup_percent, Record, ReportError, Reporter,
};

#[test]
fn report_lines_of_one_step() {
    let lines = report_gas(1_234_567, 2_469_134, "flipper", "deploy").unwrap();
    assert_eq!(
        lines,
        vec![
            "----------------------------------------".to_string(),
            "[flipper][riscv][deploy]: 1,234,567".to_string(),
            "[flipper][wasm][deploy]: 2,469,134".to_string(),
            "Speedup: 50%".to_string(),
        ]
    );
}

#[test]
fn report_groups_digits_in_threes() {
    let lines = report_gas(u64::MAX, 1000, "router", "add_liquidity").unwrap();
    assert_eq!(lines[1], "[router][riscv][add_liquidity]: 18,446,744,073,709,551,615");
    assert_eq!(lines[2], "[router][wasm][add_liquidity]: 1,000");
    assert_eq!(lines[3], "Speedup: 1844674407370955162%");
    let lines = report_gas(0, 999, "psp22", "balance_of").unwrap();
    assert_eq!(lines[1], "[psp22][riscv][balance_of]: 0");
    assert_eq!(lines[2], "[psp22][wasm][balance_of]: 999");
    assert_eq!(lines[3], "Speedup: 0%");
    let lines = report_gas(100_000, 10_001, "f", "g").unwrap();
    assert_eq!(lines[1], "[f][riscv][g]: 100,000");
    assert_eq!(lines[2], "[f][wasm][g]: 10,001");
    assert_eq!(lines[3], "Speedup: 1000%");
}

#[test]
fn ratio_above_a_hundred_is_reported_as_it_is() {
    let lines = report_gas(300, 100, "flipper", "flip").unwrap();
    assert_eq!(lines.len(), 4);
    assert_eq!(lines[1], "[flipper][riscv][flip]: 300");
    assert_eq!(lines[2], "[flipper][wasm][flip]: 100");
    assert_eq!(lines[3], "Speedup: 300%");
}

#[test]
fn zero_baseline_is_refused() {
    assert_eq!(report_gas(5, 0, "flipper", "flip"), Err(ReportError::ZeroBaseline));
    assert_eq!(speedup_percent(5, 0), Err(ReportError::ZeroBaseline));
    assert_eq!(speedup_percent(0, 0), Err(ReportError::ZeroBaseline));
}

#[test]
fn percent_is_not_clamped() {
    assert_eq!(speedup_percent(50, 100), Ok(50));
    assert_eq!(speedup_percent(100, 100), Ok(100));
    assert_eq!(speedup_percent(250, 100), Ok(250));
    assert_eq!(speedup_percent(0, 7), Ok(0));
    assert_eq!(speedup_percent(u64::MAX, 1), Ok(u64::MAX as u128 * 100));
}

#[test]
fn percent_is_rounded_to_the_nearest() {
    assert_eq!(speedup_percent(1, 3), Ok(33));
    assert_eq!(speedup_percent(2, 3), Ok(67));
    assert_eq!(speedup_percent(1, 8), Ok(12));
    assert_eq!(speedup_percent(3, 8), Ok(38));
    assert_eq!(speedup_percent(5, 8), Ok(62));
    assert_eq!(speedup_percent(999, 1000), Ok(100));
    assert_eq!(speedup_percent(1, 1000), Ok(0));
    assert_eq!(speedup_percent(u64::MAX, u64::MAX), Ok(100));
    assert_eq!(speedup_percent(u64::MAX - 1, u64::MAX), Ok(100));
}

#[test]
fn percent_agrees_with_the_rounded_quotient() {
    for (a, b) in [(1u64, 3u64), (2, 3), (7, 9), (1234, 77), (500_000, 499_999), (3, 7)] {
        let expected = format!("{:.0}", (a as f64 / b as f64) * 100f64);
        assert_eq!(speedup_percent(a, b).unwrap().to_string(), expected);
        assert_eq!(decimal_text(speedup_percent(a, b).unwrap()), expected);
    }
}

#[test]
fn percent_reads_as_cheaper_or_dearer() {
    for (a, b) in [(1u64, 2u64), (99, 100), (100, 99), (7, 7), (u64::MAX - 1, u64::MAX)] {
        let p = speedup_percent(a, b).unwrap();
        assert!(p >= 100 || a < b);
        assert!(p <= 100 || a > b);
        assert!(a != b || p == 100);
    }
}

#[test]
fn decimal_text_of_numbers() {
    assert_eq!(decimal_text(0), "0");
    assert_eq!(decimal_text(9), "9");
    assert_eq!(decimal_text(10), "10");
    assert_eq!(decimal_text(1234567890), "1234567890");
    assert_eq!(decimal_text(u128::MAX), u128::MAX.to_string());
}

#[test]
fn reporter_keeps_pairs_in_order() {
    let mut reporter = Reporter::new();
    assert_eq!(reporter.len(), 0);
    reporter.record("flipper".to_string(), "deploy".to_string(), 10, 20);
    reporter.record("flipper".to_string(), "flip".to_string(), 3, 4);
    assert_eq!(reporter.len(), 2);
    assert_eq!(
        reporter.get(0),
        &Record {
            contract: "flipper".to_string(),
            action: "deploy".to_string(),
            riscv_gas: 10,
            wasm_gas: 20
        }
    );
    assert_eq!(reporter.get(1).action, "flip");
    assert_eq!(reporter.get(1).riscv_gas, 3);
    assert_eq!(reporter.get(1).wasm_gas, 4);
}

#[test]
fn equal_values_agree() {
    assert_eq!(
        assert_equal(Ok(Value::Balance(5)), Ok(Value::Balance(5))),
        Ok(Value::Balance(5))
    );
    let v = Value::Liquidity(1, 2, 3);
    assert_eq!(assert_equal(Ok(v), Ok(v)), Ok(v));
    let a = Value::Address(Account { id: [4; 32] });
    assert_eq!(assert_equal(Ok(a), Ok(a)), Ok(a));
}

#[test]
fn any_difference_is_a_mismatch_with_both_sides() {
    let a = Ok(Value::Liquidity(1, 2, 3));
    let b = Ok(Value::Liquidity(1, 2, 4));
    assert_eq!(assert_equal(a, b), Err(Mismatch { left: a, right: b }));
    assert_eq!(assert_equal(b, a), Err(Mismatch { left: b, right: a }));
    let mut id = [4u8; 32];
    let x = Ok(Value::Address(Account { id }));
    id[31] = 5;
    let y = Ok(Value::Address(Account { id }));
    assert_eq!(assert_equal(x, y), Err(Mismatch { left: x, right: y }));
    let p = Ok(Value::Balance(1));
    let q = Ok(Value::Liquidity(1, 1, 1));
    assert!(assert_equal(p, q).is_err());
}

#[test]
fn failures_never_agree() {
    let a = Err(DecodeError::Failed(Layer::Dispatch));
    let b = Err(DecodeError::Failed(Layer::Application));
    assert_eq!(assert_equal(a, b), Err(Mismatch { left: a, right: b }));
    assert_eq!(assert_equal(a, a), Err(Mismatch { left: a, right: a }));
    let v = Ok(Value::Balance(0));
    assert_eq!(assert_equal(v, a), Err(Mismatch { left: v, right: a }));
    assert_eq!(assert_equal(a, v), Err(Mismatch { left: a, right: v }));
}

#[test]
fn value_and_account_comparison() {
    assert!(same_account(&Account { id: [1; 32] }, &Account { id: [1; 32] }));
    assert!(!same_account(&Account { id: [1; 32] }, &Account { id: [2; 32] }));
    assert!(same_value(&Value::Balance(u128::MAX), &Value::Balance(u128::MAX)));
    assert!(!same_value(&Value::Balance(1), &Value::Balance(2)));
    assert!(!same_value(&Value::Liquidity(0, 0, 1), &Value::Liquidity(0, 1, 0)));
}
