//! What the benchmark reports: the metering of both backends for each step, side by
//! side, and how the one compares to the other.

use vstd::prelude::*;
use vstd::string::*;

verus! {

/// Why a pair of meterings cannot be reported.
#[derive(Clone, Copy, Debug, PartialEq, Eq)]
pub enum ReportError {
    /// The metering that the ratio divides by is zero.
    ZeroBaseline,
}

/// The metering of one step on both backends. A record never stands for one backend
/// alone.
#[derive(Clone, Debug, PartialEq, Eq)]
pub struct Record {
    pub contract: String,
    pub action: String,
    pub riscv_gas: u64,
    pub wasm_gas: u64,
}

/// The records of a run, in the order in which the steps were measured.
pub struct Reporter {
    records: Vec<Record>,
}

/// The character of a decimal digit.
pub open spec fn digit(d: nat) -> char {
    ((48 + d) as u8) as char
}

/// A number in decimal, without leading zeros.
pub open spec fn decimal(n: nat) -> Seq<char>
    decreases n,
{
    if n < 10 {
        seq![digit(n)]
    } else {
        decimal(n / 10).push(digit(n % 10))
    }
}

/// A number in decimal with a comma in front of every group of three digits but the
/// first: 1234567 reads "1,234,567".
pub open spec fn grouped(n: nat) -> Seq<char>
    decreases n,
{
    if n < 1000 {
        decimal(n)
    } else {
        grouped(n / 1000) + seq![',', digit(n / 100 % 10), digit(n / 10 % 10), digit(n % 10)]
    }
}

/// One line of the report: contract, backend tag, action, and the metering in groups
/// of three digits.
pub open spec fn gas_line(
    contract: Seq<char>,
    tag: Seq<char>,
    action: Seq<char>,
    gas: u64,
) -> Seq<char> {
    "["@ + contract + "]"@ + tag + "["@ + action + "]: "@ + grouped(gas as nat)
}

/// Calls `num_format::Buffer::write_formatted` with `num_format::Locale::en` and hands
/// back the buffer's text. Believed, not proved: for that locale the crate writes the
/// number in decimal and separates groups of three digits by a comma.
#[verifier::external_body]
fn format_gas(gas: u64) -> (text: String)
    ensures
        text@ == grouped(gas as nat),
{
    let mut buf = num_format::Buffer::default();
    buf.write_formatted(&gas, &num_format::Locale::en);
    buf.as_str().to_string()
}

fn line_of(contract: &str, tag: &str, action: &str, gas: u64) -> (line: String)
    ensures
        line@ == gas_line(contract@, tag@, action@, gas),
{
    let mut line = String::from_str("[");
    line.append(contract);
    line.append("]");
    line.append(tag);
    line.append("[");
    line.append(action);
    line.append("]: ");
    let amount = format_gas(gas);
    line.append(amount.as_str());
    line
}

/// The text of one decimal digit.
fn digit_text(d: u128) -> (text: &'static str)
    requires
        d < 10,
    ensures
        text@ == seq![digit(d as nat)],
{
    proof {
        reveal_strlit("0");
        reveal_strlit("1");
        reveal_strlit("2");
        reveal_strlit("3");
        reveal_strlit("4");
        reveal_strlit("5");
        reveal_strlit("6");
        reveal_strlit("7");
        reveal_strlit("8");
        reveal_strlit("9");
    }
    let text = if d == 0 {
        "0"
    } else if d == 1 {
        "1"
    } else if d == 2 {
        "2"
    } else if d == 3 {
        "3"
    } else if d == 4 {
        "4"
    } else if d == 5 {
        "5"
    } else if d == 6 {
        "6"
    } else if d == 7 {
        "7"
    } else if d == 8 {
        "8"
    } else {
        "9"
    };
    assert(text@ =~= seq![digit(d as nat)]);
    text
}

/// A number in decimal, without leading zeros and without separators.
pub fn decimal_text(n: u128) -> (text: String)
    ensures
        text@ == decimal(n as nat),
    decreases n,
{
    if n < 10 {
        String::from_str(digit_text(n))
    } else {
        let mut text = decimal_text(n / 10);
        text.append(digit_text(n % 10));
        assert(text@ =~= decimal((n / 10) as nat).push(digit((n % 10) as nat)));
        text
    }
}

/// The metering of the native backend as a percentage of that of the bytecode backend:
/// a hundred times the one over the other, rounded to the nearest whole number (a half
/// goes to the even neighbour) and not clamped.
pub open spec fn percent(riscv_gas: u64, wasm_gas: u64) -> nat
    recommends
        wasm_gas != 0,
{
    let scaled = (riscv_gas as nat) * 100;
    let whole = scaled / (wasm_gas as nat);
    let rest = scaled % (wasm_gas as nat);
    if 2 * rest > wasm_gas || (2 * rest == wasm_gas && whole % 2 == 1) {
        whole + 1
    } else {
        whole
    }
}

/// The line that compares the two backends.
pub open spec fn speedup_line(riscv_gas: u64, wasm_gas: u64) -> Seq<char> {
    "Speedup: "@ + decimal(percent(riscv_gas, wasm_gas)) + "%"@
}

/// What is reported of one step: a rule, one line for each backend, and the comparison.
pub open spec fn report_lines(
    riscv_gas: u64,
    wasm_gas: u64,
    contract: Seq<char>,
    action: Seq<char>,
) -> Seq<Seq<char>> {
    seq![
        "----------------------------------------"@,
        gas_line(contract, "[riscv]"@, action, riscv_gas),
        gas_line(contract, "[wasm]"@, action, wasm_gas),
        speedup_line(riscv_gas, wasm_gas),
    ]
}

/// The percentage of the native backend's metering over the bytecode backend's. A zero
/// metering of the bytecode backend, by which the comparison divides, is refused.
pub fn speedup_percent(riscv_gas: u64, wasm_gas: u64) -> (r: Result<u128, ReportError>)
    ensures
        wasm_gas == 0 ==> r == Err::<u128, ReportError>(ReportError::ZeroBaseline),
        wasm_gas != 0 ==> r is Ok && r->Ok_0 as nat == percent(riscv_gas, wasm_gas),
{
    if wasm_gas == 0 {
        return Err(ReportError::ZeroBaseline);
    }
    let scaled: u128 = (riscv_gas as u128) * 100;
    let base: u128 = wasm_gas as u128;
    let whole: u128 = scaled / base;
    let rest: u128 = scaled % base;
    assert(whole <= scaled) by (nonlinear_arith)
        requires
            whole == scaled / base,
            base >= 1,
    ;
    if 2 * rest > base || (2 * rest == base && whole % 2 == 1) {
        Ok(whole + 1)
    } else {
        Ok(whole)
    }
}

/// The lines that report one step, in this order: a rule, the line of the native
/// backend, the line of the bytecode backend, and the line that compares them. A zero
/// metering of the bytecode backend, by which the comparison divides, is refused.
pub fn report_gas(riscv_gas: u64, wasm_gas: u64, contract: &str, action: &str) -> (r: Result<
    Vec<String>,
    ReportError,
>)
    ensures
        wasm_gas == 0 ==> r == Err::<Vec<String>, ReportError>(ReportError::ZeroBaseline),
        wasm_gas != 0 ==> r is Ok && r->Ok_0@.len() == 4 && forall|i: int|
            0 <= i < 4 ==> (#[trigger] r->Ok_0@[i])@ == report_lines(
                riscv_gas,
                wasm_gas,
                contract@,
                action@,
            )[i],
{
    let ratio: u128 = match speedup_percent(riscv_gas, wasm_gas) {
        Ok(ratio) => ratio,
        Err(e) => {
            return Err(e);
        },
    };
    let mut speedup = String::from_str("Speedup: ");
    let number = decimal_text(ratio);
    speedup.append(number.as_str());
    speedup.append("%");
    let mut lines: Vec<String> = Vec::new();
    lines.push(String::from_str("----------------------------------------"));
    lines.push(line_of(contract, "[riscv]", action, riscv_gas));
    lines.push(line_of(contract, "[wasm]", action, wasm_gas));
    lines.push(speedup);
    Ok(lines)
}

/// The percentage is less than one away from a hundred times the one metering over the
/// other. Under a hundred it says that the native backend is the cheaper one, over a
/// hundred that it is the dearer one, and equal meterings give exactly a hundred.
pub proof fn lemma_percent_reads(riscv_gas: u64, wasm_gas: u64)
    requires
        wasm_gas != 0,
    ensures
        percent(riscv_gas, wasm_gas) * wasm_gas - 100 * riscv_gas < wasm_gas,
        100 * riscv_gas - percent(riscv_gas, wasm_gas) * wasm_gas < wasm_gas,
        percent(riscv_gas, wasm_gas) < 100 ==> riscv_gas < wasm_gas,
        percent(riscv_gas, wasm_gas) > 100 ==> riscv_gas > wasm_gas,
        riscv_gas == wasm_gas ==> percent(riscv_gas, wasm_gas) == 100,
{
    let a = riscv_gas as int;
    let b = wasm_gas as int;
    let scaled = a * 100;
    let whole = scaled / b;
    let rest = scaled % b;
    let p = percent(riscv_gas, wasm_gas) as int;
    vstd::arithmetic::div_mod::lemma_fundamental_div_mod(scaled, b);
    assert(scaled == b * whole + rest);
    assert(0 <= rest < b);
    assert(0 <= whole) by (nonlinear_arith)
        requires
            scaled == b * whole + rest,
            0 <= rest < b,
            scaled >= 0,
            b > 0,
    ;
    assert(p == whole || p == whole + 1);
    assert(p * b == whole * b || p * b == whole * b + b) by (nonlinear_arith)
        requires
            p == whole || p == whole + 1,
    ;
    assert(b * whole == whole * b) by (nonlinear_arith);
    if p < 100 {
        assert(whole * b <= 99 * b) by (nonlinear_arith)
            requires
                whole <= 99,
                b > 0,
        ;
    }
    if p > 100 {
        assert(whole * b >= 100 * b) by (nonlinear_arith)
            requires
                whole >= 100,
                b > 0,
        ;
    }
    if a == b {
        assert(whole == 100 && rest == 0) by (nonlinear_arith)
            requires
                100 * b == b * whole + rest,
                0 <= rest < b,
        ;
    }
}

impl Reporter {
    /// The records so far.
    pub closed spec fn view(&self) -> Seq<Record> {
        self.records@
    }

    pub fn new() -> (r: Reporter)
        ensures
            r@ == Seq::<Record>::empty(),
    {
        Reporter { records: Vec::new() }
    }

    /// Adds the metering of one step on both backends.
    pub fn record(&mut self, contract: String, action: String, riscv_gas: u64, wasm_gas: u64)
        ensures
            final(self)@ == old(self)@.push(
                (Record { contract, action, riscv_gas, wasm_gas }),
            ),
    {
        self.records.push(Record { contract, action, riscv_gas, wasm_gas });
    }

    pub fn len(&self) -> (n: usize)
        ensures
            n == self@.len(),
    {
        self.records.len()
    }

    pub fn get(&self, i: usize) -> (r: &Record)
        requires
            i < self@.len(),
        ensures
            *r == self@[i as int],
    {
        &self.records[i]
    }
}

} // verus!
