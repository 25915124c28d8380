//! The two built-in scenarios as scripts: which steps, in which order, and under which
//! names their meterings are reported.

use vstd::prelude::*;

verus! {

/// One step of a scenario. Each is sent to both backends.
#[derive(Clone, Copy, Debug, PartialEq, Eq)]
pub enum Step {
    FlipperDeploy,
    FlipperFlip,
    FactoryDeploy,
    IceDeploy,
    WoodDeploy,
    WazeroDeploy,
    RouterDeploy,
    SetFeeCollector,
    IceAllowance,
    WoodAllowance,
    AddLiquidity,
    GetPair,
    BalanceOf,
    Swap,
}

impl Step {
    /// Whether the step instantiates a contract; every other step is a call.
    pub open spec fn spec_deploys(self) -> bool {
        self == Step::FlipperDeploy || self == Step::FactoryDeploy || self == Step::IceDeploy
            || self == Step::WoodDeploy || self == Step::WazeroDeploy || self
            == Step::RouterDeploy
    }

    /// The contract and the action under which the step's meterings are reported, for
    /// the steps that are reported at all.
    pub open spec fn spec_label(self) -> Option<(Seq<char>, Seq<char>)> {
        match self {
            Step::FlipperDeploy => Some(("flipper"@, "deploy"@)),
            Step::FlipperFlip => Some(("flipper"@, "flip"@)),
            Step::SetFeeCollector => Some(("factory"@, "set_fee_collector"@)),
            Step::IceAllowance => Some(("psp22"@, "increase_allowance"@)),
            Step::AddLiquidity => Some(("router"@, "add_liquidity"@)),
            Step::GetPair => Some(("factory"@, "get_pair"@)),
            Step::BalanceOf => Some(("psp22"@, "balance_of"@)),
            Step::Swap => Some(("router"@, "swap_exact_tokens"@)),
            _ => None,
        }
    }

    pub fn deploys(self) -> (r: bool)
        ensures
            r == self.spec_deploys(),
    {
        match self {
            Step::FlipperDeploy
            | Step::FactoryDeploy
            | Step::IceDeploy
            | Step::WoodDeploy
            | Step::WazeroDeploy
            | Step::RouterDeploy => true,
            _ => false,
        }
    }

    pub fn label(self) -> (r: Option<(&'static str, &'static str)>)
        ensures
            match r {
                Some((contract, action)) => self.spec_label() == Some((contract@, action@)),
                None => self.spec_label() is None,
            },
    {
        match self {
            Step::FlipperDeploy => Some(("flipper", "deploy")),
            Step::FlipperFlip => Some(("flipper", "flip")),
            Step::SetFeeCollector => Some(("factory", "set_fee_collector")),
            Step::IceAllowance => Some(("psp22", "increase_allowance")),
            Step::AddLiquidity => Some(("router", "add_liquidity")),
            Step::GetPair => Some(("factory", "get_pair")),
            Step::BalanceOf => Some(("psp22", "balance_of")),
            Step::Swap => Some(("router", "swap_exact_tokens")),
            _ => None,
        }
    }
}

/// The minimal scenario: deploy the toggle contract, then toggle it once.
pub open spec fn spec_minimal_script() -> Seq<Step> {
    seq![Step::FlipperDeploy, Step::FlipperFlip]
}

/// The exchange scenario: five deployments, then the fee collector, the allowances for
/// both tokens, the liquidity, the pair, the balance and the swap.
pub open spec fn spec_composite_script() -> Seq<Step> {
    seq![
        Step::FactoryDeploy,
        Step::IceDeploy,
        Step::WoodDeploy,
        Step::WazeroDeploy,
        Step::RouterDeploy,
        Step::SetFeeCollector,
        Step::IceAllowance,
        Step::WoodAllowance,
        Step::AddLiquidity,
        Step::GetPair,
        Step::BalanceOf,
        Step::Swap,
    ]
}

pub fn minimal_script() -> (script: Vec<Step>)
    ensures
        script@ == spec_minimal_script(),
{
    let mut script: Vec<Step> = Vec::new();
    script.push(Step::FlipperDeploy);
    script.push(Step::FlipperFlip);
    assert(script@ =~= spec_minimal_script());
    script
}

pub fn composite_script() -> (script: Vec<Step>)
    ensures
        script@ == spec_composite_script(),
{
    let mut script: Vec<Step> = Vec::new();
    script.push(Step::FactoryDeploy);
    script.push(Step::IceDeploy);
    script.push(Step::WoodDeploy);
    script.push(Step::WazeroDeploy);
    script.push(Step::RouterDeploy);
    script.push(Step::SetFeeCollector);
    script.push(Step::IceAllowance);
    script.push(Step::WoodAllowance);
    script.push(Step::AddLiquidity);
    script.push(Step::GetPair);
    script.push(Step::BalanceOf);
    script.push(Step::Swap);
    assert(script@ =~= spec_composite_script());
    script
}

/// In both scripts every contract is deployed before the first call is made.
pub proof fn lemma_deployments_come_first()
    ensures
        forall|i: int, j: int|
            0 <= i < j < spec_composite_script().len() && spec_composite_script()[j].spec_deploys()
                ==> spec_composite_script()[i].spec_deploys(),
        forall|i: int, j: int|
            0 <= i < j < spec_minimal_script().len() && spec_minimal_script()[j].spec_deploys()
                ==> spec_minimal_script()[i].spec_deploys(),
{
}

} // verus!
