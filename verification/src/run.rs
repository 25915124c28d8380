//! One run of a scenario: what is sent for each step, built from what earlier steps
//! returned, and what each outcome means for the steps to come.

use crate::artifacts::{copy_of, Artifacts};
use crate::codec::{account_of, lemma_account_of, Account};
use crate::messages::{
    factory_setup_payload, flip_payload, flipper_deploy_payload, get_pair_payload,
    psp22_balance_of_payload, psp22_increase_allowance_payload, psp22_setup_payload,
    router_add_liquidity_payload, router_setup_payload, set_fee_collector_payload,
    spec_factory_setup_payload, spec_flip_payload, spec_flipper_deploy_payload,
    spec_get_pair_payload, spec_psp22_balance_of_payload, spec_psp22_increase_allowance_payload,
    spec_psp22_setup_payload, spec_router_add_liquidity_payload, spec_router_setup_payload,
    spec_set_fee_collector_payload, spec_swap_exact_tokens_payload, spec_wazero_setup_payload,
    swap_exact_tokens_payload, wazero_setup_payload,
};
use crate::outcome::{
    liquidity_minted, pair_addresses, pool_balance, spec_liquidity_minted, spec_pair_addresses,
    spec_pool_balance,
};
use crate::scenario::{
    call_contract, call_result, deploy_contract, deploy_result, Backend, Deployment, Event, Fatal,
    Invocation,
};
use crate::script::Step;
use vstd::prelude::*;

verus! {

/// The instances that one backend has so far.
#[derive(Clone, Copy, Debug, PartialEq, Eq)]
pub struct Handles {
    pub flipper: Option<Account>,
    pub factory: Option<Account>,
    pub ice: Option<Account>,
    pub wood: Option<Account>,
    pub wazero: Option<Account>,
    pub router: Option<Account>,
    pub pair: Option<Account>,
}

/// The actors and amounts of a run.
#[derive(Clone, Copy, Debug, PartialEq, Eq)]
pub struct Settings {
    /// Who deploys the tokens and provides the liquidity.
    pub bob: Account,
    /// Who collects the fees.
    pub charlie: Account,
    pub deadline: u64,
    /// The amount of each token that goes into the pool.
    pub token_amount: u128,
    pub swap_amount: u128,
    pub allowance: u128,
}

/// What the driver is to send to the sandbox.
#[derive(Clone, Debug, PartialEq, Eq)]
pub enum Request {
    /// Upload this code and instantiate it.
    DeployCode { code: Vec<u8>, payload: Vec<u8>, caller: Option<Account> },
    /// Instantiate the code that was uploaded under this hash.
    Deploy { code_hash: [u8; 32], payload: Vec<u8>, caller: Option<Account> },
    Call { target: Account, payload: Vec<u8>, caller: Option<Account> },
}

/// A request as the contracts see it.
pub enum RequestView {
    DeployCode { code: Seq<u8>, payload: Seq<u8>, caller: Option<Account> },
    Deploy { code_hash: Seq<u8>, payload: Seq<u8>, caller: Option<Account> },
    Call { target: Account, payload: Seq<u8>, caller: Option<Account> },
}

/// What the sandbox answered.
#[derive(Clone, Debug, PartialEq, Eq)]
pub enum Outcome {
    Deployed(Deployment),
    Called(Invocation),
}

/// A run as the contracts see it.
pub struct RunState {
    pub riscv: Handles,
    pub wasm: Handles,
    /// What the native backend returned for the step at hand.
    pub pending: Seq<u8>,
    /// The liquidity that both backends minted.
    pub minted: Option<u128>,
}

pub struct Run {
    pub riscv: Handles,
    pub wasm: Handles,
    pub pending: Vec<u8>,
    pub minted: Option<u128>,
}

/// The name of the first token, "ICE".
pub open spec fn ice_name() -> Seq<u8> {
    seq![73u8, 67u8, 69u8]
}

/// The name of the second token, "WOOD".
pub open spec fn wood_name() -> Seq<u8> {
    seq![87u8, 79u8, 79u8, 68u8]
}

impl RequestView {
    /// The bytes that the contract is handed.
    pub open spec fn payload(self) -> Seq<u8> {
        match self {
            RequestView::DeployCode { payload, .. } => payload,
            RequestView::Deploy { payload, .. } => payload,
            RequestView::Call { payload, .. } => payload,
        }
    }
}

impl Request {
    pub open spec fn view(&self) -> RequestView {
        match *self {
            Request::DeployCode { code, payload, caller } => RequestView::DeployCode {
                code: code@,
                payload: payload@,
                caller,
            },
            Request::Deploy { code_hash, payload, caller } => RequestView::Deploy {
                code_hash: code_hash@,
                payload: payload@,
                caller,
            },
            Request::Call { target, payload, caller } => RequestView::Call {
                target,
                payload: payload@,
                caller,
            },
        }
    }
}

impl Settings {
    /// The run that the exchange scenario is measured with: the largest allowance, a
    /// million tokens of each kind into the pool, ten thousand swapped.
    pub fn standard(deadline: u64) -> (s: Settings)
        ensures
            s.bob.id@ == Seq::new(32, |i: int| 1u8),
            s.charlie.id@ == Seq::new(32, |i: int| 3u8),
            s.deadline == deadline,
            s.token_amount == 1_000_000_000_000_000_000_000_000,
            s.swap_amount == 10_000_000_000_000_000_000_000,
            s.allowance == u128::MAX,
    {
        let s = Settings {
            bob: Account { id: [1u8; 32] },
            charlie: Account { id: [3u8; 32] },
            deadline,
            token_amount: 1_000_000_000_000_000_000_000_000,
            swap_amount: 10_000_000_000_000_000_000_000,
            allowance: u128::MAX,
        };
        assert(s.bob.id@ =~= Seq::new(32, |i: int| 1u8));
        assert(s.charlie.id@ =~= Seq::new(32, |i: int| 3u8));
        s
    }
}

impl Handles {
    /// No instance at all.
    pub open spec fn spec_none() -> Handles {
        Handles {
            flipper: None,
            factory: None,
            ice: None,
            wood: None,
            wazero: None,
            router: None,
            pair: None,
        }
    }

    pub fn none() -> (h: Handles)
        ensures
            h == Handles::spec_none(),
    {
        Handles {
            flipper: None,
            factory: None,
            ice: None,
            wood: None,
            wazero: None,
            router: None,
            pair: None,
        }
    }

    /// The handles once `step` has deployed `account`.
    pub open spec fn with_deployed(self, step: Step, account: Account) -> Handles {
        match step {
            Step::FlipperDeploy => Handles { flipper: Some(account), ..self },
            Step::FactoryDeploy => Handles { factory: Some(account), ..self },
            Step::IceDeploy => Handles { ice: Some(account), ..self },
            Step::WoodDeploy => Handles { wood: Some(account), ..self },
            Step::WazeroDeploy => Handles { wazero: Some(account), ..self },
            Step::RouterDeploy => Handles { router: Some(account), ..self },
            _ => self,
        }
    }

    /// What `step` sends on `backend`, or nothing where an instance that the step
    /// needs is not there yet.
    pub open spec fn request(
        self,
        step: Step,
        backend: Backend,
        settings: Settings,
        artifacts: Artifacts,
    ) -> Option<RequestView> {
        let bob = settings.bob;
        match step {
            Step::FlipperDeploy => Some(
                RequestView::DeployCode {
                    code: artifacts.flipper.spec_build(backend).code@,
                    payload: spec_flipper_deploy_payload(true),
                    caller: None,
                },
            ),
            Step::FlipperFlip => match self.flipper {
                Some(flipper) => Some(
                    RequestView::Call {
                        target: flipper,
                        payload: spec_flip_payload(),
                        caller: None,
                    },
                ),
                None => None,
            },
            Step::FactoryDeploy => Some(
                RequestView::Deploy {
                    code_hash: artifacts.factory.spec_build(backend).hash@,
                    payload: spec_factory_setup_payload(
                        bob,
                        artifacts.pair.spec_build(backend).hash@,
                    ),
                    caller: None,
                },
            ),
            Step::IceDeploy => Some(
                RequestView::Deploy {
                    code_hash: artifacts.psp22.spec_build(backend).hash@,
                    payload: spec_psp22_setup_payload(ice_name()),
                    caller: Some(bob),
                },
            ),
            Step::WoodDeploy => Some(
                RequestView::Deploy {
                    code_hash: artifacts.psp22.spec_build(backend).hash@,
                    payload: spec_psp22_setup_payload(wood_name()),
                    caller: Some(bob),
                },
            ),
            Step::WazeroDeploy => Some(
                RequestView::Deploy {
                    code_hash: artifacts.wrapped.spec_build(backend).hash@,
                    payload: spec_wazero_setup_payload(),
                    caller: None,
                },
            ),
            Step::RouterDeploy => match (self.factory, self.wazero) {
                (Some(factory), Some(wazero)) => Some(
                    RequestView::Deploy {
                        code_hash: artifacts.router.spec_build(backend).hash@,
                        payload: spec_router_setup_payload(factory, wazero),
                        caller: None,
                    },
                ),
                _ => None,
            },
            Step::SetFeeCollector => match self.factory {
                Some(factory) => Some(
                    RequestView::Call {
                        target: factory,
                        payload: spec_set_fee_collector_payload(settings.charlie),
                        caller: None,
                    },
                ),
                None => None,
            },
            Step::IceAllowance => match (self.ice, self.router) {
                (Some(ice), Some(router)) => Some(
                    RequestView::Call {
                        target: ice,
                        payload: spec_psp22_increase_allowance_payload(router, settings.allowance),
                        caller: Some(bob),
                    },
                ),
                _ => None,
            },
            Step::WoodAllowance => match (self.wood, self.router) {
                (Some(wood), Some(router)) => Some(
                    RequestView::Call {
                        target: wood,
                        payload: spec_psp22_increase_allowance_payload(router, settings.allowance),
                        caller: Some(bob),
                    },
                ),
                _ => None,
            },
            Step::AddLiquidity => match (self.router, self.ice, self.wood) {
                (Some(router), Some(ice), Some(wood)) => Some(
                    RequestView::Call {
                        target: router,
                        payload: spec_router_add_liquidity_payload(
                            ice,
                            wood,
                            settings.token_amount,
                            settings.token_amount,
                            bob,
                            settings.deadline,
                        ),
                        caller: Some(bob),
                    },
                ),
                _ => None,
            },
            Step::GetPair => match (self.factory, self.ice, self.wood) {
                (Some(factory), Some(ice), Some(wood)) => Some(
                    RequestView::Call {
                        target: factory,
                        payload: spec_get_pair_payload(ice, wood),
                        caller: None,
                    },
                ),
                _ => None,
            },
            Step::BalanceOf => match self.pair {
                Some(pair) => Some(
                    RequestView::Call {
                        target: pair,
                        payload: spec_psp22_balance_of_payload(bob),
                        caller: Some(bob),
                    },
                ),
                None => None,
            },
            Step::Swap => match (self.router, self.ice, self.wood) {
                (Some(router), Some(ice), Some(wood)) => Some(
                    RequestView::Call {
                        target: router,
                        payload: spec_swap_exact_tokens_payload(
                            settings.swap_amount,
                            0,
                            seq![ice, wood],
                            bob,
                            settings.deadline,
                        ),
                        caller: Some(bob),
                    },
                ),
                _ => None,
            },
        }
    }
}

impl RunState {
    pub open spec fn handles(self, backend: Backend) -> Handles {
        match backend {
            Backend::Riscv => self.riscv,
            Backend::Wasm => self.wasm,
        }
    }

    /// The run once `step` has deployed `account` on `backend`.
    pub open spec fn with_deployed(
        self,
        step: Step,
        backend: Backend,
        account: Account,
    ) -> RunState {
        match backend {
            Backend::Riscv => RunState { riscv: self.riscv.with_deployed(step, account), ..self },
            Backend::Wasm => RunState { wasm: self.wasm.with_deployed(step, account), ..self },
        }
    }

    /// Whether the step's two answers are looked at.
    pub open spec fn compared(step: Step) -> bool {
        step == Step::AddLiquidity || step == Step::GetPair || step == Step::BalanceOf
    }

    /// The run after a call of `step` came back from `backend` with `data`, and what is
    /// reported of it. The native backend's answer is kept until the bytecode backend's
    /// answer is there; then the two are read and held against each other.
    pub open spec fn after_call(self, step: Step, backend: Backend, gas: u64, data: Seq<u8>) -> (
        RunState,
        Event,
    ) {
        if !Self::compared(step) {
            (self, Event::Done { gas })
        } else if backend == Backend::Riscv {
            (RunState { pending: data, ..self }, Event::Done { gas })
        } else if step == Step::AddLiquidity {
            match spec_liquidity_minted(self.pending, data) {
                Ok(minted) => (RunState { minted: Some(minted), ..self }, Event::Done { gas }),
                Err(cause) => (self, Event::Failed(cause)),
            }
        } else if step == Step::GetPair {
            match spec_pair_addresses(self.pending, data) {
                Ok((riscv, wasm)) => (
                    RunState {
                        riscv: Handles { pair: Some(account_of(riscv)), ..self.riscv },
                        wasm: Handles { pair: Some(account_of(wasm)), ..self.wasm },
                        ..self
                    },
                    Event::Done { gas },
                ),
                Err(cause) => (self, Event::Failed(cause)),
            }
        } else {
            match self.minted {
                None => (self, Event::Failed(Fatal::OutOfTurn)),
                Some(minted) => match spec_pool_balance(minted, self.pending, data) {
                    Ok(_) => (self, Event::Done { gas }),
                    Err(cause) => (self, Event::Failed(cause)),
                },
            }
        }
    }

    /// The run after `outcome` came back for `step` from `backend`, and what is reported
    /// of it. Whatever is fatal leaves the run as it was.
    pub open spec fn after(self, step: Step, backend: Backend, outcome: Outcome) -> (
        RunState,
        Event,
    ) {
        match outcome {
            Outcome::Deployed(deployment) => if !step.spec_deploys() {
                (self, Event::Failed(Fatal::OutOfTurn))
            } else {
                match deploy_result(deployment) {
                    Ok((gas, account)) => (
                        self.with_deployed(step, backend, account),
                        Event::Done { gas },
                    ),
                    Err(e) => (self, Event::Failed(Fatal::Deploy(backend, e))),
                }
            },
            Outcome::Called(invocation) => if step.spec_deploys() {
                (self, Event::Failed(Fatal::OutOfTurn))
            } else {
                match call_result(invocation, false) {
                    Ok((gas, data)) => self.after_call(step, backend, gas, data@),
                    Err(e) => (self, Event::Failed(Fatal::Call(backend, e))),
                }
            },
        }
    }
}


fn token_name(step: Step) -> (name: Vec<u8>)
    ensures
        name@ == if step == Step::IceDeploy {
            ice_name()
        } else {
            wood_name()
        },
{
    let mut name: Vec<u8> = Vec::new();
    match step {
        Step::IceDeploy => {
            name.push(73u8);
            name.push(67u8);
            name.push(69u8);
            assert(name@ =~= ice_name());
        },
        _ => {
            name.push(87u8);
            name.push(79u8);
            name.push(79u8);
            name.push(68u8);
            assert(name@ =~= wood_name());
        },
    }
    name
}

impl Run {
    pub open spec fn view(&self) -> RunState {
        RunState {
            riscv: self.riscv,
            wasm: self.wasm,
            pending: self.pending@,
            minted: self.minted,
        }
    }

    /// A run in which nothing is deployed yet.
    pub fn new() -> (run: Run)
        ensures
            run@ == (RunState {
                riscv: Handles::spec_none(),
                wasm: Handles::spec_none(),
                pending: Seq::empty(),
                minted: None,
            }),
    {
        Run { riscv: Handles::none(), wasm: Handles::none(), pending: Vec::new(), minted: None }
    }

    pub fn handles(&self, backend: Backend) -> (h: Handles)
        ensures
            h == self@.handles(backend),
    {
        match backend {
            Backend::Riscv => self.riscv,
            Backend::Wasm => self.wasm,
        }
    }

    /// What the driver is to send for `step` on `backend`. Both backends get what the
    /// same rule builds: the requests differ only in the backend's own instances and
    /// code.
    pub fn request(
        &self,
        step: Step,
        backend: Backend,
        settings: &Settings,
        artifacts: &Artifacts,
    ) -> (r: Option<Request>)
        ensures
            match r {
                Some(request) => self@.handles(backend).request(
                    step,
                    backend,
                    *settings,
                    *artifacts,
                ) == Some(request@),
                None => self@.handles(backend).request(step, backend, *settings, *artifacts)
                    is None,
            },
    {
        let h = self.handles(backend);
        let bob = settings.bob;
        match step {
            Step::FlipperDeploy => Some(
                Request::DeployCode {
                    code: copy_of(&artifacts.flipper.build(backend).code),
                    payload: flipper_deploy_payload(true),
                    caller: None,
                },
            ),
            Step::FlipperFlip => match h.flipper {
                Some(flipper) => Some(
                    Request::Call { target: flipper, payload: flip_payload(), caller: None },
                ),
                None => None,
            },
            Step::FactoryDeploy => Some(
                Request::Deploy {
                    code_hash: artifacts.factory.build(backend).hash,
                    payload: factory_setup_payload(&bob, &artifacts.pair.build(backend).hash),
                    caller: None,
                },
            ),
            Step::IceDeploy | Step::WoodDeploy => {
                let name = token_name(step);
                Some(
                    Request::Deploy {
                        code_hash: artifacts.psp22.build(backend).hash,
                        payload: psp22_setup_payload(name.as_slice()),
                        caller: Some(bob),
                    },
                )
            },
            Step::WazeroDeploy => Some(
                Request::Deploy {
                    code_hash: artifacts.wrapped.build(backend).hash,
                    payload: wazero_setup_payload(),
                    caller: None,
                },
            ),
            Step::RouterDeploy => match (h.factory, h.wazero) {
                (Some(factory), Some(wazero)) => Some(
                    Request::Deploy {
                        code_hash: artifacts.router.build(backend).hash,
                        payload: router_setup_payload(&factory, &wazero),
                        caller: None,
                    },
                ),
                _ => None,
            },
            Step::SetFeeCollector => match h.factory {
                Some(factory) => Some(
                    Request::Call {
                        target: factory,
                        payload: set_fee_collector_payload(&settings.charlie),
                        caller: None,
                    },
                ),
                None => None,
            },
            Step::IceAllowance => match (h.ice, h.router) {
                (Some(ice), Some(router)) => Some(
                    Request::Call {
                        target: ice,
                        payload: psp22_increase_allowance_payload(&router, settings.allowance),
                        caller: Some(bob),
                    },
                ),
                _ => None,
            },
            Step::WoodAllowance => match (h.wood, h.router) {
                (Some(wood), Some(router)) => Some(
                    Request::Call {
                        target: wood,
                        payload: psp22_increase_allowance_payload(&router, settings.allowance),
                        caller: Some(bob),
                    },
                ),
                _ => None,
            },
            Step::AddLiquidity => match (h.router, h.ice, h.wood) {
                (Some(router), Some(ice), Some(wood)) => Some(
                    Request::Call {
                        target: router,
                        payload: router_add_liquidity_payload(
                            &ice,
                            &wood,
                            settings.token_amount,
                            settings.token_amount,
                            &bob,
                            settings.deadline,
                        ),
                        caller: Some(bob),
                    },
                ),
                _ => None,
            },
            Step::GetPair => match (h.factory, h.ice, h.wood) {
                (Some(factory), Some(ice), Some(wood)) => Some(
                    Request::Call {
                        target: factory,
                        payload: get_pair_payload(&ice, &wood),
                        caller: None,
                    },
                ),
                _ => None,
            },
            Step::BalanceOf => match h.pair {
                Some(pair) => Some(
                    Request::Call {
                        target: pair,
                        payload: psp22_balance_of_payload(&bob),
                        caller: Some(bob),
                    },
                ),
                None => None,
            },
            Step::Swap => match (h.router, h.ice, h.wood) {
                (Some(router), Some(ice), Some(wood)) => {
                    let mut path: Vec<Account> = Vec::new();
                    path.push(ice);
                    path.push(wood);
                    assert(path@ =~= seq![ice, wood]);
                    Some(
                        Request::Call {
                            target: router,
                            payload: swap_exact_tokens_payload(
                                settings.swap_amount,
                                0,
                                &path,
                                &bob,
                                settings.deadline,
                            ),
                            caller: Some(bob),
                        },
                    )
                },
                _ => None,
            },
        }
    }

    fn keep_deployed(&mut self, step: Step, backend: Backend, account: Account)
        ensures
            final(self)@ == old(self)@.with_deployed(step, backend, account),
    {
        let mut h = self.handles(backend);
        match step {
            Step::FlipperDeploy => {
                h.flipper = Some(account);
            },
            Step::FactoryDeploy => {
                h.factory = Some(account);
            },
            Step::IceDeploy => {
                h.ice = Some(account);
            },
            Step::WoodDeploy => {
                h.wood = Some(account);
            },
            Step::WazeroDeploy => {
                h.wazero = Some(account);
            },
            Step::RouterDeploy => {
                h.router = Some(account);
            },
            _ => {},
        }
        match backend {
            Backend::Riscv => {
                self.riscv = h;
            },
            Backend::Wasm => {
                self.wasm = h;
            },
        }
    }

    fn settle_call(&mut self, step: Step, backend: Backend, gas: u64, data: Vec<u8>) -> (event:
        Event)
        ensures
            (final(self)@, event) == old(self)@.after_call(step, backend, gas, data@),
    {
        match step {
            Step::AddLiquidity | Step::GetPair | Step::BalanceOf => {},
            _ => {
                return Event::Done { gas };
            },
        }
        match backend {
            Backend::Riscv => {
                self.pending = data;
                return Event::Done { gas };
            },
            Backend::Wasm => {},
        }
        match step {
            Step::AddLiquidity => match liquidity_minted(self.pending.as_slice(), data.as_slice()) {
                Ok(minted) => {
                    self.minted = Some(minted);
                    Event::Done { gas }
                },
                Err(cause) => Event::Failed(cause),
            },
            Step::GetPair => match pair_addresses(self.pending.as_slice(), data.as_slice()) {
                Ok((riscv, wasm)) => {
                    proof {
                        lemma_account_of(riscv);
                        lemma_account_of(wasm);
                    }
                    self.riscv.pair = Some(riscv);
                    self.wasm.pair = Some(wasm);
                    Event::Done { gas }
                },
                Err(cause) => Event::Failed(cause),
            },
            _ => match self.minted {
                None => Event::Failed(Fatal::OutOfTurn),
                Some(minted) => match pool_balance(
                    minted,
                    self.pending.as_slice(),
                    data.as_slice(),
                ) {
                    Ok(_) => Event::Done { gas },
                    Err(cause) => Event::Failed(cause),
                },
            },
        }
    }

    /// Takes the sandbox's answer to `step` on `backend`: keeps what later steps need of
    /// it and says what the scenario is to be told.
    pub fn settle(&mut self, step: Step, backend: Backend, outcome: Outcome) -> (event: Event)
        ensures
            (final(self)@, event) == old(self)@.after(step, backend, outcome),
    {
        match outcome {
            Outcome::Deployed(deployment) => {
                if !step.deploys() {
                    return Event::Failed(Fatal::OutOfTurn);
                }
                match deploy_contract(deployment) {
                    Ok((gas, account)) => {
                        self.keep_deployed(step, backend, account);
                        Event::Done { gas }
                    },
                    Err(e) => Event::Failed(Fatal::Deploy(backend, e)),
                }
            },
            Outcome::Called(invocation) => {
                if step.deploys() {
                    return Event::Failed(Fatal::OutOfTurn);
                }
                match call_contract(invocation, false) {
                    Ok((gas, data)) => self.settle_call(step, backend, gas, data),
                    Err(e) => Event::Failed(Fatal::Call(backend, e)),
                }
            },
        }
    }
}

/// A fatal outcome changes nothing of the run: what was deployed and decoded before
/// stays, and nothing of the failed step is kept.
pub proof fn lemma_fatal_keeps_the_run(
    run: RunState,
    step: Step,
    backend: Backend,
    outcome: Outcome,
)
    requires
        run.after(step, backend, outcome).1 is Failed,
    ensures
        run.after(step, backend, outcome).0 == run,
{
}

/// Both backends are sent the same bytes wherever their instances and code hashes are
/// the same: nothing else of a request depends on the backend.
pub proof fn lemma_same_request_for_both(
    h: Handles,
    step: Step,
    settings: Settings,
    artifacts: Artifacts,
)
    requires
        step != Step::FlipperDeploy,
        artifacts.factory.riscv.hash@ == artifacts.factory.wasm.hash@,
        artifacts.pair.riscv.hash@ == artifacts.pair.wasm.hash@,
        artifacts.psp22.riscv.hash@ == artifacts.psp22.wasm.hash@,
        artifacts.wrapped.riscv.hash@ == artifacts.wrapped.wasm.hash@,
        artifacts.router.riscv.hash@ == artifacts.router.wasm.hash@,
    ensures
        h.request(step, Backend::Riscv, settings, artifacts) == h.request(
            step,
            Backend::Wasm,
            settings,
            artifacts,
        ),
{
}

/// From the same instances both backends are handed the same bytes. Only the factory's
/// constructor holds a code hash, that of the pair's code, which each backend has of
/// its own.
pub proof fn lemma_same_payload_for_both(
    h: Handles,
    step: Step,
    settings: Settings,
    artifacts: Artifacts,
)
    requires
        step == Step::FactoryDeploy ==> artifacts.pair.riscv.hash@ == artifacts.pair.wasm.hash@,
    ensures
        h.request(step, Backend::Riscv, settings, artifacts) is Some <==> h.request(
            step,
            Backend::Wasm,
            settings,
            artifacts,
        ) is Some,
        h.request(step, Backend::Riscv, settings, artifacts) is Some ==> h.request(
            step,
            Backend::Riscv,
            settings,
            artifacts,
        )->Some_0.payload() == h.request(
            step,
            Backend::Wasm,
            settings,
            artifacts,
        )->Some_0.payload(),
{
}

} // verus!
