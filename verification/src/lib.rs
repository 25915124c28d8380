//! Encoding of contract calls, decoding of their answers, and the bookkeeping of a
//! benchmark that drives two execution backends through one script of steps.

pub mod artifacts;
pub mod call;
pub mod codec;
pub mod equivalence;
pub mod messages;
pub mod outcome;
pub mod reply;
pub mod report;
pub mod riscy;
pub mod roundtrip;
pub mod run;
pub mod scenario;
pub mod script;
pub mod wire;

pub use crate::call::NEW_SELECTOR;
pub use crate::report::report_gas;
pub use crate::riscy::Riscy;
pub use crate::scenario::{call_contract, deploy_contract, GAS_LIMIT};
