//! The compiled contracts: the toggle contract of the minimal scenario and the five
//! contracts of the exchange scenario, each built once for either backend. They are
//! loaded once and never changed.

use crate::codec::encode_raw;
use crate::scenario::Backend;
use vstd::prelude::*;

verus! {

/// One compiled contract: its code, and the hash by which the sandbox knows it.
pub struct Artifact {
    pub code: Vec<u8>,
    pub hash: [u8; 32],
}

/// One contract as built for either backend.
pub struct Contract {
    pub riscv: Artifact,
    pub wasm: Artifact,
}

impl Contract {
    /// The build for `backend`.
    pub open spec fn spec_build(self, backend: Backend) -> Artifact {
        match backend {
            Backend::Riscv => self.riscv,
            Backend::Wasm => self.wasm,
        }
    }

    pub fn build(&self, backend: Backend) -> (artifact: &Artifact)
        ensures
            *artifact == self.spec_build(backend),
    {
        match backend {
            Backend::Riscv => &self.riscv,
            Backend::Wasm => &self.wasm,
        }
    }
}

/// The contracts of both scenarios.
pub struct Artifacts {
    pub flipper: Contract,
    pub psp22: Contract,
    pub wrapped: Contract,
    pub factory: Contract,
    pub pair: Contract,
    pub router: Contract,
}

pub fn copy_of(code: &Vec<u8>) -> (copy: Vec<u8>)
    ensures
        copy@ == code@,
{
    let mut copy: Vec<u8> = Vec::new();
    encode_raw(code.as_slice(), &mut copy);
    assert(copy@ =~= code@);
    copy
}

pub fn psp22_riscv_bytes(artifacts: &Artifacts) -> (code: Vec<u8>)
    ensures
        code@ == artifacts.psp22.riscv.code@,
{
    copy_of(&artifacts.psp22.riscv.code)
}

pub fn psp22_wasm_bytes(artifacts: &Artifacts) -> (code: Vec<u8>)
    ensures
        code@ == artifacts.psp22.wasm.code@,
{
    copy_of(&artifacts.psp22.wasm.code)
}

pub fn wrapped_riscv_bytes(artifacts: &Artifacts) -> (code: Vec<u8>)
    ensures
        code@ == artifacts.wrapped.riscv.code@,
{
    copy_of(&artifacts.wrapped.riscv.code)
}

pub fn wrapped_wasm_bytes(artifacts: &Artifacts) -> (code: Vec<u8>)
    ensures
        code@ == artifacts.wrapped.wasm.code@,
{
    copy_of(&artifacts.wrapped.wasm.code)
}

pub fn factory_riscv_bytes(artifacts: &Artifacts) -> (code: Vec<u8>)
    ensures
        code@ == artifacts.factory.riscv.code@,
{
    copy_of(&artifacts.factory.riscv.code)
}

pub fn factory_wasm_bytes(artifacts: &Artifacts) -> (code: Vec<u8>)
    ensures
        code@ == artifacts.factory.wasm.code@,
{
    copy_of(&artifacts.factory.wasm.code)
}

pub fn pair_riscv_bytes(artifacts: &Artifacts) -> (code: Vec<u8>)
    ensures
        code@ == artifacts.pair.riscv.code@,
{
    copy_of(&artifacts.pair.riscv.code)
}

pub fn pair_wasm_bytes(artifacts: &Artifacts) -> (code: Vec<u8>)
    ensures
        code@ == artifacts.pair.wasm.code@,
{
    copy_of(&artifacts.pair.wasm.code)
}

pub fn router_riscv_bytes(artifacts: &Artifacts) -> (code: Vec<u8>)
    ensures
        code@ == artifacts.router.riscv.code@,
{
    copy_of(&artifacts.router.riscv.code)
}

pub fn router_wasm_bytes(artifacts: &Artifacts) -> (code: Vec<u8>)
    ensures
        code@ == artifacts.router.wasm.code@,
{
    copy_of(&artifacts.router.wasm.code)
}

/// The codes in the order in which they are uploaded: contract by contract, the native
/// build before the bytecode build.
pub open spec fn upload_order(artifacts: Artifacts) -> Seq<Seq<u8>> {
    seq![
        artifacts.psp22.riscv.code@,
        artifacts.psp22.wasm.code@,
        artifacts.wrapped.riscv.code@,
        artifacts.wrapped.wasm.code@,
        artifacts.factory.riscv.code@,
        artifacts.factory.wasm.code@,
        artifacts.pair.riscv.code@,
        artifacts.pair.wasm.code@,
        artifacts.router.riscv.code@,
        artifacts.router.wasm.code@,
    ]
}

/// The backend that the code at `index` of the upload order is built for.
pub fn upload_target(index: usize) -> (backend: Backend)
    ensures
        backend == if index % 2 == 0 {
            Backend::Riscv
        } else {
            Backend::Wasm
        },
{
    if index % 2 == 0 {
        Backend::Riscv
    } else {
        Backend::Wasm
    }
}

/// Every code that the exchange scenario needs, in upload order.
pub fn upload_contracts(artifacts: &Artifacts) -> (codes: Vec<Vec<u8>>)
    ensures
        codes@.len() == 10,
        forall|i: int| 0 <= i < 10 ==> (#[trigger] codes@[i])@ == upload_order(*artifacts)[i],
{
    let mut codes: Vec<Vec<u8>> = Vec::new();
    codes.push(psp22_riscv_bytes(artifacts));
    codes.push(psp22_wasm_bytes(artifacts));
    codes.push(wrapped_riscv_bytes(artifacts));
    codes.push(wrapped_wasm_bytes(artifacts));
    codes.push(factory_riscv_bytes(artifacts));
    codes.push(factory_wasm_bytes(artifacts));
    codes.push(pair_riscv_bytes(artifacts));
    codes.push(pair_wasm_bytes(artifacts));
    codes.push(router_riscv_bytes(artifacts));
    codes.push(router_wasm_bytes(artifacts));
    codes
}

} // verus!
