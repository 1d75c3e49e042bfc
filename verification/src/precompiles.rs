//! The fixed dispatch table of precompiled contracts.
//!
//! A reserved 160-bit address space maps to a closed, startup-fixed set of
//! precompiles, looked up by exact address equality, never by range: the
//! eight standard contracts at the low addresses 1 through 8, the runtime
//! call dispatcher at 255, and, at 511, a testing-only contract whose sole
//! purpose is deterministic gas and time consumption.  An address outside the
//! set is no precompile call at all — the caller falls through to ordinary
//! contract execution; an address inside the set always gets an answer.
//!
//! The dispatch decision and the resource-consumption contract are computed
//! here, over plain bytes.  The cryptographic contract bodies and the actual
//! blocking delay are the caller's collaborators, outside this crate.

use vstd::prelude::*;
use crate::bytes::{be_u64_at, be_value};

verus! {

/// A 160-bit EVM address, held as its 20 bytes.
pub struct Address {
    bytes: Vec<u8>,
}

impl View for Address {
    type V = Seq<u8>;

    /// The address's 20 bytes.
    closed spec fn view(&self) -> Seq<u8> {
        self.bytes@
    }
}

/// The first 12 bytes of the address are zero, so the address is the
/// big-endian encoding of a 64-bit value.
pub open spec fn high_bytes_zero(a: Seq<u8>) -> bool {
    forall|i: int| 0 <= i < 12 ==> a[i] == 0
}

/// The 64-bit value carried by the address's last 8 bytes.
pub open spec fn low_u64(a: Seq<u8>) -> nat {
    be_value(a.subrange(12, 20))
}

impl Address {
    /// An address is its 20 bytes.
    pub closed spec fn wf(&self) -> bool {
        self.bytes@.len() == 20
    }

    /// Wraps 20 bytes as an address; any other length is refused.
    pub fn from_bytes(bytes: Vec<u8>) -> (r: Option<Address>)
        ensures
            bytes@.len() == 20 ==> (r matches Some(a) && a.wf() && a@ == bytes@),
            bytes@.len() != 20 ==> r is None,
    {
        if bytes.len() == 20 {
            Some(Address { bytes })
        } else {
            None
        }
    }

    /// The address whose last 8 bytes encode `v` big-endian and whose other
    /// bytes are zero — how the reserved precompile addresses are written.
    pub fn from_low_u64_be(v: u64) -> (r: Address)
        ensures
            r.wf(),
            high_bytes_zero(r@),
            low_u64(r@) == v,
    {
        let mut bytes: Vec<u8> = Vec::new();
        let mut i: usize = 0;
        while i < 12
            invariant
                i <= 12,
                bytes@.len() == i,
                forall|j: int| 0 <= j < i ==> bytes@[j] == 0,
            decreases 12 - i,
        {
            bytes.push(0);
            i = i + 1;
        }
        let mut low = crate::bytes::u64_to_be_bytes(v);
        let ghost low_view = low@;
        bytes.append(&mut low);
        proof {
            assert(bytes@.subrange(12, 20) =~= low_view);
        }
        Address { bytes }
    }
}

/// The members of the closed precompile set.
#[derive(Clone, Copy, Debug, PartialEq, Eq, Structural)]
pub enum PrecompileKind {
    /// Elliptic-curve public-key recovery, at address 1.
    ECRecover,
    /// The SHA-256 hash, at address 2.
    Sha256,
    /// The RIPEMD-160 hash, at address 3.
    Ripemd160,
    /// The identity copy, at address 4.
    Identity,
    /// Big-integer modular exponentiation, at address 5.
    Modexp,
    /// Curve point addition, at address 6.
    Bn128Add,
    /// Curve scalar multiplication, at address 7.
    Bn128Mul,
    /// Curve pairing check, at address 8.
    Bn128Pairing,
    /// The runtime call dispatcher, at address 255.
    Dispatch,
    /// The deterministic resource-consumption test contract, at address 511.
    Sacrifice,
}

/// The dispatch decision: the precompile registered at an address, if any.
pub open spec fn spec_lookup(a: Seq<u8>) -> Option<PrecompileKind> {
    if high_bytes_zero(a) {
        if low_u64(a) == 1 {
            Some(PrecompileKind::ECRecover)
        } else if low_u64(a) == 2 {
            Some(PrecompileKind::Sha256)
        } else if low_u64(a) == 3 {
            Some(PrecompileKind::Ripemd160)
        } else if low_u64(a) == 4 {
            Some(PrecompileKind::Identity)
        } else if low_u64(a) == 5 {
            Some(PrecompileKind::Modexp)
        } else if low_u64(a) == 6 {
            Some(PrecompileKind::Bn128Add)
        } else if low_u64(a) == 7 {
            Some(PrecompileKind::Bn128Mul)
        } else if low_u64(a) == 8 {
            Some(PrecompileKind::Bn128Pairing)
        } else if low_u64(a) == 255 {
            Some(PrecompileKind::Dispatch)
        } else if low_u64(a) == 511 {
            Some(PrecompileKind::Sacrifice)
        } else {
            None
        }
    } else {
        None
    }
}

/// How a precompile call ends successfully.
#[derive(Clone, Copy, Debug, PartialEq, Eq, Structural)]
pub enum ExitSucceed {
    /// The contract ran to completion and returned its output.
    Returned,
}

/// How a precompile call fails; returned to the EVM execution context as a
/// normal contract-call failure, never a crash.
#[derive(Clone, Copy, Debug, PartialEq, Eq, Structural)]
pub enum ExitError {
    /// The call data does not have the contract's required shape.
    InvalidInput,
    /// The requested gas exceeds the caller-supplied limit.
    OutOfGas,
}

impl ExitError {
    /// A short description of the failure.
    pub fn message(&self) -> (m: &'static str)
        ensures
            *self == ExitError::InvalidInput ==> m@ == "input length for Sacrifice must be exactly 16 bytes"@,
            *self == ExitError::OutOfGas ==> m@ == "out of gas"@,
    {
        match self {
            ExitError::InvalidInput => "input length for Sacrifice must be exactly 16 bytes",
            ExitError::OutOfGas => "out of gas",
        }
    }
}

/// What a successful resource-consumption call reports back, together with
/// the delay the caller must still block for.
#[derive(Clone, Debug, PartialEq, Eq)]
pub struct SacrificeOutcome {
    /// The exit status handed to the EVM.
    pub status: ExitSucceed,
    /// The returned bytes; always empty.
    pub output: Vec<u8>,
    /// The gas reported as consumed.
    pub gas_used: u64,
    /// How long the calling context is to block, in milliseconds.
    pub delay_millis: u64,
}

/// The gas amount requested by resource-consumption call data: its first
/// 8 bytes, big-endian.
pub open spec fn sacrifice_gas(input: Seq<u8>) -> nat {
    be_value(input.subrange(0, 8))
}

/// The delay requested by resource-consumption call data: its last 8 bytes,
/// big-endian, in milliseconds.
pub open spec fn sacrifice_delay(input: Seq<u8>) -> nat {
    be_value(input.subrange(8, 16))
}

/// The resource-consumption contract, in full: call data must be exactly
/// 16 bytes; a gas request above the caller's limit is out of gas; otherwise
/// the call succeeds with empty output, consuming exactly the requested gas
/// and standing for a block of exactly the requested delay.
pub open spec fn sacrifice_post(
    input: Seq<u8>,
    target_gas: Option<u64>,
    r: Result<SacrificeOutcome, ExitError>,
) -> bool {
    if input.len() != 16 {
        r == Err::<SacrificeOutcome, ExitError>(ExitError::InvalidInput)
    } else if target_gas matches Some(limit) && limit < sacrifice_gas(input) {
        r == Err::<SacrificeOutcome, ExitError>(ExitError::OutOfGas)
    } else {
        r matches Ok(out) && out.status == ExitSucceed::Returned && out.output@ == Seq::<
            u8,
        >::empty() && out.gas_used == sacrifice_gas(input) && out.delay_millis == sacrifice_delay(
            input,
        )
    }
}

/// The deterministic resource-consumption test contract.  It does no work:
/// it charges the gas and requests the delay that its call data names, so a
/// test harness can exercise gas accounting and latency budgets without a
/// cryptographic workload.
pub struct Sacrifice;

impl Sacrifice {
    /// Runs the contract on `input` under the caller's gas limit.  The
    /// caller performs the returned delay; everything else is decided here.
    pub fn execute(input: &[u8], target_gas: Option<u64>) -> (r: Result<
        SacrificeOutcome,
        ExitError,
    >)
        ensures
            sacrifice_post(input@, target_gas, r),
    {
        if input.len() != 16 {
            return Err(ExitError::InvalidInput);
        }
        let gas_cost = be_u64_at(input, 0);
        let msec_cost = be_u64_at(input, 8);
        if let Some(gas_left) = target_gas {
            if gas_left < gas_cost {
                return Err(ExitError::OutOfGas);
            }
        }
        Ok(
            SacrificeOutcome {
                status: ExitSucceed::Returned,
                output: Vec::new(),
                gas_used: gas_cost,
                delay_millis: msec_cost,
            },
        )
    }
}

/// A resolved dispatch: either an outcome this crate computed itself, or the
/// member of the set whose implementation the caller must invoke.
pub enum Dispatched {
    /// The resource-consumption contract ran; here is its result.
    Handled(Result<SacrificeOutcome, ExitError>),
    /// The address names this precompile; its body runs outside this crate.
    External(PrecompileKind),
}

/// The precompile set installed in the runtime: the standard contracts, the
/// call dispatcher, and the resource-consumption test contract.
pub struct MoonbeamPrecompiles;

impl MoonbeamPrecompiles {
    /// The precompile registered at `address`, if any.
    pub fn lookup(address: &Address) -> (r: Option<PrecompileKind>)
        requires
            address.wf(),
        ensures
            r == spec_lookup(address@),
    {
        let mut i: usize = 0;
        while i < 12
            invariant
                i <= 12,
                address.wf(),
                forall|j: int| 0 <= j < i ==> address@[j] == 0,
            decreases 12 - i,
        {
            if address.bytes[i] != 0 {
                return None;
            }
            i = i + 1;
        }
        let low = be_u64_at(address.bytes.as_slice(), 12);
        proof {
            assert(address.bytes@.subrange(12, 20) == address@.subrange(12, 20));
        }
        match low {
            1 => Some(PrecompileKind::ECRecover),
            2 => Some(PrecompileKind::Sha256),
            3 => Some(PrecompileKind::Ripemd160),
            4 => Some(PrecompileKind::Identity),
            5 => Some(PrecompileKind::Modexp),
            6 => Some(PrecompileKind::Bn128Add),
            7 => Some(PrecompileKind::Bn128Mul),
            8 => Some(PrecompileKind::Bn128Pairing),
            255 => Some(PrecompileKind::Dispatch),
            511 => Some(PrecompileKind::Sacrifice),
            _ => None,
        }
    }

    /// Dispatches one EVM call.  `None` means the address is no precompile
    /// and the caller falls through to ordinary contract execution; inside
    /// the reserved set the call is always answered: the resource-consumption
    /// contract is run here, any other member is named for the caller to run.
    pub fn execute(address: &Address, input: &[u8], target_gas: Option<u64>) -> (r: Option<
        Dispatched,
    >)
        requires
            address.wf(),
        ensures
            spec_lookup(address@) is None <==> r is None,
            spec_lookup(address@) == Some(PrecompileKind::Sacrifice) ==> (r matches Some(
                Dispatched::Handled(res),
            ) && sacrifice_post(input@, target_gas, res)),
            spec_lookup(address@) matches Some(k) ==> (k != PrecompileKind::Sacrifice ==> r
                == Some(Dispatched::External(k))),
    {
        match Self::lookup(address) {
            None => None,
            Some(PrecompileKind::Sacrifice) => Some(
                Dispatched::Handled(Sacrifice::execute(input, target_gas)),
            ),
            Some(kind) => Some(Dispatched::External(kind)),
        }
    }
}

} // verus!
