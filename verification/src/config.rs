//! Configuration of one virtual-machine execution: the target back-end, the
//! layout of the program binary, the storage slot, and the execution flags.

use vstd::prelude::*;

verus! {

/// Which virtual-machine implementation executes the program: the rBPF
/// interpreter / JIT family, or the native fall-back container VM.
#[derive(Clone, Copy, PartialEq, Eq, Structural, Debug)]
pub enum TargetVM {
    Rbpf,
    FemtoContainer,
}

impl TargetVM {
    /// Wire encoding of the target (0 selects rBPF, 1 the fall-back VM).
    pub open spec fn spec_to_byte(self) -> u8 {
        match self {
            TargetVM::Rbpf => 0,
            TargetVM::FemtoContainer => 1,
        }
    }

    pub fn to_byte(self) -> (r: u8)
        ensures
            r == self.spec_to_byte(),
    {
        match self {
            TargetVM::Rbpf => 0,
            TargetVM::FemtoContainer => 1,
        }
    }

    pub open spec fn spec_from_byte(b: u8) -> Option<TargetVM> {
        if b == 0 {
            Some(TargetVM::Rbpf)
        } else if b == 1 {
            Some(TargetVM::FemtoContainer)
        } else {
            None
        }
    }

    pub fn from_byte(b: u8) -> (r: Option<TargetVM>)
        ensures
            r == TargetVM::spec_from_byte(b),
    {
        if b == 0 {
            Some(TargetVM::Rbpf)
        } else if b == 1 {
            Some(TargetVM::FemtoContainer)
        } else {
            None
        }
    }
}

/// Layout of the program image stored in a SUIT slot.  Only `RawObjectFile`
/// carries relocation records that are resolved on the device; the other
/// layouts are pre-processed offline.
#[derive(Clone, Copy, PartialEq, Eq, Structural, Debug)]
pub enum BinaryFileLayout {
    OnlyTextSection,
    FemtoContainersHeader,
    ExtendedHeader,
    RawObjectFile,
    FunctionRelocationMetadata,
}

impl BinaryFileLayout {
    /// Wire encoding of the layout, one byte.
    pub open spec fn spec_to_byte(self) -> u8 {
        match self {
            BinaryFileLayout::OnlyTextSection => 0,
            BinaryFileLayout::FemtoContainersHeader => 1,
            BinaryFileLayout::ExtendedHeader => 2,
            BinaryFileLayout::RawObjectFile => 3,
            BinaryFileLayout::FunctionRelocationMetadata => 4,
        }
    }

    pub fn to_byte(self) -> (r: u8)
        ensures
            r == self.spec_to_byte(),
    {
        match self {
            BinaryFileLayout::OnlyTextSection => 0,
            BinaryFileLayout::FemtoContainersHeader => 1,
            BinaryFileLayout::ExtendedHeader => 2,
            BinaryFileLayout::RawObjectFile => 3,
            BinaryFileLayout::FunctionRelocationMetadata => 4,
        }
    }

    pub open spec fn spec_from_byte(b: u8) -> Option<BinaryFileLayout> {
        if b == 0 {
            Some(BinaryFileLayout::OnlyTextSection)
        } else if b == 1 {
            Some(BinaryFileLayout::FemtoContainersHeader)
        } else if b == 2 {
            Some(BinaryFileLayout::ExtendedHeader)
        } else if b == 3 {
            Some(BinaryFileLayout::RawObjectFile)
        } else if b == 4 {
            Some(BinaryFileLayout::FunctionRelocationMetadata)
        } else {
            None
        }
    }

    /// Decodes the one-byte wire form; unknown values are rejected.
    pub fn from_byte(b: u8) -> (r: Option<BinaryFileLayout>)
        ensures
            r == BinaryFileLayout::spec_from_byte(b),
    {
        if b == 0 {
            Some(BinaryFileLayout::OnlyTextSection)
        } else if b == 1 {
            Some(BinaryFileLayout::FemtoContainersHeader)
        } else if b == 2 {
            Some(BinaryFileLayout::ExtendedHeader)
        } else if b == 3 {
            Some(BinaryFileLayout::RawObjectFile)
        } else if b == 4 {
            Some(BinaryFileLayout::FunctionRelocationMetadata)
        } else {
            None
        }
    }
}

/// Round trip of the layout encoding: every layout survives its byte form,
/// and every byte that decodes at all re-encodes to itself.
pub proof fn lemma_layout_byte_round_trip(l: BinaryFileLayout, b: u8)
    ensures
        BinaryFileLayout::spec_from_byte(l.spec_to_byte()) == Some(l),
        BinaryFileLayout::spec_from_byte(b) matches Some(l2) ==> l2.spec_to_byte() == b,
{
}

/// Whether the program runs to completion on its own, runs inside a CoAP
/// request handler with access to the packet, or keeps running on a worker
/// after the request has been acknowledged.
#[derive(Clone, Copy, PartialEq, Eq, Structural, Debug)]
pub enum ExecutionModel {
    ShortLived,
    WithAccessToCoapPacket,
    LongRunning,
}

/// When the helper-access check runs: before execution (`PreFlight`), or not
/// at all, deferring to the trap at the call site (`Deferred`).
#[derive(Clone, Copy, PartialEq, Eq, Structural, Debug)]
pub enum HelperAccessVerification {
    PreFlight,
    Deferred,
}

/// Where the list of allowed helpers comes from: the execution request
/// itself, or metadata embedded in the program binary.
#[derive(Clone, Copy, PartialEq, Eq, Structural, Debug)]
pub enum HelperAccessListSource {
    ExecuteRequest,
    EmbeddedInBinary,
}

/// Everything a back-end needs to know to run one program: target VM, binary
/// layout, SUIT storage slot, execution model and the JIT / benchmark flags.
#[derive(Clone, Copy, PartialEq, Eq, Structural, Debug)]
pub struct VMConfiguration {
    pub vm_target: TargetVM,
    pub binary_layout: BinaryFileLayout,
    pub suit_slot: usize,
    pub execution_model: ExecutionModel,
    pub use_jit: bool,
    pub jit_compile: bool,
    pub benchmark: bool,
    pub helper_access_verification: HelperAccessVerification,
    pub helper_access_list_source: HelperAccessListSource,
}

impl VMConfiguration {
    /// A default configuration for the given target, layout and slot: a
    /// short-lived interpreter run with pre-flight helper checking and the
    /// helper list taken from the request.
    pub fn new(vm_target: TargetVM, binary_layout: BinaryFileLayout, suit_slot: usize) -> (r:
        VMConfiguration)
        ensures
            r.vm_target == vm_target,
            r.binary_layout == binary_layout,
            r.suit_slot == suit_slot,
            r.execution_model == ExecutionModel::ShortLived,
            !r.use_jit,
            !r.jit_compile,
            !r.benchmark,
            r.helper_access_verification == HelperAccessVerification::PreFlight,
            r.helper_access_list_source == HelperAccessListSource::ExecuteRequest,
    {
        VMConfiguration {
            vm_target,
            binary_layout,
            suit_slot,
            execution_model: ExecutionModel::ShortLived,
            use_jit: false,
            jit_compile: false,
            benchmark: false,
            helper_access_verification: HelperAccessVerification::PreFlight,
            helper_access_list_source: HelperAccessListSource::ExecuteRequest,
        }
    }
}

} // verus!
