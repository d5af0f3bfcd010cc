//! Execution requests, completion notifications, and the compact wire codec.
//!
//! The wire form of a request is four fixed bytes — binary layout, SUIT slot,
//! helper-set preset, helper-indices preset — followed by an optional list of
//! allowed helper identifiers, one byte each.

use vstd::prelude::*;
use crate::config::{BinaryFileLayout, TargetVM};

verus! {

/// The identifier of the IPC message type that carries an execution request.
pub const VM_EXEC_REQUEST: u16 = 23;

/// The identifier of the IPC message type that carries a completion
/// notification.
pub const VM_COMPLETE_NOTIFICATION: u16 = 24;

/// Why a request payload was rejected.  Either failure is surfaced to the
/// caller as a bad request.
#[derive(Clone, Copy, PartialEq, Eq, Structural, Debug)]
pub enum RequestDecodeError {
    /// Fewer than the four fixed header bytes were present.
    TooShort,
    /// The first byte does not name a known binary layout.
    UnknownLayout,
}

/// A request to start one VM execution: which back-end, which binary layout,
/// which SUIT storage slot, the helper preset bytes, and the explicit list of
/// allowed helper identifiers.
#[derive(Debug)]
pub struct VMExecutionRequest {
    pub vm_target: TargetVM,
    pub binary_layout: BinaryFileLayout,
    pub suit_slot: usize,
    pub helper_set: u8,
    pub helper_indices: u8,
    pub allowed_helpers: Vec<u8>,
}

/// The mathematical value of a request: its fields, with the helper list as a
/// sequence.
pub struct RequestModel {
    pub vm_target: TargetVM,
    pub binary_layout: BinaryFileLayout,
    pub suit_slot: usize,
    pub helper_set: u8,
    pub helper_indices: u8,
    pub allowed_helpers: Seq<u8>,
}

impl View for VMExecutionRequest {
    type V = RequestModel;

    open spec fn view(&self) -> RequestModel {
        RequestModel {
            vm_target: self.vm_target,
            binary_layout: self.binary_layout,
            suit_slot: self.suit_slot,
            helper_set: self.helper_set,
            helper_indices: self.helper_indices,
            allowed_helpers: self.allowed_helpers@,
        }
    }
}

/// The fixed four-byte header of a request as it travels through the IPC
/// channel.  The layout is kept as its raw wire byte so the message stays
/// small enough for a single IPC message; it is validated when the full
/// request is reconstructed.
#[derive(Clone, Copy, PartialEq, Eq, Structural, Debug)]
pub struct VMExecutionRequestMsg {
    pub binary_layout: u8,
    pub suit_slot: u8,
    pub helper_set: u8,
    pub helper_indices: u8,
}

/// Notifies the execution manager that the worker with the given identifier
/// has finished and can be handed a new job.
#[derive(Clone, Copy, PartialEq, Eq, Structural, Debug)]
pub struct VMExecutionCompleteMsg {
    pub worker_pid: i16,
}

impl VMExecutionCompleteMsg {
    pub fn new(worker_pid: i16) -> (r: VMExecutionCompleteMsg)
        ensures
            r.worker_pid == worker_pid,
    {
        VMExecutionCompleteMsg { worker_pid }
    }
}

impl VMExecutionRequest {
    pub fn new(suit_location: usize, vm_target: TargetVM, binary_layout: BinaryFileLayout) -> (r:
        VMExecutionRequest)
        ensures
            r@ == (RequestModel {
                vm_target,
                binary_layout,
                suit_slot: suit_location,
                helper_set: 0u8,
                helper_indices: 0u8,
                allowed_helpers: Seq::<u8>::empty(),
            }),
    {
        let r = VMExecutionRequest {
            suit_slot: suit_location,
            vm_target,
            binary_layout,
            helper_set: 0,
            helper_indices: 0,
            allowed_helpers: Vec::new(),
        };
        assert(r.allowed_helpers@ =~= Seq::<u8>::empty());
        r
    }

    /// The value a request decoded from the given payload must have.  A
    /// decoded request always targets the rBPF back-end: the wire form
    /// carries no target byte.
    pub open spec fn spec_decoded(data: Seq<u8>) -> Result<RequestModel, RequestDecodeError> {
        if data.len() < 4 {
            Err(RequestDecodeError::TooShort)
        } else {
            match BinaryFileLayout::spec_from_byte(data[0]) {
                Option::None => Err(RequestDecodeError::UnknownLayout),
                Option::Some(layout) => Ok(
                    RequestModel {
                        vm_target: TargetVM::Rbpf,
                        binary_layout: layout,
                        suit_slot: data[1] as usize,
                        helper_set: data[2],
                        helper_indices: data[3],
                        allowed_helpers: data.subrange(4, data.len() as int),
                    },
                ),
            }
        }
    }

    /// What a request looks like on the wire.
    pub open spec fn spec_encoded(m: RequestModel) -> Seq<u8> {
        seq![
            m.binary_layout.spec_to_byte(),
            m.suit_slot as u8,
            m.helper_set,
            m.helper_indices,
        ] + m.allowed_helpers
    }

    /// Reconstructs a request from a wire payload.  Succeeds exactly on
    /// payloads that hold the four header bytes and whose first byte names a
    /// known binary layout; everything past the header is the allowed-helper
    /// list.
    pub fn decode(data: &[u8]) -> (r: Result<VMExecutionRequest, RequestDecodeError>)
        ensures
            match r {
                Ok(req) => Self::spec_decoded(data@) == Ok::<RequestModel, RequestDecodeError>(
                    req@,
                ),
                Err(e) => Self::spec_decoded(data@) == Err::<RequestModel, RequestDecodeError>(e),
            },
    {
        if data.len() < 4 {
            return Err(RequestDecodeError::TooShort);
        }
        let Some(layout) = BinaryFileLayout::from_byte(data[0]) else {
            return Err(RequestDecodeError::UnknownLayout);
        };
        let allowed = vstd::slice::slice_to_vec(vstd::slice::slice_subrange(data, 4, data.len()));
        Ok(VMExecutionRequest {
            vm_target: TargetVM::Rbpf,
            binary_layout: layout,
            suit_slot: data[1] as usize,
            helper_set: data[2],
            helper_indices: data[3],
            allowed_helpers: allowed,
        })
    }

    /// Writes the request in its wire form: the four header bytes followed by
    /// the allowed-helper list.  The slot must fit the single wire byte the
    /// format gives it.
    pub fn encode(&self) -> (r: Vec<u8>)
        requires
            self.suit_slot < 256,
        ensures
            r@ == Self::spec_encoded(self@),
    {
        let mut out: Vec<u8> = Vec::new();
        out.push(self.binary_layout.to_byte());
        out.push(self.suit_slot as u8);
        out.push(self.helper_set);
        out.push(self.helper_indices);
        out.extend_from_slice(self.allowed_helpers.as_slice());
        assert(out@ =~= Self::spec_encoded(self@));
        out
    }

    /// Reconstructs a full request from the fixed IPC header, as the worker
    /// does when a message arrives in its mailbox.  Fails exactly when the
    /// layout byte names no known layout.
    pub fn from_msg(msg: &VMExecutionRequestMsg) -> (r: Result<
        VMExecutionRequest,
        RequestDecodeError,
    >)
        ensures
            match r {
                Ok(req) => {
                    &&& Some(req.binary_layout) == BinaryFileLayout::spec_from_byte(
                        msg.binary_layout,
                    )
                    &&& req.vm_target == TargetVM::Rbpf
                    &&& req.suit_slot == msg.suit_slot as usize
                    &&& req.helper_set == msg.helper_set
                    &&& req.helper_indices == msg.helper_indices
                    &&& req.allowed_helpers@ == Seq::<u8>::empty()
                },
                Err(e) => {
                    &&& BinaryFileLayout::spec_from_byte(msg.binary_layout) is None
                    &&& e == RequestDecodeError::UnknownLayout
                },
            },
    {
        let Some(layout) = BinaryFileLayout::from_byte(msg.binary_layout) else {
            return Err(RequestDecodeError::UnknownLayout);
        };
        let r = VMExecutionRequest {
            vm_target: TargetVM::Rbpf,
            binary_layout: layout,
            suit_slot: msg.suit_slot as usize,
            helper_set: msg.helper_set,
            helper_indices: msg.helper_indices,
            allowed_helpers: Vec::new(),
        };
        assert(r.allowed_helpers@ =~= Seq::<u8>::empty());
        Ok(r)
    }

    /// The fixed IPC header of this request.  The slot must fit its wire
    /// byte.
    pub fn to_msg(&self) -> (r: VMExecutionRequestMsg)
        requires
            self.suit_slot < 256,
        ensures
            r.binary_layout == self.binary_layout.spec_to_byte(),
            r.suit_slot == self.suit_slot as u8,
            r.helper_set == self.helper_set,
            r.helper_indices == self.helper_indices,
    {
        VMExecutionRequestMsg {
            binary_layout: self.binary_layout.to_byte(),
            suit_slot: self.suit_slot as u8,
            helper_set: self.helper_set,
            helper_indices: self.helper_indices,
        }
    }
}

impl VMExecutionRequestMsg {
    /// The four wire bytes of the fixed header.
    pub open spec fn spec_bytes(self) -> Seq<u8> {
        seq![self.binary_layout, self.suit_slot, self.helper_set, self.helper_indices]
    }

    /// The header a four-byte prefix decodes to.
    pub open spec fn spec_from_bytes(data: Seq<u8>) -> Option<VMExecutionRequestMsg> {
        if data.len() >= 4 {
            Some(
                VMExecutionRequestMsg {
                    binary_layout: data[0],
                    suit_slot: data[1],
                    helper_set: data[2],
                    helper_indices: data[3],
                },
            )
        } else {
            None
        }
    }

    pub fn to_bytes(&self) -> (r: Vec<u8>)
        ensures
            r@ == self.spec_bytes(),
    {
        let mut out: Vec<u8> = Vec::new();
        out.push(self.binary_layout);
        out.push(self.suit_slot);
        out.push(self.helper_set);
        out.push(self.helper_indices);
        assert(out@ =~= self.spec_bytes());
        out
    }

    /// Reads the fixed header back from a wire payload; fails exactly when
    /// fewer than four bytes are present.
    pub fn from_bytes(data: &[u8]) -> (r: Option<VMExecutionRequestMsg>)
        ensures
            r == Self::spec_from_bytes(data@),
    {
        if data.len() < 4 {
            return None;
        }
        Some(
            VMExecutionRequestMsg {
                binary_layout: data[0],
                suit_slot: data[1],
                helper_set: data[2],
                helper_indices: data[3],
            },
        )
    }
}

/// Decoding is the inverse of encoding on the fixed message header: a header
/// written to its four wire bytes reads back unchanged, and any payload whose
/// header decodes at all is reproduced byte for byte by re-encoding that
/// header in front of its tail.
pub proof fn lemma_msg_codec_round_trip(msg: VMExecutionRequestMsg, data: Seq<u8>)
    ensures
        VMExecutionRequestMsg::spec_from_bytes(msg.spec_bytes()) == Some(msg),
        VMExecutionRequestMsg::spec_from_bytes(data) matches Some(m) ==> m.spec_bytes()
            + data.subrange(4, data.len() as int) =~= data,
{
    assert(VMExecutionRequestMsg::spec_from_bytes(msg.spec_bytes()) == Some(msg)) by {
        assert(msg.spec_bytes().len() == 4);
    }
}

/// Decoding a full request is the inverse of encoding it, for every request
/// the wire form can carry at all: one whose slot fits its wire byte and
/// whose target is the rBPF back-end, the only target the wire form names.
/// In the other direction, re-encoding a decoded payload reproduces it byte
/// for byte.
pub proof fn lemma_request_codec_round_trip(m: RequestModel, data: Seq<u8>)
    requires
        m.suit_slot < 256,
        m.vm_target == TargetVM::Rbpf,
    ensures
        VMExecutionRequest::spec_decoded(VMExecutionRequest::spec_encoded(m)) == Ok::<
            RequestModel,
            RequestDecodeError,
        >(m),
        VMExecutionRequest::spec_decoded(data) matches Ok(d) ==> VMExecutionRequest::spec_encoded(
            d,
        ) =~= data,
{
    let e = VMExecutionRequest::spec_encoded(m);
    assert(e.len() == 4 + m.allowed_helpers.len());
    assert(e[0] == m.binary_layout.spec_to_byte());
    crate::config::lemma_layout_byte_round_trip(m.binary_layout, e[0]);
    assert(e.subrange(4, e.len() as int) =~= m.allowed_helpers);
    match VMExecutionRequest::spec_decoded(e) {
        Ok(d) => {
            assert(d =~= m);
        },
        Err(_) => {
            assert(false);
        },
    }
    if VMExecutionRequest::spec_decoded(data) is Ok {
        let d = VMExecutionRequest::spec_decoded(data)->Ok_0;
        crate::config::lemma_layout_byte_round_trip(d.binary_layout, data[0]);
    }
}

} // verus!
