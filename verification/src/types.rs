//! The plain values that cross the engine's interface.
use vstd::prelude::*;

verus! {

/// Identifier of a batch of transfers, as handed out by the engine.
pub type BatchId = u64;

/// The direction of a transfer.
#[derive(Debug, Clone, Copy, PartialEq, Eq, Structural)]
pub enum OpcodeEnum {
    Read,
    Write,
}

impl OpcodeEnum {
    /// The integer code of this operation in the engine's C interface.
    pub open spec fn spec_code(self) -> i32 {
        match self {
            OpcodeEnum::Read => 0,
            OpcodeEnum::Write => 1,
        }
    }

    /// The integer code of this operation in the engine's C interface
    /// (`Read` is 0, `Write` is 1).
    pub fn code(&self) -> (c: i32)
        ensures
            c == self.spec_code(),
    {
        match self {
            OpcodeEnum::Read => 0,
            OpcodeEnum::Write => 1,
        }
    }
}

/// Distinct operations have distinct codes.
pub proof fn lemma_opcode_code_injective(a: OpcodeEnum, b: OpcodeEnum)
    ensures
        a.spec_code() == b.spec_code() <==> a == b,
{
}

/// The state of a transfer task, as the engine reports it.
#[derive(Debug, Clone, Copy, PartialEq, Eq, Structural)]
pub enum TransferStatusEnum {
    Waiting,
    Pending,
    Invalid,
    Canceled,
    Completed,
    Timeout,
    Failed,
}

impl TransferStatusEnum {
    /// The integer code of this state in the engine's C interface.
    pub open spec fn spec_code(self) -> i32 {
        match self {
            TransferStatusEnum::Waiting => 0,
            TransferStatusEnum::Pending => 1,
            TransferStatusEnum::Invalid => 2,
            TransferStatusEnum::Canceled => 3,
            TransferStatusEnum::Completed => 4,
            TransferStatusEnum::Timeout => 5,
            TransferStatusEnum::Failed => 6,
        }
    }

    /// The integer code of this state in the engine's C interface, counted
    /// from 0 for `Waiting` in declaration order.
    pub fn code(&self) -> (c: i32)
        ensures
            c == self.spec_code(),
    {
        match self {
            TransferStatusEnum::Waiting => 0,
            TransferStatusEnum::Pending => 1,
            TransferStatusEnum::Invalid => 2,
            TransferStatusEnum::Canceled => 3,
            TransferStatusEnum::Completed => 4,
            TransferStatusEnum::Timeout => 5,
            TransferStatusEnum::Failed => 6,
        }
    }
}

/// Distinct transfer states have distinct codes, all in `0..7`.
pub proof fn lemma_status_code_injective(a: TransferStatusEnum, b: TransferStatusEnum)
    ensures
        a.spec_code() == b.spec_code() <==> a == b,
        0 <= a.spec_code() < 7,
{
}

/// One transfer of a batch: `length` bytes between local address `source`
/// and offset `target_offset` of segment `target_id`.
#[derive(Debug, Clone, Copy, PartialEq, Eq, Structural)]
pub struct TransferRequest {
    pub opcode: OpcodeEnum,
    pub source: usize,
    pub target_id: i32,
    pub target_offset: u64,
    pub length: u64,
}

/// A local memory region: `length` bytes from address `addr`.
#[derive(Debug, Clone, Copy, PartialEq, Eq, Structural)]
pub struct BufferEntry {
    pub addr: usize,
    pub length: u64,
}

/// A transfer request as the engine's C interface lays it out.
#[allow(non_camel_case_types)]
#[derive(Debug, Clone, Copy, PartialEq, Eq, Structural)]
pub struct transfer_request_t {
    pub opcode: i32,
    pub source: usize,
    pub target_id: i32,
    pub target_offset: u64,
    pub length: u64,
}

/// A memory region as the engine's C interface lays it out.
#[allow(non_camel_case_types)]
#[derive(Debug, Clone, Copy, PartialEq, Eq, Structural)]
pub struct buffer_entry_t {
    pub addr: usize,
    pub length: usize,
}

/// The status of a transfer task as the engine's C interface reports it.
#[allow(non_camel_case_types)]
#[derive(Debug, Clone, Copy, PartialEq, Eq, Structural)]
pub struct transfer_status_t {
    pub status: i32,
    pub transferred_bytes: u64,
}

/// The C layout of a transfer request.
pub open spec fn request_layout(request: TransferRequest) -> transfer_request_t {
    transfer_request_t {
        opcode: request.opcode.spec_code(),
        source: request.source,
        target_id: request.target_id,
        target_offset: request.target_offset,
        length: request.length,
    }
}

/// The C layout of a memory region; the length is converted with `as usize`.
pub open spec fn buffer_layout(entry: BufferEntry) -> buffer_entry_t {
    buffer_entry_t { addr: entry.addr, length: entry.length as usize }
}

/// The C layout of a request carries the request itself: the opcode's code
/// (0 for `Read`, 1 for `Write`), the request's own local source address,
/// and its target segment, target offset and length unchanged.
pub proof fn lemma_request_layout_fields(request: TransferRequest)
    ensures
        request_layout(request).opcode == (if request.opcode == OpcodeEnum::Read {
            0i32
        } else {
            1i32
        }),
        request_layout(request).source == request.source,
        request_layout(request).target_id == request.target_id,
        request_layout(request).target_offset == request.target_offset,
        request_layout(request).length == request.length,
{
}

/// The C layout of a region carries the region's own start address, and its
/// length converted to `usize`, which is the length itself whenever it fits.
pub proof fn lemma_buffer_layout_fields(entry: BufferEntry)
    ensures
        buffer_layout(entry).addr == entry.addr,
        buffer_layout(entry).length == entry.length as usize,
        entry.length <= usize::MAX ==> buffer_layout(entry).length == entry.length,
{
}

} // verus!
