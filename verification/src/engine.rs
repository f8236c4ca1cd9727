//! The decisions of the transfer engine's client: what is handed to each call
//! of the engine's C interface, and what each call's answer means.
//!
//! A value of [`TransferEngine`] stands for a live engine, known by the
//! address of its handle. Each operation of the engine is split around its
//! C call: a verified function builds the call's arguments from the
//! operation's own, and the method named after the operation turns what the
//! call returned into the operation's result.
use vstd::prelude::*;

use crate::cstr::{c_string, c_string_bytes, c_string_contents, string_from_c_buffer};
use crate::error::EngineError;
use crate::types::{
    buffer_entry_t, buffer_layout, request_layout, transfer_request_t, transfer_status_t,
    BatchId, BufferEntry, OpcodeEnum, TransferRequest,
};
use vstd::utf8::{decode_utf8, valid_utf8};

verus! {

/// The size of the buffer into which the engine writes its local session.
pub const SESSION_BUFFER_LEN: usize = 256;

/// The arguments of `createTransferEngine`: three NUL-terminated strings,
/// the RPC port, and whether the engine discovers its topology by itself.
pub struct CreateArgs {
    pub metadata_conn_string: Vec<u8>,
    pub local_server_name: Vec<u8>,
    pub ip_or_host_name: Vec<u8>,
    pub rpc_port: u64,
    pub auto_discover: i32,
}

/// The arguments of `registerLocalMemoryBatch`.
pub struct RegisterBatchArgs {
    pub buffer_list: Vec<buffer_entry_t>,
    pub location: Vec<u8>,
}

/// A live transfer engine, known by the address of its handle.
pub struct TransferEngine {
    engine: usize,
}

impl TransferEngine {
    #[verifier::type_invariant]
    spec fn handle_is_live(self) -> bool {
        self.engine != 0
    }

    /// The address of the engine's handle.
    pub closed spec fn spec_handle(self) -> usize {
        self.engine
    }

    /// The address of the engine's handle; never 0.
    pub fn handle(&self) -> (h: usize)
        ensures
            h == self.spec_handle(),
            h != 0,
    {
        proof {
            use_type_invariant(self);
        }
        self.engine
    }

    /// The arguments with which to create an engine: the three strings
    /// encoded as C strings, the port, and automatic topology discovery off.
    /// Fails when one of the strings holds a NUL character.
    pub fn create_args(
        metadata_uri: &str,
        local_server_name: &str,
        advertised_host: &str,
        rpc_port: u64,
    ) -> (r: Result<CreateArgs, EngineError>)
        ensures
            r is Ok <==> !metadata_uri@.contains('\0') && !local_server_name@.contains('\0')
                && !advertised_host@.contains('\0'),
            r matches Ok(args) ==> {
                &&& args.metadata_conn_string@ == c_string_bytes(metadata_uri@)
                &&& args.local_server_name@ == c_string_bytes(local_server_name@)
                &&& args.ip_or_host_name@ == c_string_bytes(advertised_host@)
                &&& args.rpc_port == rpc_port
                &&& args.auto_discover == 0
            },
            r matches Err(e) ==> e == EngineError::NulInString,
    {
        let metadata_conn_string = c_string(metadata_uri)?;
        let local_server_name_c = c_string(local_server_name)?;
        let ip_or_host_name = c_string(advertised_host)?;
        Ok(
            CreateArgs {
                metadata_conn_string,
                local_server_name: local_server_name_c,
                ip_or_host_name,
                rpc_port,
                auto_discover: 0,
            },
        )
    }

    /// The engine that `createTransferEngine` returned the handle `engine`
    /// of; a null handle means that creation failed.
    pub fn new(engine: usize) -> (r: Result<TransferEngine, EngineError>)
        ensures
            r is Ok <==> engine != 0,
            r matches Ok(e) ==> e.spec_handle() == engine,
            r matches Err(e) ==> e == EngineError::CreateFailed,
    {
        if engine == 0 {
            Err(EngineError::CreateFailed)
        } else {
            Ok(TransferEngine { engine })
        }
    }

    /// The outcome of topology discovery, from what `discoverTopology`
    /// returned: success exactly when it returned 0.
    pub fn discover_topology(&self, ret: i32) -> (r: Result<(), EngineError>)
        ensures
            r is Ok <==> ret == 0,
            r matches Err(e) ==> e == EngineError::DiscoverTopologyFailed,
    {
        if ret != 0 {
            Err(EngineError::DiscoverTopologyFailed)
        } else {
            Ok(())
        }
    }

    /// The outcome of installing transport `proto`, from the address that
    /// `installTransport` returned: success exactly when it is not null.
    pub fn install_transport(&self, proto: &str, ret: usize) -> (r: Result<(), EngineError>)
        ensures
            r is Ok <==> ret != 0,
            r matches Err(e) ==> e matches EngineError::InstallTransportFailed { proto: p }
                && p@ == proto@,
    {
        if ret == 0 {
            Err(EngineError::InstallTransportFailed { proto: proto.to_owned() })
        } else {
            Ok(())
        }
    }

    /// The local session of the engine, from what `getLocalIpAndPort`
    /// returned and the buffer it filled: on success, the UTF-8 text before
    /// the first NUL of the buffer.
    pub fn local_session_name(&self, ret: i32, buffer: &[u8]) -> (r: Result<String, EngineError>)
        requires
            ret == 0 ==> buffer@.contains(0u8),
        ensures
            r is Ok <==> ret == 0 && valid_utf8(c_string_contents(buffer@)),
            r matches Ok(s) ==> s@ == decode_utf8(c_string_contents(buffer@)),
            r matches Err(e) ==> if ret != 0 {
                e == EngineError::LocalSessionFailed
            } else {
                e is InvalidSession
            },
    {
        if ret != 0 {
            return Err(EngineError::LocalSessionFailed);
        }
        string_from_c_buffer(buffer)
    }

    /// The outcome of registering local memory, from what
    /// `registerLocalMemory` returned: success exactly when it is not
    /// negative.
    pub fn register_local_memory(&self, ret: i32) -> (r: Result<(), EngineError>)
        ensures
            r is Ok <==> ret >= 0,
            r matches Err(e) ==> e == EngineError::RegisterFailed,
    {
        if ret < 0 {
            Err(EngineError::RegisterFailed)
        } else {
            Ok(())
        }
    }

    /// The outcome of unregistering local memory, from what
    /// `unregisterLocalMemory` returned: success exactly when it is not
    /// negative.
    pub fn unregister_local_memory(&self, ret: i32) -> (r: Result<(), EngineError>)
        ensures
            r is Ok <==> ret >= 0,
            r matches Err(e) ==> e == EngineError::UnregisterFailed,
    {
        if ret < 0 {
            Err(EngineError::UnregisterFailed)
        } else {
            Ok(())
        }
    }

    /// The arguments of `registerLocalMemoryBatch` for the regions
    /// `buffer_list`, or `None` when the list is empty and there is nothing
    /// to register. Fails when `location` holds a NUL character and there is
    /// something to register.
    pub fn register_local_memory_batch_args(buffer_list: &[BufferEntry], location: &str) -> (r:
        Result<Option<RegisterBatchArgs>, EngineError>)
        ensures
            r matches Ok(None) <==> buffer_list@.len() == 0,
            r is Err <==> buffer_list@.len() > 0 && location@.contains('\0'),
            r matches Err(e) ==> e == EngineError::NulInString,
            r matches Ok(Some(args)) ==> {
                &&& args.location@ == c_string_bytes(location@)
                &&& args.buffer_list@.len() == buffer_list@.len()
                &&& forall|i: int|
                    0 <= i < buffer_list@.len() ==> #[trigger] args.buffer_list@[i]
                        == buffer_layout(buffer_list@[i])
                &&& forall|i: int|
                    0 <= i < buffer_list@.len() ==> {
                        &&& (#[trigger] args.buffer_list@[i]).addr == buffer_list@[i].addr
                        &&& args.buffer_list@[i].length == buffer_list@[i].length as usize
                    }
            },
    {
        if buffer_list.len() == 0 {
            return Ok(None);
        }
        let location_c = c_string(location)?;
        let mut entries: Vec<buffer_entry_t> = Vec::with_capacity(buffer_list.len());
        let mut i: usize = 0;
        while i < buffer_list.len()
            invariant
                i <= buffer_list@.len(),
                entries@.len() == i,
                forall|j: int| 0 <= j < i ==> #[trigger] entries@[j] == buffer_layout(buffer_list@[j]),
            decreases buffer_list@.len() - i,
        {
            let entry = buffer_list[i];
            entries.push(buffer_entry_t { addr: entry.addr, length: entry.length as usize });
            i = i + 1;
        }
        Ok(Some(RegisterBatchArgs { buffer_list: entries, location: location_c }))
    }

    /// The outcome of registering a batch of regions, from what
    /// `registerLocalMemoryBatch` returned: success exactly when it is not
    /// negative.
    pub fn register_local_memory_batch(&self, ret: i32) -> (r: Result<(), EngineError>)
        ensures
            r is Ok <==> ret >= 0,
            r matches Err(e) ==> e == EngineError::RegisterFailed,
    {
        if ret < 0 {
            Err(EngineError::RegisterFailed)
        } else {
            Ok(())
        }
    }

    /// The addresses that `unregisterLocalMemoryBatch` takes for the regions
    /// `buffer_list`, in order, or `None` when the list is empty and there is
    /// nothing to unregister.
    pub fn unregister_local_memory_batch_args(buffer_list: &[BufferEntry]) -> (r: Option<Vec<usize>>)
        ensures
            r is None <==> buffer_list@.len() == 0,
            r matches Some(addrs) ==> {
                &&& addrs@.len() == buffer_list@.len()
                &&& forall|i: int|
                    0 <= i < buffer_list@.len() ==> #[trigger] addrs@[i] == buffer_list@[i].addr
            },
    {
        if buffer_list.len() == 0 {
            return None;
        }
        let mut addrs: Vec<usize> = Vec::with_capacity(buffer_list.len());
        let mut i: usize = 0;
        while i < buffer_list.len()
            invariant
                i <= buffer_list@.len(),
                addrs@.len() == i,
                forall|j: int| 0 <= j < i ==> #[trigger] addrs@[j] == buffer_list@[j].addr,
            decreases buffer_list@.len() - i,
        {
            addrs.push(buffer_list[i].addr);
            i = i + 1;
        }
        Some(addrs)
    }

    /// The outcome of unregistering a batch of regions, from what
    /// `unregisterLocalMemoryBatch` returned: success exactly when it is not
    /// negative.
    pub fn unregister_local_memory_batch(&self, ret: i32) -> (r: Result<(), EngineError>)
        ensures
            r is Ok <==> ret >= 0,
            r matches Err(e) ==> e == EngineError::UnregisterFailed,
    {
        if ret < 0 {
            Err(EngineError::UnregisterFailed)
        } else {
            Ok(())
        }
    }

    /// The batch ID from what `allocateBatchID` returned: `u64::MAX` means
    /// that no batch could be allocated.
    pub fn allocate_batch_id(&self, ret: u64) -> (r: Result<BatchId, EngineError>)
        ensures
            r is Ok <==> ret != u64::MAX,
            r matches Ok(id) ==> id == ret,
            r matches Err(e) ==> e == EngineError::AllocateBatchIdFailed,
    {
        if ret == u64::MAX {
            Err(EngineError::AllocateBatchIdFailed)
        } else {
            Ok(ret)
        }
    }

    /// The requests that `submitTransfer` takes for `requests`, in order and
    /// in C layout, or `None` when there is nothing to submit.
    pub fn submit_transfer_args(requests: &[TransferRequest]) -> (r: Option<Vec<transfer_request_t>>)
        ensures
            r is None <==> requests@.len() == 0,
            r matches Some(entries) ==> {
                &&& entries@.len() == requests@.len()
                &&& forall|i: int|
                    0 <= i < requests@.len() ==> #[trigger] entries@[i] == request_layout(
                        requests@[i],
                    )
                &&& forall|i: int|
                    0 <= i < requests@.len() ==> {
                        &&& (#[trigger] entries@[i]).source == requests@[i].source
                        &&& entries@[i].target_id == requests@[i].target_id
                        &&& entries@[i].target_offset == requests@[i].target_offset
                        &&& entries@[i].length == requests@[i].length
                        &&& entries@[i].opcode == (if requests@[i].opcode == OpcodeEnum::Read {
                            0i32
                        } else {
                            1i32
                        })
                    }
            },
    {
        if requests.len() == 0 {
            return None;
        }
        let mut entries: Vec<transfer_request_t> = Vec::with_capacity(requests.len());
        let mut i: usize = 0;
        while i < requests.len()
            invariant
                i <= requests@.len(),
                entries@.len() == i,
                forall|j: int| 0 <= j < i ==> #[trigger] entries@[j] == request_layout(requests@[j]),
            decreases requests@.len() - i,
        {
            let request = requests[i];
            entries.push(
                transfer_request_t {
                    opcode: request.opcode.code(),
                    source: request.source,
                    target_id: request.target_id,
                    target_offset: request.target_offset,
                    length: request.length,
                },
            );
            i = i + 1;
        }
        Some(entries)
    }

    /// The outcome of submitting a batch, from what `submitTransfer`
    /// returned: success exactly when it returned 0.
    pub fn submit_transfer(&self, ret: i32) -> (r: Result<(), EngineError>)
        ensures
            r is Ok <==> ret == 0,
            r matches Err(e) ==> e == EngineError::SubmitFailed,
    {
        if ret != 0 {
            Err(EngineError::SubmitFailed)
        } else {
            Ok(())
        }
    }

    /// The state code and the number of bytes moved of a task, from what
    /// `getTransferStatus` returned and the status it filled in.
    pub fn get_transfer_status(&self, ret: i32, status: transfer_status_t) -> (r: Result<
        (i32, u64),
        EngineError,
    >)
        ensures
            r is Ok <==> ret == 0,
            r matches Ok(pair) ==> pair == (status.status, status.transferred_bytes),
            r matches Err(e) ==> e == EngineError::GetTransferStatusFailed,
    {
        if ret != 0 {
            Err(EngineError::GetTransferStatusFailed)
        } else {
            Ok((status.status, status.transferred_bytes))
        }
    }

    /// The outcome of freeing a batch ID, from what `freeBatchID` returned:
    /// success exactly when it returned 0.
    pub fn free_batch_id(&self, ret: i32) -> (r: Result<(), EngineError>)
        ensures
            r is Ok <==> ret == 0,
            r matches Err(e) ==> e == EngineError::FreeBatchIdFailed,
    {
        if ret != 0 {
            Err(EngineError::FreeBatchIdFailed)
        } else {
            Ok(())
        }
    }

    /// The segment ID from what `openSegment` returned: a negative value
    /// means that the segment could not be opened.
    pub fn open_segment(&self, ret: i32) -> (r: Result<i32, EngineError>)
        ensures
            r is Ok <==> ret >= 0,
            r matches Ok(id) ==> id == ret,
            r matches Err(e) ==> e == EngineError::OpenSegmentFailed,
    {
        if ret < 0 {
            Err(EngineError::OpenSegmentFailed)
        } else {
            Ok(ret)
        }
    }

    /// The outcome of closing segment `segment_id`, from what `closeSegment`
    /// returned: success exactly when it is not negative.
    pub fn close_segment(&self, segment_id: i32, ret: i32) -> (r: Result<(), EngineError>)
        ensures
            r is Ok <==> ret >= 0,
            r matches Err(e) ==> e == (EngineError::CloseSegmentFailed { segment_id }),
    {
        if ret < 0 {
            Err(EngineError::CloseSegmentFailed { segment_id })
        } else {
            Ok(())
        }
    }

    /// The outcome of warming up the endpoints of segment `name`, from what
    /// `warmupEfaSegment` returned: success exactly when it is not negative;
    /// a failure keeps the name and the code.
    pub fn warmup_efa_segment(&self, name: &str, ret: i32) -> (r: Result<(), EngineError>)
        ensures
            r is Ok <==> ret >= 0,
            r matches Err(e) ==> e matches EngineError::WarmupFailed { name: n, code }
                && n@ == name@ && code == ret,
    {
        if ret < 0 {
            Err(EngineError::WarmupFailed { name: name.to_owned(), code: ret })
        } else {
            Ok(())
        }
    }

    /// The outcome of synchronizing the segment cache, from what
    /// `syncSegmentCache` returned: success exactly when it is not negative.
    pub fn sync_segment_cache(&self, ret: i32) -> (r: Result<(), EngineError>)
        ensures
            r is Ok <==> ret >= 0,
            r matches Err(e) ==> e == EngineError::SyncSegmentCacheFailed,
    {
        if ret < 0 {
            Err(EngineError::SyncSegmentCacheFailed)
        } else {
            Ok(())
        }
    }
}

} // verus!
