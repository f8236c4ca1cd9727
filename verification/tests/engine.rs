use mooncake_transfer_engine::{
    buffer_entry_t, transfer_request_t, transfer_status_t, BufferEntry, EngineError, OpcodeEnum,
    TransferEngine, TransferRequest, TransferStatusEnum, SESSION_BUFFER_LEN,
};

fn engine() -> TransferEngine {
    TransferEngine::new(0x7f00_1000).unwrap()
}

#[test]
fn null_handle_means_creation_failed() {
    assert!(matches!(TransferEngine::new(0), Err(EngineError::CreateFailed)));
    assert_eq!(engine().handle(), 0x7f00_1000);
}

#[test]
fn create_args_encode_strings() {
    let args = TransferEngine::create_args("etcd://10.0.0.1:2379", "node0", "10.0.0.2", 12001)
        .unwrap();
    assert_eq!(args.metadata_conn_string, b"etcd://10.0.0.1:2379\0".to_vec());
    assert_eq!(args.local_server_name, b"node0\0".to_vec());
    assert_eq!(args.ip_or_host_name, b"10.0.0.2\0".to_vec());
    assert_eq!(args.rpc_port, 12001);
    assert_eq!(args.auto_discover, 0);
}

#[test]
fn create_args_refuse_nul_in_any_string() {
    assert!(matches!(TransferEngine::create_args("a\0", "b", "c", 1), Err(EngineError::NulInString)));
    assert!(matches!(TransferEngine::create_args("a", "b\0", "c", 1), Err(EngineError::NulInString)));
    assert!(matches!(TransferEngine::create_args("a", "b", "\0c", 1), Err(EngineError::NulInString)));
}

#[test]
fn discover_topology_succeeds_only_on_zero() {
    let e = engine();
    assert_eq!(e.discover_topology(0), Ok(()));
    assert_eq!(e.discover_topology(1), Err(EngineError::DiscoverTopologyFailed));
    assert_eq!(e.discover_topology(-1), Err(EngineError::DiscoverTopologyFailed));
}

#[test]
fn install_transport_fails_on_null() {
    let e = engine();
    assert_eq!(e.install_transport("rdma", 0x5000), Ok(()));
    assert_eq!(
        e.install_transport("rdma", 0),
        Err(EngineError::InstallTransportFailed { proto: "rdma".to_string() })
    );
}

#[test]
fn local_session_name_reads_buffer() {
    let e = engine();
    let mut buffer = vec![0u8; SESSION_BUFFER_LEN];
    buffer[..9].copy_from_slice(b"host:1234");
    assert_eq!(e.local_session_name(0, &buffer).unwrap(), "host:1234");
    assert_eq!(e.local_session_name(-1, &buffer), Err(EngineError::LocalSessionFailed));
    assert_eq!(e.local_session_name(3, &[1u8, 2, 3]), Err(EngineError::LocalSessionFailed));
}

#[test]
fn local_session_name_refuses_invalid_utf8() {
    let e = engine();
    let mut buffer = vec![0u8; SESSION_BUFFER_LEN];
    buffer[0] = 0xC3;
    assert!(matches!(e.local_session_name(0, &buffer), Err(EngineError::InvalidSession { .. })));
}

#[test]
fn register_and_unregister_fail_only_when_negative() {
    let e = engine();
    assert_eq!(e.register_local_memory(0), Ok(()));
    assert_eq!(e.register_local_memory(7), Ok(()));
    assert_eq!(e.register_local_memory(-1), Err(EngineError::RegisterFailed));
    assert_eq!(e.unregister_local_memory(0), Ok(()));
    assert_eq!(e.unregister_local_memory(-3), Err(EngineError::UnregisterFailed));
    assert_eq!(e.register_local_memory_batch(2), Ok(()));
    assert_eq!(e.register_local_memory_batch(-1), Err(EngineError::RegisterFailed));
    assert_eq!(e.unregister_local_memory_batch(1), Ok(()));
    assert_eq!(e.unregister_local_memory_batch(-2), Err(EngineError::UnregisterFailed));
}

#[test]
fn empty_register_batch_needs_no_call() {
    assert!(matches!(TransferEngine::register_local_memory_batch_args(&[], "cpu:0"), Ok(None)));
    assert!(matches!(TransferEngine::register_local_memory_batch_args(&[], "bad\0"), Ok(None)));
}

#[test]
fn register_batch_args_keep_order() {
    let list = [BufferEntry { addr: 0x1000, length: 4096 }, BufferEntry { addr: 0x9000, length: 64 }];
    let args = TransferEngine::register_local_memory_batch_args(&list, "cpu:0").unwrap().unwrap();
    assert_eq!(
        args.buffer_list,
        vec![
            buffer_entry_t { addr: 0x1000, length: 4096 },
            buffer_entry_t { addr: 0x9000, length: 64 },
        ]
    );
    assert_eq!(args.location, b"cpu:0\0".to_vec());
    assert!(matches!(
        TransferEngine::register_local_memory_batch_args(&list, "cpu\0"),
        Err(EngineError::NulInString)
    ));
}

#[test]
fn unregister_batch_args_are_addresses() {
    assert_eq!(TransferEngine::unregister_local_memory_batch_args(&[]), None);
    let list = [BufferEntry { addr: 0x2000, length: 1 }, BufferEntry { addr: 0x3000, length: 2 }];
    assert_eq!(TransferEngine::unregister_local_memory_batch_args(&list), Some(vec![0x2000, 0x3000]));
}

#[test]
fn allocate_batch_id_refuses_max() {
    let e = engine();
    assert_eq!(e.allocate_batch_id(42), Ok(42));
    assert_eq!(e.allocate_batch_id(0), Ok(0));
    assert_eq!(e.allocate_batch_id(u64::MAX), Err(EngineError::AllocateBatchIdFailed));
}

#[test]
fn submit_args_use_opcode_codes() {
    assert_eq!(TransferEngine::submit_transfer_args(&[]), None);
    let requests = [
        TransferRequest { opcode: OpcodeEnum::Read, source: 0x1000, target_id: 3, target_offset: 128, length: 64 },
        TransferRequest { opcode: OpcodeEnum::Write, source: 0x2000, target_id: -1, target_offset: 0, length: 8 },
    ];
    assert_eq!(
        TransferEngine::submit_transfer_args(&requests),
        Some(vec![
            transfer_request_t { opcode: 0, source: 0x1000, target_id: 3, target_offset: 128, length: 64 },
            transfer_request_t { opcode: 1, source: 0x2000, target_id: -1, target_offset: 0, length: 8 },
        ])
    );
}

#[test]
fn submit_succeeds_only_on_zero() {
    let e = engine();
    assert_eq!(e.submit_transfer(0), Ok(()));
    assert_eq!(e.submit_transfer(-1), Err(EngineError::SubmitFailed));
    assert_eq!(e.submit_transfer(2), Err(EngineError::SubmitFailed));
}

#[test]
fn transfer_status_is_passed_through() {
    let e = engine();
    let status = transfer_status_t { status: TransferStatusEnum::Completed.code(), transferred_bytes: 4096 };
    assert_eq!(e.get_transfer_status(0, status), Ok((4, 4096)));
    assert_eq!(e.get_transfer_status(-1, status), Err(EngineError::GetTransferStatusFailed));
}

#[test]
fn free_batch_id_succeeds_only_on_zero() {
    let e = engine();
    assert_eq!(e.free_batch_id(0), Ok(()));
    assert_eq!(e.free_batch_id(1), Err(EngineError::FreeBatchIdFailed));
}

#[test]
fn segments_open_close_and_sync() {
    let e = engine();
    assert_eq!(e.open_segment(0), Ok(0));
    assert_eq!(e.open_segment(5), Ok(5));
    assert_eq!(e.open_segment(-1), Err(EngineError::OpenSegmentFailed));
    assert_eq!(e.close_segment(5, 0), Ok(()));
    assert_eq!(e.close_segment(5, -1), Err(EngineError::CloseSegmentFailed { segment_id: 5 }));
    assert_eq!(e.sync_segment_cache(0), Ok(()));
    assert_eq!(e.sync_segment_cache(-1), Err(EngineError::SyncSegmentCacheFailed));
}

#[test]
fn warmup_keeps_name_and_code() {
    let e = engine();
    assert_eq!(e.warmup_efa_segment("peer", 0), Ok(()));
    assert_eq!(
        e.warmup_efa_segment("peer", -22),
        Err(EngineError::WarmupFailed { name: "peer".to_string(), code: -22 })
    );
}

#[test]
fn enum_codes_follow_declaration_order() {
    assert_eq!(OpcodeEnum::Read.code(), 0);
    assert_eq!(OpcodeEnum::Write.code(), 1);
    let all = [
        TransferStatusEnum::Waiting,
        TransferStatusEnum::Pending,
        TransferStatusEnum::Invalid,
        TransferStatusEnum::Canceled,
        TransferStatusEnum::Completed,
        TransferStatusEnum::Timeout,
        TransferStatusEnum::Failed,
    ];
    for (i, s) in all.iter().enumerate() {
        assert_eq!(s.code(), i as i32);
    }
}
