use libaiofut::record::{describe, read_request, write_request, zeroed, AIOBatchSchedulerIn, ControlBlock, IOCmd, AIO};

#[test]
fn read_request_zeroes_buffer() {
    let (cb, data) = read_request(7, 3, 4096, 5, None);
    assert_eq!(data, vec![0u8; 5]);
    assert_eq!(
        cb,
        ControlBlock { fd: 3, opcode: IOCmd::PRead, priority: 0, nbytes: 5, offset: 4096, flags: 0, data: 7 }
    );
}

#[test]
fn write_request_keeps_priority() {
    let data = b"hello".to_vec();
    let cb = write_request(2, 4, 10, &data, Some(9));
    assert_eq!(cb.opcode, IOCmd::PWrite);
    assert_eq!(cb.priority, 9);
    assert_eq!(cb.nbytes, 5);
    assert_eq!(cb.offset, 10);
    assert_eq!(cb.data, 2);
    assert_eq!(cb.fd, 4);
}

#[test]
fn zero_length_requests() {
    let (cb, data) = read_request(0, 3, 0, 0, Some(1));
    assert!(data.is_empty());
    assert_eq!(cb.nbytes, 0);
    assert!(zeroed(0).is_empty());
}

#[test]
fn describe_and_opcodes() {
    let cb = describe(1, 2, 3, 4, 5, 6, IOCmd::PWrite);
    assert_eq!(cb.flags, 6);
    assert_eq!(cb.opcode.opcode(), 1);
    assert_eq!(IOCmd::PRead.opcode(), 0);
}

#[test]
fn ids_count_up_from_zero() {
    let mut s = AIOBatchSchedulerIn::new();
    assert_eq!(s.next_id(), 0);
    assert_eq!(s.next_id(), 1);
    assert_eq!(s.next_id(), 2);
}

#[test]
fn record_keeps_its_parts() {
    let a = AIO::new(5, vec![1u8, 2], "cb");
    assert_eq!(a.id, 5);
    assert_eq!(a.data, vec![1u8, 2]);
    assert_eq!(a.iocb, "cb");
}
