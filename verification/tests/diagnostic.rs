use saelient::diagnostic::{
    BootLoadData, Command, ErrorIndicator, MemoryAccessRequest, MemoryAccessResponse, Pointer,
    Status,
};

#[test]
fn memory_access_request() {
    let raw: &[u8] = &[0x20, 0x22, 0x45, 0x23, 0x01, 0x00, 0x00, 0x00];

    let rq = MemoryAccessRequest::try_from(raw).unwrap();
    assert_eq!(rq.length(), 288);
    assert_eq!(rq.command(), Command::Read);
    assert_eq!(rq.pointer(), Pointer::Direct(0x012345));

    // check we get the same result when we serialize back into bytes.
    let bytes: [u8; 8] = (&rq).into();
    assert_eq!(raw, bytes);
}

#[test]
fn memory_access_request_packing() {
    let rq = MemoryAccessRequest::new(Command::Write, Pointer::Direct(0x1234_5678), 0x7FF, 0xBEEF);
    let bytes: [u8; 8] = (&rq).into();
    assert_eq!(bytes, [0xFF, 0xE4, 0x78, 0x56, 0x34, 0x12, 0xEF, 0xBE]);
    assert_eq!(rq.length(), 0x7FF);
    assert_eq!(rq.command(), Command::Write);
    assert_eq!(rq.pointer(), Pointer::Direct(0x1234_5678));
    assert_eq!(rq.key_or_user_level(), 0xBEEF);

    let rq = MemoryAccessRequest::new(Command::Erase, Pointer::Spatial(7), 0, 0);
    let bytes: [u8; 8] = (&rq).into();
    assert_eq!(bytes, [0, 0, 7, 0, 0, 0, 0, 0]);
    assert_eq!(rq.pointer(), Pointer::Direct(7));
}

#[test]
fn memory_access_request_spatial_bit() {
    let raw: &[u8] = &[0x20, 0x32, 0x45, 0x23, 0x01, 0x00, 0x34, 0x12];
    let rq = MemoryAccessRequest::try_from(raw).unwrap();
    assert_eq!(rq.pointer(), Pointer::Spatial(0x012345));
    assert_eq!(rq.key_or_user_level(), 0x1234);
    assert_eq!(rq.length(), 288);
    assert_eq!(rq.command(), Command::Read);
}

#[test]
fn frames_must_have_eight_bytes() {
    let short: &[u8] = &[1, 2, 3];
    assert_eq!(MemoryAccessRequest::try_from(short), Err(short));
    assert_eq!(MemoryAccessResponse::try_from(short), Err(short));
    assert_eq!(BootLoadData::try_from(short), Err(short));
    let long: &[u8] = &[1, 2, 3, 4, 5, 6, 7, 8, 9];
    assert_eq!(MemoryAccessRequest::try_from(long), Err(long));
}

#[test]
fn commands_compare_by_number() {
    assert_eq!(Command::Other(1), Command::Read);
    assert_ne!(Command::Other(8), Command::Read);
    assert_eq!(Command::from(7), Command::EdcpGeneration);
    assert!(matches!(Command::from(8), Command::Other(8)));
    assert_eq!(u8::from(Command::BootLoad), 6);
    assert_eq!(u8::from(Command::Other(200)), 200);
    assert_eq!(Status::Other(4), Status::OperationCompleted);
    assert!(matches!(Status::from(2), Status::Other(2)));
    assert_eq!(u8::from(Status::OperationFailed), 5);
    assert_eq!(Status::from(1), Status::Busy);
}

#[test]
fn memory_access_response_packing() {
    let res = MemoryAccessResponse::new(
        Status::OperationFailed,
        ErrorIndicator::SecurityInvalidKey,
        0x123,
        0xCAFE,
    );
    let bytes: [u8; 8] = (&res).into();
    assert_eq!(bytes, [0x23, 0x2A, 0x03, 0x10, 0x00, 0x00, 0xFE, 0xCA]);
    assert_eq!(res.length(), 0x123);
    assert_eq!(res.status(), Status::OperationFailed);
    assert_eq!(res.error_indicator(), ErrorIndicator::SecurityInvalidKey);
    assert_eq!(res.seed(), 0xCAFE);

    let back = MemoryAccessResponse::try_from(bytes.as_ref()).unwrap();
    assert_eq!(back, res);
}

#[test]
fn error_indicator_numbers() {
    assert_eq!(u32::from(ErrorIndicator::NoError), 0);
    assert_eq!(u32::from(ErrorIndicator::NoIndicatorAvailable), 0xFFFFFF);
    assert_eq!(u32::from(ErrorIndicator::TransportDataNotCompleted), 0x010004);
    assert_eq!(u32::from(ErrorIndicator::Other(0x123456)), 0x123456);
    assert_eq!(u32::from(ErrorIndicator::Other(0xAB12_3456)), 0x123456);
    assert_eq!(ErrorIndicator::from(0x000102), ErrorIndicator::AddressingLength);
    assert!(matches!(ErrorIndicator::from(0x33), ErrorIndicator::Other(0x33)));
    assert_eq!(ErrorIndicator::Other(0x10), ErrorIndicator::BusyErase);
    for value in [0u32, 1, 2, 0x10, 0x1F, 0x24, 0x100, 0x10A, 0x1000, 0x1007, 0x10000, 0xFFFFFF] {
        assert_eq!(u32::from(ErrorIndicator::from(value)), value);
        assert!(!matches!(ErrorIndicator::from(value), ErrorIndicator::Other(_)));
    }
}

#[test]
fn boot_load_data_keeps_its_bytes() {
    let raw: &[u8] = &[1, 2, 3, 4, 5, 6, 7, 8];
    let bl = BootLoadData::try_from(raw).unwrap();
    assert_eq!(bl.data(), [1, 2, 3, 4, 5, 6, 7, 8]);
    let bytes: [u8; 8] = (&bl).into();
    assert_eq!(bytes, [1, 2, 3, 4, 5, 6, 7, 8]);
}
