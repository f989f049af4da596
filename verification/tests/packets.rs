use mbpr::{
    Fault, OpCode, OwnedRequest, OwnedResponse, PacketVal, Request, Response, StatusField,
};

#[test]
fn request_build_round_trip() {
    let extra: &[u8] = b"\xDE\xAD\xBE\xEF";
    let key: &[u8] = b"Hello";
    let body: &[u8] = b"World";
    let p = Request::new(OpCode::SetOp, 7, 0xAABBCCDD, 0x1122334455667788, Some(extra), Some(key), Some(body));
    assert_eq!(p.total_len(), 24 + 4 + 5 + 5);
    let e = p.encode_self();
    assert_eq!(e.len(), p.total_len());
    let q = Request::parse(e.as_slice()).ok().expect("round trip parse failed");
    assert_eq!(q.get_opcode(), OpCode::SetOp);
    assert_eq!(q.get_vbucket_id(), 7);
    assert_eq!(q.get_opaque(), 0xAABBCCDD);
    assert_eq!(q.get_cas(), 0x1122334455667788);
    assert_eq!(q.get_extra(), Some(extra));
    assert_eq!(q.get_key(), Some(key));
    assert_eq!(q.get_body(), Some(body));
    assert_eq!(q.total_len(), p.total_len());
}

#[test]
fn request_build_round_trip_absent_segments() {
    // A zero-length segment is normalized to an absent one.
    let empty: &[u8] = b"";
    let p = Request::new(OpCode::Quit, 0, 0, 0, Some(empty), None, None);
    assert!(!p.has_extra());
    assert!(!p.has_key());
    assert!(!p.has_body());
    let e = p.encode_self();
    assert_eq!(e.len(), 24);
    let q = Request::parse(e.as_slice()).ok().expect("round trip parse failed");
    assert_eq!(q.get_extra(), None);
    assert_eq!(q.get_key(), None);
    assert_eq!(q.get_body(), None);
}

#[test]
fn response_build_round_trip() {
    let body: &[u8] = b"Not found";
    let p = Response::new(OpCode::Get, StatusField::KeyNotFound, 3, 9, None, None, Some(body));
    let e = p.encode_self();
    assert_eq!(e.len(), 24 + 9);
    let q = Response::parse(e.as_slice()).ok().expect("round trip parse failed");
    assert_eq!(q.get_opcode(), OpCode::Get);
    assert_eq!(q.get_opaque(), 3);
    assert_eq!(q.get_cas(), 9);
    assert_eq!(q.check_status().err(), Some(StatusField::KeyNotFound));
    assert_eq!(q.get_body(), Some(body));
}

#[test]
fn owned_request_build_round_trip() {
    let p = OwnedRequest::new(
        OpCode::Add,
        0,
        1,
        2,
        vec![0xDE, 0xAD, 0xBE, 0xEF, 0x00, 0x00, 0x0E, 0x10],
        b"Hello".to_vec(),
        b"World".to_vec(),
    );
    let e = p.encode_self();
    assert_eq!(e.len(), 42);
    let q = OwnedRequest::parse(e.as_slice()).ok().expect("round trip parse failed");
    assert_eq!(q.get_opcode(), OpCode::Add);
    assert_eq!(q.get_opaque(), 1);
    assert_eq!(q.get_cas(), 2);
    assert_eq!(q.get_extra(), Some(&b"\xDE\xAD\xBE\xEF\x00\x00\x0E\x10"[..]));
    assert_eq!(q.get_key(), Some(&b"Hello"[..]));
    assert_eq!(q.get_body(), Some(&b"World"[..]));
}

#[test]
fn owned_response_build_round_trip() {
    let p = OwnedResponse::new(
        OpCode::Get,
        StatusField::NoError,
        0,
        1,
        vec![0xDE, 0xAD, 0xBE, 0xEF],
        Vec::new(),
        b"World".to_vec(),
    );
    let e = p.encode_self();
    assert_eq!(e.len(), 33);
    let q = OwnedResponse::parse(e.as_slice()).ok().expect("round trip parse failed");
    assert!(q.check_status().is_ok());
    assert_eq!(q.get_extra(), Some(&b"\xDE\xAD\xBE\xEF"[..]));
    assert_eq!(q.get_key(), None);
    assert_eq!(q.get_body(), Some(&b"World"[..]));
}

#[test]
fn request_rebuild() {
    let key: &[u8] = b"Hello";
    let mut p = Request::new(OpCode::Get, 0, 0, 0, None, Some(key), None);
    let body: &[u8] = b"World";
    p.rebuild(OpCode::Delete, 1, 2, 3, None, Some(key), Some(body));
    assert_eq!(p.get_opcode(), OpCode::Delete);
    assert_eq!(p.get_vbucket_id(), 1);
    assert_eq!(p.get_opaque(), 2);
    assert_eq!(p.get_cas(), 3);
    let e = p.encode_self();
    let q = Request::parse(e.as_slice()).ok().expect("round trip parse failed");
    assert_eq!(q.get_opcode(), OpCode::Delete);
    assert_eq!(q.get_key(), Some(key));
    assert_eq!(q.get_body(), Some(body));
}

#[test]
fn owned_response_rebuild() {
    let mut p = OwnedResponse::new(OpCode::Get, StatusField::NoError, 0, 0, Vec::new(), Vec::new(), Vec::new());
    p.rebuild(OpCode::Stat, StatusField::Busy, 5, 6, Vec::new(), b"k".to_vec(), Vec::new());
    assert_eq!(p.get_opcode(), OpCode::Stat);
    assert_eq!(p.check_status().err(), Some(StatusField::Busy));
    let e = p.encode_self();
    let q = OwnedResponse::parse(e.as_slice()).ok().expect("round trip parse failed");
    assert_eq!(q.get_opaque(), 5);
    assert_eq!(q.get_cas(), 6);
    assert_eq!(q.get_key(), Some(&b"k"[..]));
}

#[test]
fn to_owned_matches_borrowed() {
    let msg: Vec<u8> = vec![
        0x80, 0x02, 0x00, 0x05, 0x08, 0x00, 0x00, 0x00, 0x00, 0x00, 0x00, 0x12, 0x00, 0x00, 0x00,
        0x00, 0x00, 0x00, 0x00, 0x00, 0x00, 0x00, 0x00, 0x00, 0xDE, 0xAD, 0xBE, 0xEF, 0x00, 0x00,
        0x0E, 0x10, 0x48, 0x65, 0x6C, 0x6C, 0x6F, 0x57, 0x6F, 0x72, 0x6C, 0x64,
    ];
    let p = Request::parse(&msg).ok().expect("parse failed");
    let owned = p.to_owned();
    assert_eq!(owned.get_opcode(), OpCode::Add);
    assert_eq!(owned.get_extra(), Some(&b"\xDE\xAD\xBE\xEF\x00\x00\x0E\x10"[..]));
    assert_eq!(owned.get_key(), Some(&b"Hello"[..]));
    assert_eq!(owned.get_body(), Some(&b"World"[..]));
    let e = owned.encode_self();
    assert_eq!(e.as_slice(), &msg[..]);
}

#[test]
fn encode_into_buffer_reuses_storage() {
    let key: &[u8] = b"Hello";
    let p = Request::new(OpCode::Get, 0, 0, 0, None, Some(key), None);
    let buffer: Vec<u8> = Vec::with_capacity(64);
    let e = p.encode_into_buffer(buffer);
    assert_eq!(e.len(), 29);
    let first: Vec<u8> = e.get_vec();
    assert_eq!(first.len(), 29);
    // Hand the same storage back for a second packet.
    let q = Request::new(OpCode::Quit, 0, 0, 0, None, None, None);
    let e = q.encode_into_buffer(first);
    assert_eq!(e.len(), 24);
}

#[test]
fn truncated_request_is_incomplete() {
    let msg: Vec<u8> = vec![
        0x80, 0x02, 0x00, 0x05, 0x08, 0x00, 0x00, 0x00, 0x00, 0x00, 0x00, 0x12, 0x00, 0x00, 0x00,
        0x00, 0x00, 0x00, 0x00, 0x00, 0x00, 0x00, 0x00, 0x00, 0xDE, 0xAD, 0xBE, 0xEF, 0x00, 0x00,
        0x0E, 0x10, 0x48, 0x65, 0x6C, 0x6C, 0x6F, 0x57, 0x6F, 0x72, 0x6C, 0x64,
    ];
    for n in 0..msg.len() {
        assert_eq!(Request::parse(&msg[0..n]).err(), Some(Fault::Incomplete));
        assert_eq!(OwnedRequest::parse(&msg[0..n]).err(), Some(Fault::Incomplete));
    }
}

#[test]
fn truncated_response_is_incomplete() {
    let msg: Vec<u8> = vec![
        0x81, 0x00, 0x00, 0x00, 0x00, 0x00, 0x00, 0x01, 0x00, 0x00, 0x00, 0x09, 0x00, 0x00, 0x00,
        0x00, 0x00, 0x00, 0x00, 0x00, 0x00, 0x00, 0x00, 0x00, 0x4E, 0x6F, 0x74, 0x20, 0x66, 0x6F,
        0x75, 0x6E, 0x64,
    ];
    for n in 0..msg.len() {
        assert_eq!(Response::parse(&msg[0..n]).err(), Some(Fault::Incomplete));
        assert_eq!(OwnedResponse::parse(&msg[0..n]).err(), Some(Fault::Incomplete));
    }
}

#[test]
fn bad_opcode_is_reported() {
    let mut msg: Vec<u8> = vec![0; 24];
    msg[0] = 0x80;
    msg[1] = 0x1F;
    assert_eq!(Request::parse(&msg).err(), Some(Fault::BadOpCode));
}

#[test]
fn bad_datatype_is_bad_magic() {
    // A non-zero datatype byte fails even though every other field is valid.
    let mut msg: Vec<u8> = vec![
        0x80, 0x00, 0x00, 0x05, 0x00, 0x00, 0x00, 0x00, 0x00, 0x00, 0x00, 0x05, 0x00, 0x00, 0x00,
        0x00, 0x00, 0x00, 0x00, 0x00, 0x00, 0x00, 0x00, 0x00, 0x48, 0x65, 0x6C, 0x6C, 0x6F,
    ];
    msg[5] = 0x01;
    assert_eq!(Request::parse(&msg).err(), Some(Fault::BadMagic));
}

#[test]
fn bad_status_is_reported() {
    let mut msg: Vec<u8> = vec![0; 24];
    msg[0] = 0x81;
    msg[7] = 0x20;
    assert_eq!(Response::parse(&msg).err(), Some(Fault::BadStatus));
}

#[test]
fn length_underflow_is_invalid_packet() {
    // The declared total body length is smaller than the key length.
    let mut msg: Vec<u8> = vec![0; 26];
    msg[0] = 0x80;
    msg[3] = 0x05;
    msg[11] = 0x02;
    assert_eq!(Request::parse(&msg).err(), Some(Fault::InvalidPacket));
}

#[test]
fn parse_result_accessors() {
    let msg: Vec<u8> = vec![
        0x80, 0x00, 0x00, 0x05, 0x00, 0x00, 0x00, 0x00, 0x00, 0x00, 0x00, 0x05, 0x00, 0x00, 0x00,
        0x00, 0x00, 0x00, 0x00, 0x00, 0x00, 0x00, 0x00, 0x00, 0x48, 0x65, 0x6C, 0x6C, 0x6F,
    ];
    let good = Request::parse(&msg);
    assert!(good.is_ok());
    assert!(!good.is_err());
    let packet = good.unwrap();
    assert_eq!(packet.get_opcode(), OpCode::Get);
    assert!(Request::parse(&msg).ok().is_some());
    assert!(Request::parse(&msg).err().is_none());

    let bad = Request::parse(&msg[0..3]);
    assert!(bad.is_err());
    assert!(!bad.is_ok());
    assert_eq!(bad.err(), Some(Fault::Incomplete));
    assert!(Request::parse(&msg[0..3]).ok().is_none());
}
