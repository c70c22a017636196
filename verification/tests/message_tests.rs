use hook_engine::frame::{
    announced_length, read_msg_buffer, read_request, request_header, write_msg_buffer,
    write_request,
};
use hook_engine::hook_message::{
    HookPostCall, HookPostCallResponse, HookPreCallResponse, HookPrecall,
};
use hook_engine::message::{
    CallCmd, InstallHookCmd, ProtocolError, ReadCmd, ToggleHookCmd, UninstallHookCmd, WriteCmd,
    CMD,
};
use hook_engine::response::{get_response_if_success, Response, ResponseStatus};

fn reference_read_cmd(address: u64, size: u64) -> Vec<u8> {
    let mut e = minicbor::Encoder::new(Vec::new());
    e.array(2).unwrap().u64(address).unwrap().u64(size).unwrap();
    e.into_writer()
}

#[test]
fn opcodes_are_fixed() {
    let all = [
        (CMD::Read, 0u32),
        (CMD::Write, 1),
        (CMD::Call, 2),
        (CMD::Disconnect, 3),
        (CMD::Shutdown, 4),
        (CMD::InstallHook, 5),
        (CMD::ToggleHook, 6),
        (CMD::UninstallHook, 7),
    ];
    for (cmd, code) in all {
        assert_eq!(cmd.to_u32(), code);
        assert_eq!(CMD::from_u32(code), Some(cmd));
    }
    assert_eq!(CMD::from_u32(8), None);
    assert_eq!(CMD::from_u32(u32::MAX), None);
}

#[test]
fn read_cmd_bytes() {
    let c = ReadCmd { address: 0x1000, size: 4 };
    assert_eq!(c.encode(), vec![0x82, 0x19, 0x10, 0x00, 0x04]);
    assert_eq!(ReadCmd::decode(&c.encode()), Ok(c));
}

#[test]
fn read_cmd_matches_the_reference_encoder() {
    for (address, size) in [
        (0u64, 0u64),
        (23, 24),
        (0xff, 0x100),
        (0xffff, 0x1_0000),
        (0xffff_ffff, 0x1_0000_0000),
        (u64::MAX, 1),
    ] {
        let c = ReadCmd { address, size };
        assert_eq!(c.encode(), reference_read_cmd(address, size));
        assert_eq!(ReadCmd::decode(&c.encode()), Ok(c));
    }
}

#[test]
fn unsigned_integers_take_the_shortest_form() {
    let bytes = |v: u64| UninstallHookCmd { address: v }.encode();
    assert_eq!(bytes(0), vec![0x81, 0x00]);
    assert_eq!(bytes(23), vec![0x81, 0x17]);
    assert_eq!(bytes(24), vec![0x81, 0x18, 0x18]);
    assert_eq!(bytes(255), vec![0x81, 0x18, 0xff]);
    assert_eq!(bytes(256), vec![0x81, 0x19, 0x01, 0x00]);
    assert_eq!(bytes(65535), vec![0x81, 0x19, 0xff, 0xff]);
    assert_eq!(bytes(65536), vec![0x81, 0x1a, 0x00, 0x01, 0x00, 0x00]);
    assert_eq!(bytes(0xffff_ffff), vec![0x81, 0x1a, 0xff, 0xff, 0xff, 0xff]);
    assert_eq!(bytes(0x1_0000_0000), vec![0x81, 0x1b, 0, 0, 0, 1, 0, 0, 0, 0]);
    assert_eq!(
        bytes(0x0102_0304_0506_0708),
        vec![0x81, 0x1b, 1, 2, 3, 4, 5, 6, 7, 8]
    );
}

#[test]
fn unsigned_integers_are_read_in_every_width() {
    assert_eq!(UninstallHookCmd::decode(&[0x81, 0x05]), Ok(UninstallHookCmd { address: 5 }));
    assert_eq!(UninstallHookCmd::decode(&[0x81, 0x18, 0x05]), Ok(UninstallHookCmd { address: 5 }));
    assert_eq!(
        UninstallHookCmd::decode(&[0x81, 0x19, 0x00, 0x05]),
        Ok(UninstallHookCmd { address: 5 })
    );
    assert_eq!(
        UninstallHookCmd::decode(&[0x81, 0x1a, 0, 0, 0, 5]),
        Ok(UninstallHookCmd { address: 5 })
    );
    assert_eq!(
        UninstallHookCmd::decode(&[0x81, 0x1b, 0, 0, 0, 0, 0, 0, 0, 5]),
        Ok(UninstallHookCmd { address: 5 })
    );
}

#[test]
fn write_cmd_round_trip() {
    let c = WriteCmd { address: 0x10, buff: vec![0xFF, 0xFF] };
    let bytes = c.encode();
    assert_eq!(bytes, vec![0x82, 0x10, 0x42, 0xFF, 0xFF]);
    let back = WriteCmd::decode(&bytes).unwrap();
    assert_eq!(back.address, 0x10);
    assert_eq!(back.buff, vec![0xFF, 0xFF]);
}

#[test]
fn write_cmd_with_a_long_buffer() {
    let c = WriteCmd { address: 1, buff: vec![7; 300] };
    let bytes = c.encode();
    assert_eq!(&bytes[..5], &[0x82, 0x01, 0x59, 0x01, 0x2c]);
    assert_eq!(bytes.len(), 5 + 300);
    let back = WriteCmd::decode(&bytes).unwrap();
    assert_eq!(back.buff, vec![7; 300]);
}

#[test]
fn call_cmd_round_trip() {
    let c = CallCmd { address: 0x400000, arguments: vec![10, 1000, u64::MAX] };
    let bytes = c.encode();
    assert_eq!(
        bytes,
        vec![
            0x82, 0x1a, 0x00, 0x40, 0x00, 0x00, 0x83, 0x0a, 0x19, 0x03, 0xe8, 0x1b, 0xff, 0xff,
            0xff, 0xff, 0xff, 0xff, 0xff, 0xff
        ]
    );
    let back = CallCmd::decode(&bytes).unwrap();
    assert_eq!(back.address, 0x400000);
    assert_eq!(back.arguments, vec![10, 1000, u64::MAX]);
}

#[test]
fn call_cmd_without_arguments() {
    let c = CallCmd { address: 1, arguments: vec![] };
    assert_eq!(c.encode(), vec![0x82, 0x01, 0x80]);
    assert_eq!(CallCmd::decode(&[0x82, 0x01, 0x80]).unwrap().arguments, Vec::<u64>::new());
}

#[test]
fn install_hook_cmd_round_trip() {
    let c = InstallHookCmd { address: 0x1234, prefix_size: 14, port: 6000 };
    let bytes = c.encode();
    assert_eq!(bytes, vec![0x83, 0x19, 0x12, 0x34, 0x0e, 0x19, 0x17, 0x70]);
    assert_eq!(InstallHookCmd::decode(&bytes), Ok(c));
}

#[test]
fn toggle_hook_cmd_round_trip() {
    let on = ToggleHookCmd { address: 9, enabled: true };
    let off = ToggleHookCmd { address: 9, enabled: false };
    assert_eq!(on.encode(), vec![0x82, 0x09, 0xf5]);
    assert_eq!(off.encode(), vec![0x82, 0x09, 0xf4]);
    assert_eq!(ToggleHookCmd::decode(&on.encode()), Ok(on));
    assert_eq!(ToggleHookCmd::decode(&off.encode()), Ok(off));
}

#[test]
fn malformed_payloads_are_refused() {
    let bad = Err(ProtocolError::MalformedPayload);
    assert_eq!(ReadCmd::decode(&[]), bad);
    // too few fields
    assert_eq!(ReadCmd::decode(&[0x81, 0x01]), bad);
    // too many fields
    assert_eq!(ReadCmd::decode(&[0x83, 0x01, 0x02, 0x03]), bad);
    // array of indefinite length
    assert_eq!(ReadCmd::decode(&[0x9f, 0x01, 0x02, 0xff]), bad);
    // a field is cut short
    assert_eq!(ReadCmd::decode(&[0x82, 0x01, 0x19, 0x01]), bad);
    // a negative integer
    assert_eq!(ReadCmd::decode(&[0x82, 0x01, 0x20]), bad);
    // not an array
    assert_eq!(ReadCmd::decode(&[0xa2, 0x01, 0x02]), bad);
    assert_eq!(ToggleHookCmd::decode(&[0x82, 0x01, 0x01]), Err(ProtocolError::MalformedPayload));
    assert!(WriteCmd::decode(&[0x82, 0x01, 0x43, 0x01, 0x02]).is_err());
    assert!(WriteCmd::decode(&[0x82, 0x01, 0x5f, 0x41, 0x01, 0xff]).is_err());
    assert!(CallCmd::decode(&[0x82, 0x01, 0x82, 0x01]).is_err());
    assert!(CallCmd::decode(&[0x82, 0x01, 0x9f, 0x01, 0xff]).is_err());
    assert!(InstallHookCmd::decode(&[0x83, 0x01, 0x02]).is_err());
    assert!(UninstallHookCmd::decode(&[0x80]).is_err());
}

#[test]
fn bytes_behind_a_message_are_ignored() {
    assert_eq!(
        ReadCmd::decode(&[0x82, 0x01, 0x02, 0xde, 0xad]),
        Ok(ReadCmd { address: 1, size: 2 })
    );
}

#[test]
fn response_bytes() {
    assert_eq!(
        Response::BytesRead { buff: vec![0xFF, 0xFF] }.encode(),
        vec![0x82, 0x00, 0x81, 0x42, 0xFF, 0xFF]
    );
    assert_eq!(Response::BytesWritten { written: 2 }.encode(), vec![0x82, 0x01, 0x81, 0x02]);
    assert_eq!(
        Response::FunctionExecuted { ret: 89 }.encode(),
        vec![0x82, 0x02, 0x81, 0x18, 0x59]
    );
    assert_eq!(Response::Disconnecting.encode(), vec![0x82, 0x03, 0x80]);
    assert_eq!(Response::Shutdown.encode(), vec![0x82, 0x04, 0x80]);
    assert_eq!(Response::HookInstalled.encode(), vec![0x82, 0x05, 0x80]);
    assert_eq!(Response::HookToggled.encode(), vec![0x82, 0x06, 0x80]);
    assert_eq!(Response::HookUninstalled.encode(), vec![0x82, 0x07, 0x80]);
}

#[test]
fn response_round_trip() {
    let all = vec![
        Response::BytesRead { buff: vec![1, 2, 3] },
        Response::BytesRead { buff: vec![] },
        Response::BytesWritten { written: 70000 },
        Response::FunctionExecuted { ret: u64::MAX },
        Response::Disconnecting,
        Response::Shutdown,
        Response::HookInstalled,
        Response::HookToggled,
        Response::HookUninstalled,
    ];
    for r in all {
        let bytes = r.encode();
        let back = Response::decode(&bytes).unwrap();
        assert_eq!(format!("{:?}", back), format!("{:?}", r));
        let mut longer = vec![0xAA];
        r.put(&mut longer);
        assert_eq!(&longer[1..], &bytes[..]);
        let (again, end) = Response::take(&longer, 1).unwrap();
        assert_eq!(format!("{:?}", again), format!("{:?}", r));
        assert_eq!(end, longer.len());
    }
}

#[test]
fn response_with_an_unknown_variant_is_refused() {
    assert_eq!(
        Response::decode(&[0x82, 0x08, 0x80]).unwrap_err(),
        ProtocolError::MalformedPayload
    );
    assert!(Response::decode(&[0x82, 0x03, 0x81, 0x00]).is_err());
    assert!(Response::decode(&[0x82, 0x01, 0x80]).is_err());
    assert!(Response::decode(&[0x81, 0x03]).is_err());
}

#[test]
fn response_status_bytes() {
    let ok = ResponseStatus::Success { response: Response::FunctionExecuted { ret: 89 } };
    assert_eq!(ok.encode(), vec![0x82, 0x00, 0x81, 0x82, 0x02, 0x81, 0x18, 0x59]);
    let err = ResponseStatus::Error { message: "Hook was not found".to_string() };
    let mut expected = vec![0x82, 0x01, 0x81, 0x72];
    expected.extend_from_slice(b"Hook was not found");
    assert_eq!(err.encode(), expected);
}

#[test]
fn response_status_round_trip() {
    let ok = ResponseStatus::Success { response: Response::BytesRead { buff: vec![9; 40] } };
    match ResponseStatus::decode(&ok.encode()).unwrap() {
        ResponseStatus::Success { response: Response::BytesRead { buff } } => {
            assert_eq!(buff, vec![9; 40])
        }
        other => panic!("unexpected {:?}", other),
    }
    let err = ResponseStatus::Error { message: "gr\u{fc}\u{df}e \u{1f600}".to_string() };
    match ResponseStatus::decode(&err.encode()).unwrap() {
        ResponseStatus::Error { message } => assert_eq!(message, "gr\u{fc}\u{df}e \u{1f600}"),
        other => panic!("unexpected {:?}", other),
    }
}

#[test]
fn response_status_with_invalid_text_is_refused() {
    assert_eq!(
        ResponseStatus::decode(&[0x82, 0x01, 0x81, 0x62, 0xc3, 0x28]).unwrap_err(),
        ProtocolError::MalformedPayload
    );
    assert!(ResponseStatus::decode(&[0x82, 0x02, 0x81, 0x60]).is_err());
    assert!(ResponseStatus::decode(&[0x82, 0x00, 0x80]).is_err());
}

#[test]
fn response_or_its_error_message() {
    let ok = ResponseStatus::Success { response: Response::BytesWritten { written: 4 } };
    match get_response_if_success(&ok.encode()) {
        Ok(Response::BytesWritten { written }) => assert_eq!(written, 4),
        other => panic!("unexpected {:?}", other),
    }
    let err = ResponseStatus::Error { message: "Too many params".to_string() };
    assert_eq!(get_response_if_success(&err.encode()).unwrap_err(), "Too many params");
    assert_eq!(get_response_if_success(&[0x00]).unwrap_err(), "Malformed response");
}

#[test]
fn hook_precall_round_trip() {
    let m = HookPrecall { hook_arguments: vec![5, 2, 0, 0, 0, 0, 0, 0, 0, 0, 0, 0] };
    let bytes = m.encode();
    assert_eq!(bytes, vec![0x81, 0x8c, 5, 2, 0, 0, 0, 0, 0, 0, 0, 0, 0, 0]);
    assert_eq!(HookPrecall::decode(&bytes).unwrap().hook_arguments, m.hook_arguments);
    assert_eq!(HookPrecall::decode(&[0x81, 0x81]).unwrap_err(), ProtocolError::MalformedPayload);
}

#[test]
fn hook_precall_response_round_trip() {
    let m = HookPreCallResponse { hook_arguments: vec![3, 4], call_original: true };
    let bytes = m.encode();
    assert_eq!(bytes, vec![0x82, 0x82, 3, 4, 0xf5]);
    let back = HookPreCallResponse::decode(&bytes).unwrap();
    assert_eq!(back.hook_arguments, vec![3, 4]);
    assert!(back.call_original);
    let skip = HookPreCallResponse { hook_arguments: vec![], call_original: false };
    assert_eq!(skip.encode(), vec![0x82, 0x80, 0xf4]);
    assert!(!HookPreCallResponse::decode(&skip.encode()).unwrap().call_original);
    assert!(HookPreCallResponse::decode(&[0x82, 0x80, 0x00]).is_err());
}

#[test]
fn hook_postcall_round_trip() {
    let m = HookPostCall { hook_return_value: 81 };
    assert_eq!(m.encode(), vec![0x81, 0x18, 0x51]);
    assert_eq!(HookPostCall::decode(&m.encode()), Ok(m));
    let r = HookPostCallResponse { hook_return_value: 7 };
    assert_eq!(r.encode(), vec![0x81, 0x07]);
    assert_eq!(HookPostCallResponse::decode(&r.encode()), Ok(r));
    assert_eq!(HookPostCall::decode(&[0x80]), Err(ProtocolError::MalformedPayload));
    assert_eq!(HookPostCallResponse::decode(&[]), Err(ProtocolError::MalformedPayload));
}

#[test]
fn frame_is_length_then_payload() {
    let mut out = vec![0xAA];
    write_msg_buffer(&mut out, &[1, 2, 3]);
    assert_eq!(out, vec![0xAA, 3, 0, 0, 0, 0, 0, 0, 0, 1, 2, 3]);
    let mut empty = Vec::new();
    write_msg_buffer(&mut empty, &[]);
    assert_eq!(empty, vec![0; 8]);
}

#[test]
fn frame_length_is_the_length_of_the_payload() {
    for n in [0usize, 1, 255, 256, 70000] {
        let payload = vec![0x5a; n];
        let mut out = Vec::new();
        write_msg_buffer(&mut out, &payload);
        assert_eq!(out.len(), 8 + n);
        assert_eq!(u64::from_le_bytes(out[..8].try_into().unwrap()), n as u64);
        let (back, used) = read_msg_buffer(&out).unwrap();
        assert_eq!(back, payload);
        assert_eq!(used, 8 + n);
    }
}

#[test]
fn frame_is_read_only_when_complete() {
    let mut out = Vec::new();
    write_msg_buffer(&mut out, &[1, 2, 3]);
    for cut in 0..out.len() {
        assert!(read_msg_buffer(&out[..cut]).is_none());
    }
    out.extend_from_slice(&[9, 9]);
    assert_eq!(read_msg_buffer(&out), Some((vec![1, 2, 3], 11)));
    assert!(read_msg_buffer(&[0xff; 8]).is_none());
}

#[test]
fn request_is_opcode_length_payload() {
    let payload = ReadCmd { address: 0x1000, size: 4 }.encode();
    let request = write_request(CMD::Read, &payload);
    assert_eq!(
        request,
        vec![0, 0, 0, 0, 5, 0, 0, 0, 0, 0, 0, 0, 0x82, 0x19, 0x10, 0x00, 0x04]
    );
    assert_eq!(read_request(&request), Some((0, payload, 17)));
    assert_eq!(
        write_request(CMD::UninstallHook, &[]),
        vec![7, 0, 0, 0, 0, 0, 0, 0, 0, 0, 0, 0]
    );
    assert_eq!(read_request(&[1, 2, 3]), None);
    assert_eq!(read_request(&[1, 0, 0, 0, 1, 0, 0, 0, 0, 0, 0, 0]), None);
    assert_eq!(
        read_request(&[0x78, 0x56, 0x34, 0x12, 1, 0, 0, 0, 0, 0, 0, 0, 0xab, 0xcd]),
        Some((0x1234_5678, vec![0xab], 13))
    );
}

#[test]
fn headers_are_read_once_complete() {
    assert_eq!(announced_length(&[5, 0, 0, 0, 0, 0, 0]), None);
    assert_eq!(announced_length(&[5, 1, 0, 0, 0, 0, 0, 0]), Some(0x105));
    assert_eq!(announced_length(&[0xff; 9]), Some(u64::MAX));
    assert_eq!(request_header(&[0; 11]), None);
    assert_eq!(
        request_header(&[2, 0, 0, 0, 0x10, 0x20, 0, 0, 0, 0, 0, 0]),
        Some((2, 0x2010))
    );
    assert_eq!(
        request_header(&[0xff, 0xff, 0xff, 0xff, 0, 0, 0, 0, 0, 0, 0, 0x80, 7]),
        Some((u32::MAX, 0x8000_0000_0000_0000))
    );
}

#[test]
fn opcodes_are_decoded_or_refused() {
    assert_eq!(CMD::decode(0), Ok(CMD::Read));
    assert_eq!(CMD::decode(7), Ok(CMD::UninstallHook));
    assert_eq!(CMD::decode(8), Err(ProtocolError::UnknownOpcode));
    assert_eq!(ProtocolError::UnknownOpcode.message(), "Unknown command");
    assert_eq!(ProtocolError::MalformedPayload.message(), "Malformed payload");
}

#[test]
fn heads_are_read_in_longer_forms_too() {
    // an array header with its length in a byte of its own
    assert_eq!(ReadCmd::decode(&[0x98, 0x02, 0x01, 0x02]), Ok(ReadCmd { address: 1, size: 2 }));
    // a byte string with its length in two bytes
    let back = WriteCmd::decode(&[0x82, 0x00, 0x59, 0x00, 0x01, 0xaa]).unwrap();
    assert_eq!(back.buff, vec![0xaa]);
    // initial bytes that announce no width
    assert!(ReadCmd::decode(&[0x9c, 0x01, 0x02]).is_err());
    assert!(UninstallHookCmd::decode(&[0x81, 0x1c]).is_err());
    assert!(WriteCmd::decode(&[0x82, 0x00, 0x5c]).is_err());
    // a length that the input does not hold
    assert!(WriteCmd::decode(&[0x82, 0x00, 0x5b, 0xff, 0xff, 0xff, 0xff, 0xff, 0xff, 0xff, 0xff])
        .is_err());
    // text where bytes are expected
    assert!(WriteCmd::decode(&[0x82, 0x00, 0x61, 0x41]).is_err());
}
