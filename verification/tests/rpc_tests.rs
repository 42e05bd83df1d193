use onc_rpc::auth::AuthFlavor;
use onc_rpc::{
    AcceptedReply, AcceptedStatus, CallBody, MessageType, ReplyBody, RejectedReply, RpcMessage,
};
use vxi11::rpc::{evaluate_reply, CallEngine, ParsedReply, ReplyAction, ReplyKind};
use vxi11::Error;

/// A serialized reply record, fragment header stripped: what the
/// record layer hands the engine.
fn reply_record(xid: u32, body: ReplyBody<Vec<u8>, Vec<u8>>) -> Vec<u8> {
    let msg = RpcMessage::new(xid, MessageType::Reply(body));
    msg.serialise().unwrap()[4..].to_vec()
}

fn success_reply(xid: u32, payload: &[u8]) -> Vec<u8> {
    reply_record(
        xid,
        ReplyBody::Accepted(AcceptedReply::new(
            AuthFlavor::AuthNone(None),
            AcceptedStatus::Success(payload.to_vec()),
        )),
    )
}

#[test]
fn begin_call_emits_a_parseable_call_message() {
    let mut engine = CallEngine::new();
    let wire = engine.begin_call(0x0607af, 1, 11, b"payload".to_vec()).unwrap();
    let msg = RpcMessage::try_from(&wire[..]).unwrap();
    assert_eq!(msg.xid(), 1);
    let body = msg.call_body().unwrap();
    assert_eq!(body.program(), 0x0607af);
    assert_eq!(body.program_version(), 1);
    assert_eq!(body.procedure(), 11);
    assert_eq!(*body.payload(), &b"payload"[..]);
}

#[test]
fn begin_call_wire_form_byte_for_byte() {
    let mut engine = CallEngine::new();
    let wire = engine.begin_call(0x0607af, 1, 11, vec![0xaa, 0xbb]).unwrap();
    let mut message: Vec<u8> = Vec::new();
    for word in [1u32, 0, 2, 0x0607af, 1, 11, 0, 0, 0, 0] {
        message.extend_from_slice(&word.to_be_bytes());
    }
    message.extend_from_slice(&[0xaa, 0xbb]);
    let mut expected = (0x8000_0000u32 | message.len() as u32).to_be_bytes().to_vec();
    expected.extend_from_slice(&message);
    assert_eq!(wire, expected);
}

#[test]
fn transaction_ids_grow_by_one_per_call() {
    let mut engine = CallEngine::new();
    for expected in 1..=3u32 {
        let wire = engine.begin_call(100, 1, 1, Vec::new()).unwrap();
        let msg = RpcMessage::try_from(&wire[..]).unwrap();
        assert_eq!(msg.xid(), expected);
    }
}

#[test]
fn stale_reply_is_discarded_and_awaited_reply_returned() {
    let mut engine = CallEngine::new();
    engine.begin_call(100, 1, 1, Vec::new()).unwrap();
    engine.begin_call(100, 1, 1, Vec::new()).unwrap();
    // Awaiting xid 2: a leftover reply for xid 1 arrives first.
    match engine.check_reply(success_reply(1, b"stale")) {
        ReplyAction::Ignore => {},
        ReplyAction::Finish(r) => panic!("stale reply surfaced: {:?}", r),
    }
    match engine.check_reply(success_reply(2, b"fresh")) {
        ReplyAction::Finish(Ok(p)) => assert_eq!(p, b"fresh".to_vec()),
        _ => panic!("awaited reply not returned"),
    }
}

#[test]
fn future_xid_fails_the_call() {
    let mut engine = CallEngine::new();
    for _ in 0..5 {
        engine.begin_call(100, 1, 1, Vec::new()).unwrap();
    }
    // Awaiting xid 5; xid 6 arrives.
    match engine.check_reply(success_reply(6, b"")) {
        ReplyAction::Finish(Err(e)) => {
            assert_eq!(e, Error::UnexpectedXid { expected: 5, actual: 6 });
        },
        _ => panic!("future xid not fatal"),
    }
}

#[test]
fn denied_reply_is_an_authentication_failure() {
    let mut engine = CallEngine::new();
    engine.begin_call(100, 1, 1, Vec::new()).unwrap();
    let record = reply_record(
        1,
        ReplyBody::Denied(RejectedReply::RpcVersionMismatch { low: 2, high: 2 }),
    );
    match engine.check_reply(record) {
        ReplyAction::Finish(Err(e)) => assert_eq!(e, Error::RpcDenied),
        _ => panic!("denied reply not surfaced"),
    }
}

#[test]
fn accepted_but_unsuccessful_reply_fails() {
    let mut engine = CallEngine::new();
    engine.begin_call(100, 1, 1, Vec::new()).unwrap();
    let record = reply_record(
        1,
        ReplyBody::Accepted(AcceptedReply::new(
            AuthFlavor::AuthNone(None),
            AcceptedStatus::ProgramUnavailable,
        )),
    );
    match engine.check_reply(record) {
        ReplyAction::Finish(Err(e)) => assert_eq!(e, Error::RpcInvalidArgs),
        _ => panic!("rejected status not surfaced"),
    }
}

#[test]
fn a_call_message_is_the_wrong_message_type() {
    let mut engine = CallEngine::new();
    engine.begin_call(100, 1, 1, Vec::new()).unwrap();
    let body: CallBody<Vec<u8>, Vec<u8>> = CallBody::new(
        100,
        1,
        1,
        AuthFlavor::AuthNone(None),
        AuthFlavor::AuthNone(None),
        Vec::new(),
    );
    let msg = RpcMessage::new(1, MessageType::Call(body));
    let record = msg.serialise().unwrap()[4..].to_vec();
    match engine.check_reply(record) {
        ReplyAction::Finish(Err(e)) => assert_eq!(e, Error::WrongMessageType),
        _ => panic!("call message not rejected"),
    }
}

#[test]
fn unparseable_bytes_fail_the_call() {
    let mut engine = CallEngine::new();
    engine.begin_call(100, 1, 1, Vec::new()).unwrap();
    match engine.check_reply(vec![1, 2, 3]) {
        ReplyAction::Finish(Err(e)) => assert_eq!(e, Error::Rpc),
        _ => panic!("garbage not rejected"),
    }
}

#[test]
fn evaluate_reply_orders_by_transaction_id() {
    match evaluate_reply(
        7,
        ParsedReply::Parsed { xid: 3, kind: ReplyKind::Success(b"x".to_vec()) },
    ) {
        ReplyAction::Ignore => {},
        _ => panic!("stale not ignored"),
    }
    match evaluate_reply(7, ParsedReply::Parsed { xid: 9, kind: ReplyKind::Denied }) {
        ReplyAction::Finish(Err(e)) => {
            assert_eq!(e, Error::UnexpectedXid { expected: 7, actual: 9 });
        },
        _ => panic!("future xid not fatal"),
    }
    match evaluate_reply(7, ParsedReply::Malformed) {
        ReplyAction::Finish(Err(e)) => assert_eq!(e, Error::Rpc),
        _ => panic!("malformed not fatal"),
    }
    match evaluate_reply(7, ParsedReply::Parsed { xid: 7, kind: ReplyKind::NotReply }) {
        ReplyAction::Finish(Err(e)) => assert_eq!(e, Error::WrongMessageType),
        _ => panic!("non-reply not fatal"),
    }
}
