use iot_telemetry::domain::{Accelerometer, Agent, Gps, ProcessedAgent, RoadState, Timestamp};
use iot_telemetry::grpc::{batch_input, decode_input, ids_reply};
use iot_telemetry::model::{ProcessedAgentId, ProcessedAgentWithId};
use iot_telemetry::proto::{Input, InvalidProcessedAgentDataError, ProcessedAgentData};
use iot_telemetry::ws::{
    contains_id, react, CloseCode, Message, MessageId, Opcode, ProtocolViolation, Subscribers,
    WsAction, WsEvent,
};

fn record(z: i64, state: RoadState) -> ProcessedAgent {
    ProcessedAgent::new(
        Agent::new(
            Accelerometer::new(0, 0, z),
            Gps::try_new(1, 2).unwrap(),
            Timestamp::new(60, 0).unwrap(),
        ),
        state,
    )
}

#[test]
fn batch_round_trips_through_the_request() {
    let batch = vec![record(1, RoadState::Smooth), record(2, RoadState::Rough)];
    let input = batch_input(&batch);
    assert_eq!(input.data.len(), 2);
    assert_eq!(decode_input(&input), Ok(batch));
    assert_eq!(decode_input(&Input { data: vec![] }), Ok(vec![]));
}

#[test]
fn decode_stops_at_first_bad_record() {
    let good = record(1, RoadState::Smooth).to_proto();
    let bad = ProcessedAgentData { agent: None, road_state: 0 };
    let input = Input { data: vec![good, bad, good] };
    assert_eq!(decode_input(&input), Err(InvalidProcessedAgentDataError::MissingAgentData));
}

#[test]
fn ids_are_returned_in_input_order() {
    let r = ids_reply(&vec![ProcessedAgentId(5), ProcessedAgentId(3), ProcessedAgentId(9)]);
    assert_eq!(r.ids, vec![5, 3, 9]);
    assert_eq!(ProcessedAgentId(4).get(), 4);
    let w = ProcessedAgentWithId::new(Some(ProcessedAgentId(4)), record(0, RoadState::Smooth));
    assert_eq!(w.id, Some(ProcessedAgentId(4)));
}

#[test]
fn ping_gets_pong_with_same_payload() {
    assert_eq!(react(WsEvent::Ping(vec![1, 2, 3])), WsAction::Pong(vec![1, 2, 3]));
    assert_eq!(react(WsEvent::Frame), WsAction::Ignore);
}

fn close(v: ProtocolViolation) -> (u16, String) {
    match react(WsEvent::Violation(v)) {
        WsAction::Close { code, description } => (code.number(), description),
        other => panic!("expected a close, got {other:?}"),
    }
}

#[test]
fn violations_close_with_their_codes() {
    assert_eq!(close(ProtocolViolation::UnmaskedFrame), (1002, "Received unmasked frame".to_string()));
    assert_eq!(close(ProtocolViolation::MaskedFrame), (1002, "Received masked frame".to_string()));
    assert_eq!(close(ProtocolViolation::InvalidOpcode(13)), (1002, "Received invalid opcode: 13".to_string()));
    assert_eq!(close(ProtocolViolation::InvalidLength(126)), (1002, "Received invalid length: 126".to_string()));
    assert_eq!(close(ProtocolViolation::BadOpCode), (1002, "Received bad opcode".to_string()));
    assert_eq!(close(ProtocolViolation::Overflow), (1009, "Received message too big".to_string()));
    assert_eq!(
        close(ProtocolViolation::ContinuationNotStarted),
        (1002, "Received continuation frame before start".to_string())
    );
    assert_eq!(
        close(ProtocolViolation::ContinuationStarted),
        (1002, "Received start frame during continuation".to_string())
    );
    assert_eq!(
        close(ProtocolViolation::ContinuationFragment(Opcode::Text)),
        (1002, "Received continuation fragment with opcode: TEXT".to_string())
    );
    assert_eq!(close(ProtocolViolation::Io), (1011, "I/O error".to_string()));
    assert_eq!(CloseCode::Size.number(), 1009);
}

#[test]
fn ws_broadcast_frames() {
    let data = r#"{"x":1}"#.to_string();
    let m = Message::New { id: MessageId::One(ProcessedAgentId(7)), data: data.clone() };
    assert_eq!(m.encode(), r#"{"kind":"new","id":7,"data":{"x":1}}"#);
    let m = Message::New {
        id: MessageId::Many(vec![ProcessedAgentId(7), ProcessedAgentId(8), ProcessedAgentId(10)]),
        data: "[]".to_string(),
    };
    assert_eq!(m.encode(), r#"{"kind":"new","id":[7,8,10],"data":[]}"#);
    let m = Message::Update { id: MessageId::One(ProcessedAgentId(-1)), data };
    assert_eq!(m.encode(), r#"{"kind":"update","id":-1,"data":{"x":1}}"#);
    let m = Message::Delete { id: MessageId::One(ProcessedAgentId(3)) };
    assert_eq!(
        m.encode(),
        r#"{"kind":"delete","id":3,"data_type":"iot_telemetry::domain::ProcessedAgent"}"#
    );
    let m = Message::New { id: MessageId::Many(vec![]), data: "[]".to_string() };
    assert_eq!(m.encode(), r#"{"kind":"new","id":[],"data":[]}"#);
}

fn ids(s: &Subscribers<&'static str>) -> Vec<u64> {
    (0..s.len()).map(|i| s.get(i).0).collect()
}

#[test]
fn subscriber_eviction() {
    let mut subs = Subscribers::new();
    let a = subs.add("a").unwrap();
    let b = subs.add("b").unwrap();
    let c = subs.add("c").unwrap();
    assert_eq!((a, b, c), (0, 1, 2));
    // the send to `b` failed
    subs.evict(&[b]);
    assert_eq!(ids(&subs), vec![a, c]);
    assert_eq!(subs.get(1), (c, &"c"));
    // a later broadcast never reaches `b`
    subs.evict(&[]);
    assert_eq!(ids(&subs), vec![a, c]);
}

#[test]
fn subscriber_ids_are_never_reused() {
    let mut subs = Subscribers::new();
    let a = subs.add("a").unwrap();
    subs.remove(a);
    assert_eq!(subs.len(), 0);
    let b = subs.add("b").unwrap();
    assert_ne!(a, b);
    assert!(contains_id(&[4, 5], 5));
    assert!(!contains_id(&[4, 5], 6));
}
