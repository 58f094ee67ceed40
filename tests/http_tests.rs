use iot_telemetry::domain::{Accelerometer, Agent, Gps, ProcessedAgent, RoadState, Timestamp};
use iot_telemetry::http::{
    created_reply, delete_status, location, plan_create, read_status, update_status, CreateBody,
    CreatePlan, HttpReply, Pagination, PaginationError,
};
use iot_telemetry::model::ProcessedAgentId;
use iot_telemetry::ws::{Message, MessageId};

fn record(z: i64) -> ProcessedAgent {
    ProcessedAgent::new(
        Agent::new(
            Accelerometer::new(0, 0, z),
            Gps::try_new(0, 0).unwrap(),
            Timestamp::new(1_704_067_200, 0).unwrap(),
        ),
        RoadState::Smooth,
    )
}

#[test]
fn pagination_bounds() {
    assert_eq!(Pagination::from_query(Some(1), Some(21)), Err(PaginationError::InvalidSize));
    let p = Pagination::from_query(Some(1), Some(20)).unwrap();
    assert_eq!((p.page(), p.size()), (1, 20));
    assert_eq!(Pagination::from_query(Some(1), Some(0)), Err(PaginationError::InvalidSize));
    assert_eq!(Pagination::from_query(Some(0), Some(5)), Err(PaginationError::InvalidPage));
    assert_eq!(Pagination::from_query(Some(0), Some(50)), Err(PaginationError::InvalidPage));
    assert_eq!(
        Pagination::from_query(Some(u32::MAX as u64 + 1), None),
        Err(PaginationError::InvalidPage)
    );
}

#[test]
fn pagination_defaults_and_offset() {
    let p = Pagination::from_query(None, None).unwrap();
    assert_eq!((p.page(), p.size(), p.offset()), (1, 5, 0));
    let p = Pagination::from_query(Some(3), Some(20)).unwrap();
    assert_eq!(p.offset(), 40);
    let p = Pagination::from_query(Some(u32::MAX as u64), Some(20)).unwrap();
    assert_eq!(p.offset(), (u32::MAX as u64 - 1) * 20);
}

#[test]
fn create_routes() {
    let x = record(1);
    assert_eq!(plan_create(CreateBody::Single(x)), CreatePlan::Single(x));
    assert_eq!(plan_create(CreateBody::List(vec![x])), CreatePlan::Single(x));
    assert_eq!(plan_create(CreateBody::List(vec![])), CreatePlan::Empty);
    assert_eq!(
        plan_create(CreateBody::List(vec![x, record(2)])),
        CreatePlan::List(vec![x, record(2)])
    );
}

#[test]
fn list_of_one_replies_like_a_single_create() {
    let x = record(1);
    let single = plan_create(CreateBody::Single(x));
    let list = plan_create(CreateBody::List(vec![x]));
    assert_eq!(single, list);
    let reply = created_reply(&vec![ProcessedAgentId(7)]);
    assert_eq!(
        reply,
        HttpReply { status: 201, location: Some("/api/processed-agent-data/7".to_string()) }
    );
}

#[test]
fn created_replies() {
    assert_eq!(created_reply(&vec![]), HttpReply { status: 200, location: None });
    assert_eq!(
        created_reply(&vec![ProcessedAgentId(1), ProcessedAgentId(22)]),
        HttpReply {
            status: 201,
            location: Some(
                r#"["/api/processed-agent-data/1","/api/processed-agent-data/22"]"#.to_string()
            ),
        }
    );
    assert_eq!(location(ProcessedAgentId(-3)), "/api/processed-agent-data/-3");
}

#[test]
fn delete_is_idempotent() {
    assert_eq!(delete_status(true), 204);
    assert_eq!(delete_status(false), 204);
    assert_eq!(delete_status(false), 204);
}

#[test]
fn read_and_update_statuses() {
    assert_eq!(read_status(true), 200);
    assert_eq!(read_status(false), 404);
    assert_eq!(update_status(true), 204);
    assert_eq!(update_status(false), 404);
}

#[test]
fn coordinate_rejection() {
    // latitude 91.0 in a create request: the record cannot be built, so no
    // create is planned and nothing is stored or broadcast.
    let gps = iot_telemetry::proto::GpsData { latitude: 91_000_000_000, longitude: 0 };
    assert!(Gps::from_proto(gps).is_err());
    assert!(Gps::try_new(91_000_000_000, 0).is_err());
}

#[test]
fn ws_broadcast_on_create_matches_location() {
    let id = ProcessedAgentId(42);
    let reply = created_reply(&vec![id]);
    assert_eq!(reply.location.as_deref(), Some("/api/processed-agent-data/42"));
    let frame = Message::New { id: MessageId::One(id), data: "{}".to_string() }.encode();
    assert_eq!(frame, r#"{"kind":"new","id":42,"data":{}}"#);
}
