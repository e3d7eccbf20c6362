use arcs_deploy::json::JsonValue;
use arcs_deploy::webhook::emitter::{delivery_outcome, deployment_success_body, ports_text};
use arcs_deploy::webhook::polling::{
    parse_polling_id, DeployStep, DeploymentRegistry, DeploymentStatus, PollingId, PollingIdTextError,
};
use arcs_deploy::webhook::receiver::{
    advance_with_fail_log, deletion_response, deploy_outcome, record_stage_outcome, spawn_deploy_req,
    DeployProcessErr, DeployStage,
};
use arcs_deploy::webhook::responses::{Deploy, Metadata, Response, StatusCode};
use arcs_deploy::webhook::server::{route, validate_token, Authentication, Endpoint};

const CHALL_UUID: &str = "00000000-0000-0000-0000-000000000001";
const RACE_UUID: &str = "00000000-0000-0000-0000-0000000000ff";

fn id() -> PollingId {
    PollingId::new(1, 255)
}

fn meta(endpoint: &str) -> Metadata {
    Metadata::from_deploy(&Deploy::new(endpoint.to_string(), id(), "chall".to_string()))
}

fn message_of(response: &Response) -> Option<JsonValue> {
    response.meta.other_data().map(|d| d.duplicate())
}

#[test]
fn registered_deployment_polls_as_building() {
    let mut registry = DeploymentRegistry::new();
    assert!(registry.register_chall_deployment(id(), 100).is_ok());
    let info = registry.poll_deployment(id(), 130, 5000).expect("registered");
    assert_eq!(info.id, id());
    assert_eq!(info.poll_time, 5000);
    assert_eq!(info.duration_since_last_change, 30);
    assert!(matches!(info.status, DeploymentStatus::InProgress(100, DeployStep::Building)));
    assert_eq!(info.status.get_str(), "in_progress:building");
    assert_eq!(info.status.start_time(), Some(100));
    assert_eq!(info.status.finish_time(), None);
}

#[test]
fn poll_before_last_change_saturates() {
    let mut registry = DeploymentRegistry::new();
    registry.register_chall_deployment(id(), 100).unwrap();
    assert_eq!(registry.poll_deployment(id(), 50, 0).unwrap().duration_since_last_change, 0);
}

#[test]
fn second_registration_is_refused_with_the_current_status() {
    let mut registry = DeploymentRegistry::new();
    registry.register_chall_deployment(id(), 100).unwrap();
    match registry.register_chall_deployment(id(), 200) {
        Err(DeploymentStatus::InProgress(t, DeployStep::Building)) => assert_eq!(t, 100),
        _ => panic!("expected the existing status"),
    }
}

#[test]
fn unknown_identifier_is_handed_back() {
    let mut registry = DeploymentRegistry::new();
    assert!(matches!(registry.poll_deployment(id(), 0, 0), Err(p) if p == id()));
    assert!(matches!(registry.advance_deployment_step(id(), None), Err(p) if p == id()));
    assert!(matches!(registry.succeed_deployment(id(), vec![1], 0), Err(p) if p == id()));
    assert!(matches!(registry._update_deployment_state(id(), DeploymentStatus::Success(1, vec![])), Err(p) if p == id()));
}

#[test]
fn advancing_answers_with_the_filed_status() {
    let mut registry = DeploymentRegistry::new();
    registry.register_chall_deployment(id(), 100).unwrap();
    let status = registry.advance_deployment_step(id(), None).expect("running deployment");
    assert!(matches!(status, DeploymentStatus::InProgress(100, DeployStep::Building)));
    let polled = registry.poll_deployment(id(), 100, 0).unwrap();
    assert!(matches!(polled.status, DeploymentStatus::InProgress(100, DeployStep::Building)));
    assert!(advance_with_fail_log(&mut registry, id()));
}

#[test]
fn finished_deployment_is_final() {
    let mut registry = DeploymentRegistry::new();
    registry.register_chall_deployment(id(), 100).unwrap();
    let done = registry.succeed_deployment(id(), vec![30001], 150).expect("running deployment");
    assert!(done.is_finished());
    assert_eq!(done.get_str(), "success");
    assert_eq!(done.finish_time(), Some(150));
    assert!(registry.fail_deployment(id(), Response::ise("late", meta("deploy")), 160).is_err());
    assert!(registry.succeed_deployment(id(), vec![1], 170).is_err());
    assert!(registry.advance_deployment_step(id(), Some(DeployStep::Pushing)).is_err());
    assert!(!advance_with_fail_log(&mut registry, id()));
    let info = registry.poll_deployment(id(), 200, 0).unwrap();
    match info.status.finished_data() {
        Some(Ok(ports)) => assert_eq!(ports, vec![30001]),
        _ => panic!("expected the ports"),
    }
    assert_eq!(info.duration_since_last_change, 50);
}

#[test]
fn update_replaces_any_status() {
    let mut registry = DeploymentRegistry::new();
    registry.register_chall_deployment(id(), 1).unwrap();
    registry.succeed_deployment(id(), vec![], 2).unwrap();
    let updated = registry._update_deployment_state(id(), DeploymentStatus::InProgress(3, DeployStep::Pulling)).unwrap();
    assert_eq!(updated.get_str(), "in_progress:pulling");
    assert_eq!(registry.poll_deployment(id(), 3, 0).unwrap().status.last_change(), 3);
}

#[test]
fn other_deployments_are_untouched() {
    let mut registry = DeploymentRegistry::new();
    let other = PollingId::new(2, 2);
    registry.register_chall_deployment(id(), 1).unwrap();
    registry.register_chall_deployment(other, 5).unwrap();
    registry.fail_deployment(id(), Response::ise("boom", meta("deploy")), 9).unwrap();
    assert!(matches!(registry.poll_deployment(other, 5, 0).unwrap().status, DeploymentStatus::InProgress(5, DeployStep::Building)));
}

#[test]
fn steps_run_in_order() {
    assert_eq!(DeployStep::Building.next(), Some(DeployStep::Pushing));
    assert_eq!(DeployStep::Pushing.next(), Some(DeployStep::Pulling));
    assert_eq!(DeployStep::Pulling.next(), Some(DeployStep::Deploying));
    assert_eq!(DeployStep::Deploying.next(), None);
    assert_eq!(DeployStep::Deploying.get_str(), "in_progress:deploying");
}

#[test]
fn polling_id_text_round_trips() {
    let text = format!("{CHALL_UUID}.{RACE_UUID}");
    assert_eq!(parse_polling_id(&text), Ok(id()));
    assert_eq!(id().to_text(), format!("Polling<{CHALL_UUID}.{RACE_UUID}>"));
    assert_eq!(id().tup(), (1, 255));
}

#[test]
fn polling_id_text_errors() {
    assert_eq!(parse_polling_id("no-period"), Err(PollingIdTextError::NoPeriod));
    assert_eq!(parse_polling_id(&format!("x.{RACE_UUID}")), Err(PollingIdTextError::BadChallId));
    assert_eq!(parse_polling_id(&format!("{CHALL_UUID}.y")), Err(PollingIdTextError::BadRaceLockId));
    assert_eq!(parse_polling_id("x.y"), Err(PollingIdTextError::BadBoth));
}

#[test]
fn status_codes() {
    assert_eq!(StatusCode::success().code(), 200);
    assert_eq!(StatusCode::server_deploy_process_err(3, "x").code(), 553);
    assert_eq!(StatusCode::req_deploy_process_err(2, "y").code(), 452);
    assert_eq!(StatusCode::custom(299, "z").message(), "z");
    assert_eq!(StatusCode::pollid_inval_noexists_err().code(), 441);
}

#[test]
fn metadata_upper_cases_the_endpoint() {
    let m = meta("redeploy");
    assert_eq!(m.endpoint_name(), "REDEPLOY");
    assert_eq!(m.chall_name(), "chall");
    assert_eq!(m.poll_id(), id());
    assert!(m.other_data().is_none());
}

#[test]
fn responses_carry_their_data() {
    let r = Response::endpoint_err("BAD", meta("bad"));
    assert_eq!(r.internal_code.code(), 404);
    assert_eq!(message_of(&r), Some(JsonValue::single("bad_endpoint", JsonValue::string("BAD"))));
    let r = Response::poll_id_doesnt_exist(id(), meta("poll"));
    assert_eq!(r.internal_code.code(), 441);
    assert_eq!(
        message_of(&r),
        Some(JsonValue::single("unknown_poll_id", JsonValue::Str(format!("Polling<{CHALL_UUID}.{RACE_UUID}>")))),
    );
    let r = Response::docker_login_err("no daemon", meta("deploy"));
    assert_eq!(r.internal_code.code(), 510);
    assert_eq!(Response::k8s_login_err("e", meta("deploy")).internal_code.code(), 511);
    assert_eq!(Response::ise("e", meta("deploy")).internal_code.message(), "Unknown internal server error");
}

#[test]
fn failed_stage_becomes_a_server_error() {
    let r = DeployProcessErr::Push("denied".to_string()).to_response(meta("deploy"));
    assert_eq!(r.internal_code.code(), 552);
    assert_eq!(r.internal_code.message(), "Error pushing");
    assert_eq!(message_of(&r), Some(JsonValue::single("message", JsonValue::string("Failed to push: denied"))));
    assert_eq!(DeployProcessErr::Fetch("f".to_string()).message(), "Failed to fetch: f");
}

#[test]
fn deploy_needs_a_port() {
    assert!(matches!(deploy_outcome(Ok(vec![])), Err(DeployProcessErr::Deploy(s)) if s == "No Port(s) Returned"));
    assert!(matches!(deploy_outcome(Ok(vec![30000])), Ok(p) if p == vec![30000]));
    assert!(matches!(deploy_outcome(Err("quota".to_string())), Err(DeployProcessErr::Deploy(s)) if s == "quota"));
}

#[test]
fn pipeline_runs_its_stages_then_succeeds() {
    let mut registry = DeploymentRegistry::new();
    let polling_id = spawn_deploy_req(&mut registry, 1, 255, 10).expect("fresh identifier");
    assert_eq!(polling_id, id());
    let m = meta("deploy");
    let next = record_stage_outcome(&mut registry, polling_id, DeployStage::Building, Ok(vec![]), &m, 11);
    assert_eq!(next, Some(DeployStage::Pushing));
    let next = record_stage_outcome(&mut registry, polling_id, DeployStage::Pushing, Ok(vec![]), &m, 12);
    assert_eq!(next, Some(DeployStage::Deploying));
    let next = record_stage_outcome(&mut registry, polling_id, DeployStage::Deploying, Ok(vec![31337]), &m, 13);
    assert_eq!(next, None);
    let status = registry.poll_deployment(polling_id, 13, 0).unwrap().status;
    assert!(matches!(status, DeploymentStatus::Success(13, ref p) if *p == vec![31337]));
    assert!(spawn_deploy_req(&mut registry, 1, 255, 20).is_err());
}

#[test]
fn pipeline_stops_on_failure() {
    let mut registry = DeploymentRegistry::new();
    let polling_id = spawn_deploy_req(&mut registry, 1, 255, 10).unwrap();
    let m = meta("deploy");
    let next = record_stage_outcome(&mut registry, polling_id, DeployStage::Building, Err(DeployProcessErr::Build("oops".to_string())), &m, 11);
    assert_eq!(next, None);
    match registry.poll_deployment(polling_id, 11, 0).unwrap().status {
        DeploymentStatus::Failure(t, response) => {
            assert_eq!(t, 11);
            assert_eq!(response.internal_code.code(), 551);
        },
        _ => panic!("expected a failure"),
    }
}

#[test]
fn deletion_is_reported() {
    let ok = deletion_response("web1", Ok(()), Ok(()), meta("delete"));
    assert_eq!(ok.internal_code.code(), 200);
    assert_eq!(message_of(&ok), Some(JsonValue::single("message", JsonValue::string("Deleted 'web1'"))));
    let k8s = deletion_response("web1", Err("gone".to_string()), Ok(()), meta("delete"));
    assert_eq!(k8s.internal_code.code(), 556);
    assert_eq!(k8s.internal_code.message(), "Error deleting k8s deployment/service");
    let docker = deletion_response("web1", Ok(()), Err("busy".to_string()), meta("delete"));
    assert_eq!(docker.internal_code.code(), 557);
}

#[test]
fn endpoints_are_routed() {
    assert_eq!(route("DEPLOY"), Endpoint::Deploy);
    assert_eq!(route("REDEPLOY"), Endpoint::Deploy);
    assert_eq!(route("DELETE"), Endpoint::Delete);
    assert_eq!(route("POLL"), Endpoint::Poll);
    assert_eq!(route("poll"), Endpoint::Unknown);
}

#[test]
fn tokens_are_compared_whole() {
    let expected = [7u8; 32];
    assert_eq!(validate_token(&[7u8; 32], &expected), Ok(()));
    assert_eq!(validate_token(&[7u8; 31], &expected), Err(Authentication::BadRequest));
    assert_eq!(validate_token(&[7u8; 33], &expected), Err(Authentication::BadRequest));
    let mut other = [7u8; 32];
    other[31] = 8;
    assert_eq!(validate_token(&other, &expected), Err(Authentication::InvalidToken));
}

#[test]
fn refused_tokens_are_answered_by_kind() {
    assert_eq!(Authentication::BadRequest.status_code(), 400);
    assert_eq!(Authentication::BadRequest.message(), "Malformed Request");
    assert_eq!(Authentication::InvalidToken.status_code(), 401);
    assert_eq!(Authentication::InvalidToken.message(), "Unauthorized Request");
}

#[test]
fn ports_are_listed_as_debug_does() {
    assert_eq!(ports_text(&[]), format!("{:?}", Vec::<i32>::new()));
    assert_eq!(ports_text(&[80, -1, 443]), format!("{:?}", vec![80, -1, 443]));
    assert_eq!(ports_text(&[i32::MIN]), format!("{:?}", vec![i32::MIN]));
}

#[test]
fn success_announcement_names_the_challenge_and_ports() {
    let body = deployment_success_body(&meta("deploy"), &[30001]);
    let poll = format!("Polling<{CHALL_UUID}.{RACE_UUID}>");
    let ports = JsonValue::int_array(&[30001]);
    let expected = JsonValue::pair(
        "_type", JsonValue::string("DeploymentSuccess"),
        "targets", JsonValue::triple(
            "discord", JsonValue::triple(
                "content", JsonValue::string("Successfully deployed chall on port [30001]"),
                "Ports", ports.duplicate(),
                "urgency", JsonValue::string("low"),
            ),
            "frontend", JsonValue::pair("PollID", JsonValue::Str(poll.clone()), "Ports", ports.duplicate()),
            "sql", JsonValue::pair(
                "query", JsonValue::Str(format!("INSERT INTO deployments (poll_id, ports) VALUES ({poll})")),
                "Ports", ports,
            ),
        ),
    );
    assert_eq!(body, expected);
}

#[test]
fn delivery_needs_a_success_status() {
    assert!(delivery_outcome(Some(204)).is_ok());
    assert!(delivery_outcome(Some(401)).is_err());
    assert!(delivery_outcome(None).is_err());
}
