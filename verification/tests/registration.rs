use agent_registry::attestation::VerifiedReport;
use agent_registry::errors::{AccessError, RegistrationError};
use agent_registry::registry::Contract;

const API_IMAGE: &str = "3f1c0de7a5b94e02c6d8f0a1b2c3d4e5f60718293a4b5c6d7e8f90a1b2c3d4e5";
const APP_IMAGE: &str = "9b2e4f6a8c0d1e3f5a7b9c1d3e5f7092a4b6c8d0e2f4061829304a5b6c7d8e9f";
const MEASUREMENT: &str = "ea720e349621119e0001363e81f3dea45ca9e13e1aaa2b0abe0faee5e3625812fd547fb54b7957dc2f5bcde3f676691c";
const TCB_INFO: &str = r#"{"mrtd": "000000000000000000000000000000000000000000000000000000000000000000000000000000000000000000000000", "rtmr3": "ea720e349621119e0001363e81f3dea45ca9e13e1aaa2b0abe0faee5e3625812fd547fb54b7957dc2f5bcde3f676691c", "event_log": [{"imr": 0, "event_type": 2147483659, "digest": "111111111111111111111111111111111111111111111111111111111111111111111111111111111111111111111111", "event": "", "event_payload": "095464785461626c65000100000000000000af96bb93f2b9b84e9462e0ba745642360090800000000000"}, {"imr": 3, "event_type": 134217729, "digest": "4d1a7f354dd5c98c1b53357a3b7e4eb72a4046624ba500fb4d57eabdf4fffd93ef26a12130e592c8a5628a9e3a82f66e", "event": "app-id", "event_payload": "0102030405060708090a0b0c0d0e0f1011121314"}, {"imr": 3, "event_type": 134217729, "digest": "dce6b4ce4afad68924f661fca49f9f95a2db0dc69c71d46464a310eaf6864f705988b7264e1cdcb71bdd7b1853c83113", "event": "compose-hash", "event_payload": "2a2e156bc6413e16c71799437159ed30211bae5d847c7f6d9f2a04706c1c7f28"}, {"imr": 3, "event_type": 134217729, "digest": "98bd7e6bd3952720b65027fd494834045d06b4a714bf737a06b874638b3ea00ff402f7f583e3e3b05e921c8570433ac6", "event": "boot-mr-done", "event_payload": ""}], "app_compose": "{\"manifest_version\":2,\"name\":\"shade-agent\",\"runner\":\"docker-compose\",\"docker_compose_file\":\"services:\\n  shade-agent-api:\\n    image: example/shade-agent-api@sha256:3f1c0de7a5b94e02c6d8f0a1b2c3d4e5f60718293a4b5c6d7e8f90a1b2c3d4e5\\n    ports:\\n      - \\\"3140:3140\\\"\\n  shade-agent-app:\\n    image: example/shade-agent-app@sha256:9b2e4f6a8c0d1e3f5a7b9c1d3e5f7092a4b6c8d0e2f4061829304a5b6c7d8e9f\\n\"}"}"#;
const COMPOSE_CHANGED: &str = r#"{"mrtd": "000000000000000000000000000000000000000000000000000000000000000000000000000000000000000000000000", "rtmr3": "ea720e349621119e0001363e81f3dea45ca9e13e1aaa2b0abe0faee5e3625812fd547fb54b7957dc2f5bcde3f676691c", "event_log": [{"imr": 0, "event_type": 2147483659, "digest": "111111111111111111111111111111111111111111111111111111111111111111111111111111111111111111111111", "event": "", "event_payload": "095464785461626c65000100000000000000af96bb93f2b9b84e9462e0ba745642360090800000000000"}, {"imr": 3, "event_type": 134217729, "digest": "4d1a7f354dd5c98c1b53357a3b7e4eb72a4046624ba500fb4d57eabdf4fffd93ef26a12130e592c8a5628a9e3a82f66e", "event": "app-id", "event_payload": "0102030405060708090a0b0c0d0e0f1011121314"}, {"imr": 3, "event_type": 134217729, "digest": "dce6b4ce4afad68924f661fca49f9f95a2db0dc69c71d46464a310eaf6864f705988b7264e1cdcb71bdd7b1853c83113", "event": "compose-hash", "event_payload": "2a2e156bc6413e16c71799437159ed30211bae5d847c7f6d9f2a04706c1c7f28"}, {"imr": 3, "event_type": 134217729, "digest": "98bd7e6bd3952720b65027fd494834045d06b4a714bf737a06b874638b3ea00ff402f7f583e3e3b05e921c8570433ac6", "event": "boot-mr-done", "event_payload": ""}], "app_compose": "{\"manifest_version\":2,\"name\":\"shade-agent\",\"runner\":\"docker-compose\",\"docker_compose_file\":\"services:\\n  shade-agent-api:\\n    image: example/shade-agent-api@sha256:3f1c0de7a5b94e02c6d8f0a1b2c3d4e5f60718293a4b5c6d7e8f90a1b2c3d4e5\\n    ports:\\n      - \\\"3140:3140\\\"\\n  shade-agent-app:\\n    image: example/shade-agent-app@sha256:ffffffffffffffffffffffffffffffffffffffffffffffffffffffffffffffff\\n\"}"}"#;

fn report_for(identity: &str) -> VerifiedReport {
    VerifiedReport {
        report_data: identity.as_bytes().to_vec(),
        rt_mr3: hex::decode(MEASUREMENT).unwrap(),
    }
}

fn registry() -> Contract {
    let mut c = Contract::init("alice".to_string());
    c.approve_codehash("alice", API_IMAGE.to_string()).unwrap();
    c.approve_codehash("alice", APP_IMAGE.to_string()).unwrap();
    c
}

#[test]
fn a_verified_report_registers_its_identity_with_the_image_of_the_application() {
    let mut c = registry();
    let r = c.register_verified("bob", &report_for("bob"), "sum".to_string(), TCB_INFO);
    assert_eq!(r, Ok(true));
    let worker = c.get_agent("bob").unwrap();
    assert_eq!(worker.codehash(), APP_IMAGE);
    assert_eq!(worker.checksum(), "sum");
    assert_eq!(c.require_approved_codehash("bob"), Ok(()));
}

#[test]
fn a_verified_report_for_another_identity_registers_nobody() {
    let mut c = registry();
    let r = c.register_verified("bob", &report_for("carol"), "sum".to_string(), TCB_INFO);
    assert_eq!(r, Err(RegistrationError::IdentityMismatch));
    let mut padded = report_for("bob");
    padded.report_data.resize(64, 0);
    let r = c.register_verified("bob", &padded, "sum".to_string(), TCB_INFO);
    assert_eq!(r, Err(RegistrationError::IdentityMismatch));
    let r = c.register_verified("bob", &report_for("carol"), "sum".to_string(), "not json");
    assert_eq!(r, Err(RegistrationError::IdentityMismatch));
    assert_eq!(c.get_agent("bob").err(), Some(AccessError::NotRegistered));
    assert_eq!(c.get_agent("carol").err(), Some(AccessError::NotRegistered));
}

#[test]
fn a_verified_report_with_another_measurement_registers_nobody() {
    let mut c = registry();
    let mut report = report_for("bob");
    report.rt_mr3[47] ^= 1;
    let r = c.register_verified("bob", &report, "sum".to_string(), TCB_INFO);
    assert_eq!(r, Err(RegistrationError::MeasurementNotFound));
    let r = c.register_verified("bob", &report_for("bob"), "sum".to_string(), COMPOSE_CHANGED);
    assert_eq!(r, Err(RegistrationError::MeasurementNotFound));
    let r = c.register_verified("bob", &report_for("bob"), "sum".to_string(), "{}");
    assert_eq!(r, Err(RegistrationError::MalformedCollateral));
    assert!(c.workers().is_empty());
}

#[test]
fn a_verified_report_is_refused_until_both_images_are_approved() {
    let mut c = Contract::init("alice".to_string());
    let r = c.register_verified("bob", &report_for("bob"), "sum".to_string(), TCB_INFO);
    assert_eq!(r, Err(RegistrationError::UnapprovedImage));
    c.approve_codehash("alice", APP_IMAGE.to_string()).unwrap();
    let r = c.register_verified("bob", &report_for("bob"), "sum".to_string(), TCB_INFO);
    assert_eq!(r, Err(RegistrationError::UnapprovedImage));
    assert!(c.workers().is_empty());
    c.approve_codehash("alice", API_IMAGE.to_string()).unwrap();
    let r = c.register_verified("bob", &report_for("bob"), "sum".to_string(), TCB_INFO);
    assert_eq!(r, Ok(true));
    assert_eq!(c.get_agent("bob").unwrap().codehash(), APP_IMAGE);
}
