use agama_sync::backend::StubBackend;
use agama_sync::error::RemoteError;
use agama_sync::http::{
    decode_result, read_result, write_result, BaseHTTPClient, HttpOutcome, HttpVerb,
};
use agama_sync::network::{NetworkClient, UpsertAction};

fn test_client() -> BaseHTTPClient {
    BaseHTTPClient::new_with_url("http://test".to_string())
}

#[test]
fn replace_then_fetch_round_trips() {
    let client = test_client();
    let mut backend = StubBackend::new();
    let payload: Vec<u8> = br#"{"id":"eth0","method":"auto"}"#.to_vec();

    let put = client.replace_request("/network/connections/eth0", payload.clone());
    assert_eq!(put.verb, HttpVerb::Put);
    let put_outcome = backend.handle(&put);
    assert!(matches!(write_result(put_outcome), Ok(())));

    let get = client.fetch_request("/network/connections/eth0");
    assert_eq!(get.verb, HttpVerb::Get);
    assert_eq!(get.url, "http://test/network/connections/eth0");
    let get_outcome = backend.handle(&get);
    match read_result(get_outcome) {
        Ok(body) => assert_eq!(body, payload),
        Err(_) => panic!("fetch after replace must succeed"),
    }
}

#[test]
fn fetch_of_missing_resource_is_not_found() {
    let client = test_client();
    let mut backend = StubBackend::new();
    let get = client.fetch_request("/network/connections/enp1s0");
    let outcome = backend.handle(&get);
    match read_result(outcome) {
        Err(e) => {
            assert!(e.not_found());
            assert!(matches!(e, RemoteError::ProtocolFailure { status: 404, .. }));
        }
        Ok(_) => panic!("fetch of a missing resource must fail"),
    }
}

#[test]
fn upsert_of_unknown_id_creates_under_collection_path() {
    let client = test_client();
    let network = match NetworkClient::new(client) {
        Ok(n) => n,
        Err(_) => panic!("client construction must succeed"),
    };
    let mut backend = StubBackend::new();
    let payload: Vec<u8> = br#"{"id":"enp1s0"}"#.to_vec();

    let probe_request = network.connection_request("enp1s0");
    assert_eq!(probe_request.url, "http://test/network/connections/enp1s0");
    let probe_outcome = backend.handle(&probe_request);
    let probe = read_result(probe_outcome);
    match probe {
        Err(ref e) => assert!(e.not_found()),
        Ok(_) => panic!("probe of an unknown id must fail"),
    }

    match network.upsert_plan("enp1s0", payload.clone(), probe) {
        UpsertAction::Create { request } => {
            assert_eq!(request.verb, HttpVerb::Post);
            assert_eq!(request.url, "http://test/network/connections");
            assert_eq!(request.body, payload);
        }
        _ => panic!("an unknown id must be created, not replaced"),
    }
}

#[test]
fn upsert_of_present_id_replaces_at_item_path() {
    let client = test_client();
    let network = match NetworkClient::new(client) {
        Ok(n) => n,
        Err(_) => panic!("client construction must succeed"),
    };
    let mut backend = StubBackend::new();
    let old_payload: Vec<u8> = br#"{"id":"eth0"}"#.to_vec();
    let new_payload: Vec<u8> = br#"{"id":"eth0","method":"manual"}"#.to_vec();

    let seed = network.client.replace_request("/network/connections/eth0", old_payload);
    backend.handle(&seed);

    let probe_request = network.connection_request("eth0");
    let probe = read_result(backend.handle(&probe_request));
    assert!(probe.is_ok());

    match network.upsert_plan("eth0", new_payload.clone(), probe) {
        UpsertAction::Replace { request } => {
            assert_eq!(request.verb, HttpVerb::Put);
            assert_eq!(request.url, "http://test/network/connections/eth0");
            assert_eq!(request.body, new_payload);
        }
        _ => panic!("a present id must be replaced, not created"),
    }
}

#[test]
fn upsert_aborts_on_any_other_probe_failure() {
    let client = test_client();
    let network = match NetworkClient::new(client) {
        Ok(n) => n,
        Err(_) => panic!("client construction must succeed"),
    };
    let probe: Result<Vec<u8>, RemoteError> = Err(RemoteError::TransportFailure {
        detail: "connection refused".to_string(),
    });
    match network.upsert_plan("eth0", b"{}".to_vec(), probe) {
        UpsertAction::Abort { error } => match error {
            RemoteError::TransportFailure { detail } => {
                assert_eq!(detail, "connection refused");
            }
            _ => panic!("the probe's own error must be surfaced"),
        },
        _ => panic!("a non-not-found probe failure must issue no write"),
    }

    let probe_server_error: Result<Vec<u8>, RemoteError> = Err(RemoteError::ProtocolFailure {
        status: 500,
        body: b"boom".to_vec(),
    });
    match network.upsert_plan("eth0", b"{}".to_vec(), probe_server_error) {
        UpsertAction::Abort { error } => {
            assert!(matches!(error, RemoteError::ProtocolFailure { status: 500, .. }));
        }
        _ => panic!("a 500 probe failure must issue no write"),
    }
}

#[test]
fn no_response_is_a_transport_failure() {
    let outcome = HttpOutcome::NoResponse {
        detail: "dns lookup failed".to_string(),
    };
    match read_result(outcome) {
        Err(RemoteError::TransportFailure { detail }) => {
            assert_eq!(detail, "dns lookup failed");
        }
        _ => panic!("no response must be a transport failure"),
    }
}

#[test]
fn non_success_status_is_a_protocol_failure_with_status_and_body() {
    let outcome = HttpOutcome::Response {
        status: 422,
        body: b"unprocessable".to_vec(),
    };
    match read_result(outcome) {
        Err(RemoteError::ProtocolFailure { status, body }) => {
            assert_eq!(status, 422);
            assert_eq!(body, b"unprocessable".to_vec());
        }
        _ => panic!("a non-2xx response must be a protocol failure"),
    }
}

#[test]
fn undecodable_success_body_is_a_decode_failure() {
    let raw = b"not json".to_vec();
    match decode_result::<u32>(None, raw.clone()) {
        Err(RemoteError::DecodeFailure { raw: kept }) => assert_eq!(kept, raw),
        _ => panic!("an undecodable body must be a decode failure"),
    }
}

#[test]
fn decoded_success_body_is_returned_as_is() {
    match decode_result(Some(7u32), b"7".to_vec()) {
        Ok(v) => assert_eq!(v, 7),
        Err(_) => panic!("a decoded body must be returned"),
    }
}

#[test]
fn default_client_uses_the_local_endpoint() {
    let client = match BaseHTTPClient::new() {
        Ok(c) => c,
        Err(_) => panic!("default client construction must succeed"),
    };
    let request = client.fetch_request("/network/devices");
    assert_eq!(request.url, "http://localhost/api/network/devices");
}

#[test]
fn apply_is_a_bodyless_replace_of_the_apply_path() {
    let network = match NetworkClient::new(test_client()) {
        Ok(n) => n,
        Err(_) => panic!("client construction must succeed"),
    };
    let request = network.apply_request();
    assert_eq!(request.verb, HttpVerb::Put);
    assert_eq!(request.url, "http://test/network/system/apply");
    assert!(request.body.is_empty());
}

#[test]
fn collection_reads_target_their_paths() {
    let network = match NetworkClient::new(test_client()) {
        Ok(n) => n,
        Err(_) => panic!("client construction must succeed"),
    };
    let devices = network.devices_request();
    assert_eq!(devices.verb, HttpVerb::Get);
    assert_eq!(devices.url, "http://test/network/devices");
    let connections = network.connections_request();
    assert_eq!(connections.verb, HttpVerb::Get);
    assert_eq!(connections.url, "http://test/network/connections");
}
