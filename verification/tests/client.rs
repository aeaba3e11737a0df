use base64::Engine;
use tailscale_localapi::api::build_certificate_pair_target;
use tailscale_localapi::api::build_status_target;
use tailscale_localapi::api::build_whois_target;
use tailscale_localapi::Error;
use tailscale_localapi::HttpResponse;
use tailscale_localapi::LocalApi;
use tailscale_localapi::LocalApiClient;
use tailscale_localapi::TcpWithPasswordClient;
use tailscale_localapi::UnixStreamClient;

/// A transport that answers every request with one canned response.
struct CannedClient {
    status: u16,
    body: Vec<u8>,
}

impl LocalApiClient for CannedClient {
    fn get(&self, _target: &str) -> Result<HttpResponse, Error> {
        Ok(HttpResponse { status: self.status, body: self.body.clone() })
    }
}

/// A transport that checks the target it is asked for before answering.
struct ExpectingClient {
    expected_target: String,
    status: u16,
    body: Vec<u8>,
}

impl LocalApiClient for ExpectingClient {
    fn get(&self, target: &str) -> Result<HttpResponse, Error> {
        assert_eq!(target, self.expected_target);
        Ok(HttpResponse { status: self.status, body: self.body.clone() })
    }
}

fn canned_api(status: u16, body: &[u8]) -> LocalApi<CannedClient> {
    LocalApi { client: CannedClient { status, body: body.to_vec() } }
}

const STATUS_BODY: &str = "{\"BackendState\":\"Running\",\"Version\":\"1.0\"}";

#[test]
fn status_returns_decoded_json() {
    let api = canned_api(200, STATUS_BODY.as_bytes());
    let status = api.status().unwrap();
    let expected: serde_json::Value = serde_json::from_str(STATUS_BODY).unwrap();
    assert_eq!(status.0, expected);
}

#[test]
fn status_requests_the_status_endpoint() {
    let api = LocalApi {
        client: ExpectingClient {
            expected_target: String::from("/localapi/v0/status"),
            status: 200,
            body: STATUS_BODY.as_bytes().to_vec(),
        },
    };
    assert!(api.status().is_ok());
}

#[test]
fn whois_returns_decoded_json() {
    let body = "{\"Node\":{\"Name\":\"peer\"}}";
    let api = LocalApi {
        client: ExpectingClient {
            expected_target: String::from("/localapi/v0/whois?addr=100.64.0.1:22"),
            status: 200,
            body: body.as_bytes().to_vec(),
        },
    };
    let whois = api.whois("100.64.0.1:22").unwrap();
    let expected: serde_json::Value = serde_json::from_str(body).unwrap();
    assert_eq!(whois.0, expected);
}

#[test]
fn non_success_status_fails_every_operation() {
    for status in [201u16, 204, 301, 400, 404, 500] {
        let api = canned_api(status, STATUS_BODY.as_bytes());
        assert!(matches!(api.status(), Err(Error::UnprocessableEntity)));
        assert!(matches!(api.whois("100.64.0.1:22"), Err(Error::UnprocessableEntity)));
        assert!(matches!(api.certificate_pair("node.example.ts.net"), Err(Error::UnprocessableEntity)));
    }
}

#[test]
fn malformed_json_is_a_parsing_error() {
    let api = canned_api(200, b"{\"BackendState\":");
    assert!(matches!(api.status(), Err(Error::ParsingError(_))));
    let api = canned_api(200, b"not json at all");
    assert!(matches!(api.whois("100.64.0.1:22"), Err(Error::ParsingError(_))));
}

#[test]
fn target_builders_build_the_documented_paths() {
    assert_eq!(build_status_target(), "/localapi/v0/status");
    assert_eq!(build_whois_target("1.2.3.4:80"), "/localapi/v0/whois?addr=1.2.3.4:80");
    assert_eq!(
        build_certificate_pair_target("node.example.ts.net"),
        "/localapi/v0/cert/node.example.ts.net?type=pair"
    );
}

#[test]
fn unix_request_head_has_fixed_host_and_no_auth() {
    let client = UnixStreamClient { socket_path: String::from("/run/daemon.sock") };
    let head = client.request_head("/localapi/v0/status");
    assert_eq!(head.method, "GET");
    assert_eq!(head.target, "/localapi/v0/status");
    assert_eq!(head.host, "local-daemon.sock");
    assert!(head.authorization.is_none());
}

#[test]
fn tcp_request_head_carries_unpadded_basic_credentials() {
    let client = TcpWithPasswordClient { port: 4222, password: String::from("hunter2") };
    let head = client.request_head("/localapi/v0/status");
    assert_eq!(head.method, "GET");
    assert_eq!(head.host, "local-daemon.sock");
    let auth = head.authorization.unwrap();
    assert_eq!(auth, "Basic Omh1bnRlcjI");
}

#[test]
fn tcp_authorization_round_trips_to_the_password() {
    let password = "pa:ss:word";
    let client = TcpWithPasswordClient { port: 1, password: String::from(password) };
    let head = client.request_head("/x");
    let auth = head.authorization.unwrap();
    let encoded = auth.strip_prefix("Basic ").unwrap();
    assert!(!encoded.contains('='));
    let decoded = base64::engine::general_purpose::STANDARD_NO_PAD.decode(encoded).unwrap();
    let text = String::from_utf8(decoded).unwrap();
    let (user, pass) = text.split_once(':').unwrap();
    assert_eq!(user, "");
    assert_eq!(pass, password);
}

#[test]
fn new_with_socket_path_keeps_the_path() {
    let api = LocalApi::new_with_socket_path(String::from("/run/daemon.sock"));
    assert_eq!(api.client.socket_path, "/run/daemon.sock");
}

#[test]
fn new_with_port_and_password_keeps_both() {
    let api = LocalApi::new_with_port_and_password(4222, String::from("secret"));
    assert_eq!(api.client.port, 4222);
    assert_eq!(api.client.password, "secret");
}

#[test]
fn concurrent_status_calls_are_independent() {
    let runtime = tokio::runtime::Runtime::new().unwrap();
    let n = 16;
    let results = runtime.block_on(async {
        let mut handles = Vec::new();
        for _ in 0..n {
            handles.push(tokio::spawn(async {
                let api = canned_api_owned();
                api.status().map(|s| s.0)
            }));
        }
        let mut out = Vec::new();
        for h in handles {
            out.push(h.await.unwrap());
        }
        out
    });
    let expected: serde_json::Value = serde_json::from_str(STATUS_BODY).unwrap();
    assert_eq!(results.len(), n);
    for r in results {
        assert_eq!(r.unwrap(), expected);
    }
}

fn canned_api_owned() -> LocalApi<CannedClient> {
    canned_api(200, STATUS_BODY.as_bytes())
}

/// A transport that always fails with one canned error.
struct FailingClient;

impl LocalApiClient for FailingClient {
    fn get(&self, _target: &str) -> Result<HttpResponse, Error> {
        Err(Error::HyperError(String::from("connection reset by daemon")))
    }
}

#[test]
fn transport_errors_propagate_unchanged() {
    let api = LocalApi { client: FailingClient };
    match api.status() {
        Err(Error::HyperError(m)) => assert_eq!(m, "connection reset by daemon"),
        other => panic!("unexpected result: {:?}", other.map(|s| s.0)),
    }
    match api.whois("100.64.0.1:22") {
        Err(Error::HyperError(m)) => assert_eq!(m, "connection reset by daemon"),
        other => panic!("unexpected result: {:?}", other.map(|w| w.0)),
    }
    match api.certificate_pair("node.example.ts.net") {
        Err(Error::HyperError(m)) => assert_eq!(m, "connection reset by daemon"),
        Err(other) => panic!("unexpected error: {:?}", other),
        Ok(_) => panic!("unexpected success"),
    }
}

#[test]
fn equal_malformed_bodies_give_equal_diagnostics() {
    let text = |r: Result<tailscale_localapi::types::Status, Error>| match r {
        Err(Error::ParsingError(m)) => m,
        other => panic!("unexpected result: {:?}", other.map(|s| s.0)),
    };
    let first = text(canned_api(200, b"{\"BackendState\":").status());
    let second = text(canned_api(200, b"{\"BackendState\":").status());
    assert_eq!(first, second);
}
