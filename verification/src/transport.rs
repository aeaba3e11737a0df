use crate::basic_auth::authorization_value;
use crate::basic_auth::build_authorization_value;
use crate::error::Error;
use vstd::prelude::*;
use vstd::string::StringExecFns;

verus! {

/// A fully buffered HTTP response: the raw status code and the whole body.
pub struct HttpResponse {
    pub status: u16,
    pub body: Vec<u8>,
}

/// The verbatim parts of the one request the client ever sends: a GET for
/// `target` with a fixed `Host` header and, for the password-guarded
/// transport, a Basic `Authorization` header.
pub struct RequestHead {
    pub method: String,
    pub target: String,
    pub host: String,
    pub authorization: Option<String>,
}

/// The transport capability: perform an authenticated GET for a path+query
/// over a fresh connection and deliver the daemon's raw response.
///
/// The embedding program implements this for its connection backends; the
/// operations of [`crate::LocalApi`] are generic over it.  Nothing is
/// promised of a delivered response — the operations state what they return
/// for every response a transport can hand back; a failure to deliver one
/// must be a connection, request or HTTP-framing error.
pub trait LocalApiClient {
    fn get(&self, target: &str) -> (r: Result<HttpResponse, Error>)
        ensures
            r matches Err(e) ==> (e is IoError || e is HyperError || e is HttpError),
    ;
}

/// Configuration of the Unix-domain-socket transport: the filesystem path
/// of the daemon's socket.  Used on Unix-like systems.
pub struct UnixStreamClient {
    pub socket_path: String,
}

/// Configuration of the loopback-TCP transport: the daemon's port and the
/// shared-secret password.  Used where sandboxing forbids the socket.
pub struct TcpWithPasswordClient {
    pub port: u16,
    pub password: String,
}

/// The fixed `Host` header value the daemon requires on every request,
/// whatever the transport.
pub open spec fn host_header() -> Seq<char> {
    "local-daemon.sock"@
}

impl UnixStreamClient {
    /// The request this transport sends for `target`: a plain GET with the
    /// fixed `Host` header and no authentication.
    pub fn request_head(&self, target: &str) -> (r: RequestHead)
        ensures
            r.method@ == "GET"@,
            r.target@ == target@,
            r.host@ == host_header(),
            r.authorization is None,
    {
        RequestHead {
            method: String::from_str("GET"),
            target: String::from_str(target),
            host: String::from_str("local-daemon.sock"),
            authorization: None,
        }
    }
}

impl TcpWithPasswordClient {
    /// The request this transport sends for `target`: a GET with the fixed
    /// `Host` header and Basic credentials carrying an empty username and
    /// the configured password.
    pub fn request_head(&self, target: &str) -> (r: RequestHead)
        ensures
            r.method@ == "GET"@,
            r.target@ == target@,
            r.host@ == host_header(),
            r.authorization matches Some(a) && a@ == authorization_value(
                vstd::utf8::encode_utf8(self.password@),
            ),
    {
        RequestHead {
            method: String::from_str("GET"),
            target: String::from_str(target),
            host: String::from_str("local-daemon.sock"),
            authorization: Some(build_authorization_value(&self.password)),
        }
    }
}

} // verus!
