use crate::error::Error;
use crate::json::json_error_of;
use crate::json::json_value_of;
use crate::json::json_wf;
use crate::json::parse_json_value;
use crate::pem::all_recognized;
use crate::pem::certificates_of;
use crate::pem::keys_of;
use crate::pem::partition_pem_blocks;
use crate::pem::pem_items_of;
use crate::pem::pem_error_of;
use crate::pem::pem_read_ok;
use crate::pem::PemBlock;
use crate::pem::read_pem_blocks;
use crate::transport::HttpResponse;
use crate::transport::LocalApiClient;
use crate::transport::TcpWithPasswordClient;
use crate::transport::UnixStreamClient;
use crate::types::Certificate;
use crate::types::PrivateKey;
use crate::types::Status;
use crate::types::Whois;
use vstd::prelude::*;
use vstd::string::StringExecFns;

verus! {

/// The path of the status endpoint.
pub open spec fn status_target() -> Seq<char> {
    "/localapi/v0/status"@
}

/// The path+query of the whois endpoint for the literal address `address`.
pub open spec fn whois_target(address: Seq<char>) -> Seq<char> {
    "/localapi/v0/whois?addr="@ + address
}

/// The path+query of the certificate-pair endpoint for `domain`, inserted
/// verbatim.
pub open spec fn certificate_pair_target(domain: Seq<char>) -> Seq<char> {
    "/localapi/v0/cert/"@ + domain + "?type=pair"@
}

/// Builds the target of the status operation.
pub fn build_status_target() -> (r: String)
    ensures
        r@ == status_target(),
{
    String::from_str("/localapi/v0/status")
}

/// Builds the target of the whois operation for `address`.
pub fn build_whois_target(address: &str) -> (r: String)
    ensures
        r@ == whois_target(address@),
{
    let mut target = String::from_str("/localapi/v0/whois?addr=");
    target.append(address);
    target
}

/// Builds the target of the certificate-pair operation for `domain`.
pub fn build_certificate_pair_target(domain: &str) -> (r: String)
    ensures
        r@ == certificate_pair_target(domain@),
{
    let mut target = String::from_str("/localapi/v0/cert/");
    target.append(domain);
    target.append("?type=pair");
    target
}

/// Decides the status operation's result from the outcome of its transport
/// call: a transport error is returned unchanged; any status other than 200
/// is the unprocessable-entity error; a 200 body is returned as its decoded
/// JSON, or as a parsing error carrying the parser's diagnostic if it is
/// malformed — never as a partly populated record.
pub fn status_response(outcome: Result<HttpResponse, Error>) -> (r: Result<Status, Error>)
    ensures
        outcome matches Err(e) ==> r == Err::<Status, Error>(e),
        outcome matches Ok(resp) ==> {
            &&& resp.status != 200 ==> (r matches Err(e) && e is UnprocessableEntity)
            &&& resp.status == 200 ==> (r is Ok <==> json_wf(resp.body@))
            &&& resp.status == 200 && json_wf(resp.body@) ==> (r matches Ok(s) && s.0
                == json_value_of(resp.body@))
            &&& resp.status == 200 && !json_wf(resp.body@) ==> (r matches Err(e)
                && e matches Error::ParsingError(m) && m@ == json_error_of(resp.body@))
        },
        r matches Ok(s) ==> exists|b: Seq<u8>| json_wf(b) && s.0 == json_value_of(b),
{
    let response = match outcome {
        Ok(response) => response,
        Err(e) => {
            return Err(e);
        },
    };
    if response.status != 200 {
        return Err(Error::UnprocessableEntity);
    }
    match parse_json_value(&response.body) {
        Ok(v) => {
            proof {
                assert(json_wf(response.body@) && Status(v).0 == json_value_of(response.body@));
            }
            Ok(Status(v))
        },
        Err(m) => Err(Error::ParsingError(m)),
    }
}

/// Decides the whois operation's result from the outcome of its transport
/// call, exactly as [`status_response`] does.
pub fn whois_response(outcome: Result<HttpResponse, Error>) -> (r: Result<Whois, Error>)
    ensures
        outcome matches Err(e) ==> r == Err::<Whois, Error>(e),
        outcome matches Ok(resp) ==> {
            &&& resp.status != 200 ==> (r matches Err(e) && e is UnprocessableEntity)
            &&& resp.status == 200 ==> (r is Ok <==> json_wf(resp.body@))
            &&& resp.status == 200 && json_wf(resp.body@) ==> (r matches Ok(w) && w.0
                == json_value_of(resp.body@))
            &&& resp.status == 200 && !json_wf(resp.body@) ==> (r matches Err(e)
                && e matches Error::ParsingError(m) && m@ == json_error_of(resp.body@))
        },
        r matches Ok(w) ==> exists|b: Seq<u8>| json_wf(b) && w.0 == json_value_of(b),
{
    let response = match outcome {
        Ok(response) => response,
        Err(e) => {
            return Err(e);
        },
    };
    if response.status != 200 {
        return Err(Error::UnprocessableEntity);
    }
    match parse_json_value(&response.body) {
        Ok(v) => {
            proof {
                assert(json_wf(response.body@) && Whois(v).0 == json_value_of(response.body@));
            }
            Ok(Whois(v))
        },
        Err(m) => Err(Error::ParsingError(m)),
    }
}

/// Decides the certificate-pair operation's result from the outcome of its
/// transport call: a transport error is returned unchanged; any status
/// other than 200 is the unprocessable-entity error; a 200 body is read as
/// a PEM stream and partitioned into the certificates, in order, and the
/// most recently parsed key.
pub fn certificate_pair_response(outcome: Result<HttpResponse, Error>) -> (r: Result<
    (PrivateKey, Vec<Certificate>),
    Error,
>)
    ensures
        outcome matches Err(e) ==> r == Err::<(PrivateKey, Vec<Certificate>), Error>(e),
        outcome matches Ok(resp) ==> {
            &&& resp.status != 200 ==> (r matches Err(e) && e is UnprocessableEntity)
            &&& resp.status == 200 && !pem_read_ok(resp.body@) ==> (r matches Err(e)
                && e matches Error::IoError(m) && m@ == pem_error_of(resp.body@))
            &&& resp.status == 200 && pem_read_ok(resp.body@) ==> {
                let items = pem_items_of(resp.body@);
                &&& (r is Ok <==> all_recognized(items) && keys_of(items).len() > 0)
                &&& (r matches Ok(p) ==> p.0@ == keys_of(items).last()
                    && p.1@.map_values(|c: Certificate| c@) == certificates_of(items))
                &&& (r matches Err(e) ==> e is UnknownCertificateOrKey)
            }
        },
        r matches Ok(p) ==> exists|items: Seq<PemBlock>|
            {
                &&& all_recognized(items) && keys_of(items).len() > 0
                &&& p.0@ == keys_of(items).last()
                &&& p.1@.map_values(|c: Certificate| c@) == certificates_of(items)
            },
{
    let response = match outcome {
        Ok(response) => response,
        Err(e) => {
            return Err(e);
        },
    };
    if response.status != 200 {
        return Err(Error::UnprocessableEntity);
    }
    match read_pem_blocks(&response.body) {
        Ok(blocks) => {
            let r = partition_pem_blocks(&blocks);
            proof {
                if r is Ok {
                    assert(blocks@ == pem_items_of(response.body@));
                }
            }
            r
        },
        Err(m) => Err(Error::IoError(m)),
    }
}

/// The client facade: stateless per call over an immutable transport
/// configuration, chosen once at construction.  Every operation builds its
/// target, asks the bound transport to GET it over a fresh connection, and
/// decodes the raw response with the matching decoder above.
pub struct LocalApi<T> {
    pub client: T,
}

impl LocalApi<UnixStreamClient> {
    /// A client that reaches the daemon over the Unix socket at
    /// `socket_path`.
    pub fn new_with_socket_path(socket_path: String) -> (r: Self)
        ensures
            r.client.socket_path@ == socket_path@,
    {
        LocalApi { client: UnixStreamClient { socket_path } }
    }
}

impl LocalApi<TcpWithPasswordClient> {
    /// A client that reaches the daemon over loopback TCP on `port`,
    /// authenticating with `password`.
    pub fn new_with_port_and_password(port: u16, password: String) -> (r: Self)
        ensures
            r.client.port == port,
            r.client.password@ == password@,
    {
        LocalApi { client: TcpWithPasswordClient { port, password } }
    }
}

impl<T: LocalApiClient> LocalApi<T> {
    /// The status of the local node: GET the status endpoint and decode the
    /// body as JSON.  What is returned for each outcome of the transport
    /// call — a transport error unchanged, or the decoded response — is
    /// stated by [`status_response`].
    pub fn status(&self) -> (r: Result<Status, Error>)
        ensures
            r matches Ok(s) ==> exists|b: Seq<u8>| json_wf(b) && s.0 == json_value_of(b),
            r matches Err(e) ==> !(e is UnknownCertificateOrKey),
    {
        let target = build_status_target();
        status_response(self.client.get(target.as_str()))
    }

    /// The whois record for `address`, the literal string form of an
    /// IP:port: GET the whois endpoint and decode the body as JSON.  What
    /// is returned for each outcome of the transport call is stated by
    /// [`whois_response`].
    pub fn whois(&self, address: &str) -> (r: Result<Whois, Error>)
        ensures
            r matches Ok(w) ==> exists|b: Seq<u8>| json_wf(b) && w.0 == json_value_of(b),
            r matches Err(e) ==> !(e is UnknownCertificateOrKey),
    {
        let target = build_whois_target(address);
        whois_response(self.client.get(target.as_str()))
    }

    /// The certificate chain and private key for `domain`, inserted
    /// verbatim into the path: GET the certificate-pair endpoint and
    /// partition the PEM body.  What is returned for each outcome of the
    /// transport call is stated by [`certificate_pair_response`].
    pub fn certificate_pair(&self, domain: &str) -> (r: Result<
        (PrivateKey, Vec<Certificate>),
        Error,
    >)
        ensures
            r matches Ok(p) ==> exists|items: Seq<PemBlock>|
                {
                    &&& all_recognized(items) && keys_of(items).len() > 0
                    &&& p.0@ == keys_of(items).last()
                    &&& p.1@.map_values(|c: Certificate| c@) == certificates_of(items)
                },
            r matches Err(e) ==> !(e is ParsingError),
    {
        let target = build_certificate_pair_target(domain);
        certificate_pair_response(self.client.get(target.as_str()))
    }
}

} // verus!
