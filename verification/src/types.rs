use vstd::prelude::*;

verus! {

/// A DER-encoded private key, the last key block of a certificate-pair
/// response.
pub struct PrivateKey(pub Vec<u8>);

impl View for PrivateKey {
    type V = Seq<u8>;

    open spec fn view(&self) -> Seq<u8> {
        self.0@
    }
}

/// A DER-encoded X.509 certificate from a certificate-pair response.
pub struct Certificate(pub Vec<u8>);

impl View for Certificate {
    type V = Seq<u8>;

    open spec fn view(&self) -> Seq<u8> {
        self.0@
    }
}

/// The status record of the local node: an opaque JSON payload, decoded
/// structurally and passed through without semantic validation.
pub struct Status(pub serde_json::Value);

/// The whois record for an address: an opaque JSON payload, decoded
/// structurally and passed through without semantic validation.
pub struct Whois(pub serde_json::Value);

} // verus!
