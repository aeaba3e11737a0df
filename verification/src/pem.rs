use crate::error::Error;
use crate::types::Certificate;
use crate::types::PrivateKey;
use vstd::prelude::*;

verus! {

/// One block of a PEM stream, tagged by its begin marker.
pub enum PemBlock {
    /// A `CERTIFICATE` block: a DER-encoded X.509 certificate.
    X509Certificate(Vec<u8>),
    /// An `RSA PRIVATE KEY` block.
    RsaKey(Vec<u8>),
    /// A PKCS#8 `PRIVATE KEY` block.
    Pkcs8Key(Vec<u8>),
    /// An `EC PRIVATE KEY` block.
    EcKey(Vec<u8>),
    /// A block the PEM reader parses but that is neither a certificate nor
    /// a recognized key encoding (a certificate revocation list).
    Unrecognized(Vec<u8>),
}

/// Whether a block is one of the recognized key encodings, all treated
/// uniformly as "a key".
pub open spec fn is_key_block(b: PemBlock) -> bool {
    b is RsaKey || b is Pkcs8Key || b is EcKey
}

/// Whether a block is a certificate.
pub open spec fn is_certificate_block(b: PemBlock) -> bool {
    b is X509Certificate
}

/// The payload bytes of a block.
pub open spec fn block_data(b: PemBlock) -> Seq<u8> {
    match b {
        PemBlock::X509Certificate(d) => d@,
        PemBlock::RsaKey(d) => d@,
        PemBlock::Pkcs8Key(d) => d@,
        PemBlock::EcKey(d) => d@,
        PemBlock::Unrecognized(d) => d@,
    }
}

/// The payloads of the certificate blocks of `items`, in the order
/// encountered.
pub open spec fn certificates_of(items: Seq<PemBlock>) -> Seq<Seq<u8>>
    decreases items.len(),
{
    if items.len() == 0 {
        seq![]
    } else {
        certificates_of(items.drop_last()) + if is_certificate_block(items.last()) {
            seq![block_data(items.last())]
        } else {
            seq![]
        }
    }
}

/// The payloads of the key blocks of `items`, in the order encountered.
pub open spec fn keys_of(items: Seq<PemBlock>) -> Seq<Seq<u8>>
    decreases items.len(),
{
    if items.len() == 0 {
        seq![]
    } else {
        keys_of(items.drop_last()) + if is_key_block(items.last()) {
            seq![block_data(items.last())]
        } else {
            seq![]
        }
    }
}

/// Whether every block of `items` is a certificate or a key.
pub open spec fn all_recognized(items: Seq<PemBlock>) -> bool {
    forall|i: int|
        0 <= i < items.len() ==> is_key_block(#[trigger] items[i]) || is_certificate_block(
            items[i],
        )
}

/// Whether a byte sequence is a readable PEM stream: every section opened
/// is closed, with valid Base64 between the markers.
pub uninterp spec fn pem_read_ok(bytes: Seq<u8>) -> bool;

/// The blocks of a readable PEM stream, in the order they stand in it.
pub uninterp spec fn pem_items_of(bytes: Seq<u8>) -> Seq<PemBlock>;

/// The diagnostic that reading an unreadable PEM stream reports.
pub uninterp spec fn pem_error_of(bytes: Seq<u8>) -> Seq<char>;

/// Relies on `rustls_pemfile::read_all`: extracts every PEM section of an
/// in-memory byte stream, decoding its Base64 payload; sections with an
/// unknown begin marker are skipped; acceptance, the blocks and the
/// diagnostic of an unreadable stream all depend on the bytes alone.
#[verifier::external_body]
pub(crate) fn read_pem_blocks(bytes: &Vec<u8>) -> (r: Result<Vec<PemBlock>, String>)
    ensures
        r is Ok <==> pem_read_ok(bytes@),
        r matches Ok(v) ==> v@ == pem_items_of(bytes@),
        r matches Err(m) ==> m@ == pem_error_of(bytes@),
{
    match rustls_pemfile::read_all(&mut bytes.as_slice()) {
        Ok(items) => Ok(
            items.into_iter().map(|item| match item {
                rustls_pemfile::Item::X509Certificate(d) => PemBlock::X509Certificate(d),
                rustls_pemfile::Item::RSAKey(d) => PemBlock::RsaKey(d),
                rustls_pemfile::Item::PKCS8Key(d) => PemBlock::Pkcs8Key(d),
                rustls_pemfile::Item::ECKey(d) => PemBlock::EcKey(d),
                rustls_pemfile::Item::Crl(d) => PemBlock::Unrecognized(d),
                _ => PemBlock::Unrecognized(Vec::new()),
            }).collect(),
        ),
        Err(e) => Err(format!("{}", e)),
    }
}

/// Copies a byte vector.
fn clone_bytes(src: &Vec<u8>) -> (r: Vec<u8>)
    ensures
        r@ == src@,
{
    let mut r: Vec<u8> = Vec::new();
    let mut i: usize = 0;
    while i < src.len()
        invariant
            i <= src.len(),
            r@ == src@.take(i as int),
        decreases src.len() - i,
    {
        r.push(src[i]);
        proof {
            assert(src@.take(i as int + 1) =~= src@.take(i as int).push(src@[i as int]));
        }
        i += 1;
    }
    proof {
        assert(src@.take(src@.len() as int) =~= src@);
    }
    r
}

/// Partitions the blocks of a certificate-pair response: every certificate
/// is kept in the order encountered; the most recently parsed key becomes
/// the private key.  Fails if any block is unrecognized or no key is
/// present.
pub fn partition_pem_blocks(items: &Vec<PemBlock>) -> (r: Result<
    (PrivateKey, Vec<Certificate>),
    Error,
>)
    ensures
        r is Ok <==> all_recognized(items@) && keys_of(items@).len() > 0,
        r matches Ok(p) ==> {
            &&& p.0@ == keys_of(items@).last()
            &&& p.1@.map_values(|c: Certificate| c@) == certificates_of(items@)
        },
        r matches Err(e) ==> e is UnknownCertificateOrKey,
{
    let mut certificates: Vec<Certificate> = Vec::new();
    let mut private_key: Option<Vec<u8>> = None;
    let mut i: usize = 0;
    while i < items.len()
        invariant
            i <= items.len(),
            all_recognized(items@.take(i as int)),
            certificates@.map_values(|c: Certificate| c@) == certificates_of(
                items@.take(i as int),
            ),
            match private_key {
                Some(k) => keys_of(items@.take(i as int)).len() > 0 && k@ == keys_of(
                    items@.take(i as int),
                ).last(),
                None => keys_of(items@.take(i as int)).len() == 0,
            },
        decreases items.len() - i,
    {
        proof {
            assert(items@.take(i as int + 1).drop_last() =~= items@.take(i as int));
            assert(items@.take(i as int + 1).last() == items@[i as int]);
        }
        match &items[i] {
            PemBlock::X509Certificate(d) => {
                certificates.push(Certificate(clone_bytes(d)));
                proof {
                    assert(certificates@.map_values(|c: Certificate| c@) =~= certificates_of(
                        items@.take(i as int + 1),
                    ));
                }
            },
            PemBlock::RsaKey(d) => {
                private_key = Some(clone_bytes(d));
            },
            PemBlock::Pkcs8Key(d) => {
                private_key = Some(clone_bytes(d));
            },
            PemBlock::EcKey(d) => {
                private_key = Some(clone_bytes(d));
            },
            PemBlock::Unrecognized(_) => {
                proof {
                    assert(!is_key_block(items@[i as int]) && !is_certificate_block(
                        items@[i as int],
                    ));
                    assert(!all_recognized(items@));
                }
                return Err(Error::UnknownCertificateOrKey);
            },
        }
        i += 1;
    }
    proof {
        assert(items@.take(items@.len() as int) =~= items@);
    }
    match private_key {
        Some(k) => Ok((PrivateKey(k), certificates)),
        None => Err(Error::UnknownCertificateOrKey),
    }
}



/// The partition reads the stream order and nothing else: the certificates
/// of a block sequence are exactly the payloads of its certificate blocks,
/// in the order encountered, and the keys are exactly the payloads of its
/// key blocks, in the order encountered.
pub proof fn lemma_partition_is_filter(items: Seq<PemBlock>)
    ensures
        certificates_of(items) == items.filter(
            |b: PemBlock| is_certificate_block(b),
        ).map_values(|b: PemBlock| block_data(b)),
        keys_of(items) == items.filter(|b: PemBlock| is_key_block(b)).map_values(
            |b: PemBlock| block_data(b),
        ),
    decreases items.len(),
{
    reveal(Seq::filter);
    let data = |b: PemBlock| block_data(b);
    let is_cert = |b: PemBlock| is_certificate_block(b);
    let is_key = |b: PemBlock| is_key_block(b);
    if items.len() == 0 {
        assert(certificates_of(items) =~= items.filter(is_cert).map_values(data));
        assert(keys_of(items) =~= items.filter(is_key).map_values(data));
    } else {
        lemma_partition_is_filter(items.drop_last());
        let head = items.drop_last();
        let last = items.last();
        if is_cert(last) {
            assert(head.filter(is_cert).push(last).map_values(data) =~= head.filter(
                is_cert,
            ).map_values(data).push(data(last)));
        }
        assert(certificates_of(items) =~= items.filter(is_cert).map_values(data));
        if is_key(last) {
            assert(head.filter(is_key).push(last).map_values(data) =~= head.filter(
                is_key,
            ).map_values(data).push(data(last)));
        }
        assert(keys_of(items) =~= items.filter(is_key).map_values(data));
    }
}

/// Which key becomes the private key does not depend on where certificate
/// blocks stand: inserting a certificate anywhere in a block sequence
/// leaves its sequence of keys — and so the last key — unchanged.
pub proof fn lemma_private_key_ignores_certificates(items: Seq<PemBlock>, i: int, c: PemBlock)
    requires
        0 <= i <= items.len(),
        is_certificate_block(c),
    ensures
        keys_of(items.insert(i, c)) == keys_of(items),
    decreases items.len(),
{
    let extended = items.insert(i, c);
    if i == items.len() {
        assert(extended.last() == c);
        assert(extended.drop_last() =~= items);
    } else {
        assert(extended.last() == items.last());
        assert(extended.drop_last() =~= items.drop_last().insert(i, c));
        lemma_private_key_ignores_certificates(items.drop_last(), i, c);
    }
}

} // verus!
