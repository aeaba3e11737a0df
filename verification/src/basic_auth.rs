use base64::Engine;
use vstd::prelude::*;
use vstd::string::StringExecFns;

verus! {

/// The code of the character that the standard Base64 alphabet assigns to a
/// six-bit group (RFC 4648, table 1).
pub open spec fn b64_code(x: u8) -> u8
    recommends
        x < 64,
{
    if x < 26 {
        (x + 65) as u8  // 'A'..'Z'
    } else if x < 52 {
        (x + 71) as u8  // 'a'..'z'
    } else if x < 62 {
        (x - 4) as u8  // '0'..'9'
    } else if x == 62 {
        43u8  // '+'
    } else {
        47u8  // '/'
    }
}

pub open spec fn b64_char(x: u8) -> char {
    b64_code(x) as char
}

/// Standard Base64 without padding: each three input bytes become four
/// characters; a trailing byte becomes two, a trailing pair three.
pub open spec fn base64_chars(s: Seq<u8>) -> Seq<char>
    decreases s.len(),
{
    if s.len() == 0 {
        seq![]
    } else if s.len() == 1 {
        let b0 = s[0];
        seq![b64_char(b0 >> 2), b64_char((b0 & 3) << 4)]
    } else if s.len() == 2 {
        let b0 = s[0];
        let b1 = s[1];
        seq![b64_char(b0 >> 2), b64_char(((b0 & 3) << 4) | (b1 >> 4)), b64_char((b1 & 15) << 2)]
    } else {
        let b0 = s[0];
        let b1 = s[1];
        let b2 = s[2];
        seq![
            b64_char(b0 >> 2),
            b64_char(((b0 & 3) << 4) | (b1 >> 4)),
            b64_char(((b1 & 15) << 2) | (b2 >> 6)),
            b64_char(b2 & 63),
        ] + base64_chars(s.skip(3))
    }
}

/// Relies on `base64::engine::general_purpose::STANDARD_NO_PAD.encode`:
/// standard-alphabet Base64 without padding characters.
#[verifier::external_body]
fn b64_encode_nopad(bytes: &Vec<u8>) -> (r: String)
    ensures
        r@ == base64_chars(bytes@),
{
    base64::engine::general_purpose::STANDARD_NO_PAD.encode(bytes.as_slice())
}

/// The value of the `Authorization` header for a password whose UTF-8
/// encoding is `password_bytes`: HTTP Basic credentials with an empty
/// username, Base64-encoded without padding.
pub open spec fn authorization_value(password_bytes: Seq<u8>) -> Seq<char> {
    "Basic "@ + base64_chars(seq![58u8] + password_bytes)
}

/// Builds the `Authorization` header value for the given password.
pub fn build_authorization_value(password: &String) -> (r: String)
    ensures
        r@ == authorization_value(vstd::utf8::encode_utf8(password@)),
{
    let password_bytes: &[u8] = password.as_str().as_bytes();
    let mut input: Vec<u8> = Vec::new();
    input.push(58u8);
    let mut i: usize = 0;
    while i < password_bytes.len()
        invariant
            i <= password_bytes.len(),
            input@ == seq![58u8] + password_bytes@.take(i as int),
        decreases password_bytes.len() - i,
    {
        input.push(password_bytes[i]);
        proof {
            assert(seq![58u8] + password_bytes@.take(i as int + 1) =~= (seq![58u8]
                + password_bytes@.take(i as int)).push(password_bytes@[i as int]));
        }
        i += 1;
    }
    proof {
        assert(password_bytes@.take(password_bytes@.len() as int) =~= password_bytes@);
    }
    let encoded = b64_encode_nopad(&input);
    let mut value = String::from_str("Basic ");
    value.append(encoded.as_str());
    value
}

/// The six-bit group that a standard Base64 character stands for, or 64 for
/// a character outside the alphabet.
pub open spec fn b64_sextet(c: char) -> u8 {
    let u = c as u32;
    if 65 <= u && u <= 90 {
        (u - 65) as u8  // 'A'..'Z'
    } else if 97 <= u && u <= 122 {
        (u - 71) as u8  // 'a'..'z'
    } else if 48 <= u && u <= 57 {
        (u + 4) as u8  // '0'..'9'
    } else if u == 43 {
        62u8  // '+'
    } else if u == 47 {
        63u8  // '/'
    } else {
        64u8
    }
}

/// Decoding of standard unpadded Base64: four characters give three bytes,
/// a trailing three give two, a trailing two give one.
pub open spec fn base64_decode(s: Seq<char>) -> Seq<u8>
    decreases s.len(),
{
    if s.len() < 2 {
        seq![]
    } else if s.len() == 2 {
        let x0 = b64_sextet(s[0]);
        let x1 = b64_sextet(s[1]);
        seq![(x0 << 2) | (x1 >> 4)]
    } else if s.len() == 3 {
        let x0 = b64_sextet(s[0]);
        let x1 = b64_sextet(s[1]);
        let x2 = b64_sextet(s[2]);
        seq![(x0 << 2) | (x1 >> 4), ((x1 & 15) << 4) | (x2 >> 2)]
    } else {
        let x0 = b64_sextet(s[0]);
        let x1 = b64_sextet(s[1]);
        let x2 = b64_sextet(s[2]);
        let x3 = b64_sextet(s[3]);
        seq![
            (x0 << 2) | (x1 >> 4),
            ((x1 & 15) << 4) | (x2 >> 2),
            ((x2 & 3) << 6) | x3,
        ] + base64_decode(s.skip(4))
    }
}

/// Decoding a character of the alphabet gives back the six-bit group it was
/// made from.
proof fn lemma_sextet_of_code(x: u8)
    requires
        x < 64,
    ensures
        b64_sextet(b64_char(x)) == x,
{
    let code = b64_code(x);
    assert(code as u32 == ((code as char) as u32));
}

/// Base64 encoding of a byte sequence decodes to that sequence.
pub proof fn lemma_base64_round_trip(s: Seq<u8>)
    ensures
        base64_decode(base64_chars(s)) == s,
    decreases s.len(),
{
    if s.len() == 0 {
        assert(base64_decode(base64_chars(s)) =~= s);
    } else if s.len() == 1 {
        let b0 = s[0];
        assert(b0 >> 2 < 64 && (b0 & 3) << 4 < 64) by (bit_vector);
        lemma_sextet_of_code(b0 >> 2);
        lemma_sextet_of_code((b0 & 3) << 4);
        assert(((b0 >> 2) << 2) | (((b0 & 3) << 4) >> 4) == b0) by (bit_vector);
        assert(base64_decode(base64_chars(s)) =~= s);
    } else if s.len() == 2 {
        let b0 = s[0];
        let b1 = s[1];
        assert(b0 >> 2 < 64 && (((b0 & 3) << 4) | (b1 >> 4)) < 64 && (b1 & 15) << 2 < 64)
            by (bit_vector);
        lemma_sextet_of_code(b0 >> 2);
        lemma_sextet_of_code(((b0 & 3) << 4) | (b1 >> 4));
        lemma_sextet_of_code((b1 & 15) << 2);
        assert(((b0 >> 2) << 2) | ((((b0 & 3) << 4) | (b1 >> 4)) >> 4) == b0) by (bit_vector);
        assert((((((b0 & 3) << 4) | (b1 >> 4)) & 15) << 4) | (((b1 & 15) << 2) >> 2) == b1)
            by (bit_vector);
        assert(base64_decode(base64_chars(s)) =~= s);
    } else {
        let b0 = s[0];
        let b1 = s[1];
        let b2 = s[2];
        let x0 = b0 >> 2;
        let x1 = ((b0 & 3) << 4) | (b1 >> 4);
        let x2 = ((b1 & 15) << 2) | (b2 >> 6);
        let x3 = b2 & 63;
        assert(x0 < 64 && x1 < 64 && x2 < 64 && x3 < 64) by (bit_vector)
            requires
                x0 == b0 >> 2 && x1 == ((b0 & 3) << 4) | (b1 >> 4) && x2 == ((b1 & 15) << 2) | (
                b2 >> 6) && x3 == b2 & 63,
        ;
        lemma_sextet_of_code(x0);
        lemma_sextet_of_code(x1);
        lemma_sextet_of_code(x2);
        lemma_sextet_of_code(x3);
        let group = seq![b64_char(x0), b64_char(x1), b64_char(x2), b64_char(x3)];
        let chars = base64_chars(s);
        assert(chars == group + base64_chars(s.skip(3)));
        assert(chars.len() >= 4);
        assert(chars.skip(4) =~= base64_chars(s.skip(3)));
        assert(((x0 << 2) | (x1 >> 4)) == b0) by (bit_vector)
            requires
                x0 == b0 >> 2 && x1 == ((b0 & 3) << 4) | (b1 >> 4),
        ;
        assert((((x1 & 15) << 4) | (x2 >> 2)) == b1) by (bit_vector)
            requires
                x1 == ((b0 & 3) << 4) | (b1 >> 4) && x2 == ((b1 & 15) << 2) | (b2 >> 6),
        ;
        assert((((x2 & 3) << 6) | x3) == b2) by (bit_vector)
            requires
                x2 == ((b1 & 15) << 2) | (b2 >> 6) && x3 == b2 & 63,
        ;
        lemma_base64_round_trip(s.skip(3));
        assert(base64_decode(chars) =~= s);
    }
}

/// The credentials a receiver reads out of an `Authorization` header value:
/// after the `Basic ` marker, the Base64-decoded bytes up to the first
/// colon are the username, the bytes after it the password.
pub open spec fn basic_credentials_of(header: Seq<char>) -> Option<(Seq<u8>, Seq<u8>)> {
    if header.len() >= 6 && header.take(6) == "Basic "@ {
        split_at_first_colon(base64_decode(header.skip(6)))
    } else {
        None
    }
}

/// Splits a byte sequence at its first colon, if it has one.
pub open spec fn split_at_first_colon(bytes: Seq<u8>) -> Option<(Seq<u8>, Seq<u8>)>
    decreases bytes.len(),
{
    if bytes.len() == 0 {
        None
    } else if bytes[0] == 58 {
        Some((seq![], bytes.skip(1)))
    } else {
        match split_at_first_colon(bytes.skip(1)) {
            Some(p) => Some((seq![bytes[0]] + p.0, p.1)),
            None => None,
        }
    }
}

/// Round trip of the `Authorization` header: decoding the value built for a
/// password recovers an empty username and the UTF-8 bytes of exactly that
/// password.
pub proof fn lemma_authorization_round_trip(password_bytes: Seq<u8>)
    ensures
        basic_credentials_of(authorization_value(password_bytes)) == Some(
            (Seq::<u8>::empty(), password_bytes),
        ),
{
    let header = authorization_value(password_bytes);
    let prefix = "Basic "@;
    reveal_strlit("Basic ");
    assert(prefix.len() == 6);
    assert(header.take(6) =~= prefix);
    assert(header.skip(6) =~= base64_chars(seq![58u8] + password_bytes));
    lemma_base64_round_trip(seq![58u8] + password_bytes);
    let bytes = seq![58u8] + password_bytes;
    assert(bytes[0] == 58);
    assert(bytes.skip(1) =~= password_bytes);
    assert(split_at_first_colon(bytes) == Some((Seq::<u8>::empty(), password_bytes)));
    assert(basic_credentials_of(header) == Some((Seq::<u8>::empty(), password_bytes)));
}

} // verus!
