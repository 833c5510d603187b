use vstd::prelude::*;
use vstd::string::StrSliceExecFns;
use crate::errors::SaturnError;
use crate::hexfmt::{bytes_of_hex, hex_chars, hex_decode, is_hex_seq, lemma_hex_round_trip};

verus! {

/// The structured value an external signer resolves to: exactly one
/// field, the hex signature string behind a two-character marker.
#[derive(Debug)]
pub struct SignatureResponse {
    pub signature: String,
}

/// A decoded multi-scheme signature: the scheme is read off the decoded
/// bytes themselves, never assumed.
#[derive(Debug)]
pub enum MultiSignature {
    Ed25519(Vec<u8>),
    Sr25519(Vec<u8>),
    Ecdsa(Vec<u8>),
}

impl MultiSignature {
    /// The scheme tag byte this variant decodes from.
    pub open spec fn tag(self) -> int {
        match self {
            MultiSignature::Ed25519(_) => 0,
            MultiSignature::Sr25519(_) => 1,
            MultiSignature::Ecdsa(_) => 2,
        }
    }

    /// The raw signature bytes of the scheme.
    pub open spec fn body(self) -> Seq<u8> {
        match self {
            MultiSignature::Ed25519(v) => v@,
            MultiSignature::Sr25519(v) => v@,
            MultiSignature::Ecdsa(v) => v@,
        }
    }

    /// Shape invariant: each scheme carries its fixed signature width.
    pub open spec fn wf(self) -> bool {
        self.body().len() == sig_body_len(self.tag())
    }
}

/// The signature width of a scheme tag.
pub open spec fn sig_body_len(tag: int) -> int {
    if tag == 2 {
        65
    } else {
        64
    }
}

/// Whether a byte sequence decodes as a multi-scheme signature: a known
/// scheme tag followed by at least that scheme's width of bytes (trailing
/// bytes are ignored, as the canonical decoder ignores them).
pub open spec fn sig_decodable(b: Seq<u8>) -> bool {
    b.len() >= 1 && b[0] <= 2 && b.len() >= 1 + sig_body_len(b[0] as int)
}

fn bytes_range(v: &Vec<u8>, from: usize, to: usize) -> (r: Vec<u8>)
    requires
        from <= to <= v@.len(),
    ensures
        r@ == v@.subrange(from as int, to as int),
{
    let mut out: Vec<u8> = Vec::new();
    let mut i: usize = from;
    while i < to
        invariant
            from <= i <= to <= v@.len(),
            out@ == v@.subrange(from as int, i as int),
        decreases to - i,
    {
        out.push(v[i]);
        assert(v@.subrange(from as int, i + 1 as int) =~= v@.subrange(from as int, i as int)
            + seq![v@[i as int]]);
        i = i + 1;
    }
    out
}

/// Decodes the byte form of a multi-scheme signature: the first byte
/// names the scheme, the scheme's width of bytes follows, and anything
/// beyond is ignored.  Every failure is a signature format error.
pub fn decode_multi_signature(bytes: &Vec<u8>) -> (r: Result<MultiSignature, SaturnError>)
    ensures
        (r is Ok) == sig_decodable(bytes@),
        r is Ok ==> (r->Ok_0).wf() && (r->Ok_0).tag() == bytes@[0] as int && (r->Ok_0).body()
            == bytes@.subrange(1, 1 + sig_body_len(bytes@[0] as int)),
        r is Err ==> r->Err_0 == SaturnError::SignatureFormat,
{
    if bytes.len() == 0 {
        return Err(SaturnError::SignatureFormat);
    }
    let tag = bytes[0];
    if tag == 0 {
        if bytes.len() < 65 {
            return Err(SaturnError::SignatureFormat);
        }
        Ok(MultiSignature::Ed25519(bytes_range(bytes, 1, 65)))
    } else if tag == 1 {
        if bytes.len() < 65 {
            return Err(SaturnError::SignatureFormat);
        }
        Ok(MultiSignature::Sr25519(bytes_range(bytes, 1, 65)))
    } else if tag == 2 {
        if bytes.len() < 66 {
            return Err(SaturnError::SignatureFormat);
        }
        Ok(MultiSignature::Ecdsa(bytes_range(bytes, 1, 66)))
    } else {
        Err(SaturnError::SignatureFormat)
    }
}

/// Whether a signature response string decodes: after the two-character
/// marker is stripped, the rest must be even-length hex denoting a
/// decodable multi-scheme signature.
pub open spec fn response_decodes(s: Seq<char>) -> bool {
    s.len() >= 2 && is_hex_seq(s.skip(2)) && s.skip(2).len() % 2 == 0 && sig_decodable(
        bytes_of_hex(s.skip(2)),
    )
}

/// Round trip: a signature of a supported shape, rendered as hex behind
/// the two-character marker, always decodes back to the very same bytes;
/// so whatever shape of signature a wallet hands over survives the trip
/// through its textual response form unchanged.
pub proof fn lemma_response_round_trip(b: Seq<u8>)
    requires
        sig_decodable(b),
    ensures
        response_decodes("0x"@ + hex_chars(b)),
        bytes_of_hex(("0x"@ + hex_chars(b)).skip(2)) == b,
{
    reveal_strlit("0x");
    lemma_hex_round_trip(b);
    assert(("0x"@ + hex_chars(b)).skip(2) =~= hex_chars(b));
}

/// Decodes a signature response: strips the fixed two-character marker,
/// hex-decodes the rest, and reads the scheme off the decoded bytes.  The
/// contract says exactly when this succeeds — for any even-length hex
/// string of a supported signature shape — and that odd-length or
/// non-hex input fails with a signature format error.  No cryptographic
/// check happens here; validity is the chain's to judge.
pub fn decode_signature_response(resp: &SignatureResponse) -> (r: Result<
    MultiSignature,
    SaturnError,
>)
    ensures
        (r is Ok) == response_decodes(resp.signature@),
        r is Ok ==> (r->Ok_0).wf() && (r->Ok_0).tag() == bytes_of_hex(
            resp.signature@.skip(2),
        )[0] as int && (r->Ok_0).body() == bytes_of_hex(resp.signature@.skip(2)).subrange(
            1,
            1 + sig_body_len(bytes_of_hex(resp.signature@.skip(2))[0] as int),
        ),
        r is Err ==> r->Err_0 == SaturnError::SignatureFormat,
{
    let len = resp.signature.as_str().unicode_len();
    if len < 2 {
        return Err(SaturnError::SignatureFormat);
    }
    let stripped = resp.signature.as_str().substring_char(2, len);
    assert(stripped@ =~= resp.signature@.skip(2));
    match hex_decode(stripped) {
        None => Err(SaturnError::SignatureFormat),
        Some(bytes) => decode_multi_signature(&bytes),
    }
}

} // verus!
