use vstd::prelude::*;
use vstd::string::StringExecFns;
use crate::account::{is_base58_seq, json_safe_seq, AccountId};
use crate::balance::{dec_chars, u128_to_decimal};
use crate::hexfmt::{hex_chars, hex_encode};
use crate::scale::{be_u32, be_u64, compact_u32, era_immortal, era_immortal_encoded, tip_zero_encoded, u32_be_bytes, u64_be_bytes};

verus! {

/// A byte sequence rendered as lowercase hex behind the `0x` marker, the
/// form in which every binary field of the signing payload travels.
pub open spec fn hex_prefixed(b: Seq<u8>) -> Seq<char> {
    "0x"@ + hex_chars(b)
}

/// Renders bytes as a `0x`-prefixed lowercase hex string.
pub fn hex_with_prefix(b: &Vec<u8>) -> (r: String)
    ensures
        r@ == hex_prefixed(b@),
{
    let mut s = String::from_str("0x");
    let h = hex_encode(b);
    s.append(h.as_str());
    s
}

/// The views of a sequence of strings.
pub open spec fn str_views(s: Seq<String>) -> Seq<Seq<char>> {
    Seq::new(s.len(), |i: int| s[i]@)
}

/// The signing payload's fields, each already in the exact textual form
/// the external signer receives.
pub struct PayloadFields {
    pub address: Seq<char>,
    pub block_hash: Seq<char>,
    pub block_number: Seq<char>,
    pub era: Seq<char>,
    pub genesis_hash: Seq<char>,
    pub method: Seq<char>,
    pub nonce: Seq<char>,
    pub signed_extensions: Seq<Seq<char>>,
    pub spec_version: Seq<char>,
    pub tip: Seq<char>,
    pub transaction_version: Seq<char>,
    pub version: Seq<char>,
}

/// The canonical field values of an immortal signing payload.  The
/// asymmetry is deliberate and load-bearing: the runtime versions and the
/// nonce are raw big-endian bytes in hex, while the era and the tip carry
/// the chain's canonical binary encoding; the call bytes pass through
/// unchanged behind the hex marker.
pub open spec fn payload_fields(
    genesis: Seq<u8>,
    spec_version: u32,
    transaction_version: u32,
    address: Seq<char>,
    nonce: u64,
    call: Seq<u8>,
    exts: Seq<Seq<char>>,
) -> PayloadFields {
    PayloadFields {
        address: address,
        block_hash: hex_prefixed(genesis),
        block_number: hex_prefixed(be_u32(0)),
        era: hex_prefixed(era_immortal()),
        genesis_hash: hex_prefixed(genesis),
        method: hex_prefixed(call),
        nonce: hex_prefixed(be_u64(nonce as int)),
        signed_extensions: exts,
        spec_version: hex_prefixed(be_u32(spec_version as int)),
        tip: hex_prefixed(compact_u32(0)),
        transaction_version: hex_prefixed(be_u32(transaction_version as int)),
        version: dec_chars(4),
    }
}

/// The JSON array of extension identifiers up to (excluding) index `i`,
/// comma-separated, each in quotes.
pub open spec fn exts_upto(exts: Seq<Seq<char>>, i: int) -> Seq<char>
    decreases i,
{
    if i <= 0 {
        Seq::empty()
    } else if i == 1 {
        "\""@ + exts[0] + "\""@
    } else {
        exts_upto(exts, i - 1) + ",\""@ + exts[i - 1] + "\""@
    }
}

/// The serialized signing payload: one JSON object, keys in the order the
/// serializer emits them (alphabetical), values exactly the given fields.
pub open spec fn render_payload(f: PayloadFields) -> Seq<char> {
    "{\"address\":\""@ + f.address + "\",\"blockHash\":\""@ + f.block_hash
        + "\",\"blockNumber\":\""@ + f.block_number + "\",\"era\":\""@ + f.era
        + "\",\"genesisHash\":\""@ + f.genesis_hash + "\",\"method\":\""@ + f.method
        + "\",\"nonce\":\""@ + f.nonce + "\",\"signedExtensions\":["@ + exts_upto(
        f.signed_extensions,
        f.signed_extensions.len() as int,
    ) + "],\"specVersion\":\""@ + f.spec_version + "\",\"tip\":\""@ + f.tip
        + "\",\"transactionVersion\":\""@ + f.transaction_version + "\",\"version\":"@ + f.version
        + "}"@
}

/// The chain parameters a payload is derived from, fetched once per
/// submission attempt through read-only queries.
#[derive(Debug)]
pub struct ChainProperties {
    /// The chain's genesis hash.
    pub genesis_hash: Vec<u8>,
    /// The runtime's reported spec version.
    pub spec_version: u32,
    /// The runtime's reported transaction version.
    pub transaction_version: u32,
    /// The signed-extension identifiers, in the exact order the chain's
    /// current metadata declares them.
    pub signed_extensions: Vec<String>,
}

impl ChainProperties {
    /// Shape invariant: the genesis hash has the width of a block hash and
    /// every extension identifier can stand in a JSON string unescaped.
    pub open spec fn wf(self) -> bool {
        self.genesis_hash@.len() == 32 && forall|i: int|
            0 <= i < self.signed_extensions@.len() ==> json_safe_seq(
                #[trigger] self.signed_extensions@[i]@,
            )
    }
}

/// Accepts chain parameters exactly when they are well-formed: a 32-byte
/// genesis hash and JSON-safe extension identifiers.
pub fn chain_properties(
    genesis_hash: Vec<u8>,
    spec_version: u32,
    transaction_version: u32,
    signed_extensions: Vec<String>,
) -> (r: Option<ChainProperties>)
    ensures
        (r is Some) == (genesis_hash@.len() == 32 && (forall|i: int|
            0 <= i < signed_extensions@.len() ==> json_safe_seq(
                #[trigger] signed_extensions@[i]@,
            ))),
        r is Some ==> (r->Some_0).wf() && (r->Some_0).genesis_hash == genesis_hash && (
        r->Some_0).spec_version == spec_version && (r->Some_0).transaction_version
            == transaction_version && (r->Some_0).signed_extensions == signed_extensions,
{
    if genesis_hash.len() != 32 {
        return None;
    }
    let mut i: usize = 0;
    while i < signed_extensions.len()
        invariant
            i <= signed_extensions@.len(),
            forall|j: int| 0 <= j < i ==> json_safe_seq(#[trigger] signed_extensions@[j]@),
        decreases signed_extensions@.len() - i,
    {
        if !crate::account::is_json_safe_str(signed_extensions[i].as_str()) {
            assert(!json_safe_seq(signed_extensions@[i as int]@));
            return None;
        }
        i = i + 1;
    }
    Some(
        ChainProperties {
            genesis_hash,
            spec_version,
            transaction_version,
            signed_extensions,
        },
    )
}

fn clone_bytes(v: &Vec<u8>) -> (r: Vec<u8>)
    ensures
        r@ == v@,
{
    let mut out: Vec<u8> = Vec::new();
    let mut i: usize = 0;
    while i < v.len()
        invariant
            i <= v@.len(),
            out@ == v@.take(i as int),
        decreases v@.len() - i,
    {
        out.push(v[i]);
        assert(v@.take(i + 1 as int) =~= v@.take(i as int) + seq![v@[i as int]]);
        i = i + 1;
    }
    assert(v@.take(v@.len() as int) =~= v@);
    out
}

fn clone_strings(v: &Vec<String>) -> (r: Vec<String>)
    ensures
        r@ == v@,
{
    let mut out: Vec<String> = Vec::new();
    let mut i: usize = 0;
    while i < v.len()
        invariant
            i <= v@.len(),
            out@ == v@.take(i as int),
        decreases v@.len() - i,
    {
        out.push(v[i].clone());
        assert(v@.take(i + 1 as int) =~= v@.take(i as int) + seq![v@[i as int]]);
        i = i + 1;
    }
    assert(v@.take(v@.len() as int) =~= v@);
    out
}

/// The structured record an external signer must inspect and sign,
/// derived once per submission attempt and discarded after the signature
/// is obtained.
#[derive(Debug)]
pub struct SigningPayload {
    /// The signer's address, verbatim.
    pub address: String,
    /// The mortality checkpoint: for an immortal payload, the genesis hash.
    pub block_hash: Vec<u8>,
    /// The checkpoint block number; zero for an immortal payload.
    pub block_number: u32,
    /// The encoded transaction lifetime marker.
    pub era: Vec<u8>,
    /// The chain's genesis hash.
    pub genesis_hash: Vec<u8>,
    /// The encoded call bytes, passed through unchanged.
    pub method: Vec<u8>,
    /// The account nonce fetched immediately before this payload.
    pub nonce: u64,
    /// The chain's signed-extension identifiers, order preserved.
    pub signed_extensions: Vec<String>,
    /// The runtime's spec version.
    pub spec_version: u32,
    /// The encoded tip; this pipeline never tips.
    pub tip: Vec<u8>,
    /// The runtime's transaction version.
    pub transaction_version: u32,
    /// The unsigned-payload format version.
    pub version: u32,
}

impl SigningPayload {
    /// Shape invariant: the payload is immortal (genesis checkpoint, zero
    /// block number, immortal era), untipped, at format version four, and
    /// its textual fields are safe to embed in JSON.
    pub open spec fn wf(self) -> bool {
        self.block_hash@ == self.genesis_hash@ && self.block_number == 0 && self.era@
            == era_immortal() && self.tip@ == compact_u32(0) && self.version == 4
            && self.genesis_hash@.len() == 32 && is_base58_seq(self.address@) && forall|i: int|
            0 <= i < self.signed_extensions@.len() ==> json_safe_seq(
                #[trigger] self.signed_extensions@[i]@,
            )
    }

    /// The payload's fields in their exact textual form.
    pub open spec fn fields(self) -> PayloadFields {
        payload_fields(
            self.genesis_hash@,
            self.spec_version,
            self.transaction_version,
            self.address@,
            self.nonce,
            self.method@,
            str_views(self.signed_extensions@),
        )
    }

    /// Derives the signing payload from the chain parameters, the signer's
    /// account, the freshly fetched nonce and the encoded call.  Every
    /// input reappears verbatim; nothing is recomputed later.
    pub fn new(chain: &ChainProperties, account: &AccountId, nonce: u64, call_data: &Vec<u8>) -> (r:
        SigningPayload)
        requires
            chain.wf(),
            account.wf(),
        ensures
            r.wf(),
            r.fields() == payload_fields(
                chain.genesis_hash@,
                chain.spec_version,
                chain.transaction_version,
                account.display@,
                nonce,
                call_data@,
                str_views(chain.signed_extensions@),
            ),
            r.nonce == nonce,
            r.method@ == call_data@,
            r.address@ == account.display@,
    {
        SigningPayload {
            address: account.display.clone(),
            block_hash: clone_bytes(&chain.genesis_hash),
            block_number: 0,
            era: era_immortal_encoded(),
            genesis_hash: clone_bytes(&chain.genesis_hash),
            method: clone_bytes(call_data),
            nonce,
            signed_extensions: clone_strings(&chain.signed_extensions),
            spec_version: chain.spec_version,
            tip: tip_zero_encoded(),
            transaction_version: chain.transaction_version,
            version: 4,
        }
    }

    /// Serializes the payload to the single JSON object handed to the
    /// external signer, field for field as `render_payload` states.
    pub fn to_json(&self) -> (r: String)
        requires
            self.wf(),
        ensures
            r@ == render_payload(self.fields()),
    {
        let ghost f = self.fields();
        let mut out = String::from_str("{\"address\":\"");
        out.append(self.address.as_str());
        out.append("\",\"blockHash\":\"");
        let block_hash_hex = hex_with_prefix(&self.block_hash);
        out.append(block_hash_hex.as_str());
        out.append("\",\"blockNumber\":\"");
        let block_number_bytes = u32_be_bytes(self.block_number);
        let block_number_hex = hex_with_prefix(&block_number_bytes);
        out.append(block_number_hex.as_str());
        out.append("\",\"era\":\"");
        let era_hex = hex_with_prefix(&self.era);
        out.append(era_hex.as_str());
        out.append("\",\"genesisHash\":\"");
        let genesis_hex = hex_with_prefix(&self.genesis_hash);
        out.append(genesis_hex.as_str());
        out.append("\",\"method\":\"");
        let method_hex = hex_with_prefix(&self.method);
        out.append(method_hex.as_str());
        out.append("\",\"nonce\":\"");
        let nonce_bytes = u64_be_bytes(self.nonce);
        let nonce_hex = hex_with_prefix(&nonce_bytes);
        out.append(nonce_hex.as_str());
        out.append("\",\"signedExtensions\":[");
        let ghost pre = out@;
        let mut i: usize = 0;
        while i < self.signed_extensions.len()
            invariant
                i <= self.signed_extensions@.len(),
                out@ == pre + exts_upto(str_views(self.signed_extensions@), i as int),
            decreases self.signed_extensions@.len() - i,
        {
            if i == 0 {
                out.append("\"");
            } else {
                out.append(",\"");
            }
            out.append(self.signed_extensions[i].as_str());
            out.append("\"");
            assert(out@ =~= pre + exts_upto(str_views(self.signed_extensions@), i + 1 as int));
            i = i + 1;
        }
        assert(out@ == pre + exts_upto(
            str_views(self.signed_extensions@),
            self.signed_extensions@.len() as int,
        ));
        out.append("],\"specVersion\":\"");
        let spec_version_bytes = u32_be_bytes(self.spec_version);
        let spec_version_hex = hex_with_prefix(&spec_version_bytes);
        out.append(spec_version_hex.as_str());
        out.append("\",\"tip\":\"");
        let tip_hex = hex_with_prefix(&self.tip);
        out.append(tip_hex.as_str());
        out.append("\",\"transactionVersion\":\"");
        let transaction_version_bytes = u32_be_bytes(self.transaction_version);
        let transaction_version_hex = hex_with_prefix(&transaction_version_bytes);
        out.append(transaction_version_hex.as_str());
        out.append("\",\"version\":");
        let version_digits = u128_to_decimal(self.version as u128);
        out.append(version_digits.as_str());
        out.append("}");
        assert(out@ =~= render_payload(f));
        out
    }
}

/// Derives and serializes the signing payload in one step: the exact JSON
/// text the external signer receives for the given chain parameters,
/// account, nonce and call bytes.
pub fn generate_payload(
    chain: &ChainProperties,
    account: &AccountId,
    nonce: u64,
    call_data: &Vec<u8>,
) -> (r: String)
    requires
        chain.wf(),
        account.wf(),
    ensures
        r@ == render_payload(
            payload_fields(
                chain.genesis_hash@,
                chain.spec_version,
                chain.transaction_version,
                account.display@,
                nonce,
                call_data@,
                str_views(chain.signed_extensions@),
            ),
        ),
{
    let payload = SigningPayload::new(chain, account, nonce, call_data);
    payload.to_json()
}

/// The payload presents its inputs verbatim in their specified encodings:
/// the call bytes pass through unchanged behind the hex marker, the nonce
/// is its raw eight big-endian bytes in hex, the runtime versions their
/// raw four big-endian bytes in hex, and the address appears untouched.
pub proof fn lemma_payload_field_encodings(
    genesis: Seq<u8>,
    spec_version: u32,
    transaction_version: u32,
    address: Seq<char>,
    nonce: u64,
    call: Seq<u8>,
    exts: Seq<Seq<char>>,
)
    ensures
        payload_fields(genesis, spec_version, transaction_version, address, nonce, call, exts).method
            == hex_prefixed(call),
        payload_fields(genesis, spec_version, transaction_version, address, nonce, call, exts).nonce
            == hex_prefixed(be_u64(nonce as int)),
        payload_fields(
            genesis,
            spec_version,
            transaction_version,
            address,
            nonce,
            call,
            exts,
        ).address == address,
        payload_fields(
            genesis,
            spec_version,
            transaction_version,
            address,
            nonce,
            call,
            exts,
        ).spec_version == hex_prefixed(be_u32(spec_version as int)),
        payload_fields(
            genesis,
            spec_version,
            transaction_version,
            address,
            nonce,
            call,
            exts,
        ).transaction_version == hex_prefixed(be_u32(transaction_version as int)),
{
}

/// The signed-extension identifier list of the payload equals, element for
/// element and in order, the list the chain's metadata declares.
pub proof fn lemma_payload_extension_order(
    genesis: Seq<u8>,
    spec_version: u32,
    transaction_version: u32,
    address: Seq<char>,
    nonce: u64,
    call: Seq<u8>,
    exts: Seq<Seq<char>>,
)
    ensures
        payload_fields(
            genesis,
            spec_version,
            transaction_version,
            address,
            nonce,
            call,
            exts,
        ).signed_extensions == exts,
{
}

} // verus!
