use vstd::prelude::*;
use vstd::std_specs::convert::FromSpec;
use vstd::string::{StrSliceExecFns, StringSliceAdditionalSpecFns};
use crate::scale::{encode_bounded_bytes, encoded_bytes};

verus! {

/// The fee asset choice exposed to the caller.
#[derive(Clone, Copy, Debug, PartialEq, Eq, Structural)]
pub enum JsFeeAsset {
    TNKR,
    KSM,
}

/// The fee asset as the on-chain call expects it.
#[derive(Clone, Copy, Debug, PartialEq, Eq, Structural)]
pub enum FeeAsset {
    TNKR,
    KSM,
}

impl core::convert::From<JsFeeAsset> for FeeAsset {
    fn from(value: JsFeeAsset) -> (r: FeeAsset) {
        match value {
            JsFeeAsset::TNKR => FeeAsset::TNKR,
            JsFeeAsset::KSM => FeeAsset::KSM,
        }
    }
}

impl vstd::std_specs::convert::FromSpecImpl<JsFeeAsset> for FeeAsset {
    open spec fn obeys_from_spec() -> bool {
        true
    }

    open spec fn from_spec(v: JsFeeAsset) -> FeeAsset {
        match v {
            JsFeeAsset::TNKR => FeeAsset::TNKR,
            JsFeeAsset::KSM => FeeAsset::KSM,
        }
    }
}

/// One billion: the denominator of a proportion expressed in parts.
pub const PROPORTION_DENOMINATOR: u32 = 1000000000;

/// Relies on sp_arithmetic::per_things::Perbill: `from_parts` clamps its
/// argument to at most one billion and `deconstruct` hands the stored
/// parts back.
#[verifier::external_body]
fn perbill_parts(parts: u32) -> (r: u32)
    ensures
        r == if parts > PROPORTION_DENOMINATOR {
            PROPORTION_DENOMINATOR as int
        } else {
            parts as int
        },
{
    sp_arithmetic::per_things::Perbill::from_parts(parts).deconstruct()
}

/// The structured arguments of a core-creation call, each already in the
/// form the metadata-driven call encoder consumes: the metadata in the
/// chain's canonical binary encoding, the two proportions clamped to
/// parts of a billion, and the fee asset choice.
#[derive(Debug)]
pub struct CoreCallArgs {
    pub metadata_encoded: Vec<u8>,
    pub minimum_support: u32,
    pub required_approval: u32,
    pub fee_asset: FeeAsset,
}

/// Prepares the arguments of a core-creation call: the metadata string's
/// bytes behind their canonical length prefix, each proportion clamped to
/// the fixed denominator, and the fee asset mapped across.
pub fn create_core_args(
    metadata: &str,
    minimum_support: u32,
    required_approval: u32,
    fee_asset: JsFeeAsset,
) -> (r: CoreCallArgs)
    requires
        metadata.spec_bytes().len() <= 0xFFFFFFFF,
    ensures
        r.metadata_encoded@ == encoded_bytes(metadata.spec_bytes()),
        r.minimum_support == if minimum_support > PROPORTION_DENOMINATOR {
            PROPORTION_DENOMINATOR as int
        } else {
            minimum_support as int
        },
        r.required_approval == if required_approval > PROPORTION_DENOMINATOR {
            PROPORTION_DENOMINATOR as int
        } else {
            required_approval as int
        },
        r.fee_asset == FeeAsset::from_spec(fee_asset),
{
    let metadata_bytes = metadata.as_bytes_vec();
    CoreCallArgs {
        metadata_encoded: encode_bounded_bytes(&metadata_bytes),
        minimum_support: perbill_parts(minimum_support),
        required_approval: perbill_parts(required_approval),
        fee_asset: FeeAsset::from(fee_asset),
    }
}

} // verus!
