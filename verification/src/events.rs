use vstd::prelude::*;
use vstd::string::StringExecFns;
use crate::errors::SaturnError;

verus! {

/// One event emitted during the execution of the block that included the
/// transaction, named by its pallet and its variant.
#[derive(Clone, Debug)]
pub struct ChainEvent {
    pub pallet: String,
    pub variant: String,
}

/// The outcome of a successful core creation, read from the domain event.
#[derive(Clone, Copy, Debug)]
pub struct CoreCreationResult {
    pub core_id: u32,
}

/// Whether an event has the given pallet and variant names.
pub open spec fn is_named(e: ChainEvent, pallet: Seq<char>, variant: Seq<char>) -> bool {
    e.pallet@ == pallet && e.variant@ == variant
}

/// Whether some event in the list has the given names.
pub open spec fn has_named(events: Seq<ChainEvent>, pallet: Seq<char>, variant: Seq<char>) -> bool {
    exists|i: int| 0 <= i < events.len() && is_named(#[trigger] events[i], pallet, variant)
}

/// The pallet of the domain-specific creation event.
pub open spec fn domain_pallet() -> Seq<char> {
    "INV4"@
}

/// The variant of the domain-specific creation event.
pub open spec fn domain_variant() -> Seq<char> {
    "CoreCreated"@
}

/// The pallet of the generic success marker event.
pub open spec fn success_pallet() -> Seq<char> {
    "System"@
}

/// The variant of the generic success marker event.
pub open spec fn success_variant() -> Seq<char> {
    "ExtrinsicSuccess"@
}

fn find_named(events: &Vec<ChainEvent>, pallet: &String, variant: &String) -> (r: Option<usize>)
    ensures
        (r is Some) == has_named(events@, pallet@, variant@),
        r is Some ==> {
            let i = r->Some_0 as int;
            0 <= i < events@.len() && is_named(events@[i], pallet@, variant@) && forall|j: int|
                0 <= j < i ==> !is_named(#[trigger] events@[j], pallet@, variant@)
        },
{
    let mut i: usize = 0;
    while i < events.len()
        invariant
            i <= events@.len(),
            forall|j: int| 0 <= j < i ==> !is_named(#[trigger] events@[j], pallet@, variant@),
        decreases events@.len() - i,
    {
        if events[i].pallet == *pallet && events[i].variant == *variant {
            assert(is_named(events@[i as int], pallet@, variant@));
            return Some(i);
        }
        i = i + 1;
    }
    None
}

/// Scans the events of the block that included the transaction and
/// extracts the outcome.  The domain-specific creation event decides
/// first: if it is absent, the outcome is not found even when the
/// extrinsic succeeded generically.  A domain event without the generic
/// success marker is a protocol invariant violation.  On success, the
/// first generic success marker event is returned.
pub fn extract_outcome(events: &Vec<ChainEvent>) -> (r: Result<ChainEvent, SaturnError>)
    ensures
        (r is Ok) == (has_named(events@, domain_pallet(), domain_variant()) && has_named(
            events@,
            success_pallet(),
            success_variant(),
        )),
        r is Ok ==> exists|i: int|
            0 <= i < events@.len() && is_named(
                #[trigger] events@[i],
                success_pallet(),
                success_variant(),
            ) && r->Ok_0 == events@[i] && (forall|j: int|
                0 <= j < i ==> !is_named(#[trigger] events@[j], success_pallet(), success_variant())),
        !has_named(events@, domain_pallet(), domain_variant()) ==> r is Err && r->Err_0
            == SaturnError::OutcomeNotFound,
        has_named(events@, domain_pallet(), domain_variant()) && !has_named(
            events@,
            success_pallet(),
            success_variant(),
        ) ==> r is Err && r->Err_0 == SaturnError::ProtocolViolation,
{
    let domain_pallet_name = String::from_str("INV4");
    let domain_variant_name = String::from_str("CoreCreated");
    let success_pallet_name = String::from_str("System");
    let success_variant_name = String::from_str("ExtrinsicSuccess");
    let domain = find_named(events, &domain_pallet_name, &domain_variant_name);
    if domain.is_none() {
        return Err(SaturnError::OutcomeNotFound);
    }
    match find_named(events, &success_pallet_name, &success_variant_name) {
        None => Err(SaturnError::ProtocolViolation),
        Some(i) => Ok(
            ChainEvent { pallet: events[i].pallet.clone(), variant: events[i].variant.clone() },
        ),
    }
}

} // verus!
