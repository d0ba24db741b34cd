use vstd::prelude::*;

use crate::gate::{accepts, reject, transition, ActionView, EventView, Lookup, Phase, Rejection};
use crate::identity::{all_white, trimmed};

verus! {

/// How one request ends: handed on, or answered with a rejection.
pub enum Verdict {
    Forwarded,
    Rejected(Rejection),
}

/// How a request with `header`, seen where a registry handle is reachable or
/// not, ends when the registry would answer `answer` to a query.
pub open spec fn finish(header: Option<Seq<char>>, registry: bool, answer: Lookup) -> Verdict {
    let first = transition(Phase::Start, EventView::Arrived { header, registry });
    let last = if first.0 == Phase::Awaiting {
        transition(Phase::Awaiting, EventView::Answered(answer))
    } else {
        first
    };
    match last.0 {
        Phase::Rejected(r) => Verdict::Rejected(r),
        _ => Verdict::Forwarded,
    }
}

/// A finished request expects no further event: the gatekeeper never asks
/// the registry again, nor forwards a second time, once a request is done.
pub proof fn lemma_finished_phases_expect_nothing(phase: Phase, event: EventView)
    requires
        phase == Phase::Forwarded || phase is Rejected,
    ensures
        !accepts(phase, event),
{
}

/// A request whose identity header is absent, or white space throughout, is
/// rejected at once with 401 "Missing or invalid X-App-ID", and the registry
/// is never queried.
pub proof fn lemma_blank_header_never_queries(header: Option<Seq<char>>, registry: bool)
    requires
        header is None || all_white(header->Some_0),
    ensures
        transition(Phase::Start, EventView::Arrived { header, registry }) == reject(
            Rejection::MissingIdentity,
        ),
        Rejection::MissingIdentity.spec_status() == 401,
        Rejection::MissingIdentity.spec_reason() == "Missing or invalid X-App-ID"@,
{
}

/// A request with a non-blank identity that the registry does not hold (it
/// counts no record of it) is rejected with 401 "Unregistered App ID", after
/// the registry was asked about the trimmed identity.
pub proof fn lemma_unregistered_identity_rejected(h: Seq<char>)
    requires
        !all_white(h),
    ensures
        transition(Phase::Start, EventView::Arrived { header: Some(h), registry: true }) == (
        Phase::Awaiting, ActionView::Query(trimmed(h))),
        transition(Phase::Awaiting, EventView::Answered(Lookup::Count(0))) == reject(
            Rejection::UnregisteredIdentity,
        ),
        finish(Some(h), true, Lookup::Count(0)) == Verdict::Rejected(
            Rejection::UnregisteredIdentity,
        ),
        Rejection::UnregisteredIdentity.spec_status() == 401,
        Rejection::UnregisteredIdentity.spec_reason() == "Unregistered App ID"@,
{
}

/// A request with a non-blank identity that the registry holds is forwarded
/// to the wrapped handler, once: the forwarded phase expects nothing more.
pub proof fn lemma_registered_identity_forwarded(h: Seq<char>, count: i64)
    requires
        !all_white(h),
        count > 0,
    ensures
        transition(Phase::Start, EventView::Arrived { header: Some(h), registry: true }) == (
        Phase::Awaiting, ActionView::Query(trimmed(h))),
        transition(Phase::Awaiting, EventView::Answered(Lookup::Count(count))) == (
        Phase::Forwarded, ActionView::Forward),
        finish(Some(h), true, Lookup::Count(count)) == Verdict::Forwarded,
        forall|e: EventView| !accepts(Phase::Forwarded, e),
{
}

/// Where no registry handle is reachable, a request that does carry an
/// identity is rejected with 500 "Missing DB pool", and the registry is never
/// queried.
pub proof fn lemma_missing_registry_never_queries(h: Seq<char>)
    requires
        !all_white(h),
    ensures
        transition(Phase::Start, EventView::Arrived { header: Some(h), registry: false })
            == reject(Rejection::MissingRegistry),
        Rejection::MissingRegistry.spec_status() == 500,
        Rejection::MissingRegistry.spec_reason() == "Missing DB pool"@,
{
}

/// A failed registry query is answered as an unknown identity would be: 401
/// "Unregistered App ID".
pub proof fn lemma_failed_query_is_unregistered(h: Seq<char>)
    requires
        !all_white(h),
    ensures
        transition(Phase::Awaiting, EventView::Answered(Lookup::Failed)) == reject(
            Rejection::UnregisteredIdentity,
        ),
        finish(Some(h), true, Lookup::Failed) == finish(Some(h), true, Lookup::Count(0)),
        finish(Some(h), true, Lookup::Failed) == Verdict::Rejected(
            Rejection::UnregisteredIdentity,
        ),
{
}

/// The same request against a registry that answers the same way ends the
/// same way: the decision keeps no state from one request to the next and
/// depends on whether the identity is held, not on how many records hold it.
pub proof fn lemma_decision_repeatable(
    header: Option<Seq<char>>,
    registry: bool,
    first: Lookup,
    again: Lookup,
)
    requires
        first.grants() == again.grants(),
    ensures
        finish(header, registry, first) == finish(header, registry, again),
{
}

} // verus!
