//! Request gatekeeping for a small data service: callers name themselves in
//! the `X-App-ID` header and only identities found in the registry reach the
//! wrapped handlers.
//!
//! It also settles what a request for one stored user-data record answers.
//!
//! The library holds the decisions. The host server performs the registry
//! query and the call of the wrapped handler, feeding each outcome back in.

mod gate;
mod identity;
mod laws;
mod records;
mod status;

pub use gate::{
    accepts, lacks_identity, reject, step, transition, Action, ActionView, Event, EventView,
    Lookup, PermissionMiddleware, PermissionMiddlewareMiddleware, Phase, Rejection,
};
pub use identity::{
    all_white, is_blank, is_solid_end, is_solid_start, solid_end, solid_start, trim, trimmed,
    white_space,
};
pub use laws::{
    finish, lemma_blank_header_never_queries, lemma_decision_repeatable,
    lemma_failed_query_is_unregistered, lemma_finished_phases_expect_nothing,
    lemma_missing_registry_never_queries, lemma_registered_identity_forwarded,
    lemma_unregistered_identity_rejected, Verdict,
};
pub use records::{
    read_record, record_reply, settle_record, settled, uuid_parsed, RecordReply, StoredRecord,
};
pub use status::{status_report, StatusReport};
