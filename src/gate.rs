use std::sync::Arc;
use vstd::prelude::*;

use crate::identity::{all_white, is_blank, trim, trimmed};

verus! {

/// Why the gatekeeper turned a request away.
#[derive(Clone, Copy, Debug, PartialEq, Eq, Structural)]
pub enum Rejection {
    /// The `X-App-ID` header is absent, not text, or blank once trimmed.
    MissingIdentity,
    /// No registry handle can be reached: the deployment is misconfigured.
    MissingRegistry,
    /// The registry does not hold the identity, or the query failed.
    UnregisteredIdentity,
}

impl Rejection {
    /// The HTTP status code of the rejection.
    pub open spec fn spec_status(self) -> u16 {
        match self {
            Rejection::MissingIdentity => 401,
            Rejection::MissingRegistry => 500,
            Rejection::UnregisteredIdentity => 401,
        }
    }

    /// The plain-text body of the rejection.
    pub open spec fn spec_reason(self) -> Seq<char> {
        match self {
            Rejection::MissingIdentity => "Missing or invalid X-App-ID"@,
            Rejection::MissingRegistry => "Missing DB pool"@,
            Rejection::UnregisteredIdentity => "Unregistered App ID"@,
        }
    }

    pub fn status(&self) -> (r: u16)
        ensures
            r == self.spec_status(),
    {
        match self {
            Rejection::MissingIdentity => 401,
            Rejection::MissingRegistry => 500,
            Rejection::UnregisteredIdentity => 401,
        }
    }

    pub fn reason(&self) -> (r: &'static str)
        ensures
            r@ == self.spec_reason(),
    {
        match self {
            Rejection::MissingIdentity => "Missing or invalid X-App-ID",
            Rejection::MissingRegistry => "Missing DB pool",
            Rejection::UnregisteredIdentity => "Unregistered App ID",
        }
    }
}

/// The registry's answer to "how many records hold this identity?".
#[derive(Clone, Copy, Debug, PartialEq, Eq, Structural)]
pub enum Lookup {
    /// The query succeeded with this count.
    Count(i64),
    /// The query failed: no connection, a timeout, a malformed result.
    Failed,
}

impl Lookup {
    /// The answer admits the identity.
    pub open spec fn grants(self) -> bool {
        match self {
            Lookup::Count(c) => c > 0,
            Lookup::Failed => false,
        }
    }
}

/// Where one request stands in the gatekeeper.
#[derive(Clone, Copy, Debug, PartialEq, Eq, Structural)]
pub enum Phase {
    /// Nothing has been decided yet.
    Start,
    /// The registry has been asked and has not answered.
    Awaiting,
    /// The request went on to the wrapped handler.
    Forwarded,
    /// The request was turned away.
    Rejected(Rejection),
}

/// What the host reports to the gatekeeper.
#[derive(Clone, Debug)]
pub enum Event {
    /// A request arrived. `header` is its `X-App-ID` header as text (`None`
    /// where it is absent or not text); `registry` tells whether a registry
    /// handle is reachable.
    Arrived { header: Option<String>, registry: bool },
    /// The registry answered the query that the gatekeeper asked for.
    Answered(Lookup),
}

/// What the gatekeeper asks the host to do next.
#[derive(Clone, Debug)]
pub enum Action {
    /// Ask the registry whether this identity exists (exact match).
    Query(String),
    /// Hand the unmodified request to the wrapped handler and return its
    /// response as it is.
    Forward,
    /// Answer the request with this rejection.
    Reject(Rejection),
}

/// An [`Event`] with its text as a sequence of characters.
pub enum EventView {
    Arrived { header: Option<Seq<char>>, registry: bool },
    Answered(Lookup),
}

/// An [`Action`] with its text as a sequence of characters.
pub enum ActionView {
    Query(Seq<char>),
    Forward,
    Reject(Rejection),
}

impl View for Event {
    type V = EventView;

    open spec fn view(&self) -> EventView {
        match self {
            Event::Arrived { header, registry } => EventView::Arrived {
                header: match header {
                    Some(h) => Some(h@),
                    None => None,
                },
                registry: *registry,
            },
            Event::Answered(l) => EventView::Answered(*l),
        }
    }
}

impl View for Action {
    type V = ActionView;

    open spec fn view(&self) -> ActionView {
        match self {
            Action::Query(id) => ActionView::Query(id@),
            Action::Forward => ActionView::Forward,
            Action::Reject(r) => ActionView::Reject(*r),
        }
    }
}

/// The header carries no identity: it is absent, or white space throughout.
pub open spec fn lacks_identity(header: Option<Seq<char>>) -> bool {
    match header {
        Some(h) => all_white(h),
        None => true,
    }
}

/// The gatekeeper in `phase` expects `event`: a request only at the start,
/// an answer only while the registry is asked. Finished phases expect nothing.
pub open spec fn accepts(phase: Phase, event: EventView) -> bool {
    match (phase, event) {
        (Phase::Start, EventView::Arrived { .. }) => true,
        (Phase::Awaiting, EventView::Answered(_)) => true,
        _ => false,
    }
}

/// The phase and action that end a request with rejection `r`.
pub open spec fn reject(r: Rejection) -> (Phase, ActionView) {
    (Phase::Rejected(r), ActionView::Reject(r))
}

/// The gatekeeper's decision on `event`: first the identity header, then the
/// registry handle, then the registry's answer.
pub open spec fn transition(phase: Phase, event: EventView) -> (Phase, ActionView)
    recommends
        accepts(phase, event),
{
    match event {
        EventView::Arrived { header, registry } => {
            if lacks_identity(header) {
                reject(Rejection::MissingIdentity)
            } else if !registry {
                reject(Rejection::MissingRegistry)
            } else {
                (Phase::Awaiting, ActionView::Query(trimmed(header->Some_0)))
            }
        },
        EventView::Answered(l) => {
            if l.grants() {
                (Phase::Forwarded, ActionView::Forward)
            } else {
                reject(Rejection::UnregisteredIdentity)
            }
        },
    }
}

impl Phase {
    /// Whether the gatekeeper in this phase expects `event`.
    pub fn accepts(&self, event: &Event) -> (r: bool)
        ensures
            r == accepts(*self, event@),
    {
        match (self, event) {
            (Phase::Start, Event::Arrived { .. }) => true,
            (Phase::Awaiting, Event::Answered(_)) => true,
            _ => false,
        }
    }
}

/// Decides what becomes of a request on `event`, and the phase it moves to.
pub fn step(phase: Phase, event: Event) -> (r: (Phase, Action))
    requires
        accepts(phase, event@),
    ensures
        (r.0, r.1@) == transition(phase, event@),
{
    match event {
        Event::Arrived { header, registry } => {
            match header {
                None => (Phase::Rejected(Rejection::MissingIdentity), Action::Reject(Rejection::MissingIdentity)),
                Some(h) => {
                    if is_blank(h.as_str()) {
                        (Phase::Rejected(Rejection::MissingIdentity), Action::Reject(Rejection::MissingIdentity))
                    } else if !registry {
                        (Phase::Rejected(Rejection::MissingRegistry), Action::Reject(Rejection::MissingRegistry))
                    } else {
                        (Phase::Awaiting, Action::Query(trim(h.as_str())))
                    }
                },
            }
        },
        Event::Answered(l) => {
            match l {
                Lookup::Count(c) if c > 0 => (Phase::Forwarded, Action::Forward),
                _ => (Phase::Rejected(Rejection::UnregisteredIdentity), Action::Reject(Rejection::UnregisteredIdentity)),
            }
        },
    }
}

/// Builds a gatekeeper around a handler. It holds nothing and checks nothing.
pub struct PermissionMiddleware;

/// A gatekeeper wrapping the handler `S`, shared read-only by every request
/// that it serves.
pub struct PermissionMiddlewareMiddleware<S> {
    service: Arc<S>,
}

impl PermissionMiddleware {
    /// Wraps `service` in a gatekeeper.
    pub fn new_transform<S>(&self, service: S) -> (r: PermissionMiddlewareMiddleware<S>)
        ensures
            r.wrapped() == service,
    {
        PermissionMiddlewareMiddleware { service: Arc::new(service) }
    }
}

impl<S> PermissionMiddlewareMiddleware<S> {
    /// The wrapped handler.
    pub closed spec fn wrapped(&self) -> S {
        *self.service
    }

    /// The shared handle of the wrapped handler.
    pub fn service(&self) -> (r: &Arc<S>)
        ensures
            **r == self.wrapped(),
    {
        &self.service
    }
}

} // verus!
