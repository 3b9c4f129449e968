//! The flat session catalog and the one pending refresh of it.
use crate::catalog::{following_session, next_position, DesktopSessionCatalogEntry};
use crate::change_set::UiRegion;
use crate::clock::{Moment, Span};
use crate::commands::{refusal, refuse, CommandReply};
use crate::text::same_text;
use vstd::prelude::*;

verus! {

/// The time between two refreshes of the session catalog.
pub const SESSION_CATALOG_REFRESH_NANOS: u64 = 15_000_000_000;

/// The sessions as last listed, how many were left out, and when the next
/// refresh is due.
#[derive(Debug, PartialEq, Eq)]
pub struct SessionController {
    catalog: Vec<DesktopSessionCatalogEntry>,
    omitted: usize,
    refresh_deadline: Option<Moment>,
}

/// The flat catalog as a mathematical value.
pub struct SessionCatalogView {
    pub catalog: Seq<DesktopSessionCatalogEntry>,
    pub omitted: usize,
    pub refresh_deadline: Option<Moment>,
}

impl View for SessionController {
    type V = SessionCatalogView;

    closed spec fn view(&self) -> SessionCatalogView {
        SessionCatalogView {
            catalog: self.catalog@,
            omitted: self.omitted,
            refresh_deadline: self.refresh_deadline,
        }
    }
}

impl Default for SessionController {
    fn default() -> (controller: Self)
        ensures
            controller@ == (SessionCatalogView {
                catalog: Seq::empty(),
                omitted: 0,
                refresh_deadline: None,
            }),
    {
        SessionController { catalog: Vec::new(), omitted: 0, refresh_deadline: None }
    }
}

/// What a request for a refresh at a moment leads to: a new deadline, unless a
/// refresh that is due no later is pending.
pub open spec fn scheduled(pending: Option<Moment>, now: Moment) -> Option<Moment> {
    let deadline = Moment { nanos: (now.nanos + SESSION_CATALOG_REFRESH_NANOS) as u64 };
    if pending is Some && pending->0.nanos <= deadline.nanos {
        None
    } else {
        Some(deadline)
    }
}

/// While a refresh is pending, a request made no earlier schedules no other.
pub proof fn law_one_refresh_is_pending(first: Moment, second: Moment)
    requires
        first.nanos <= second.nanos,
        second.nanos + SESSION_CATALOG_REFRESH_NANOS <= u64::MAX,
    ensures
        scheduled(None, first) is Some,
        scheduled(scheduled(None, first), second) is None,
{
}

impl SessionController {
    pub fn catalog(&self) -> (catalog: &[DesktopSessionCatalogEntry])
        ensures
            catalog@ == self@.catalog,
    {
        self.catalog.as_slice()
    }

    pub fn omitted(&self) -> (omitted: usize)
        ensures
            omitted == self@.omitted,
    {
        self.omitted
    }

    pub fn replace_catalog(&mut self, catalog: Vec<DesktopSessionCatalogEntry>, omitted: usize)
        ensures
            final(self)@ == (SessionCatalogView {
                catalog: catalog@,
                omitted,
                refresh_deadline: old(self)@.refresh_deadline,
            }),
    {
        self.catalog = catalog;
        self.omitted = omitted;
    }

    /// Asks for a refresh; the deadline is new where one came of it.
    pub fn schedule_refresh(&mut self, now: Moment) -> (deadline: Option<Moment>)
        requires
            now.nanos + SESSION_CATALOG_REFRESH_NANOS <= u64::MAX,
        ensures
            deadline == scheduled(old(self)@.refresh_deadline, now),
            final(self)@ == (SessionCatalogView {
                refresh_deadline: if deadline is Some {
                    deadline
                } else {
                    old(self)@.refresh_deadline
                },
                ..old(self)@
            }),
    {
        let deadline = now.plus(Span { nanos: SESSION_CATALOG_REFRESH_NANOS });
        if let Some(pending) = self.refresh_deadline {
            if pending.nanos <= deadline.nanos {
                return None;
            }
        }
        self.refresh_deadline = Some(deadline);
        Some(deadline)
    }

    /// Takes the refresh that is due at a deadline; no other deadline takes it.
    pub fn take_scheduled_refresh(&mut self, deadline: Moment) -> (taken: bool)
        ensures
            taken == (old(self)@.refresh_deadline == Some(deadline)),
            final(self)@ == (SessionCatalogView {
                refresh_deadline: if taken {
                    None
                } else {
                    old(self)@.refresh_deadline
                },
                ..old(self)@
            }),
    {
        match self.refresh_deadline {
            Some(pending) => if pending == deadline {
                self.refresh_deadline = None;
                true
            } else {
                false
            },
            None => false,
        }
    }

    /// The session after the active one, around the end.
    pub fn next_session_id(&self, active_session_id: &str) -> (next: Option<String>)
        ensures
            next is Some <==> self@.catalog.len() > 0,
            next is Some ==> next->0 == self@.catalog[next_position(
                self@.catalog,
                Some(active_session_id@),
            )].session_id,
    {
        following_session(&self.catalog, Some(active_session_id))
    }
}

/// What follows when the time of a scheduled refresh has come.
#[derive(Debug, Clone, Copy, PartialEq, Eq, Structural)]
pub enum CatalogRefreshStep {
    /// Another refresh has taken its place.
    Superseded,
    /// List the sessions.
    Request,
    /// An operation is running: schedule again.
    Reschedule,
}

impl SessionController {
    /// The timer of a scheduled refresh has run out.
    pub fn refresh_is_due(&mut self, deadline: Moment, operation_active: bool) -> (step:
        CatalogRefreshStep)
        ensures
            step == due_step(old(self)@.refresh_deadline, deadline, operation_active),
            step == (if old(self)@.refresh_deadline != Some(deadline) {
                CatalogRefreshStep::Superseded
            } else if operation_active {
                CatalogRefreshStep::Reschedule
            } else {
                CatalogRefreshStep::Request
            }),
            final(self)@ == (SessionCatalogView {
                refresh_deadline: if old(self)@.refresh_deadline == Some(deadline) {
                    None
                } else {
                    old(self)@.refresh_deadline
                },
                ..old(self)@
            }),
    {
        if !self.take_scheduled_refresh(deadline) {
            CatalogRefreshStep::Superseded
        } else if operation_active {
            CatalogRefreshStep::Reschedule
        } else {
            CatalogRefreshStep::Request
        }
    }
}

/// How switching to the next session goes on.
#[derive(Debug, PartialEq, Eq)]
pub enum SessionSwitchStep {
    /// Nothing is listed yet: the catalog is asked for.
    LoadCatalog { notice: &'static str },
    Refuse(CommandReply),
    Open(String),
}

impl SessionController {
    /// Decides how switching to the next session goes on. Home goes by a name
    /// of its own.
    pub fn switch_next_session(&self, active: &str) -> (step: SessionSwitchStep)
        ensures
            ({
                let next = self@.catalog[next_position(self@.catalog, Some(active@))].session_id;
                if self@.catalog.len() == 0 {
                    step is LoadCatalog && step->notice@ == "Loading the session catalog…"@
                } else if next@ == active@ {
                    step is Refuse && step->Refuse_0@ == refusal(
                        "No other project session is available."@,
                        seq![UiRegion::Toast],
                        true,
                    )
                } else {
                    step == SessionSwitchStep::Open(next)
                }
            }),
    {
        match self.next_session_id(active) {
            None => SessionSwitchStep::LoadCatalog { notice: "Loading the session catalog…" },
            Some(session_id) => if same_text(session_id.as_str(), active) {
                let refresh: Vec<UiRegion> = vec![UiRegion::Toast];
                assert(refresh@ =~= seq![UiRegion::Toast]);
                SessionSwitchStep::Refuse(
                    refuse("No other project session is available.".to_owned(), refresh, true),
                )
            } else {
                SessionSwitchStep::Open(session_id)
            },
        }
    }
}

/// A refresh is scheduled a fixed time from now, unless one is due no later.
pub proof fn law_refreshes_are_scheduled_from_now(pending: Option<Moment>, now: Moment)
    requires
        now.nanos + 15_000_000_000 <= u64::MAX,
    ensures
        pending is None ==> scheduled(pending, now) is Some,
        scheduled(pending, now) is Some ==> scheduled(pending, now)->0.nanos == now.nanos
            + 15_000_000_000,
        pending is Some ==> (scheduled(pending, now) is None <==> pending->0.nanos <= now.nanos
            + 15_000_000_000),
{
}

/// The catalog is refreshed fifteen seconds after it was asked for.
pub proof fn law_refreshes_wait_fifteen_seconds()
    ensures
        SESSION_CATALOG_REFRESH_NANOS == 15 * crate::clock::NANOS_PER_SECOND,
{
}

/// What a deadline that has come leads to.
pub open spec fn due_step(
    pending: Option<Moment>,
    deadline: Moment,
    operation_active: bool,
) -> CatalogRefreshStep {
    if pending != Some(deadline) {
        CatalogRefreshStep::Superseded
    } else if operation_active {
        CatalogRefreshStep::Reschedule
    } else {
        CatalogRefreshStep::Request
    }
}

/// A refresh is asked for at its own deadline alone, and never while something runs.
pub proof fn law_refreshes_come_at_their_deadline(
    pending: Option<Moment>,
    deadline: Moment,
    operation_active: bool,
)
    ensures
        due_step(pending, deadline, operation_active) is Request <==> pending == Some(deadline)
            && !operation_active,
        due_step(pending, deadline, operation_active) is Reschedule <==> pending == Some(deadline)
            && operation_active,
        due_step(None, deadline, operation_active) is Superseded,
{
}

} // verus!
