//! The content cache's decisions: when a cached file is served, when content
//! is fetched, how an expired media address is recovered, and when a stale
//! file is served after all.
//!
//! Reading the disk and the network is the caller's part. A [`CacheFlow`] is
//! told what the caller found, one event at a time, and answers each event
//! with the next thing to do.

use vstd::prelude::*;
use vstd::string::*;
use crate::json::{get_string, json_strings};
use crate::text::{clone_opt, contains, opt_text, seq_contains};

verus! {

/// Seconds for which a cached identity image counts as fresh: 7 days.
pub const IDENTITY_TTL_SECS: u64 = 7 * 24 * 60 * 60;

/// Seconds for which cached media count as fresh: 30 days.
pub const MEDIA_TTL_SECS: u64 = 30 * 24 * 60 * 60;

/// Seconds after which fetching an identity image is given up.
pub const IDENTITY_TIMEOUT_SECS: u64 = 10;

/// Seconds after which fetching media is given up.
pub const MEDIA_TIMEOUT_SECS: u64 = 30;

/// The two key spaces of the cache.
#[derive(Clone, Copy, Debug, PartialEq, Eq)]
pub enum CacheKind {
    /// Avatars of users and groups.
    Identity,
    /// Images and other media, keyed by their address.
    Media,
}

/// The time to live of an entry of this kind, in seconds.
pub open spec fn ttl_of(kind: CacheKind) -> u64 {
    match kind {
        CacheKind::Identity => IDENTITY_TTL_SECS,
        CacheKind::Media => MEDIA_TTL_SECS,
    }
}

/// The fetch timeout for an entry of this kind, in seconds.
pub open spec fn timeout_of(kind: CacheKind) -> u64 {
    match kind {
        CacheKind::Identity => IDENTITY_TIMEOUT_SECS,
        CacheKind::Media => MEDIA_TIMEOUT_SECS,
    }
}

/// The time to live of an entry of this kind, in seconds.
pub fn ttl_secs(kind: CacheKind) -> (r: u64)
    ensures
        r == ttl_of(kind),
{
    match kind {
        CacheKind::Identity => IDENTITY_TTL_SECS,
        CacheKind::Media => MEDIA_TTL_SECS,
    }
}

/// The fetch timeout for an entry of this kind, in seconds.
pub fn timeout_secs(kind: CacheKind) -> (r: u64)
    ensures
        r == timeout_of(kind),
{
    match kind {
        CacheKind::Identity => IDENTITY_TIMEOUT_SECS,
        CacheKind::Media => MEDIA_TIMEOUT_SECS,
    }
}

/// What the caller found at the entry's path.
#[derive(Clone, Copy, Debug, PartialEq, Eq)]
pub struct CacheProbe {
    pub exists: bool,
    /// Seconds since the file was last modified; `None` where that cannot be
    /// read.
    pub age_secs: Option<u64>,
}

/// An entry is fresh when its file exists, its age is known and the age is
/// below the time to live.
pub open spec fn is_fresh(probe: CacheProbe, ttl: u64) -> bool {
    probe.exists && probe.age_secs is Some && probe.age_secs->0 < ttl
}

/// Whether the probed entry is fresh under the time to live `ttl`.
pub fn fresh(probe: &CacheProbe, ttl: u64) -> (r: bool)
    ensures
        r == is_fresh(*probe, ttl),
{
    match probe.age_secs {
        Some(age) => probe.exists && age < ttl,
        None => false,
    }
}

/// Whether a fetch failure's message says that the address has likely
/// expired: it names one of the statuses 400, 403 and 404.
pub open spec fn says_expired(message: Seq<char>) -> bool {
    seq_contains(message, "HTTP 400"@) || seq_contains(message, "HTTP 403"@) || seq_contains(
        message,
        "HTTP 404"@,
    )
}

/// Classifies a fetch failure by its message.
pub fn is_url_expired(message: &str) -> (r: bool)
    ensures
        r == says_expired(message@),
{
    contains(message, "HTTP 400") || contains(message, "HTTP 403") || contains(message, "HTTP 404")
}

/// Where a flow stands.
#[derive(Clone, Copy, Debug, PartialEq, Eq)]
pub enum FlowState {
    /// Nothing is known yet: the entry's path is to be probed.
    Start,
    /// The first fetch is under way.
    Fetching,
    /// A fresh address is being looked up directly.
    Resolving,
    /// A fresh address is being asked for by the generic query.
    Querying,
    /// The one retry, with the fresh address, is under way.
    Retrying,
    /// Fetching has failed: it is checked whether a file exists all the same.
    Checking,
    /// The flow has ended.
    Done,
}

/// What the caller reports to a flow.
#[derive(Clone, Debug, PartialEq)]
pub enum CacheEvent {
    /// The entry's path was probed.
    Probed(CacheProbe),
    /// The content was fetched and written to the entry's path.
    Fetched,
    /// Fetching or writing failed, with this message.
    FetchFailed(String),
    /// No session is live through which an address could be resolved.
    NoSession,
    /// The direct lookup gave this address.
    DetailResolved(String),
    /// The direct lookup is not available.
    DetailUnavailable,
    /// The generic query could not be made or was not answered; the message
    /// says why.
    QueryFailed(String),
    /// The generic query was answered with this document.
    QueryAnswered(serde_json::Value),
    /// Whether a file exists at the entry's path.
    Exists(bool),
}

/// What a flow asks the caller to do next.
#[derive(Clone, Debug, PartialEq)]
pub enum CacheAction {
    /// Return the entry's path: the flow has ended in success.
    Serve,
    /// Fetch from this address within the timeout, write the content to the
    /// entry's path, creating its directories, and report how that went.
    Fetch { url: String, timeout_secs: u64 },
    /// Look the content up directly by its identifier, if a session is live.
    ResolveDetail { file_id: String },
    /// Ask the generic query for the content by its identifier.
    QueryImage { file_id: String },
    /// Check whether a file exists at the entry's path.
    CheckExists,
    /// Return nothing, which is no error: there is no content and no file.
    /// The flow has ended.
    Missing,
    /// The event does not belong to the flow's state: nothing has changed.
    Rejected,
}

/// What an action is, as plain values.
pub enum ActionView {
    Serve,
    Fetch { url: Seq<char>, timeout_secs: u64 },
    ResolveDetail { file_id: Seq<char> },
    QueryImage { file_id: Seq<char> },
    CheckExists,
    Missing,
    Rejected,
}

impl View for CacheAction {
    type V = ActionView;

    open spec fn view(&self) -> ActionView {
        match self {
            CacheAction::Serve => ActionView::Serve,
            CacheAction::Fetch { url, timeout_secs } => ActionView::Fetch {
                url: url@,
                timeout_secs: *timeout_secs,
            },
            CacheAction::ResolveDetail { file_id } => ActionView::ResolveDetail {
                file_id: file_id@,
            },
            CacheAction::QueryImage { file_id } => ActionView::QueryImage { file_id: file_id@ },
            CacheAction::CheckExists => ActionView::CheckExists,
            CacheAction::Missing => ActionView::Missing,
            CacheAction::Rejected => ActionView::Rejected,
        }
    }
}

/// One request for a cached entry, from the probe of its path to its end.
#[derive(Clone, Debug, PartialEq)]
pub struct CacheFlow {
    pub kind: CacheKind,
    /// The address that the content is first fetched from.
    pub url: String,
    /// The content's identifier, by which a fresh address can be resolved.
    pub file_id: Option<String>,
    pub state: FlowState,
    /// How many fetches the flow has asked for.
    pub fetches: u8,
}

/// What a flow is, as plain values.
pub struct FlowView {
    pub kind: CacheKind,
    pub url: Seq<char>,
    pub file_id: Option<Seq<char>>,
    pub state: FlowState,
    pub fetches: int,
}

impl View for CacheFlow {
    type V = FlowView;

    open spec fn view(&self) -> FlowView {
        FlowView {
            kind: self.kind,
            url: self.url@,
            file_id: opt_text(self.file_id),
            state: self.state,
            fetches: self.fetches as int,
        }
    }
}

/// Whether a failed first fetch is followed by the recovery of a fresh
/// address: only for media, with an identifier, after a failure that says the
/// address has expired.
pub open spec fn recovers(flow: FlowView, message: Seq<char>) -> bool {
    flow.kind is Media && flow.file_id is Some && says_expired(message)
}

/// The address in the answer to the generic query: its string member `url`.
pub open spec fn answered_url(data: serde_json::Value) -> Option<Seq<char>> {
    if json_strings(data).contains_key("url"@) {
        Some(json_strings(data)["url"@])
    } else {
        None
    }
}

/// The action with which a flow answers an event.
pub open spec fn next_action(flow: FlowView, event: CacheEvent) -> ActionView {
    match (flow.state, event) {
        (FlowState::Start, CacheEvent::Probed(probe)) => if is_fresh(probe, ttl_of(flow.kind)) {
            ActionView::Serve
        } else {
            ActionView::Fetch { url: flow.url, timeout_secs: timeout_of(flow.kind) }
        },
        (FlowState::Fetching, CacheEvent::Fetched) => ActionView::Serve,
        (FlowState::Fetching, CacheEvent::FetchFailed(message)) => if recovers(flow, message@) {
            ActionView::ResolveDetail { file_id: flow.file_id->0 }
        } else {
            ActionView::CheckExists
        },
        (FlowState::Resolving, CacheEvent::NoSession) => ActionView::CheckExists,
        (FlowState::Resolving, CacheEvent::DetailResolved(url)) => ActionView::Fetch {
            url: url@,
            timeout_secs: timeout_of(flow.kind),
        },
        (FlowState::Resolving, CacheEvent::DetailUnavailable) => if flow.file_id is Some {
            ActionView::QueryImage { file_id: flow.file_id->0 }
        } else {
            ActionView::CheckExists
        },
        (FlowState::Querying, CacheEvent::QueryFailed(_)) => ActionView::CheckExists,
        (FlowState::Querying, CacheEvent::QueryAnswered(data)) => match answered_url(data) {
            Some(url) => ActionView::Fetch { url, timeout_secs: timeout_of(flow.kind) },
            None => ActionView::CheckExists,
        },
        (FlowState::Retrying, CacheEvent::Fetched) => ActionView::Serve,
        (FlowState::Retrying, CacheEvent::FetchFailed(_)) => ActionView::CheckExists,
        (FlowState::Checking, CacheEvent::Exists(exists)) => if exists {
            ActionView::Serve
        } else {
            ActionView::Missing
        },
        _ => ActionView::Rejected,
    }
}

/// The state in which a flow waits for the outcome of `action`.
pub open spec fn state_after(state: FlowState, action: ActionView) -> FlowState {
    match action {
        ActionView::Serve => FlowState::Done,
        ActionView::Missing => FlowState::Done,
        ActionView::Fetch { .. } => if state is Start {
            FlowState::Fetching
        } else {
            FlowState::Retrying
        },
        ActionView::ResolveDetail { .. } => FlowState::Resolving,
        ActionView::QueryImage { .. } => FlowState::Querying,
        ActionView::CheckExists => FlowState::Checking,
        ActionView::Rejected => state,
    }
}

/// The flow after it has answered an event: it waits for the outcome of its
/// action, and has counted the action if it is a fetch.
pub open spec fn next_flow(flow: FlowView, event: CacheEvent) -> FlowView {
    let action = next_action(flow, event);
    FlowView {
        state: state_after(flow.state, action),
        fetches: if action is Fetch {
            flow.fetches + 1
        } else {
            flow.fetches
        },
        ..flow
    }
}

/// The count of fetches agrees with the state: none before the first, one
/// until the retry, two from the retry on; and only a flow that is open to
/// recovery gets as far as a second.
pub open spec fn flow_wf(flow: FlowView) -> bool {
    match flow.state {
        FlowState::Start => flow.fetches == 0,
        FlowState::Fetching => flow.fetches == 1,
        FlowState::Resolving => flow.fetches == 1 && recovery_open(flow),
        FlowState::Querying => flow.fetches == 1 && recovery_open(flow),
        FlowState::Retrying => flow.fetches == 2 && recovery_open(flow),
        FlowState::Checking => 1 <= flow.fetches <= 2 && (flow.fetches == 2 ==> recovery_open(
            flow,
        )),
        FlowState::Done => 0 <= flow.fetches <= 2 && (flow.fetches == 2 ==> recovery_open(flow)),
    }
}

/// Recovery is open to media with an identifier only.
pub open spec fn recovery_open(flow: FlowView) -> bool {
    flow.kind is Media && flow.file_id is Some
}

impl CacheFlow {
    /// Whether the count of fetches agrees with the state.
    pub open spec fn wf(&self) -> bool {
        flow_wf(self@)
    }

    /// A flow for content of the given kind at `url`, before its path is
    /// probed.
    pub fn new(kind: CacheKind, url: &str, file_id: &Option<String>) -> (r: CacheFlow)
        ensures
            r.wf(),
            r@ == (FlowView {
                kind,
                url: url@,
                file_id: opt_text(*file_id),
                state: FlowState::Start,
                fetches: 0,
            }),
    {
        CacheFlow {
            kind,
            url: url.to_owned(),
            file_id: clone_opt(file_id),
            state: FlowState::Start,
            fetches: 0,
        }
    }

    /// Whether the count of fetches agrees with the state: to be asked of a
    /// flow that was put together elsewhere.
    pub fn is_well_formed(&self) -> (r: bool)
        ensures
            r == self.wf(),
    {
        let open = match self.kind {
            CacheKind::Media => self.file_id.is_some(),
            CacheKind::Identity => false,
        };
        match self.state {
            FlowState::Start => self.fetches == 0,
            FlowState::Fetching => self.fetches == 1,
            FlowState::Resolving => self.fetches == 1 && open,
            FlowState::Querying => self.fetches == 1 && open,
            FlowState::Retrying => self.fetches == 2 && open,
            FlowState::Checking => self.fetches == 1 || (self.fetches == 2 && open),
            FlowState::Done => self.fetches <= 1 || (self.fetches == 2 && open),
        }
    }

    /// Whether the flow has ended.
    pub fn is_done(&self) -> (r: bool)
        ensures
            r == (self.state is Done),
    {
        match self.state {
            FlowState::Done => true,
            _ => false,
        }
    }

    fn fetch(&mut self, url: String) -> (action: CacheAction)
        requires
            old(self).fetches < 2,
            old(self).state is Start || old(self).state is Resolving || old(self).state
                is Querying,
        ensures
            action@ == (ActionView::Fetch { url: url@, timeout_secs: timeout_of(old(self).kind) }),
            final(self)@ == (FlowView {
                state: state_after(old(self).state, action@),
                fetches: old(self).fetches + 1,
                ..old(self)@
            }),
    {
        self.state = match self.state {
            FlowState::Start => FlowState::Fetching,
            _ => FlowState::Retrying,
        };
        self.fetches = self.fetches + 1;
        CacheAction::Fetch { url, timeout_secs: timeout_secs(self.kind) }
    }

    fn check(&mut self) -> (action: CacheAction)
        ensures
            action@ == ActionView::CheckExists,
            final(self)@ == (FlowView { state: FlowState::Checking, ..old(self)@ }),
    {
        self.state = FlowState::Checking;
        CacheAction::CheckExists
    }

    /// Takes one event and answers with the next action. An event that does
    /// not belong to the flow's state is rejected and changes nothing.
    pub fn step(&mut self, event: &CacheEvent) -> (action: CacheAction)
        requires
            old(self).wf(),
        ensures
            final(self).wf(),
            action@ == next_action(old(self)@, *event),
            final(self)@ == next_flow(old(self)@, *event),
    {
        match (self.state, event) {
            (FlowState::Start, CacheEvent::Probed(probe)) => {
                if fresh(probe, ttl_secs(self.kind)) {
                    self.state = FlowState::Done;
                    CacheAction::Serve
                } else {
                    let url = self.url.clone();
                    self.fetch(url)
                }
            },
            (FlowState::Fetching, CacheEvent::Fetched) => {
                self.state = FlowState::Done;
                CacheAction::Serve
            },
            (FlowState::Fetching, CacheEvent::FetchFailed(message)) => {
                let media = match self.kind {
                    CacheKind::Media => true,
                    CacheKind::Identity => false,
                };
                match &self.file_id {
                    Some(file_id) => {
                        if media && is_url_expired(message.as_str()) {
                            let file_id = file_id.clone();
                            self.state = FlowState::Resolving;
                            CacheAction::ResolveDetail { file_id }
                        } else {
                            self.check()
                        }
                    },
                    None => self.check(),
                }
            },
            (FlowState::Resolving, CacheEvent::NoSession) => self.check(),
            (FlowState::Resolving, CacheEvent::DetailResolved(url)) => {
                let url = url.clone();
                self.fetch(url)
            },
            (FlowState::Resolving, CacheEvent::DetailUnavailable) => {
                match &self.file_id {
                    Some(file_id) => {
                        let file_id = file_id.clone();
                        self.state = FlowState::Querying;
                        CacheAction::QueryImage { file_id }
                    },
                    None => self.check(),
                }
            },
            (FlowState::Querying, CacheEvent::QueryFailed(_)) => self.check(),
            (FlowState::Querying, CacheEvent::QueryAnswered(data)) => {
                match get_string(data, "url") {
                    Some(url) => self.fetch(url),
                    None => self.check(),
                }
            },
            (FlowState::Retrying, CacheEvent::Fetched) => {
                self.state = FlowState::Done;
                CacheAction::Serve
            },
            (FlowState::Retrying, CacheEvent::FetchFailed(_)) => self.check(),
            (FlowState::Checking, CacheEvent::Exists(exists)) => {
                self.state = FlowState::Done;
                if *exists {
                    CacheAction::Serve
                } else {
                    CacheAction::Missing
                }
            },
            _ => CacheAction::Rejected,
        }
    }
}

/// A fresh entry is served at once: the flow ends with the probe and asks
/// for no fetch.
pub proof fn fresh_entry_is_served_without_fetch(flow: FlowView, probe: CacheProbe)
    requires
        flow_wf(flow),
        flow.state is Start,
        is_fresh(probe, ttl_of(flow.kind)),
    ensures
        next_action(flow, CacheEvent::Probed(probe)) == ActionView::Serve,
        next_flow(flow, CacheEvent::Probed(probe)).state is Done,
        next_flow(flow, CacheEvent::Probed(probe)).fetches == 0,
{
}

/// An entry that is missing, unreadable or at least as old as its time to
/// live is fetched from the flow's own address, within the kind's timeout.
pub proof fn stale_entry_is_fetched(flow: FlowView, probe: CacheProbe)
    requires
        flow_wf(flow),
        flow.state is Start,
        !is_fresh(probe, ttl_of(flow.kind)),
    ensures
        next_action(flow, CacheEvent::Probed(probe)) == (ActionView::Fetch {
            url: flow.url,
            timeout_secs: timeout_of(flow.kind),
        }),
        next_flow(flow, CacheEvent::Probed(probe)).state is Fetching,
        next_flow(flow, CacheEvent::Probed(probe)).fetches == 1,
{
}

/// An identity image is fetched at most once: after its probe, no event
/// makes the flow ask for another fetch.
pub proof fn identity_image_is_fetched_once(flow: FlowView, event: CacheEvent)
    requires
        flow_wf(flow),
        flow.kind is Identity,
        !(flow.state is Start),
    ensures
        !(next_action(flow, event) is Fetch),
        next_flow(flow, event).fetches == flow.fetches,
        flow.fetches <= 1,
{
}

/// Whatever happens, a flow asks for at most two fetches, and its count of
/// them stays in step with its state.
pub proof fn fetches_are_bounded(flow: FlowView, event: CacheEvent)
    requires
        flow_wf(flow),
    ensures
        flow_wf(next_flow(flow, event)),
        next_flow(flow, event).fetches <= 2,
{
}

/// A failed fetch that starts no recovery falls back to the file on disk: if
/// one exists, stale as it may be, it is served and nothing fails.
pub proof fn stale_file_is_served_after_failed_fetch(flow: FlowView, message: String)
    requires
        flow_wf(flow),
        flow.state is Fetching,
        !recovers(flow, message@),
    ensures
        next_action(flow, CacheEvent::FetchFailed(message)) == ActionView::CheckExists,
        next_action(
            next_flow(flow, CacheEvent::FetchFailed(message)),
            CacheEvent::Exists(true),
        ) == ActionView::Serve,
        next_action(
            next_flow(flow, CacheEvent::FetchFailed(message)),
            CacheEvent::Exists(false),
        ) == ActionView::Missing,
{
}

/// Media whose address has expired are recovered once: the failure asks for
/// a fresh address by the content's identifier, the fresh address is fetched,
/// that second fetch is the flow's last, and its success is served.
pub proof fn expired_media_are_fetched_again_once(flow: FlowView, message: String, fresh: String)
    requires
        flow_wf(flow),
        flow.state is Fetching,
        recovers(flow, message@),
    ensures
        ({
            let failed = next_flow(flow, CacheEvent::FetchFailed(message));
            let retried = next_flow(failed, CacheEvent::DetailResolved(fresh));
            &&& next_action(flow, CacheEvent::FetchFailed(message)) == (ActionView::ResolveDetail {
                file_id: flow.file_id->0,
            })
            &&& failed.fetches == 1
            &&& next_action(failed, CacheEvent::DetailResolved(fresh)) == (ActionView::Fetch {
                url: fresh@,
                timeout_secs: timeout_of(flow.kind),
            })
            &&& retried.fetches == 2
            &&& retried.state is Retrying
            &&& next_action(retried, CacheEvent::Fetched) == ActionView::Serve
            &&& next_flow(retried, CacheEvent::Fetched).fetches == 2
            &&& next_action(retried, CacheEvent::FetchFailed(message)) == ActionView::CheckExists
        }),
{
}

/// Where the direct lookup is unavailable, the generic query takes its
/// place: an answer with a `url` member is fetched as the one retry; an answer
/// without one, and a query that failed, fall back to the file on disk.
pub proof fn generic_query_stands_in_for_lookup(
    flow: FlowView,
    data: serde_json::Value,
    message: String,
)
    requires
        flow_wf(flow),
        flow.state is Resolving,
    ensures
        ({
            let asked = next_flow(flow, CacheEvent::DetailUnavailable);
            &&& next_action(flow, CacheEvent::DetailUnavailable) == (ActionView::QueryImage {
                file_id: flow.file_id->0,
            })
            &&& asked.state is Querying
            &&& answered_url(data) is Some ==> next_action(asked, CacheEvent::QueryAnswered(data))
                == (ActionView::Fetch {
                url: answered_url(data)->0,
                timeout_secs: timeout_of(flow.kind),
            }) && next_flow(asked, CacheEvent::QueryAnswered(data)).state is Retrying
            &&& answered_url(data) is None ==> next_action(asked, CacheEvent::QueryAnswered(data))
                == ActionView::CheckExists
            &&& next_action(asked, CacheEvent::QueryFailed(message)) == ActionView::CheckExists
            &&& next_flow(asked, CacheEvent::QueryFailed(message)).fetches == flow.fetches
        }),
{
}

/// No flow ends in an error. A flow ends by serving the entry or by
/// returning nothing, and in no other way. Every report of a failure is
/// answered by going on with the recovery or by checking the disk, where a
/// file that exists, stale as it may be, is served.
pub proof fn failure_degrades_to_the_stale_file(flow: FlowView, event: CacheEvent)
    requires
        flow_wf(flow),
    ensures
        (next_flow(flow, event).state is Done && !(flow.state is Done)) <==> (next_action(
            flow,
            event,
        ) is Serve || next_action(flow, event) is Missing),
        (event is FetchFailed || event is QueryFailed || event is NoSession || event
            is DetailUnavailable) ==> (next_action(flow, event) is CheckExists || next_action(
            flow,
            event,
        ) is ResolveDetail || next_action(flow, event) is QueryImage || next_action(flow, event)
            is Rejected),
        flow.state is Checking ==> next_action(flow, CacheEvent::Exists(true)) == ActionView::Serve
            && next_action(flow, CacheEvent::Exists(false)) == ActionView::Missing,
{
}

} // verus!
