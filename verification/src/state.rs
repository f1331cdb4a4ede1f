//! The shared build state: a small state machine (`Idle -> Building ->
//! Success | Failed`) observed by the server and the dashboard, together
//! with the bookkeeping fields they display. A ghost trace records every
//! transition, so the ordering guarantees can be stated and proved.

use vstd::prelude::*;
use vstd::string::StringExecFns;

use crate::text::dec_rep;
use crate::text::u64_to_string;

verus! {

/// The build state machine's value: idle before the first build, building
/// while the toolchain runs, then the outcome of the last attempt.
#[derive(Debug, PartialEq, Eq)]
pub enum BuildState {
    Idle,
    Building,
    Success { duration_ms: u64, artifact_size: u64 },
    Failed { message: String },
}

/// A build state stripped to its tag, the value the transition history
/// records.
#[derive(Debug, PartialEq, Eq)]
pub enum BuildPhase {
    Idle,
    Building,
    Success,
    Failed,
}

/// The tag of a build state.
pub open spec fn phase_of(s: BuildState) -> BuildPhase {
    match s {
        BuildState::Idle => BuildPhase::Idle,
        BuildState::Building => BuildPhase::Building,
        BuildState::Success { .. } => BuildPhase::Success,
        BuildState::Failed { .. } => BuildPhase::Failed,
    }
}

/// The transitions the state machine allows: anything but an in-flight
/// build may start building, and an in-flight build must settle into
/// exactly one outcome.
pub open spec fn valid_step(a: BuildPhase, b: BuildPhase) -> bool {
    ||| (a != BuildPhase::Building && b == BuildPhase::Building)
    ||| (a == BuildPhase::Building && (b == BuildPhase::Success || b == BuildPhase::Failed))
}

/// A well-formed transition history: starts idle and takes only valid
/// steps.
pub open spec fn wf_trace(t: Seq<BuildPhase>) -> bool {
    &&& t.len() >= 1
    &&& t[0] == BuildPhase::Idle
    &&& forall|i: int| 0 < i < t.len() ==> #[trigger] valid_step(t[i - 1], t[i])
}

/// The state the server's components share: the build state machine plus
/// the fields the dashboard displays. A single instance is owned behind a
/// lock by the embedding program; every mutation funnels through
/// [`set_build_status`].
pub struct AppState {
    pub build_state: BuildState,
    pub last_build_time: Option<String>,
    pub file_changed: Option<String>,
    pub server_url: String,
    pub local_ip: String,
    pub port: u16,
    pub trace: Ghost<Seq<BuildPhase>>,
}

/// The connection URL shown to the user: `http://<ip>:<port>`.
pub open spec fn url_text(ip: Seq<char>, port: nat) -> Seq<char> {
    "http://"@ + ip + seq![':'] + dec_rep(port)
}

impl AppState {
    /// The transition history is well formed and ends at the current
    /// state.
    pub open spec fn wf(&self) -> bool {
        wf_trace(self.trace@) && self.trace@.last() == phase_of(self.build_state)
    }

    /// A build is in flight.
    pub open spec fn is_building(&self) -> bool {
        self.build_state is Building
    }

    /// A fresh state for a server listening on `port`, reachable at
    /// `local_ip`.
    pub fn new(port: u16, local_ip: String) -> (s: AppState)
        ensures
            s.wf(),
            s.build_state is Idle,
            s.last_build_time is None,
            s.file_changed is None,
            s.port == port,
            s.local_ip@ == local_ip@,
            s.server_url@ == url_text(local_ip@, port as nat),
            s.trace@ == seq![BuildPhase::Idle],
    {
        let mut url = String::new();
        url.append("http://");
        url.append(local_ip.as_str());
        let port_text = u64_to_string(port as u64);
        crate::text::push_char(&mut url, ':');
        url.append(port_text.as_str());
        assert(url@ =~= url_text(local_ip@, port as nat));
        let ghost t: Seq<BuildPhase> = seq![BuildPhase::Idle];
        AppState {
            build_state: BuildState::Idle,
            last_build_time: None,
            file_changed: None,
            server_url: url,
            local_ip,
            port,
            trace: Ghost(t),
        }
    }

    /// A point-in-time copy of the build state, so that readers never hold
    /// a live reference into the shared instance.
    pub fn snapshot(&self) -> (r: BuildState)
        ensures
            r == self.build_state,
    {
        match &self.build_state {
            BuildState::Idle => BuildState::Idle,
            BuildState::Building => BuildState::Building,
            BuildState::Success { duration_ms, artifact_size } => BuildState::Success {
                duration_ms: *duration_ms,
                artifact_size: *artifact_size,
            },
            BuildState::Failed { message } => BuildState::Failed { message: message.clone() },
        }
    }
}

/// The single mutation point of the build state machine: records the
/// transition in the history and refuses, by precondition, every
/// transition the machine does not allow.
pub fn set_build_status(store: &mut AppState, status: BuildState)
    requires
        old(store).wf(),
        valid_step(phase_of(old(store).build_state), phase_of(status)),
    ensures
        final(store).wf(),
        final(store).build_state == status,
        final(store).trace@ == old(store).trace@.push(phase_of(status)),
        final(store).last_build_time == old(store).last_build_time,
        final(store).file_changed == old(store).file_changed,
        final(store).server_url == old(store).server_url,
        final(store).local_ip == old(store).local_ip,
        final(store).port == old(store).port,
{
    store.build_state = status;
    proof {
        store.trace@ = store.trace@.push(phase_of(store.build_state));
    }
    assert forall|i: int| 0 < i < store.trace@.len() implies #[trigger] valid_step(
        store.trace@[i - 1],
        store.trace@[i],
    ) by {
        if i < store.trace@.len() - 1 {
            assert(valid_step(old(store).trace@[i - 1], old(store).trace@[i]));
        }
    }
}

/// A snapshot of the current build state.
pub fn get_build_status(store: &AppState) -> (r: BuildState)
    ensures
        r == store.build_state,
{
    store.snapshot()
}

/// The one-word status tag the `/build-status` endpoint reports.
pub open spec fn status_text(s: BuildState) -> Seq<char> {
    match s {
        BuildState::Idle => "unknown"@,
        BuildState::Building => "building"@,
        BuildState::Success { .. } => "success"@,
        BuildState::Failed { .. } => "failed"@,
    }
}

/// The one-word tag of a build state, as served to status polls.
pub fn build_status_text(s: &BuildState) -> (r: &'static str)
    ensures
        r@ == status_text(*s),
{
    match s {
        BuildState::Idle => "unknown",
        BuildState::Building => "building",
        BuildState::Success { .. } => "success",
        BuildState::Failed { .. } => "failed",
    }
}

/// The phase is a settled build outcome.
pub open spec fn is_terminal(p: BuildPhase) -> bool {
    p == BuildPhase::Success || p == BuildPhase::Failed
}

/// Every terminal outcome in a well-formed history is immediately preceded
/// by `Building`, and between any two `Building` entries a terminal
/// outcome stands: builds never overlap, and no outcome appears without a
/// build.
pub proof fn lemma_trace_orders_transitions(t: Seq<BuildPhase>)
    requires
        wf_trace(t),
    ensures
        forall|i: int|
            0 <= i < t.len() && #[trigger] is_terminal(t[i]) ==> (0 < i && t[i - 1]
                == BuildPhase::Building),
        forall|i: int, j: int|
            #![trigger t[i], t[j]]
            0 <= i < j < t.len() && t[i] == BuildPhase::Building && t[j] == BuildPhase::Building
                ==> exists|k: int| i < k < j && #[trigger] is_terminal(t[k]),
{
    assert forall|i: int| 0 <= i < t.len() && #[trigger] is_terminal(t[i]) implies (0 < i && t[i
        - 1] == BuildPhase::Building) by {
        assert(t[0] == BuildPhase::Idle);
        assert(i > 0);
        assert(valid_step(t[i - 1], t[i]));
    }
    assert forall|i: int, j: int|
        #![trigger t[i], t[j]]
        0 <= i < j < t.len() && t[i] == BuildPhase::Building && t[j]
            == BuildPhase::Building implies exists|k: int| i < k < j && #[trigger] is_terminal(
        t[k],
    ) by {
        let n: int = i + 1;
        assert(valid_step(t[n - 1], t[n]));
        assert(is_terminal(t[n]));
        assert(n < j);
        assert(i < n < j && is_terminal(t[n]));
    }
}

} // verus!
