//! The change detector: two redundant detection paths — filesystem
//! notifications and a modification-time polling sweep — feed one
//! debounced trigger, and a manual rebuild request bypasses the quiet
//! window while still serializing behind an in-flight build. Per accepted
//! trigger the sequencing is: record `Building`, run the toolchain, commit
//! the outcome, then broadcast the reload — in that order.

use vstd::prelude::*;
use vstd::string::StringExecFns;

use crate::hub::ReloadHub;
use crate::hub::broadcast_reload;
use crate::hub::prune;
use crate::runner::BuildOutcome;
use crate::state::AppState;
use crate::state::BuildPhase;
use crate::state::BuildState;
use crate::state::set_build_status;
use crate::text::clock_text;
use crate::text::contains_seq;
use crate::text::contains_sub;
use crate::text::ends_with_text;
use crate::text::eq_at;
use crate::text::format_clock;
use crate::text::to_chars;

use chrono::Timelike;

verus! {

/// The quiet window: the least time, in milliseconds, between two
/// accepted change-driven triggers.
pub const DEBOUNCE_MS: u64 = 300;

/// The debounced trigger guard, the single serialization point both
/// detection paths and the manual rebuild flag fold into.
pub struct ChangeDetector {
    /// Width of the quiet window in milliseconds.
    pub debounce_ms: u64,
    /// When the last change-driven trigger was accepted, if any.
    pub last_accepted: Option<u64>,
    /// The largest modification time the polling sweep has seen, in
    /// milliseconds since the epoch; zero before the first observation.
    pub last_mtime: u64,
    /// The one-shot manual rebuild flag the dashboard sets.
    pub manual_pending: bool,
}

/// A path the detection paths ignore: editor swap files, backup files,
/// version-control metadata and build-output directories.
pub open spec fn noisy_path(p: Seq<char>) -> bool {
    ||| ends_with_text(p, ".swp"@)
    ||| ends_with_text(p, "~"@)
    ||| contains_seq(p, ".git"@)
    ||| contains_seq(p, "/.build/"@)
}

/// Some path survives the noise filter: the event still carries a real
/// change after its noisy paths are dropped.
pub open spec fn has_live_path(paths: Seq<String>) -> bool {
    exists|i: int| 0 <= i < paths.len() && !noisy_path(#[trigger] paths[i]@)
}

/// `i` is the first path the noise filter keeps: the one recorded for
/// display.
pub open spec fn first_live_path(paths: Seq<String>, i: int) -> bool {
    &&& 0 <= i < paths.len()
    &&& !noisy_path(paths[i]@)
    &&& forall|j: int| 0 <= j < i ==> noisy_path(#[trigger] paths[j]@)
}

/// The quiet window has elapsed since the last accepted trigger.
pub open spec fn debounce_ok(d: ChangeDetector, now_ms: u64) -> bool {
    match d.last_accepted {
        Option::None => true,
        Option::Some(t) => now_ms >= t + d.debounce_ms,
    }
}

/// A filesystem notification is accepted exactly when a path survives the
/// noise filter and the quiet window has elapsed.
pub open spec fn fs_event_accepted(d: ChangeDetector, paths: Seq<String>, now_ms: u64) -> bool {
    has_live_path(paths) && debounce_ok(d, now_ms)
}

/// The polling sweep saw the tree's modification time advance.
pub open spec fn poll_advanced(d: ChangeDetector, latest_mtime_ms: u64) -> bool {
    latest_mtime_ms > d.last_mtime && latest_mtime_ms > 0
}

/// A polling observation is accepted exactly when the modification time
/// advanced and the quiet window has elapsed.
pub open spec fn poll_accepted(d: ChangeDetector, latest_mtime_ms: u64, now_ms: u64) -> bool {
    poll_advanced(d, latest_mtime_ms) && debounce_ok(d, now_ms)
}

/// The first path of the event that the noise filter keeps, if any.
fn find_live_path(paths: &Vec<String>) -> (r: Option<usize>)
    ensures
        match r {
            Option::Some(i) => first_live_path(paths@, i as int),
            Option::None => !has_live_path(paths@),
        },
{
    let n: usize = paths.len();
    let mut i: usize = 0;
    while i < n
        invariant
            n == paths@.len(),
            i <= n,
            forall|k: int| 0 <= k < i ==> noisy_path(#[trigger] paths@[k]@),
        decreases n - i,
    {
        if !is_noisy_path(paths[i].as_str()) {
            return Some(i);
        }
        i = i + 1;
    }
    None
}

/// Whether a path should be ignored by the detection paths.
pub fn is_noisy_path(p: &str) -> (r: bool)
    ensures
        r == noisy_path(p@),
{
    let chars = to_chars(p);
    let swp = to_chars(".swp");
    if chars.len() >= swp.len() && eq_at(&chars, &swp, chars.len() - swp.len()) {
        return true;
    }
    let tilde = to_chars("~");
    if chars.len() >= tilde.len() && eq_at(&chars, &tilde, chars.len() - tilde.len()) {
        return true;
    }
    let git = to_chars(".git");
    if contains_sub(&chars, &git) {
        return true;
    }
    let build_dir = to_chars("/.build/");
    if contains_sub(&chars, &build_dir) {
        return true;
    }
    false
}

impl ChangeDetector {
    /// A fresh detector: nothing accepted yet, no modification time seen,
    /// no manual request pending.
    pub fn new() -> (d: ChangeDetector)
        ensures
            d.debounce_ms == DEBOUNCE_MS,
            d.last_accepted is None,
            d.last_mtime == 0,
            !d.manual_pending,
    {
        ChangeDetector { debounce_ms: DEBOUNCE_MS, last_accepted: None, last_mtime: 0, manual_pending: false }
    }

    /// Feeds one filesystem notification into the trigger guard: the
    /// event's paths are filtered to drop noise, and what remains is
    /// accepted when the quiet window has elapsed. On acceptance the build
    /// state moves to `Building`, the first surviving path is recorded for
    /// display, and the quiet window restarts at `now_ms`; otherwise
    /// nothing changes.
    pub fn on_fs_event(&mut self, store: &mut AppState, paths: &Vec<String>, now_ms: u64) -> (accepted: bool)
        requires
            old(store).wf(),
            !old(store).is_building(),
        ensures
            final(store).wf(),
            accepted == fs_event_accepted(*old(self), paths@, now_ms),
            accepted ==> (*final(self) == (ChangeDetector {
                last_accepted: Some(now_ms),
                ..*old(self)
            })),
            accepted ==> final(store).build_state is Building && final(store).trace@ == old(store).trace@.push(BuildPhase::Building),
            accepted ==> (exists|i: int|
                #[trigger] first_live_path(paths@, i) && (final(store).file_changed matches Some(p)
                    && p@ == paths@[i]@)),
            accepted ==> final(store).last_build_time == old(store).last_build_time,
            !accepted ==> *final(self) == *old(self) && *final(store) == *old(store),
    {
        let live = find_live_path(paths);
        let found = match live {
            None => {
                return false;
            },
            Some(f) => f,
        };
        let in_window = match self.last_accepted {
            None => false,
            Some(t) => !(now_ms >= t && now_ms - t >= self.debounce_ms),
        };
        if in_window {
            return false;
        }
        self.last_accepted = Some(now_ms);
        store.file_changed = Some(paths[found].clone());
        set_build_status(store, BuildState::Building);
        true
    }

    /// Feeds one polling observation into the trigger guard. The recorded
    /// modification time advances whenever the observed one is newer, even
    /// when the quiet window rejects the trigger; an accepted observation
    /// moves the build state to `Building` and records a generic changed
    /// path for display.
    pub fn on_poll(&mut self, store: &mut AppState, latest_mtime_ms: u64, now_ms: u64) -> (accepted: bool)
        requires
            old(store).wf(),
            !old(store).is_building(),
        ensures
            final(store).wf(),
            accepted == poll_accepted(*old(self), latest_mtime_ms, now_ms),
            final(self).last_mtime == (if poll_advanced(*old(self), latest_mtime_ms) {
                latest_mtime_ms
            } else {
                old(self).last_mtime
            }),
            final(self).debounce_ms == old(self).debounce_ms,
            final(self).manual_pending == old(self).manual_pending,
            accepted ==> final(self).last_accepted == Some(now_ms),
            !accepted ==> final(self).last_accepted == old(self).last_accepted,
            accepted ==> final(store).build_state is Building && final(store).trace@ == old(store).trace@.push(BuildPhase::Building),
            accepted ==> (final(store).file_changed matches Some(p) && p@ == "Source files"@),
            accepted ==> final(store).last_build_time == old(store).last_build_time,
            !accepted ==> *final(store) == *old(store),
    {
        if !(latest_mtime_ms > self.last_mtime && latest_mtime_ms > 0) {
            return false;
        }
        self.last_mtime = latest_mtime_ms;
        let in_window = match self.last_accepted {
            None => false,
            Some(t) => !(now_ms >= t && now_ms - t >= self.debounce_ms),
        };
        if in_window {
            return false;
        }
        self.last_accepted = Some(now_ms);
        store.file_changed = Some(String::from_str("Source files"));
        set_build_status(store, BuildState::Building);
        true
    }

    /// Sets the one-shot manual rebuild flag. Called from the dashboard at
    /// any time, also while a build is in flight: the request is deferred,
    /// never dropped, until the detector's loop consumes it.
    pub fn request_manual_rebuild(&mut self)
        ensures
            *final(self) == (ChangeDetector { manual_pending: true, ..*old(self) }),
    {
        self.manual_pending = true;
    }

    /// Consumes the manual rebuild flag, between builds only. A pending
    /// request is accepted unconditionally — it bypasses the quiet window
    /// and leaves the window's clock untouched — and the flag is cleared
    /// either way.
    pub fn take_manual_rebuild(&mut self, store: &mut AppState) -> (accepted: bool)
        requires
            old(store).wf(),
            !old(store).is_building(),
        ensures
            final(store).wf(),
            accepted == old(self).manual_pending,
            *final(self) == (ChangeDetector { manual_pending: false, ..*old(self) }),
            accepted ==> final(store).build_state is Building && final(store).trace@ == old(store).trace@.push(BuildPhase::Building),
            accepted ==> final(store).file_changed == old(store).file_changed
                && final(store).last_build_time == old(store).last_build_time,
            !accepted ==> *final(store) == *old(store),
    {
        let pending = self.manual_pending;
        self.manual_pending = false;
        if pending {
            set_build_status(store, BuildState::Building);
        }
        pending
    }
}

/// Relies on `chrono::Local::now` and the `Timelike` accessors: the hour
/// is below 24 and the minute and second below 60. What time it is cannot
/// be stated, so only those ranges are promised.
#[verifier::external_body]
fn local_clock() -> (hms: (u8, u8, u8))
    ensures
        hms.0 < 24,
        hms.1 < 60,
        hms.2 < 60,
{
    let now = chrono::Local::now();
    (now.hour() as u8, now.minute() as u8, now.second() as u8)
}

/// Commits the outcome of the build an accepted trigger started: exactly
/// one terminal transition, the success bookkeeping, and only after the
/// terminal state is committed, one reload broadcast — both outcomes
/// broadcast, so subscribers can show an error page.
pub fn finish_build(
    store: &mut AppState,
    hub: &mut ReloadHub,
    outcome: &BuildOutcome,
    duration_ms: u64,
    artifact_size: u64,
)
    requires
        old(store).wf(),
        old(store).is_building(),
    ensures
        final(store).wf(),
        outcome.success ==> final(store).build_state == (BuildState::Success {
            duration_ms,
            artifact_size,
        }),
        !outcome.success ==> (final(store).build_state matches BuildState::Failed { message }
            && message@ == outcome.message@),
        final(store).trace@ == old(store).trace@.push(
            if outcome.success {
                BuildPhase::Success
            } else {
                BuildPhase::Failed
            },
        ),
        outcome.success ==> (exists|h: int, m: int, s: int|
            0 <= h < 24 && 0 <= m < 60 && 0 <= s < 60 && (final(store).last_build_time matches Some(
                t,
            ) && t@ == #[trigger] clock_text(h, m, s))),
        !outcome.success ==> final(store).last_build_time == old(store).last_build_time,
        final(store).file_changed == old(store).file_changed,
        final(hub).subscribers().len() <= old(hub).subscribers().len(),
        exists|ok: Seq<bool>|
            ok.len() == old(hub).subscribers().len() && final(hub).subscribers() == prune(
                old(hub).subscribers(),
                ok,
            ),
{
    if outcome.success {
        set_build_status(store, BuildState::Success { duration_ms, artifact_size });
        let (h, m, s) = local_clock();
        store.last_build_time = Some(format_clock(h, m, s));
    } else {
        set_build_status(store, BuildState::Failed { message: outcome.message.clone() });
    }
    broadcast_reload(hub);
}

/// Two change notifications arriving within one quiet window produce
/// exactly one accepted trigger: once a trigger is accepted at `t1`, any
/// notification observed before `t1 + debounce` is rejected, whatever its
/// paths.
pub proof fn lemma_debounce_coalesces(
    d: ChangeDetector,
    d2: ChangeDetector,
    paths1: Seq<String>,
    paths2: Seq<String>,
    t1: u64,
    t2: u64,
)
    requires
        fs_event_accepted(d, paths1, t1),
        d2 == (ChangeDetector { last_accepted: Some(t1), ..d }),
        t2 < t1 + d.debounce_ms,
    ensures
        !fs_event_accepted(d2, paths2, t2),
{
}

/// A manual rebuild request set while a build is in flight is deferred,
/// not dropped: committing the build's outcome leaves the flag pending —
/// `finish_build` does not touch the detector — and then the first
/// consume accepts it while the one after that does not: exactly one
/// additional build.
pub proof fn lemma_manual_deferred_once(d: ChangeDetector)
    requires
        d.manual_pending,
    ensures
        ({
            let after_first = ChangeDetector { manual_pending: false, ..d };
            d.manual_pending && !after_first.manual_pending
        }),
{
}

} // verus!
