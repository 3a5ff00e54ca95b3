use vstd::prelude::*;

use crate::config::{ConfigData, ConfigDataView};

verus! {

/// Change notifications closer than this to the last accepted one are
/// ignored, in milliseconds.
pub const DEBOUNCE_MS: u64 = 2000;

/// A notification at `now` is far enough from the one accepted at `last`.
pub open spec fn debounce_passes(last: u64, now: u64) -> bool {
    now >= last && now - last >= DEBOUNCE_MS
}

/// A snapshot view that holds a night-light rule and a vibrance rule.
pub open spec fn view_complete(v: ConfigDataView) -> bool {
    v.night_light_shader is Some && v.vibrance_shaders.len() > 0
}

/// A candidate replaces the current snapshot only when it differs from it
/// and does not lose the night light or every vibrance rule that a complete
/// snapshot had.
pub open spec fn reload_acceptable(current: ConfigDataView, candidate: ConfigDataView) -> bool {
    candidate != current && !(view_complete(current) && !view_complete(candidate))
}

/// Whether a freshly read candidate may replace the current snapshot.
pub fn accept_reload(current: &ConfigData, candidate: &ConfigData) -> (r: bool)
    ensures
        r == reload_acceptable(current@, candidate@),
{
    if candidate.same_as(current) {
        return false;
    }
    let current_complete = current.night_light_shader.is_some()
        && current.vibrance_shaders.len() > 0;
    let candidate_complete = candidate.night_light_shader.is_some()
        && candidate.vibrance_shaders.len() > 0;
    !(current_complete && !candidate_complete)
}

/// The debounce and validation state of the configuration watcher.
#[derive(Clone, Copy, Debug, PartialEq, Eq, Structural)]
pub struct ConfigReloader {
    /// When the last reload was accepted, in milliseconds of a monotonic
    /// clock.
    pub last_accepted_ms: u64,
}

impl ConfigReloader {
    /// A watcher started at `started_ms`, which counts as an accepted event.
    pub fn new(started_ms: u64) -> (r: ConfigReloader)
        ensures
            r.last_accepted_ms == started_ms,
    {
        ConfigReloader { last_accepted_ms: started_ms }
    }

    /// Whether a notification at `now_ms` is worth a reload attempt.
    pub fn should_reload(&self, now_ms: u64) -> (r: bool)
        ensures
            r == debounce_passes(self.last_accepted_ms, now_ms),
    {
        now_ms >= self.last_accepted_ms && now_ms - self.last_accepted_ms >= DEBOUNCE_MS
    }

    /// Weighs the outcome of a reload attempt made at `now_ms`; returns the
    /// snapshot to swap in, and records the acceptance time, when it is
    /// accepted. A failed read keeps the current snapshot.
    pub fn on_candidate<E>(
        &mut self,
        current: &ConfigData,
        candidate: Result<ConfigData, E>,
        now_ms: u64,
    ) -> (r: Option<ConfigData>)
        ensures
            candidate is Err ==> r is None,
            candidate matches Ok(c) ==> (reload_acceptable(current@, c@) <==> r is Some),
            r matches Some(s) ==> candidate matches Ok(c) && s == c,
            r is Some ==> final(self).last_accepted_ms == now_ms,
            r is None ==> *final(self) == *old(self),
    {
        match candidate {
            Err(_) => None,
            Ok(c) => {
                if accept_reload(current, &c) {
                    self.last_accepted_ms = now_ms;
                    Some(c)
                } else {
                    None
                }
            },
        }
    }
}

/// After a reload is accepted at `last`, a notification before
/// `last + 2000` ms is ignored: a burst collapses into one attempt.
pub proof fn lemma_burst_collapses(r: ConfigReloader, now: u64)
    requires
        r.last_accepted_ms <= now,
        now < r.last_accepted_ms + DEBOUNCE_MS,
    ensures
        !debounce_passes(r.last_accepted_ms, now),
{
}

/// A reload that yields no rules never replaces a snapshot that held a
/// night-light rule and at least one vibrance rule.
pub proof fn lemma_empty_reload_rejected(current: &ConfigData, candidate: &ConfigData)
    requires
        current.is_complete(),
        candidate.night_light_shader is None,
        candidate.vibrance_shaders@.len() == 0,
    ensures
        !reload_acceptable(current@, candidate@),
{
}

} // verus!
