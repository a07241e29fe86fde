//! The flag-precedence engine: the state it owns and every transition.
//!
//! Each operation may emit zero or one output value. An emission is an
//! `Option<Option<Flag>>`: the outer level says whether anything is handed
//! to the signal emitter at all, the inner level is the value to display,
//! where `None` is the explicit clear (an empty wire string).

use vstd::prelude::*;

use crate::flags::{global_flag_eq, local_flag_eq, Flag, GlobalFlag, LocalFlag};

verus! {

/// How long a penalty notice stays on the display, in milliseconds.
pub const PENALTY_SHOW_TIME_MS: u64 = 2000;

/// The engine's whole state: the two flag categories, the two transient
/// overlays, and the per-driver roster.
pub struct FlagManager {
    pub global_flag: Option<GlobalFlag>,
    pub local_flag: Option<LocalFlag>,
    pub race_finished: bool,
    /// The instant, in milliseconds, at which the active penalty notice was
    /// raised; absent when no penalty notice is showing.
    pub showing_penalty_since: Option<u64>,
    /// Car identifier per car slot, replaced wholesale on each roster event
    /// and never consulted by the precedence rules.
    pub driver_numbers: Vec<u8>,
}

/// The mathematical model of [`FlagManager`].
#[verifier::ext_equal]
pub ghost struct EngineView {
    pub global_flag: Option<GlobalFlag>,
    pub local_flag: Option<LocalFlag>,
    pub race_finished: bool,
    pub showing_penalty_since: Option<u64>,
    pub driver_numbers: Seq<u8>,
}

impl View for FlagManager {
    type V = EngineView;

    open spec fn view(&self) -> EngineView {
        EngineView {
            global_flag: self.global_flag,
            local_flag: self.local_flag,
            race_finished: self.race_finished,
            showing_penalty_since: self.showing_penalty_since,
            driver_numbers: self.driver_numbers@,
        }
    }
}

/// The state every session starts from: all flags absent, nothing showing.
pub open spec fn spec_initial() -> EngineView {
    EngineView {
        global_flag: None,
        local_flag: None,
        race_finished: false,
        showing_penalty_since: None,
        driver_numbers: Seq::empty(),
    }
}

/// Whether a penalty notice raised at `since` has exceeded its display
/// duration at instant `now`. A timestamp that lies in the future never
/// counts as expired.
pub open spec fn spec_penalty_expired(since: Option<u64>, now: u64) -> bool {
    match since {
        Some(t) => now >= t && now - t > PENALTY_SHOW_TIME_MS,
        None => false,
    }
}

/// The penalty field after the lazy expiry check at instant `now`.
pub open spec fn spec_expire_penalty(since: Option<u64>, now: u64) -> Option<u64> {
    if spec_penalty_expired(since, now) {
        None
    } else {
        since
    }
}

/// The state after the lazy expiry check that precedes every global or
/// local flag transition.
pub open spec fn spec_with_expired_penalty(s: EngineView, now: u64) -> EngineView {
    EngineView { showing_penalty_since: spec_expire_penalty(s.showing_penalty_since, now), ..s }
}

/// The local reconciliation rule: given the candidate local flag, whether a
/// penalty notice is active and whether the race has finished, what should
/// be shown when no global flag masks it. `None` means "emit nothing";
/// `Some(None)` means "emit the explicit clear value".
pub open spec fn spec_reconcile(
    flag: Option<LocalFlag>,
    penalty: bool,
    finished: bool,
) -> Option<Option<LocalFlag>> {
    match flag {
        None => if !penalty && !finished {
            Some(None)
        } else {
            None
        },
        Some(LocalFlag::Green) => if !finished {
            Some(Some(LocalFlag::Green))
        } else {
            None
        },
        Some(LocalFlag::Yellow) => Some(Some(LocalFlag::Yellow)),
        Some(LocalFlag::Blue) => Some(Some(LocalFlag::Blue)),
    }
}

/// A reconciliation outcome as the value handed to the signal emitter.
pub open spec fn spec_local_to_flag(l: Option<LocalFlag>) -> Option<Flag> {
    match l {
        Some(x) => Some(Flag::Local(x)),
        None => None,
    }
}

/// The reconciliation rule's outcome as an emission: nothing where the rule
/// is silent, otherwise the chosen display value.
pub open spec fn spec_reconcile_emission(
    flag: Option<LocalFlag>,
    penalty: bool,
    finished: bool,
) -> Option<Option<Flag>> {
    match spec_reconcile(flag, penalty, finished) {
        Some(l) => Some(spec_local_to_flag(l)),
        None => None,
    }
}

/// The transition for setting or clearing the global flag: state after the
/// call, and what is emitted. A no-op when the flag already has the given
/// value; on a set, the global flag is shown unconditionally; on a clear,
/// the reconciliation rule decides what the clearing reveals.
pub open spec fn spec_set_global(s: EngineView, flag: Option<GlobalFlag>, now: u64) -> (
    EngineView,
    Option<Option<Flag>>,
) {
    let s1 = spec_with_expired_penalty(s, now);
    if s1.global_flag == flag {
        (s1, None)
    } else {
        let s2 = EngineView { global_flag: flag, ..s1 };
        match flag {
            Some(g) => (s2, Some(Some(Flag::Global(g)))),
            None => (
                s2,
                spec_reconcile_emission(
                    s2.local_flag,
                    s2.showing_penalty_since is Some,
                    s2.race_finished,
                ),
            ),
        }
    }
}

/// The transition for setting or clearing the local flag. A no-op when the
/// flag already has the given value; recorded but masked while a global
/// flag is active; otherwise the reconciliation rule decides the emission.
pub open spec fn spec_set_local(s: EngineView, flag: Option<LocalFlag>, now: u64) -> (
    EngineView,
    Option<Option<Flag>>,
) {
    let s1 = spec_with_expired_penalty(s, now);
    if s1.local_flag == flag {
        (s1, None)
    } else {
        let s2 = EngineView { local_flag: flag, ..s1 };
        if s2.global_flag is Some {
            (s2, None)
        } else {
            (
                s2,
                spec_reconcile_emission(
                    flag,
                    s2.showing_penalty_since is Some,
                    s2.race_finished,
                ),
            )
        }
    }
}

/// The transition for a penalty notice: record when it was raised, and show
/// it at once unless a global flag masks it.
pub open spec fn spec_set_penalty(s: EngineView, index: usize, now: u64) -> (
    EngineView,
    Option<Option<Flag>>,
) {
    let s2 = EngineView { showing_penalty_since: Some(now), ..s };
    if s.global_flag is Some {
        (s2, None)
    } else {
        (s2, Some(Some(Flag::Penalty(index))))
    }
}

/// The transition for the race-finish indicator: latch it, and show it at
/// once unless a global flag masks it.
pub open spec fn spec_finish(s: EngineView) -> (EngineView, Option<Option<Flag>>) {
    let s2 = EngineView { race_finished: true, ..s };
    if s.global_flag is Some {
        (s2, None)
    } else {
        (s2, Some(Some(Flag::Finish)))
    }
}

/// The transition for a roster event: the roster is replaced wholesale and
/// nothing is emitted.
pub open spec fn spec_set_roster(s: EngineView, numbers: Seq<u8>) -> EngineView {
    EngineView { driver_numbers: numbers, ..s }
}

/// The local reconciliation rule as executable code.
pub fn show_based_on_local(flag: Option<LocalFlag>, penalty: bool, finished: bool) -> (r: Option<
    Option<LocalFlag>,
>)
    ensures
        r == spec_reconcile(flag, penalty, finished),
{
    match flag {
        None => if !penalty && !finished {
            Some(None)
        } else {
            None
        },
        Some(LocalFlag::Green) => if !finished {
            Some(flag)
        } else {
            None
        },
        Some(LocalFlag::Yellow) | Some(LocalFlag::Blue) => Some(flag),
    }
}

/// A reconciliation outcome turned into the value handed to the emitter.
pub fn local_to_flag(l: Option<LocalFlag>) -> (r: Option<Flag>)
    ensures
        r == spec_local_to_flag(l),
{
    match l {
        Some(x) => Some(Flag::from(x)),
        None => None,
    }
}

impl FlagManager {
    /// A fresh engine with every flag absent and an empty roster.
    pub fn new() -> (s: Self)
        ensures
            s@ == spec_initial(),
    {
        FlagManager {
            global_flag: None,
            local_flag: None,
            race_finished: false,
            showing_penalty_since: None,
            driver_numbers: Vec::new(),
        }
    }

    /// Returns every field to its initial absent/false/empty value. Emits
    /// nothing: a session boundary, where the consumer is expected to be in
    /// or return to a neutral state.
    pub fn reset(&mut self)
        ensures
            final(self)@ == spec_initial(),
    {
        self.global_flag = None;
        self.local_flag = None;
        self.race_finished = false;
        self.showing_penalty_since = None;
        self.driver_numbers = Vec::new();
    }

    /// Replaces the per-driver roster wholesale.
    pub fn set_roster(&mut self, numbers: Vec<u8>)
        ensures
            final(self)@ == spec_set_roster(old(self)@, numbers@),
    {
        self.driver_numbers = numbers;
    }

    /// The lazy expiry check run before every global or local flag
    /// transition: a penalty notice whose display duration has elapsed at
    /// `now_ms` is cleared, without emitting anything. Expiry measures the
    /// time from the instant the notice was raised to `now_ms`; a notice
    /// whose timestamp lies in the future never expires.
    pub fn check_penalty(&mut self, now_ms: u64)
        ensures
            final(self)@ == spec_with_expired_penalty(old(self)@, now_ms),
    {
        if let Some(t) = self.showing_penalty_since {
            if now_ms >= t && now_ms - t > PENALTY_SHOW_TIME_MS {
                self.showing_penalty_since = None;
            }
        }
    }

    /// Sets the global flag to the given value (`None` clears it), after
    /// the lazy penalty-expiry check. A no-op when the value is unchanged.
    /// On a set, the global flag is emitted unconditionally: it always
    /// takes visual priority. On a clear, the reconciliation rule decides
    /// whether the clearing reveals the local state or the explicit clear
    /// value.
    pub fn set_global_flag_value(&mut self, flag: Option<GlobalFlag>, now_ms: u64) -> (r: Option<
        Option<Flag>,
    >)
        ensures
            final(self)@ == spec_set_global(old(self)@, flag, now_ms).0,
            r == spec_set_global(old(self)@, flag, now_ms).1,
    {
        self.check_penalty(now_ms);
        if global_flag_eq(self.global_flag, flag) {
            return None;
        }
        self.global_flag = flag;
        if let Some(g) = flag {
            return Some(Some(Flag::Global(g)));
        }
        match show_based_on_local(
            self.local_flag,
            self.showing_penalty_since.is_some(),
            self.race_finished,
        ) {
            Some(l) => Some(local_to_flag(l)),
            None => None,
        }
    }

    /// Sets the local flag to the given value (`None` clears it), after the
    /// lazy penalty-expiry check. A no-op when the value is unchanged. The
    /// change is recorded but masked while a global flag is active;
    /// otherwise the reconciliation rule decides the emission.
    pub fn set_local_flag_value(&mut self, flag: Option<LocalFlag>, now_ms: u64) -> (r: Option<
        Option<Flag>,
    >)
        ensures
            final(self)@ == spec_set_local(old(self)@, flag, now_ms).0,
            r == spec_set_local(old(self)@, flag, now_ms).1,
    {
        self.check_penalty(now_ms);
        if local_flag_eq(self.local_flag, flag) {
            return None;
        }
        self.local_flag = flag;
        if self.global_flag.is_some() {
            return None;
        }
        match show_based_on_local(
            flag,
            self.showing_penalty_since.is_some(),
            self.race_finished,
        ) {
            Some(l) => Some(local_to_flag(l)),
            None => None,
        }
    }

    /// Records a penalty notice for the given driver index, raised at
    /// `now_ms`, and shows it at once unless a global flag masks it.
    pub fn set_penalty(&mut self, index: usize, now_ms: u64) -> (r: Option<Option<Flag>>)
        ensures
            final(self)@ == spec_set_penalty(old(self)@, index, now_ms).0,
            r == spec_set_penalty(old(self)@, index, now_ms).1,
    {
        self.showing_penalty_since = Some(now_ms);
        if self.global_flag.is_none() {
            Some(Some(Flag::Penalty(index)))
        } else {
            None
        }
    }

    /// Latches the race-finish indicator and shows it at once unless a
    /// global flag masks it. Once set, it persists until an explicit reset.
    pub fn finish(&mut self) -> (r: Option<Option<Flag>>)
        ensures
            final(self)@ == spec_finish(old(self)@).0,
            r == spec_finish(old(self)@).1,
    {
        self.race_finished = true;
        if self.global_flag.is_none() {
            Some(Some(Flag::Finish))
        } else {
            None
        }
    }

    /// Sets the global flag to the given value.
    pub fn set_global_flag(&mut self, flag: GlobalFlag, now_ms: u64) -> (r: Option<Option<Flag>>)
        ensures
            final(self)@ == spec_set_global(old(self)@, Some(flag), now_ms).0,
            r == spec_set_global(old(self)@, Some(flag), now_ms).1,
    {
        self.set_global_flag_value(Some(flag), now_ms)
    }

    /// Clears the global flag.
    pub fn reset_global_flag(&mut self, now_ms: u64) -> (r: Option<Option<Flag>>)
        ensures
            final(self)@ == spec_set_global(old(self)@, None, now_ms).0,
            r == spec_set_global(old(self)@, None, now_ms).1,
    {
        self.set_global_flag_value(None, now_ms)
    }

    /// Sets the local flag to the given value.
    pub fn set_local_flag(&mut self, flag: LocalFlag, now_ms: u64) -> (r: Option<Option<Flag>>)
        ensures
            final(self)@ == spec_set_local(old(self)@, Some(flag), now_ms).0,
            r == spec_set_local(old(self)@, Some(flag), now_ms).1,
    {
        self.set_local_flag_value(Some(flag), now_ms)
    }

    /// Clears the local flag.
    pub fn reset_local_flag(&mut self, now_ms: u64) -> (r: Option<Option<Flag>>)
        ensures
            final(self)@ == spec_set_local(old(self)@, None, now_ms).0,
            r == spec_set_local(old(self)@, None, now_ms).1,
    {
        self.set_local_flag_value(None, now_ms)
    }
}

} // verus!
