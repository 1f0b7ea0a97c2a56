//! A vehicle alarm modelled as a discrete state machine.
//!
//! The machine tracks whether the vehicle is open or closed, locked or
//! unlocked, whether the alarm is armed, and whether its flash and sound
//! alerts are active. User commands (`lock`, `unlock`, `open`, `close`)
//! and a time source (`tick`) drive the transitions; fixed tick thresholds
//! arm the alarm and silence its outputs.

use vstd::prelude::*;

verus! {

/// Ticks after the counter was last reset at which a closed, locked,
/// disarmed vehicle arms itself.
pub const ARMING_TICK: u128 = 2;

/// Ticks after the counter was last reset at which an active sound alert
/// silences itself.
pub const SOUND_TIMEOUT_TICK: u128 = 3;

/// Ticks after the counter was last reset at which an active flash alert
/// clears itself.
pub const FLASH_TIMEOUT_TICK: u128 = 30;

/// The alarm's complete state.
///
/// The fields are public so that a driver or a test harness can inject an
/// arbitrary state for boundary testing; ordinary use goes through the
/// commands, which keep [`CarAlarmSystem::wf`] true.
pub struct CarAlarmSystem {
    /// The door or hatch is open.
    pub open: bool,
    /// The lock is engaged.
    pub locked: bool,
    /// The visual alert is active.
    pub flash: bool,
    /// The audible alert is active.
    pub sound: bool,
    /// The alarm is primed to trigger on intrusion.
    pub armed: bool,
    /// Ticks since the counter was last reset (on `unlock`, or on `open`
    /// while armed).
    pub clock: u128,
}

impl CarAlarmSystem {
    /// Well-formedness: an active alert implies the alarm is armed.
    ///
    /// Alerts are only ever raised while armed, and disarming (which only
    /// `unlock` does) clears them, so every state reachable from `new`
    /// through the commands satisfies this. Each command's contract says
    /// that it preserves it.
    pub open spec fn wf(self) -> bool {
        (self.flash || self.sound) ==> self.armed
    }

    /// The initial state: closed, unlocked, disarmed, no alerts, counter 0.
    pub fn new() -> (cas: Self)
        ensures
            !cas.open,
            !cas.locked,
            !cas.flash,
            !cas.sound,
            !cas.armed,
            cas.clock == 0,
            cas.wf(),
    {
        CarAlarmSystem {
            open: false,
            locked: false,
            flash: false,
            sound: false,
            armed: false,
            clock: 0,
        }
    }

    /// True iff the vehicle is open.
    pub fn opened(&self) -> (r: bool)
        ensures
            r == self.open,
    {
        self.open
    }

    /// True iff the vehicle is closed.
    pub fn closed(&self) -> (r: bool)
        ensures
            r == !self.open,
    {
        !self.open
    }

    /// True iff the lock is engaged.
    pub fn locked(&self) -> (r: bool)
        ensures
            r == self.locked,
    {
        self.locked
    }

    /// True iff the lock is not engaged.
    pub fn unlocked(&self) -> (r: bool)
        ensures
            r == !self.locked,
    {
        !self.locked
    }

    /// The visual alert's state.
    pub fn flash(&self) -> (r: bool)
        ensures
            r == self.flash,
    {
        self.flash
    }

    /// The audible alert's state.
    pub fn sound(&self) -> (r: bool)
        ensures
            r == self.sound,
    {
        self.sound
    }

    /// Whether the alarm is primed.
    pub fn armed(&self) -> (r: bool)
        ensures
            r == self.armed,
    {
        self.armed
    }

    /// Engage the lock, but only while the vehicle is closed: locking an
    /// open vehicle is disallowed and the command is silently ignored.
    pub fn lock(&mut self)
        ensures
            final(self).locked == (old(self).locked || !old(self).open),
            // On an open vehicle the lock state is left as it was.
            old(self).open ==> final(self).locked == old(self).locked,
            // On a closed vehicle the lock always engages.
            !old(self).open ==> final(self).locked,
            final(self).open == old(self).open,
            final(self).flash == old(self).flash,
            final(self).sound == old(self).sound,
            final(self).armed == old(self).armed,
            final(self).clock == old(self).clock,
            old(self).wf() ==> final(self).wf(),
    {
        if self.closed() {
            self.locked = true;
        }
    }

    /// Reset the tick counter; if the alarm was armed, disarm it and clear
    /// both alerts. The lock and the door are left untouched, so repeating
    /// the command has no effect beyond the counter reset.
    pub fn unlock(&mut self)
        ensures
            final(self).clock == 0,
            !final(self).armed,
            final(self).flash == (old(self).flash && !old(self).armed),
            final(self).sound == (old(self).sound && !old(self).armed),
            final(self).open == old(self).open,
            final(self).locked == old(self).locked,
            // From any well-formed state, unlocking leaves no alert active.
            old(self).wf() ==> (!final(self).flash && !final(self).sound),
            old(self).wf() ==> final(self).wf(),
    {
        self.clock = 0;
        if self.armed {
            self.armed = false;
            self.flash = false;
            self.sound = false;
        }
    }

    /// Close the vehicle. No other effect: arming happens later, through
    /// `tick`, never immediately on closing.
    pub fn close(&mut self)
        ensures
            !final(self).open,
            final(self).locked == old(self).locked,
            final(self).flash == old(self).flash,
            final(self).sound == old(self).sound,
            final(self).armed == old(self).armed,
            final(self).clock == old(self).clock,
            old(self).wf() ==> final(self).wf(),
    {
        self.open = false;
    }

    /// Open the vehicle. If the alarm was armed at that moment this is an
    /// intrusion: the tick counter resets and both alerts are raised. If
    /// not armed, there are no alert side effects.
    pub fn open(&mut self)
        ensures
            final(self).open,
            final(self).flash == (old(self).flash || old(self).armed),
            final(self).sound == (old(self).sound || old(self).armed),
            final(self).armed == old(self).armed,
            final(self).locked == old(self).locked,
            final(self).clock == (if old(self).armed { 0 } else { old(self).clock }),
            // Opening while armed always raises both alerts.
            old(self).armed ==> (final(self).flash && final(self).sound),
            old(self).wf() ==> final(self).wf(),
    {
        self.open = true;

        if self.armed {
            self.clock = 0;
            self.flash = true;
            self.sound = true;
        }
    }

    /// Advance time by one tick: increment the counter, then apply the
    /// threshold rules against the new counter value. Each rule tests the
    /// counter for exact equality with its threshold, so it fires only on
    /// the one tick it targets:
    /// - at `ARMING_TICK`, a closed, locked, disarmed vehicle arms itself;
    /// - at `SOUND_TIMEOUT_TICK`, an active sound alert silences itself;
    /// - at `FLASH_TIMEOUT_TICK`, an active flash alert clears itself.
    pub fn tick(&mut self)
        requires
            old(self).clock < u128::MAX,
        ensures
            final(self).clock == old(self).clock + 1,
            final(self).armed == (old(self).armed
                || (old(self).clock + 1 == ARMING_TICK && !old(self).open && old(self).locked)),
            final(self).sound == (old(self).sound && old(self).clock + 1 != SOUND_TIMEOUT_TICK),
            final(self).flash == (old(self).flash && old(self).clock + 1 != FLASH_TIMEOUT_TICK),
            final(self).open == old(self).open,
            final(self).locked == old(self).locked,
            old(self).wf() ==> final(self).wf(),
    {
        self.clock = self.clock + 1;

        if self.clock == ARMING_TICK && !self.open && self.locked && !self.armed {
            self.armed = true;
        }

        if self.clock == SOUND_TIMEOUT_TICK && self.sound {
            self.sound = false;
        }

        if self.clock == FLASH_TIMEOUT_TICK && self.flash {
            self.flash = false;
        }
    }
}

} // verus!
