//! The blinking of the caret: whether it is drawn just now, and which timer
//! will next change that.

use vstd::prelude::*;

verus! {

/// The identity of one scheduled timer, as the host handed it out.
#[derive(Clone, Copy, Debug, PartialEq, Eq, Structural)]
pub struct TimerToken(pub u64);

impl TimerToken {
    /// The token of no timer at all: what a blinker holds while no timer
    /// is awaited. A host never hands it out for a timer.
    pub open spec fn spec_invalid() -> TimerToken {
        TimerToken(0)
    }

    /// The token of no timer at all.
    #[verifier::when_used_as_spec(spec_invalid)]
    pub fn invalid() -> (token: TimerToken)
        ensures
            token == TimerToken::spec_invalid(),
    {
        TimerToken(0)
    }
}

/// Whether the caret is visible, and the timer that is awaited.
#[derive(Clone, Copy, Debug, PartialEq, Eq, Structural)]
pub struct Blinker {
    pub visible: bool,
    pub token: TimerToken,
}

impl Blinker {
    /// What a timer event does to a blinker: a timer other than the awaited
    /// one is stale and changes nothing; the awaited one toggles the caret.
    pub open spec fn fired(self, token: TimerToken) -> Blinker {
        if token == self.token {
            Blinker { visible: !self.visible, token: self.token }
        } else {
            self
        }
    }

    /// A blinker with a hidden caret that awaits no timer.
    pub fn new() -> (blinker: Blinker)
        ensures
            blinker == (Blinker { visible: false, token: TimerToken::invalid() }),
    {
        Blinker { visible: false, token: TimerToken(0) }
    }

    /// Whether the caret is drawn just now.
    pub fn is_visible(&self) -> (visible: bool)
        ensures
            visible == self.visible,
    {
        self.visible
    }

    /// The timer that is awaited.
    pub fn token(&self) -> (token: TimerToken)
        ensures
            token == self.token,
    {
        self.token
    }

    /// Restarts the blinking after the user did something: the caret is
    /// shown, and only `token`'s timer will hide it again.
    pub fn reset(&mut self, token: TimerToken)
        ensures
            *final(self) == (Blinker { visible: true, token }),
    {
        self.visible = true;
        self.token = token;
    }

    /// Handles a timer that fired. Returns whether it was the awaited one;
    /// if so the caret was toggled, and the host is to schedule the next
    /// timer and hand its token to [`Blinker::rearm`].
    pub fn on_timer_fired(&mut self, fired: TimerToken) -> (awaited: bool)
        ensures
            awaited == (fired == old(self).token),
            *final(self) == old(self).fired(fired),
    {
        if fired == self.token {
            self.visible = !self.visible;
            true
        } else {
            false
        }
    }

    /// Awaits `token`'s timer from now on, and leaves the caret as it is.
    pub fn rearm(&mut self, token: TimerToken)
        ensures
            *final(self) == (Blinker { visible: old(self).visible, token }),
    {
        self.token = token;
    }
}

/// A timer that fires after the blinker was reset with another token changes
/// nothing: the caret stays shown.
pub proof fn lemma_stale_timer_is_ignored(fresh: TimerToken, stale: TimerToken)
    requires
        stale != fresh,
    ensures
        (Blinker { visible: true, token: fresh }).fired(stale) == (Blinker {
            visible: true,
            token: fresh,
        }),
{
}

/// The awaited timer, fired twice with the same token awaited, leaves the
/// caret as it was.
pub proof fn lemma_two_periods_restore(blinker: Blinker)
    ensures
        blinker.fired(blinker.token).fired(blinker.token) == blinker,
{
}

} // verus!
