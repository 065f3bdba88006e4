//! The dispatch step around the injector launch: the process-wide
//! filesystem-redirection layer is disabled for the launch and reverted
//! unconditionally afterwards, on the success path and on the failure path
//! alike.

use vstd::prelude::*;

verus! {

/// Model of the process-wide filesystem-redirection layer: ordered, mutable
/// state that must read exactly as it did before once a dispatch returns.
/// The caller keeps this model in lockstep with the real layer: it flips the
/// real toggle exactly when a method here flips the model.
#[derive(Clone, Copy, PartialEq, Eq, Structural, Debug)]
pub struct RedirectionToggle {
    pub enabled: bool,
}

/// What a disable call hands back: the state to restore on revert.
#[derive(Clone, Copy, PartialEq, Eq, Structural, Debug)]
pub struct RedirectionCookie {
    pub restores: bool,
}

impl RedirectionToggle {
    /// Switch the redirection layer off for the injector launch; the cookie
    /// remembers the state the layer had.
    pub fn disable(&mut self) -> (c: RedirectionCookie)
        ensures
            !final(self).enabled,
            c.restores == old(self).enabled,
    {
        let c = RedirectionCookie { restores: self.enabled };
        self.enabled = false;
        c
    }

    /// Put the redirection layer back into the state the cookie remembers.
    pub fn revert(&mut self, c: RedirectionCookie)
        ensures
            final(self).enabled == c.restores,
    {
        self.enabled = c.restores;
    }
}

/// The launch span of the dispatcher: disable the redirection layer, launch
/// the injector, revert the layer, and only then report the launch outcome.
/// The launch itself runs outside this crate; its outcome is handed in, and
/// the span is verified for every outcome: the toggle ends exactly as it
/// began whether the launch succeeded or failed.
pub fn dispatch_injector(toggle: &mut RedirectionToggle, launch_ok: bool) -> (r: bool)
    ensures
        final(toggle).enabled == old(toggle).enabled,
        r == launch_ok,
{
    let cookie = toggle.disable();
    let outcome = launch_ok;
    toggle.revert(cookie);
    outcome
}

} // verus!
