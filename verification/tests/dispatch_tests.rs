use exclude_from_capture::dispatch::RedirectionToggle;
use exclude_from_capture::dispatch::dispatch_injector;

#[test]
fn redirection_toggle_is_restored_on_both_paths() {
    let mut t = RedirectionToggle { enabled: true };
    assert!(dispatch_injector(&mut t, true));
    assert!(t.enabled);
    assert!(!dispatch_injector(&mut t, false));
    assert!(t.enabled);
}

#[test]
fn toggle_cookie_restores_the_prior_state() {
    let mut t = RedirectionToggle { enabled: true };
    let cookie = t.disable();
    assert!(!t.enabled);
    t.revert(cookie);
    assert!(t.enabled);
    // A layer that was already off is put back exactly as found.
    let mut off = RedirectionToggle { enabled: false };
    assert!(dispatch_injector(&mut off, true));
    assert!(!off.enabled);
}
