use touch_pad::isr::{HandlerToken, IsrRegistry};
use touch_pad::touch_pad_error::EspErr;

fn token(handler: u64, context: u64) -> HandlerToken {
    HandlerToken { handler, context }
}

#[test]
fn deregister_of_never_registered_pair_is_invalid_state() {
    let mut registry = IsrRegistry::new();
    assert_eq!(
        registry.deregister(token(1, 2)),
        Err(EspErr::EspErrInvalidState)
    );
}

#[test]
fn register_then_deregister_succeeds() {
    let mut registry = IsrRegistry::new();
    assert_eq!(registry.register(token(1, 2)), Ok(()));
    assert!(registry.is_registered(token(1, 2)));
    assert_eq!(registry.deregister(token(1, 2)), Ok(()));
    assert!(!registry.is_registered(token(1, 2)));
}

#[test]
fn deregistering_twice_fails_the_second_time() {
    let mut registry = IsrRegistry::new();
    registry.register(token(7, 9)).unwrap();
    assert_eq!(registry.deregister(token(7, 9)), Ok(()));
    assert_eq!(
        registry.deregister(token(7, 9)),
        Err(EspErr::EspErrInvalidState)
    );
}

#[test]
fn matching_is_by_both_identities() {
    let mut registry = IsrRegistry::new();
    registry.register(token(1, 2)).unwrap();
    // Same handler with another context is another pair.
    assert_eq!(
        registry.deregister(token(1, 3)),
        Err(EspErr::EspErrInvalidState)
    );
    // Same context under another handler is another pair.
    assert_eq!(
        registry.deregister(token(4, 2)),
        Err(EspErr::EspErrInvalidState)
    );
    assert_eq!(registry.deregister(token(1, 2)), Ok(()));
}

#[test]
fn duplicate_registrations_need_matching_deregistrations() {
    let mut registry = IsrRegistry::new();
    registry.register(token(1, 2)).unwrap();
    registry.register(token(1, 2)).unwrap();
    assert_eq!(registry.deregister(token(1, 2)), Ok(()));
    assert!(registry.is_registered(token(1, 2)));
    assert_eq!(registry.deregister(token(1, 2)), Ok(()));
    assert_eq!(
        registry.deregister(token(1, 2)),
        Err(EspErr::EspErrInvalidState)
    );
}

#[test]
fn other_registrations_survive_a_deregistration() {
    let mut registry = IsrRegistry::new();
    registry.register(token(1, 10)).unwrap();
    registry.register(token(2, 20)).unwrap();
    registry.register(token(3, 30)).unwrap();
    assert_eq!(registry.deregister(token(2, 20)), Ok(()));
    assert!(registry.is_registered(token(1, 10)));
    assert!(!registry.is_registered(token(2, 20)));
    assert!(registry.is_registered(token(3, 30)));
}
