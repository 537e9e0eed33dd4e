use framesync::teardown::{check_teardown, teardown_step, TeardownError, TeardownSequencer, TeardownStep};

use TeardownStep::{DestroyChain, DestroyDevice, DestroyFrameRing, DestroySurface, WaitIdle};

#[test]
fn full_teardown_in_order_is_accepted() {
    let steps = vec![WaitIdle, DestroyFrameRing, DestroyChain, DestroySurface, DestroyDevice];
    assert!(check_teardown(&steps));
    let mut seq = TeardownSequencer::new();
    for (i, step) in steps.iter().enumerate() {
        assert_eq!(seq.next_step(), Some(*step));
        assert_eq!(teardown_step(i), *step);
        assert_eq!(seq.complete(*step), Ok(()));
    }
    assert!(seq.is_finished());
    assert_eq!(seq.next_step(), None);
    assert_eq!(seq.complete(DestroyDevice), Err(TeardownError::OutOfOrder { expected: None }));
}

#[test]
fn chain_before_idle_wait_is_rejected() {
    assert!(!check_teardown(&vec![DestroyChain, WaitIdle]));
    let mut seq = TeardownSequencer::new();
    assert_eq!(
        seq.complete(DestroyChain),
        Err(TeardownError::OutOfOrder { expected: Some(WaitIdle) })
    );
    assert_eq!(seq.completed_steps(), 0);
}

#[test]
fn surface_before_chain_is_rejected() {
    assert!(!check_teardown(&vec![WaitIdle, DestroyFrameRing, DestroySurface, DestroyChain]));
    let mut seq = TeardownSequencer::new();
    assert_eq!(seq.complete(WaitIdle), Ok(()));
    assert_eq!(seq.complete(DestroyFrameRing), Ok(()));
    assert_eq!(
        seq.complete(DestroySurface),
        Err(TeardownError::OutOfOrder { expected: Some(DestroyChain) })
    );
    assert_eq!(seq.completed_steps(), 2);
}

#[test]
fn partial_teardown_prefix_is_accepted() {
    assert!(check_teardown(&vec![]));
    assert!(check_teardown(&vec![WaitIdle, DestroyFrameRing]));
    assert!(!check_teardown(&vec![
        WaitIdle,
        DestroyFrameRing,
        DestroyChain,
        DestroySurface,
        DestroyDevice,
        DestroyDevice
    ]));
}
