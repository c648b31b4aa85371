use appkit_bridge::bridge::{bind, reclaim, BridgeToken, ControllerHandle};

#[test]
fn bind_raises_count_and_records_controller() {
    let mut controller = ControllerHandle::new(0x5500);
    let token = bind(&mut controller);
    assert_eq!(controller.strong, 2);
    assert_eq!(token.raw(), 0x5500);
    reclaim(&mut controller, token);
    assert_eq!(controller.strong, 1);
    assert_eq!(controller.id, 0x5500);
}

#[test]
fn n_binds_and_n_reclaims_balance() {
    // Simulates a run of binds followed by the matching teardown reclaims:
    // the strong count returns to its pre-bind value.
    let mut controller = ControllerHandle::new(0x7700);
    let before = controller.strong;
    let mut tokens: Vec<BridgeToken> = Vec::new();
    for _ in 0..64 {
        tokens.push(bind(&mut controller));
    }
    assert_eq!(controller.strong, before + 64);
    while let Some(token) = tokens.pop() {
        reclaim(&mut controller, token);
    }
    assert_eq!(controller.strong, before);
}
