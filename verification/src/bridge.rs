//! The controller bridge: the reference-count discipline that ties a
//! host-language controller to a native instance. At bind time one extra
//! strong reference to the controller is converted into a raw, non-owning
//! numeric token and stashed in the native instance's reserved storage slot;
//! at teardown that token is reclaimed into an owned reference exactly once,
//! so the count returns to its pre-bind value. A missing reclaim leaks the
//! controller; a second reclaim of the same association would be a double
//! free, which the token rules out by being consumed on reclaim.

use vstd::prelude::*;

verus! {

/// A shared, reference-counted controller as the bridge sees it: the address
/// of the shared allocation (an opaque address-sized integer) and its strong
/// count. The owner's own reference keeps the count at one or more.
pub struct ControllerHandle {
    pub id: u64,
    pub strong: u64,
}

impl ControllerHandle {
    /// A controller that only its owner references.
    pub fn new(id: u64) -> (c: Self)
        ensures
            c.id == id,
            c.strong == 1,
    {
        ControllerHandle { id, strong: 1 }
    }
}

/// The raw, non-owning representation of one bridged strong reference. It
/// carries no ownership operations of its own: it is created only by `bind`
/// and consumed only by `reclaim`, so each bind is balanced by at most one
/// reclaim.
pub struct BridgeToken {
    raw: u64,
}

impl BridgeToken {
    /// The numeric value stored in the instance's storage slot.
    pub closed spec fn spec_raw(self) -> u64 {
        self.raw
    }

    /// Reads the numeric value for storing in an instance's storage slot.
    pub fn raw(&self) -> (r: u64)
        ensures
            r == self.spec_raw(),
    {
        self.raw
    }
}

/// Converts one new strong reference into a raw token without giving up the
/// owner's reference: the strong count rises by exactly one, and the token
/// records the controller it came from.
pub fn bind(controller: &mut ControllerHandle) -> (t: BridgeToken)
    requires
        old(controller).strong < u64::MAX,
    ensures
        final(controller).id == old(controller).id,
        final(controller).strong == old(controller).strong + 1,
        t.spec_raw() == old(controller).id,
{
    controller.strong = controller.strong + 1;
    BridgeToken { raw: controller.id }
}

/// Reclaims a raw token into an owned reference and drops it: the strong
/// count falls by exactly one, balancing the bind that made the token. The
/// token is consumed, so the same association cannot be reclaimed twice; the
/// count stays positive because the owner's own reference is not the one
/// reclaimed.
pub fn reclaim(controller: &mut ControllerHandle, token: BridgeToken)
    requires
        token.spec_raw() == old(controller).id,
        old(controller).strong >= 2,
    ensures
        final(controller).id == old(controller).id,
        final(controller).strong == old(controller).strong - 1,
{
    let _ = token;
    controller.strong = controller.strong - 1;
}

/// The strong count after a run of binds.
pub open spec fn count_after_binds(count: int, n: nat) -> int {
    count + n
}

/// The strong count after a run of reclaims.
pub open spec fn count_after_reclaims(count: int, n: nat) -> int {
    count - n
}

/// Law: bridge balance. Each successful bind raises the strong count by one
/// and each matching reclaim lowers it by one, so any number of binds
/// followed by as many reclaims returns the count to its pre-bind value.
pub proof fn lemma_bridge_balance(count: int, n: nat)
    ensures
        count_after_reclaims(count_after_binds(count, n), n) == count,
{
}

} // verus!
