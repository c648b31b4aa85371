//! The view-controller wrapper: associates a host-language controller with a
//! freshly allocated native view-controller instance. The association stores
//! the controller's bridge token on both the controller instance and its
//! view, so native callbacks on either can recover the controller; the
//! wrapper owns the token and reclaims it exactly once at teardown.

use vstd::prelude::*;
use crate::bridge::{BridgeToken, ControllerHandle, reclaim};
use crate::pasteboard::{DragRegistration, PasteboardType, translate_drag_types, uti};

verus! {

/// A host-language view controller, the external collaborator the wrapper
/// drives. `did_load` is invoked exactly once per bridge, after the native
/// instance exists.
pub trait ViewController {
    fn did_load(&self);
}

/// A live association between a controller and its native instances: the
/// allocated view-controller instance, its view instance, and the bridge
/// token whose numeric value is stored in the reserved slot of both.
pub struct NativeAssociation {
    pub view_controller: u64,
    pub view: u64,
    pub token: BridgeToken,
}

/// The wrapper's interior: no association until `configure` establishes one.
pub struct ViewInner {
    pub controller: Option<NativeAssociation>,
}

impl Default for ViewInner {
    fn default() -> (r: Self)
        ensures
            r.controller is None,
    {
        ViewInner { controller: None }
    }
}

impl ViewInner {
    /// Establishes the association: records the allocated instances and takes
    /// ownership of the bridge token whose value sits in their storage slots.
    pub fn configure(&mut self, view_controller: u64, view: u64, token: BridgeToken)
        ensures
            final(self).controller matches Some(a) && a.view_controller == view_controller
                && a.view == view && a.token.spec_raw() == token.spec_raw(),
    {
        self.controller = Some(NativeAssociation { view_controller, view, token });
    }

    /// Plans drag-and-drop registration: translates the typed descriptors to
    /// native identifier strings for the associated view. With no association
    /// present the operation is a no-op by design, so call sites may operate
    /// on not-yet-configured wrappers.
    pub fn register_for_dragged_types(&self, types: &Vec<PasteboardType>) -> (r: Option<
        DragRegistration,
    >)
        ensures
            match self.controller {
                Some(a) => r matches Some(d) && d.view == a.view && d.types@.len()
                    == types@.len() && (forall|i: int|
                    0 <= i < types@.len() ==> (#[trigger] d.types@[i])@ == uti(types@[i])),
                None => r is None,
            },
    {
        match &self.controller {
            Some(a) => Some(DragRegistration { view: a.view, types: translate_drag_types(types) }),
            None => None,
        }
    }
}

/// The owning wrapper around the association.
pub struct ViewHandle {
    pub inner: ViewInner,
}

impl Default for ViewHandle {
    fn default() -> (r: Self)
        ensures
            r.inner.controller is None,
    {
        ViewHandle { inner: ViewInner { controller: None } }
    }
}

impl ViewHandle {
    /// Establishes the association and then invokes the controller's
    /// load-completion hook, exactly once.
    pub fn configure<T: ViewController>(
        &mut self,
        controller: &T,
        view_controller: u64,
        view: u64,
        token: BridgeToken,
    )
        ensures
            final(self).inner.controller matches Some(a) && a.view_controller == view_controller
                && a.view == view && a.token.spec_raw() == token.spec_raw(),
    {
        self.inner.configure(view_controller, view, token);
        controller.did_load();
    }

    /// The associated native view-controller instance, if configured.
    pub fn get_handle(&self) -> (r: Option<u64>)
        ensures
            match self.inner.controller {
                Some(a) => r == Some(a.view_controller),
                None => r is None,
            },
    {
        match &self.inner.controller {
            Some(a) => Some(a.view_controller),
            None => None,
        }
    }

    /// Plans drag-and-drop registration on the associated view; a no-op
    /// without an association.
    pub fn register_for_dragged_types(&self, types: &Vec<PasteboardType>) -> (r: Option<
        DragRegistration,
    >)
        ensures
            match self.inner.controller {
                Some(a) => r matches Some(d) && d.view == a.view && d.types@.len()
                    == types@.len() && (forall|i: int|
                    0 <= i < types@.len() ==> (#[trigger] d.types@[i])@ == uti(types@[i])),
                None => r is None,
            },
    {
        self.inner.register_for_dragged_types(types)
    }

    /// Tears the wrapper down: the owned bridge token, if any, is reclaimed
    /// into the controller's count exactly once. Consuming the wrapper is what
    /// rules out a second reclaim of the same association.
    pub fn teardown(self, controller: &mut ControllerHandle)
        requires
            self.inner.controller matches Some(a) ==> a.token.spec_raw() == old(controller).id
                && old(controller).strong >= 2,
        ensures
            match self.inner.controller {
                Some(a) => final(controller).id == old(controller).id && final(controller).strong
                    == old(controller).strong - 1,
                None => *final(controller) == *old(controller),
            },
    {
        match self.inner.controller {
            Some(a) => reclaim(controller, a.token),
            None => {}
        }
    }
}

} // verus!
