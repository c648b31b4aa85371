//! The web-view wrapper: a controller bridge over a native web-view
//! controller instance, plus the thin owning handle that exposes
//! cross-cutting operations — background color, drag-and-drop registration,
//! and composable layout anchors. Every operation is a synchronous
//! forwarding call; the native call itself is performed by the caller on the
//! command value returned here, and an operation on a handle with no
//! underlying native object is a no-op by design.

use vstd::prelude::*;
use crate::bridge::{BridgeToken, ControllerHandle, reclaim};
use crate::pasteboard::{DragRegistration, PasteboardType, translate_drag_types, uti};

verus! {

/// A vertical layout anchor of a view: a passive descriptor, not computed
/// until constraint-activation time.
#[derive(Clone, Copy, Debug, PartialEq, Eq, Structural)]
pub struct LayoutAnchorY {
    pub view: Option<u64>,
    pub side: VerticalSide,
}

#[derive(Clone, Copy, Debug, PartialEq, Eq, Structural)]
pub enum VerticalSide {
    Top,
    Bottom,
}

/// A horizontal layout anchor of a view: a passive descriptor.
#[derive(Clone, Copy, Debug, PartialEq, Eq, Structural)]
pub struct LayoutAnchorX {
    pub view: Option<u64>,
    pub side: HorizontalSide,
}

#[derive(Clone, Copy, Debug, PartialEq, Eq, Structural)]
pub enum HorizontalSide {
    Leading,
    Trailing,
}

/// A dimension layout anchor of a view: a passive descriptor.
#[derive(Clone, Copy, Debug, PartialEq, Eq, Structural)]
pub struct LayoutAnchorDimension {
    pub view: Option<u64>,
    pub dimension: Dimension,
}

#[derive(Clone, Copy, Debug, PartialEq, Eq, Structural)]
pub enum Dimension {
    Width,
    Height,
}

/// An opaque color value forwarded to the native side.
#[derive(Clone, Copy, Debug, PartialEq, Eq, Structural)]
pub struct Color {
    pub red: u8,
    pub green: u8,
    pub blue: u8,
    pub alpha: u8,
}

/// A background-color change ready to be forwarded to the runtime.
#[derive(Clone, Copy, Debug, PartialEq, Eq, Structural)]
pub struct SetBackgroundColor {
    pub view: u64,
    pub color: Color,
}

/// The owning handle around a native web-view controller instance, with its
/// six layout anchors. `objc` is `None` on a not-yet-configured handle, in
/// which case every forwarding operation is a no-op.
#[derive(Clone, Copy, Debug, PartialEq, Eq, Structural)]
pub struct WebViewHandle {
    pub objc: Option<u64>,
    pub top: LayoutAnchorY,
    pub bottom: LayoutAnchorY,
    pub leading: LayoutAnchorX,
    pub trailing: LayoutAnchorX,
    pub width: LayoutAnchorDimension,
    pub height: LayoutAnchorDimension,
}

/// The handle a given native instance yields: each anchor descriptor points
/// back at the same underlying view.
pub open spec fn handle_for(objc: Option<u64>) -> WebViewHandle {
    WebViewHandle {
        objc,
        top: LayoutAnchorY { view: objc, side: VerticalSide::Top },
        bottom: LayoutAnchorY { view: objc, side: VerticalSide::Bottom },
        leading: LayoutAnchorX { view: objc, side: HorizontalSide::Leading },
        trailing: LayoutAnchorX { view: objc, side: HorizontalSide::Trailing },
        width: LayoutAnchorDimension { view: objc, dimension: Dimension::Width },
        height: LayoutAnchorDimension { view: objc, dimension: Dimension::Height },
    }
}

impl WebViewHandle {
    /// Wraps a native instance (or the absence of one) in a handle whose
    /// anchors all describe that instance.
    pub fn new(objc: Option<u64>) -> (r: Self)
        ensures
            r == handle_for(objc),
    {
        WebViewHandle {
            objc,
            top: LayoutAnchorY { view: objc, side: VerticalSide::Top },
            bottom: LayoutAnchorY { view: objc, side: VerticalSide::Bottom },
            leading: LayoutAnchorX { view: objc, side: HorizontalSide::Leading },
            trailing: LayoutAnchorX { view: objc, side: HorizontalSide::Trailing },
            width: LayoutAnchorDimension { view: objc, dimension: Dimension::Width },
            height: LayoutAnchorDimension { view: objc, dimension: Dimension::Height },
        }
    }
}

/// A host-language web-view controller, the external collaborator driven by
/// the wrapper. `did_load` is invoked exactly once per bridge, after the
/// native instance exists and before the wrapper is returned to the caller.
pub trait WebViewController {
    fn did_load(&mut self, handle: WebViewHandle);
}

/// A web view: the bridged controller, the handle over the native instance,
/// and the owned bridge token behind the raw pointer stored in the native
/// instance's storage slot.
pub struct WebView<T> {
    pub binding: BridgeToken,
    pub objc_controller: WebViewHandle,
    pub controller: T,
}

impl<T: WebViewController> WebView<T> {
    /// The numeric value of the owned bridge token.
    pub open spec fn binding_raw(self) -> u64 {
        self.binding.spec_raw()
    }

    /// Assembles a web view over a freshly allocated native instance: wraps
    /// the instance in a handle, invokes the controller's load-completion
    /// hook exactly once with that handle, and takes ownership of the bridge
    /// token created when the controller was bound.
    pub fn new(controller: T, view_controller: u64, binding: BridgeToken) -> (w: Self)
        ensures
            w.objc_controller == handle_for(Some(view_controller)),
            w.binding_raw() == binding.spec_raw(),
    {
        let handle = WebViewHandle::new(Some(view_controller));
        let mut c = controller;
        c.did_load(handle);
        WebView { binding, objc_controller: handle, controller: c }
    }

    /// Plans a background-color change on the underlying view; a no-op
    /// without one.
    pub fn set_background_color(&self, color: Color) -> (r: Option<SetBackgroundColor>)
        ensures
            match self.objc_controller.objc {
                Some(v) => r == Some((SetBackgroundColor { view: v, color })),
                None => r is None,
            },
    {
        match self.objc_controller.objc {
            Some(v) => Some(SetBackgroundColor { view: v, color }),
            None => None,
        }
    }

    /// Plans drag-and-drop registration on the underlying view, translating
    /// the typed descriptors to native identifier strings; a no-op without an
    /// underlying view.
    pub fn register_for_dragged_types(&self, types: &Vec<PasteboardType>) -> (r: Option<
        DragRegistration,
    >)
        ensures
            match self.objc_controller.objc {
                Some(v) => r matches Some(d) && d.view == v && d.types@.len() == types@.len()
                    && (forall|i: int|
                    0 <= i < types@.len() ==> (#[trigger] d.types@[i])@ == uti(types@[i])),
                None => r is None,
            },
    {
        match self.objc_controller.objc {
            Some(v) => Some(DragRegistration { view: v, types: translate_drag_types(types) }),
            None => None,
        }
    }

    /// The top anchor of the underlying view.
    pub fn top(&self) -> (r: &LayoutAnchorY)
        ensures
            *r == self.objc_controller.top,
    {
        &self.objc_controller.top
    }

    /// The leading anchor of the underlying view.
    pub fn leading(&self) -> (r: &LayoutAnchorX)
        ensures
            *r == self.objc_controller.leading,
    {
        &self.objc_controller.leading
    }

    /// The trailing anchor of the underlying view.
    pub fn trailing(&self) -> (r: &LayoutAnchorX)
        ensures
            *r == self.objc_controller.trailing,
    {
        &self.objc_controller.trailing
    }

    /// The bottom anchor of the underlying view.
    pub fn bottom(&self) -> (r: &LayoutAnchorY)
        ensures
            *r == self.objc_controller.bottom,
    {
        &self.objc_controller.bottom
    }

    /// The width anchor of the underlying view.
    pub fn width(&self) -> (r: &LayoutAnchorDimension)
        ensures
            *r == self.objc_controller.width,
    {
        &self.objc_controller.width
    }

    /// The height anchor of the underlying view.
    pub fn height(&self) -> (r: &LayoutAnchorDimension)
        ensures
            *r == self.objc_controller.height,
    {
        &self.objc_controller.height
    }

    /// The native object used for handling the view hierarchy.
    pub fn get_backing_node(&self) -> (r: Option<u64>)
        ensures
            r == self.objc_controller.objc,
    {
        self.objc_controller.objc
    }

    /// Tears the web view down, reclaiming its bridge token into the
    /// controller's count exactly once; consuming the wrapper rules out a
    /// second reclaim.
    pub fn teardown(self, controller_ref: &mut ControllerHandle)
        requires
            self.binding_raw() == old(controller_ref).id,
            old(controller_ref).strong >= 2,
        ensures
            final(controller_ref).id == old(controller_ref).id,
            final(controller_ref).strong == old(controller_ref).strong - 1,
    {
        let WebView { binding, objc_controller: _, controller: _ } = self;
        reclaim(controller_ref, binding);
    }
}

} // verus!
