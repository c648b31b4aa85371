use std::cell::Cell;

use appkit_bridge::bridge::{bind, ControllerHandle};
use appkit_bridge::pasteboard::PasteboardType;
use appkit_bridge::view::{ViewController, ViewHandle, ViewInner};

struct CountingController {
    loads: Cell<u32>,
}

impl ViewController for CountingController {
    fn did_load(&self) {
        self.loads.set(self.loads.get() + 1);
    }
}

#[test]
fn unconfigured_view_has_no_handle() {
    let view = ViewHandle::default();
    assert_eq!(view.get_handle(), None);
}

#[test]
fn unconfigured_view_ignores_drag_registration() {
    let view = ViewHandle::default();
    let types = vec![PasteboardType::Url];
    assert!(view.register_for_dragged_types(&types).is_none());
}

#[test]
fn configure_associates_and_calls_did_load_once() {
    let mut shared = ControllerHandle::new(0x1234);
    let token = bind(&mut shared);
    let controller = CountingController { loads: Cell::new(0) };
    let mut view = ViewHandle::default();
    view.configure(&controller, 0xA0, 0xB0, token);
    assert_eq!(controller.loads.get(), 1);
    assert_eq!(view.get_handle(), Some(0xA0));
    view.teardown(&mut shared);
    assert_eq!(shared.strong, 1);
}

#[test]
fn drag_registration_translates_types() {
    let mut shared = ControllerHandle::new(0x1234);
    let token = bind(&mut shared);
    let controller = CountingController { loads: Cell::new(0) };
    let mut view = ViewHandle::default();
    view.configure(&controller, 0xA0, 0xB0, token);
    let types = vec![
        PasteboardType::Url,
        PasteboardType::FileUrl,
        PasteboardType::Html,
        PasteboardType::Pdf,
        PasteboardType::Png,
        PasteboardType::Rtf,
        PasteboardType::Tiff,
        PasteboardType::PlainText,
    ];
    let reg = view.register_for_dragged_types(&types).unwrap();
    assert_eq!(reg.view, 0xB0);
    assert_eq!(
        reg.types,
        vec![
            "public.url",
            "public.file-url",
            "public.html",
            "com.adobe.pdf",
            "public.png",
            "public.rtf",
            "public.tiff",
            "public.utf8-plain-text",
        ]
    );
    view.teardown(&mut shared);
}

#[test]
fn view_inner_records_both_instances() {
    let mut shared = ControllerHandle::new(0x4321);
    let token = bind(&mut shared);
    let mut inner = ViewInner::default();
    inner.configure(0xC0, 0xD0, token);
    let association = inner.controller.as_ref().unwrap();
    assert_eq!(association.view_controller, 0xC0);
    assert_eq!(association.view, 0xD0);
    assert_eq!(association.token.raw(), 0x4321);
    let types = vec![PasteboardType::Html];
    let reg = inner.register_for_dragged_types(&types).unwrap();
    assert_eq!(reg.view, 0xD0);
    assert_eq!(reg.types, vec!["public.html"]);
}

#[test]
fn teardown_without_association_changes_nothing() {
    let mut shared = ControllerHandle::new(0x1234);
    let view = ViewHandle::default();
    view.teardown(&mut shared);
    assert_eq!(shared.strong, 1);
}
