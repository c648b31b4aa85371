use appkit_bridge::bridge::{bind, ControllerHandle};
use appkit_bridge::pasteboard::PasteboardType;
use appkit_bridge::webview::{
    Color, Dimension, HorizontalSide, SetBackgroundColor, VerticalSide, WebView, WebViewController,
    WebViewHandle,
};

struct RecordingController {
    loads: u32,
    seen: Option<WebViewHandle>,
}

impl WebViewController for RecordingController {
    fn did_load(&mut self, handle: WebViewHandle) {
        self.loads += 1;
        self.seen = Some(handle);
    }
}

fn fresh_webview(shared: &mut ControllerHandle, instance: u64) -> WebView<RecordingController> {
    let token = bind(shared);
    let controller = RecordingController { loads: 0, seen: None };
    WebView::new(controller, instance, token)
}

#[test]
fn new_wraps_instance_and_calls_did_load_once() {
    let mut shared = ControllerHandle::new(0x9000);
    let webview = fresh_webview(&mut shared, 0x42);
    assert_eq!(webview.controller.loads, 1);
    let seen = webview.controller.seen.as_ref().unwrap();
    assert_eq!(seen.objc, Some(0x42));
    assert_eq!(webview.get_backing_node(), Some(0x42));
    webview.teardown(&mut shared);
    assert_eq!(shared.strong, 1);
}

#[test]
fn anchors_describe_the_underlying_view() {
    let mut shared = ControllerHandle::new(0x9000);
    let webview = fresh_webview(&mut shared, 0x42);
    assert_eq!(webview.top().view, Some(0x42));
    assert_eq!(webview.top().side, VerticalSide::Top);
    assert_eq!(webview.bottom().side, VerticalSide::Bottom);
    assert_eq!(webview.leading().view, Some(0x42));
    assert_eq!(webview.leading().side, HorizontalSide::Leading);
    assert_eq!(webview.trailing().side, HorizontalSide::Trailing);
    assert_eq!(webview.width().dimension, Dimension::Width);
    assert_eq!(webview.height().dimension, Dimension::Height);
    assert_eq!(webview.height().view, Some(0x42));
    webview.teardown(&mut shared);
}

#[test]
fn set_background_color_forwards_to_the_view() {
    let mut shared = ControllerHandle::new(0x9000);
    let webview = fresh_webview(&mut shared, 0x42);
    let color = Color { red: 10, green: 20, blue: 30, alpha: 255 };
    let command = webview.set_background_color(color);
    assert_eq!(command, Some(SetBackgroundColor { view: 0x42, color }));
    webview.teardown(&mut shared);
}

#[test]
fn operations_without_native_object_are_no_ops() {
    let mut shared = ControllerHandle::new(0x9000);
    let token = bind(&mut shared);
    let controller = RecordingController { loads: 0, seen: None };
    let webview = WebView {
        binding: token,
        objc_controller: WebViewHandle::new(None),
        controller,
    };
    let color = Color { red: 1, green: 2, blue: 3, alpha: 4 };
    assert_eq!(webview.set_background_color(color), None);
    let types = vec![PasteboardType::Png];
    assert!(webview.register_for_dragged_types(&types).is_none());
    webview.teardown(&mut shared);
}

#[test]
fn drag_registration_goes_through_the_handle() {
    let mut shared = ControllerHandle::new(0x9000);
    let webview = fresh_webview(&mut shared, 0x42);
    let types = vec![PasteboardType::PlainText, PasteboardType::Url];
    let reg = webview.register_for_dragged_types(&types).unwrap();
    assert_eq!(reg.view, 0x42);
    assert_eq!(reg.types, vec!["public.utf8-plain-text", "public.url"]);
    webview.teardown(&mut shared);
}
