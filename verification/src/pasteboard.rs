//! Typed pasteboard-type descriptors and their translation to the native
//! uniform type identifier strings that drag-and-drop registration hands to
//! the runtime.

use vstd::prelude::*;

verus! {

/// A typed descriptor of a pasteboard content type.
#[derive(Clone, Copy, Debug, PartialEq, Eq, Structural)]
pub enum PasteboardType {
    Url,
    FileUrl,
    Html,
    Pdf,
    Png,
    Rtf,
    Tiff,
    PlainText,
}

/// The uniform type identifier a descriptor translates to.
pub open spec fn uti(t: PasteboardType) -> Seq<char> {
    match t {
        PasteboardType::Url => "public.url"@,
        PasteboardType::FileUrl => "public.file-url"@,
        PasteboardType::Html => "public.html"@,
        PasteboardType::Pdf => "com.adobe.pdf"@,
        PasteboardType::Png => "public.png"@,
        PasteboardType::Rtf => "public.rtf"@,
        PasteboardType::Tiff => "public.tiff"@,
        PasteboardType::PlainText => "public.utf8-plain-text"@,
    }
}

impl PasteboardType {
    /// Translates the descriptor to its uniform type identifier.
    pub fn to_uti(&self) -> (r: String)
        ensures
            r@ == uti(*self),
    {
        match self {
            PasteboardType::Url => "public.url".to_owned(),
            PasteboardType::FileUrl => "public.file-url".to_owned(),
            PasteboardType::Html => "public.html".to_owned(),
            PasteboardType::Pdf => "com.adobe.pdf".to_owned(),
            PasteboardType::Png => "public.png".to_owned(),
            PasteboardType::Rtf => "public.rtf".to_owned(),
            PasteboardType::Tiff => "public.tiff".to_owned(),
            PasteboardType::PlainText => "public.utf8-plain-text".to_owned(),
        }
    }
}

/// A drag-and-drop registration ready to be forwarded to the runtime: the
/// view instance to register on and the translated type identifier strings.
pub struct DragRegistration {
    pub view: u64,
    pub types: Vec<String>,
}

/// Translates a set of typed descriptors to their native identifier strings,
/// in order.
pub fn translate_drag_types(types: &Vec<PasteboardType>) -> (r: Vec<String>)
    ensures
        r@.len() == types@.len(),
        forall|i: int| 0 <= i < types@.len() ==> (#[trigger] r@[i])@ == uti(types@[i]),
{
    let mut out: Vec<String> = Vec::new();
    let mut i: usize = 0;
    while i < types.len()
        invariant
            i <= types@.len(),
            out@.len() == i,
            forall|j: int| 0 <= j < i ==> (#[trigger] out@[j])@ == uti(types@[j]),
        decreases types@.len() - i,
    {
        out.push(types[i].to_uti());
        i = i + 1;
    }
    out
}

} // verus!
