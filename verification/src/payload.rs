//! What a clipboard holds at one moment, and the one representation that is
//! reported for it.

use vstd::prelude::*;
use crate::text::texts;

verus! {

/// A decoded picture: its size in pixels and its RGBA bytes.
#[derive(Debug, Clone, PartialEq, Eq)]
pub struct RawImage {
    pub width: u32,
    pub height: u32,
    pub bytes: Vec<u8>,
}

/// Mathematical value of a [`RawImage`].
pub struct ImageView {
    pub width: nat,
    pub height: nat,
    pub bytes: Seq<u8>,
}

impl View for RawImage {
    type V = ImageView;

    open spec fn view(&self) -> ImageView {
        ImageView { width: self.width as nat, height: self.height as nat, bytes: self.bytes@ }
    }
}

/// The three kinds of content a clipboard can hold at once.
#[derive(Debug, Clone, Copy, PartialEq, Eq, Structural)]
pub enum ContentKind {
    FileList,
    Text,
    Image,
}

/// The single representation picked out of a reading.
#[derive(Debug, Clone, PartialEq, Eq)]
pub enum ClipboardPayload {
    Text(String),
    Image(RawImage),
    FileList(Vec<String>),
}

/// Mathematical value of a [`ClipboardPayload`].
pub enum PayloadView {
    Text(Seq<char>),
    Image(ImageView),
    FileList(Seq<Seq<char>>),
}

impl View for ClipboardPayload {
    type V = PayloadView;

    open spec fn view(&self) -> PayloadView {
        match self {
            ClipboardPayload::Text(t) => PayloadView::Text(t@),
            ClipboardPayload::Image(i) => PayloadView::Image(i@),
            ClipboardPayload::FileList(p) => PayloadView::FileList(texts(p@)),
        }
    }
}

impl PayloadView {
    /// The kind of content this payload carries.
    pub open spec fn kind(self) -> ContentKind {
        match self {
            PayloadView::Text(_) => ContentKind::Text,
            PayloadView::Image(_) => ContentKind::Image,
            PayloadView::FileList(_) => ContentKind::FileList,
        }
    }
}

impl ClipboardPayload {
    /// The kind of content this payload carries.
    pub fn kind(&self) -> (k: ContentKind)
        ensures
            k == self@.kind(),
    {
        match self {
            ClipboardPayload::Text(_) => ContentKind::Text,
            ClipboardPayload::Image(_) => ContentKind::Image,
            ClipboardPayload::FileList(_) => ContentKind::FileList,
        }
    }
}

/// One momentary read of the clipboard: each representation is `None` where the
/// clipboard holds nothing of that kind.
#[derive(Debug, Clone, PartialEq, Eq)]
pub struct ClipboardReading {
    pub files: Option<Vec<String>>,
    pub text: Option<String>,
    pub image: Option<RawImage>,
}

/// Mathematical value of a [`ClipboardReading`].
pub struct ReadingView {
    pub files: Option<Seq<Seq<char>>>,
    pub text: Option<Seq<char>>,
    pub image: Option<ImageView>,
}

impl View for ClipboardReading {
    type V = ReadingView;

    open spec fn view(&self) -> ReadingView {
        ReadingView {
            files: match self.files {
                Some(p) => Some(texts(p@)),
                None => None,
            },
            text: match self.text {
                Some(t) => Some(t@),
                None => None,
            },
            image: match self.image {
                Some(i) => Some(i@),
                None => None,
            },
        }
    }
}

impl ReadingView {
    /// Whether the reading holds a non-empty representation of `kind`: a list
    /// with at least one path, a text with at least one character, a picture
    /// with at least one byte.
    pub open spec fn holds(self, kind: ContentKind) -> bool {
        match kind {
            ContentKind::FileList => self.files matches Some(p) && p.len() > 0,
            ContentKind::Text => self.text matches Some(t) && t.len() > 0,
            ContentKind::Image => self.image matches Some(i) && i.bytes.len() > 0,
        }
    }

    /// The representation of `kind`, read as a payload. Meaningful where
    /// `holds(kind)`.
    pub open spec fn payload(self, kind: ContentKind) -> PayloadView {
        match kind {
            ContentKind::FileList => PayloadView::FileList(self.files.unwrap()),
            ContentKind::Text => PayloadView::Text(self.text.unwrap()),
            ContentKind::Image => PayloadView::Image(self.image.unwrap()),
        }
    }
}

impl ClipboardReading {
    /// A reading of an empty clipboard.
    pub fn empty() -> (r: ClipboardReading)
        ensures
            r@ == (ReadingView { files: None, text: None, image: None }),
    {
        ClipboardReading { files: None, text: None, image: None }
    }

    /// Whether the reading holds a non-empty representation of `kind`.
    pub fn holds(&self, kind: ContentKind) -> (present: bool)
        ensures
            present == self@.holds(kind),
    {
        match kind {
            ContentKind::FileList => match &self.files {
                Some(p) => {
                    assert(texts(p@).len() == p@.len());
                    p.len() > 0
                },
                None => false,
            },
            ContentKind::Text => match &self.text {
                Some(t) => !t.as_str().is_empty(),
                None => false,
            },
            ContentKind::Image => match &self.image {
                Some(i) => i.bytes.len() > 0,
                None => false,
            },
        }
    }

    /// Takes the representation of `kind` out of the reading, where it holds a
    /// non-empty one.
    pub fn into_payload(self, kind: ContentKind) -> (p: Option<ClipboardPayload>)
        ensures
            self@.holds(kind) ==> (p matches Some(chosen) && chosen@ == self@.payload(kind)),
            !self@.holds(kind) ==> p is None,
    {
        if !self.holds(kind) {
            return None;
        }
        match kind {
            ContentKind::FileList => Some(ClipboardPayload::FileList(self.files.unwrap())),
            ContentKind::Text => Some(ClipboardPayload::Text(self.text.unwrap())),
            ContentKind::Image => Some(ClipboardPayload::Image(self.image.unwrap())),
        }
    }
}

} // verus!
