//! The content that was reported last, per kind.
//!
//! A watcher that polls the clipboard sees the same content on every tick. The
//! snapshot is what lets it report a content once.

use vstd::prelude::*;
use crate::payload::{ClipboardPayload, ClipboardReading, PayloadView, ReadingView};
use crate::text::{bytes_equal, copy_bytes, copy_list, lists_equal, texts};

verus! {

/// The last content seen of each kind. All three are empty in a new snapshot.
#[derive(Debug, Clone, PartialEq, Eq)]
pub struct ChangeSnapshot {
    pub last_text: String,
    pub last_image_bytes: Vec<u8>,
    pub last_files: Vec<String>,
}

/// Mathematical value of a [`ChangeSnapshot`].
pub struct SnapshotView {
    pub last_text: Seq<char>,
    pub last_image_bytes: Seq<u8>,
    pub last_files: Seq<Seq<char>>,
}

impl View for ChangeSnapshot {
    type V = SnapshotView;

    open spec fn view(&self) -> SnapshotView {
        SnapshotView {
            last_text: self.last_text@,
            last_image_bytes: self.last_image_bytes@,
            last_files: texts(self.last_files@),
        }
    }
}

impl SnapshotView {
    /// The snapshot in which nothing has been seen.
    pub open spec fn empty() -> SnapshotView {
        SnapshotView { last_text: Seq::empty(), last_image_bytes: Seq::empty(), last_files: Seq::empty() }
    }

    /// The snapshot taken of a reading before watching starts: each kind holds
    /// what the reading holds of it, and stays empty where it holds nothing.
    pub open spec fn primed(reading: ReadingView) -> SnapshotView {
        SnapshotView {
            last_text: match reading.text {
                Some(t) => t,
                None => Seq::empty(),
            },
            last_image_bytes: match reading.image {
                Some(i) => i.bytes,
                None => Seq::empty(),
            },
            last_files: match reading.files {
                Some(p) => p,
                None => Seq::empty(),
            },
        }
    }

    /// Whether `payload` is what was last seen of its kind: the same string
    /// for text, the same bytes for an image, the same paths in the same order
    /// for a file list.
    pub open spec fn has_seen(self, payload: PayloadView) -> bool {
        match payload {
            PayloadView::Text(t) => self.last_text == t,
            PayloadView::Image(i) => self.last_image_bytes == i.bytes,
            PayloadView::FileList(p) => self.last_files == p,
        }
    }

    /// The snapshot after `payload` was reported: the entry of its kind holds
    /// it, the other two are as before.
    pub open spec fn record(self, payload: PayloadView) -> SnapshotView {
        match payload {
            PayloadView::Text(t) => SnapshotView { last_text: t, ..self },
            PayloadView::Image(i) => SnapshotView { last_image_bytes: i.bytes, ..self },
            PayloadView::FileList(p) => SnapshotView { last_files: p, ..self },
        }
    }
}

impl ChangeSnapshot {
    /// A snapshot in which nothing has been seen.
    pub fn new() -> (s: ChangeSnapshot)
        ensures
            s@ == SnapshotView::empty(),
    {
        let s = ChangeSnapshot {
            last_text: String::new(),
            last_image_bytes: Vec::new(),
            last_files: Vec::new(),
        };
        assert(texts(s.last_files@) =~= Seq::empty());
        s
    }

    /// The snapshot to start watching with, taken of what the clipboard holds
    /// at that moment, so that this content is not reported as a change.
    pub fn prime(reading: ClipboardReading) -> (s: ChangeSnapshot)
        ensures
            s@ == SnapshotView::primed(reading@),
    {
        let last_text = match reading.text {
            Some(t) => t,
            None => String::new(),
        };
        let last_image_bytes = match reading.image {
            Some(i) => i.bytes,
            None => Vec::new(),
        };
        let last_files = match reading.files {
            Some(p) => p,
            None => {
                let none: Vec<String> = Vec::new();
                assert(texts(none@) =~= Seq::empty());
                none
            },
        };
        ChangeSnapshot { last_text, last_image_bytes, last_files }
    }

    /// Whether `payload` is what was last seen of its kind.
    pub fn has_seen(&self, payload: &ClipboardPayload) -> (seen: bool)
        ensures
            seen == self@.has_seen(payload@),
    {
        match payload {
            ClipboardPayload::Text(t) => self.last_text == *t,
            ClipboardPayload::Image(i) => bytes_equal(&self.last_image_bytes, &i.bytes),
            ClipboardPayload::FileList(p) => lists_equal(&self.last_files, p),
        }
    }

    /// Stores `payload` as the last content seen of its kind.
    pub fn record(&mut self, payload: &ClipboardPayload)
        ensures
            final(self)@ == old(self)@.record(payload@),
    {
        match payload {
            ClipboardPayload::Text(t) => {
                self.last_text = t.clone();
            },
            ClipboardPayload::Image(i) => {
                self.last_image_bytes = copy_bytes(&i.bytes);
            },
            ClipboardPayload::FileList(p) => {
                self.last_files = copy_list(p);
            },
        }
    }
}

} // verus!
