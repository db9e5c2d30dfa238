//! The decisions of one tick of the watcher.
//!
//! The caller owns the clipboard, the disk and the channel to its subscribers.
//! On each detected change it hands the engine what it read and does what the
//! engine answers: nothing, publish an event, or write a picture and report
//! back how that went.

use vstd::prelude::*;
use crate::classify::{default_order, first_held, lemma_first_held, select};
use crate::event::{ChangeEvent, EventView};
use crate::naming::{image_file_name, next_image_name, IMAGE_EXTENSION, IMAGE_PREFIX, TAG_LENGTH};
use crate::payload::{
    ClipboardPayload, ClipboardReading, ContentKind, ImageView, PayloadView, RawImage, ReadingView,
};
use crate::snapshot::{ChangeSnapshot, SnapshotView};
use crate::text::copy_bytes;

verus! {

/// How the watcher learns of a change.
#[derive(Debug, Clone, Copy, PartialEq, Eq, Structural)]
pub enum Strategy {
    /// The system signals each change. What is read on a signal is new, so
    /// nothing is compared and the snapshot is left alone.
    Push,
    /// The clipboard is read at intervals. A content is reported only where it
    /// differs from the snapshot, which then takes it up.
    Poll,
}

/// What the caller is to do after a reading.
#[derive(Debug, Clone, PartialEq, Eq)]
pub enum Outcome {
    /// Nothing to report.
    Idle,
    /// Publish this event.
    Emit(ChangeEvent),
    /// Write this picture to disk, then report the result to
    /// [`conclude_persist`].
    Persist(RawImage),
}

/// Mathematical value of an [`Outcome`].
pub enum OutcomeView {
    Idle,
    Emit(EventView),
    Persist(ImageView),
}

impl View for Outcome {
    type V = OutcomeView;

    open spec fn view(&self) -> OutcomeView {
        match self {
            Outcome::Idle => OutcomeView::Idle,
            Outcome::Emit(e) => OutcomeView::Emit(e@),
            Outcome::Persist(i) => OutcomeView::Persist(i@),
        }
    }
}

/// The snapshot after `payload` was reported: a polling watcher records it, a
/// signalled one keeps no record.
pub open spec fn after_report(
    snapshot: SnapshotView,
    strategy: Strategy,
    payload: PayloadView,
) -> SnapshotView {
    if strategy == Strategy::Poll {
        snapshot.record(payload)
    } else {
        snapshot
    }
}

/// What a reading leads to, and the snapshot after it.
///
/// The representation to report is the first of `order` that the reading
/// holds. A polling watcher drops it where the snapshot has seen it. Text and
/// file lists are published at once. A picture is handed out to be written
/// where `save_images` is set, and dropped where it is not; either way the
/// snapshot is left as it is, since nothing was reported yet.
pub open spec fn step(
    snapshot: SnapshotView,
    reading: ReadingView,
    order: Seq<ContentKind>,
    strategy: Strategy,
    save_images: bool,
) -> (OutcomeView, SnapshotView) {
    match first_held(reading, order) {
        None => (OutcomeView::Idle, snapshot),
        Some(kind) => {
            let payload = reading.payload(kind);
            if strategy == Strategy::Poll && snapshot.has_seen(payload) {
                (OutcomeView::Idle, snapshot)
            } else {
                match payload {
                    PayloadView::Text(t) => (
                        OutcomeView::Emit(EventView::TextChanged { content: t }),
                        after_report(snapshot, strategy, payload),
                    ),
                    PayloadView::FileList(p) => (
                        OutcomeView::Emit(EventView::FilesChanged { paths: p }),
                        after_report(snapshot, strategy, payload),
                    ),
                    PayloadView::Image(i) => if save_images {
                        (OutcomeView::Persist(i), snapshot)
                    } else {
                        (OutcomeView::Idle, snapshot)
                    },
                }
            }
        },
    }
}

/// What the attempt to write a picture leads to, and the snapshot after it.
///
/// `saved` is the name and the path of the file that was written, `None`
/// where writing failed. A written picture is published and, by a polling
/// watcher, recorded. A failed one is dropped and the snapshot is left as it
/// is, so that the same picture is tried again when it is next read.
pub open spec fn persisted(
    snapshot: SnapshotView,
    strategy: Strategy,
    image: ImageView,
    saved: Option<(Seq<char>, Seq<char>)>,
) -> (Option<EventView>, SnapshotView) {
    match saved {
        Some((file_name, file_path)) => (
            Some(EventView::ImageChanged { file_name, file_path }),
            after_report(snapshot, strategy, PayloadView::Image(image)),
        ),
        None => (None, snapshot),
    }
}

/// Decides what to do with a reading and brings the snapshot up to date.
pub fn observe(
    snapshot: &mut ChangeSnapshot,
    reading: ClipboardReading,
    order: &Vec<ContentKind>,
    strategy: Strategy,
    save_images: bool,
) -> (outcome: Outcome)
    ensures
        (outcome@, final(snapshot)@) == step(
            old(snapshot)@,
            reading@,
            order@,
            strategy,
            save_images,
        ),
{
    let payload = match select(reading, order) {
        Some(p) => p,
        None => {
            return Outcome::Idle;
        },
    };
    let polling = match strategy {
        Strategy::Poll => true,
        Strategy::Push => false,
    };
    if polling && snapshot.has_seen(&payload) {
        return Outcome::Idle;
    }
    match payload {
        ClipboardPayload::Image(image) => {
            if save_images {
                Outcome::Persist(image)
            } else {
                Outcome::Idle
            }
        },
        ClipboardPayload::Text(content) => {
            if polling {
                snapshot.last_text = content.clone();
            }
            Outcome::Emit(ChangeEvent::TextChanged { content })
        },
        ClipboardPayload::FileList(paths) => {
            if polling {
                snapshot.last_files = crate::text::copy_list(&paths);
            }
            Outcome::Emit(ChangeEvent::FilesChanged { paths })
        },
    }
}

/// Takes the result of writing the picture that [`observe`] handed out: the
/// event to publish, if the picture was written, and the snapshot brought up
/// to date.
pub fn conclude_persist(
    snapshot: &mut ChangeSnapshot,
    strategy: Strategy,
    image: RawImage,
    saved: Option<(String, String)>,
) -> (event: Option<ChangeEvent>)
    ensures
        ({
            let saved_view = match saved {
                Some(pair) => Some((pair.0@, pair.1@)),
                None => None,
            };
            let expected = persisted(old(snapshot)@, strategy, image@, saved_view);
            &&& final(snapshot)@ == expected.1
            &&& match expected.0 {
                Some(e) => event matches Some(got) && got@ == e,
                None => event is None,
            }
        }),
{
    match saved {
        Some((file_name, file_path)) => {
            match strategy {
                Strategy::Poll => {
                    snapshot.last_image_bytes = image.bytes;
                },
                Strategy::Push => {},
            }
            Some(ChangeEvent::ImageChanged { file_name, file_path })
        },
        None => None,
    }
}

/// Whether `event` is the event that `expected` describes, or none where it
/// describes none.
pub open spec fn event_is(event: Option<ChangeEvent>, expected: Option<EventView>) -> bool {
    match expected {
        Some(e) => event matches Some(got) && got@ == e,
        None => event is None,
    }
}

/// What the caller's attempt to write a picture came to: the name and the path
/// of the file where it answered with a path, nothing where it answered with
/// none.
pub open spec fn saved_as(file_name: Seq<char>, answer: Option<String>) -> Option<
    (Seq<char>, Seq<char>),
> {
    match answer {
        Some(file_path) => Some((file_name, file_path@)),
        None => None,
    }
}

/// Deals with one detected change from the reading to the event: decides what
/// the reading leads to, has a chosen picture written under a fresh name, and
/// answers with the event to publish, if there is one.
///
/// `save` is handed the picture and the name of its file. It writes the file
/// into the directory for pictures and answers with the path it wrote, or with
/// `None` where it could not. It is called only for a picture that is to be
/// saved.
///
/// Where the reading leads to `Idle` there is no event. Where it leads to an
/// event, that event is the answer. Where it leads to a picture, `save` was
/// handed that picture and a name made of the prefix, a time, a tag and the
/// extension, and the answer and the snapshot are what follows from what
/// `save` answered: the event with that name and the path and, for a polling
/// watcher, a record of the picture; or no event and no record.
pub fn handle_change<F: FnOnce(RawImage, String) -> Option<String>>(
    snapshot: &mut ChangeSnapshot,
    reading: ClipboardReading,
    order: &Vec<ContentKind>,
    strategy: Strategy,
    save_images: bool,
    save: F,
) -> (event: Option<ChangeEvent>)
    requires
        forall|image: RawImage, file_name: String| call_requires(save, (image, file_name)),
    ensures
        ({
            let first = step(old(snapshot)@, reading@, order@, strategy, save_images);
            match first.0 {
                OutcomeView::Idle => event is None && final(snapshot)@ == first.1,
                OutcomeView::Emit(e) => {
                    &&& event matches Some(got) && got@ == e
                    &&& final(snapshot)@ == first.1
                },
                OutcomeView::Persist(image) => exists|
                    stamp: Seq<char>,
                    tag: Seq<char>,
                    handed: RawImage,
                    file_name: String,
                    answer: Option<String>,
                |
                    #![trigger
                        image_file_name(IMAGE_PREFIX@, stamp, tag, IMAGE_EXTENSION@),
                        call_ensures(save, (handed, file_name), answer),
                    ]
                    {
                        let after = persisted(
                            first.1,
                            strategy,
                            image,
                            saved_as(file_name@, answer),
                        );
                        &&& tag.len() == TAG_LENGTH
                        &&& handed@ == image
                        &&& file_name@ == image_file_name(
                            IMAGE_PREFIX@,
                            stamp,
                            tag,
                            IMAGE_EXTENSION@,
                        )
                        &&& call_ensures(save, (handed, file_name), answer)
                        &&& event_is(event, after.0)
                        &&& final(snapshot)@ == after.1
                    },
            }
        }),
{
    let ghost first = step(snapshot@, reading@, order@, strategy, save_images);
    match observe(snapshot, reading, order, strategy, save_images) {
        Outcome::Idle => None,
        Outcome::Emit(event) => Some(event),
        Outcome::Persist(image) => {
            assert(first.0 == OutcomeView::Persist(image@));
            let file_name = match next_image_name(IMAGE_PREFIX, IMAGE_EXTENSION) {
                Some(n) => n,
                // There always is a name.
                None => {
                    return None;
                },
            };
            let ghost (stamp, tag) = choose|stamp: Seq<char>, tag: Seq<char>|
                tag.len() == TAG_LENGTH && file_name@ == #[trigger] image_file_name(
                    IMAGE_PREFIX@,
                    stamp,
                    tag,
                    IMAGE_EXTENSION@,
                );
            let kept = RawImage {
                width: image.width,
                height: image.height,
                bytes: copy_bytes(&image.bytes),
            };
            let shown = file_name.clone();
            let ghost handed = image;
            let ghost handed_name = file_name;
            let answer = save(image, file_name);
            let ghost answered = answer;
            assert(call_ensures(save, (handed, handed_name), answered));
            let saved = match answer {
                Some(file_path) => Some((shown, file_path)),
                None => None,
            };
            let event = conclude_persist(snapshot, strategy, kept, saved);
            assert(event_is(
                event,
                persisted(first.1, strategy, handed@, saved_as(handed_name@, answered)).0,
            ));
            event
        },
    }
}

/// A file list takes precedence: with the default order, whatever text or
/// picture the clipboard holds beside a non-empty file list, a signalled
/// watcher publishes the file list and nothing else.
pub proof fn law_file_list_first(
    snapshot: SnapshotView,
    reading: ReadingView,
    save_images: bool,
)
    requires
        reading.holds(ContentKind::FileList),
    ensures
        step(snapshot, reading, default_order(), Strategy::Push, save_images) == (
            OutcomeView::Emit(EventView::FilesChanged { paths: reading.files.unwrap() }),
            snapshot,
        ),
{
    lemma_first_held(reading, default_order());
}

/// The same for a polling watcher, where the file list is not the one seen
/// last: it is published, and recorded.
pub proof fn law_file_list_first_polled(
    snapshot: SnapshotView,
    reading: ReadingView,
    save_images: bool,
)
    requires
        reading.holds(ContentKind::FileList),
        snapshot.last_files != reading.files.unwrap(),
    ensures
        step(snapshot, reading, default_order(), Strategy::Poll, save_images) == (
            OutcomeView::Emit(EventView::FilesChanged { paths: reading.files.unwrap() }),
            snapshot.record(PayloadView::FileList(reading.files.unwrap())),
        ),
{
    lemma_first_held(reading, default_order());
}

/// With saving switched off a picture is never reported: whenever a picture
/// is the representation chosen, the answer is `Idle` and the snapshot stays
/// as it is.
pub proof fn law_unsaved_image_is_silent(
    snapshot: SnapshotView,
    reading: ReadingView,
    order: Seq<ContentKind>,
    strategy: Strategy,
)
    requires
        first_held(reading, order) == Some(ContentKind::Image),
    ensures
        step(snapshot, reading, order, strategy, false) == (OutcomeView::Idle, snapshot),
{
}

/// A polling watcher reports a picture once: after a picture was handed out,
/// written and recorded, the same reading leads to `Idle`.
pub proof fn law_same_image_once(
    snapshot: SnapshotView,
    reading: ReadingView,
    order: Seq<ContentKind>,
    file_name: Seq<char>,
    file_path: Seq<char>,
)
    requires
        first_held(reading, order) == Some(ContentKind::Image),
        !snapshot.has_seen(reading.payload(ContentKind::Image)),
    ensures
        ({
            let image = reading.image.unwrap();
            let first = step(snapshot, reading, order, Strategy::Poll, true);
            let written = persisted(first.1, Strategy::Poll, image, Some((file_name, file_path)));
            let second = step(written.1, reading, order, Strategy::Poll, true);
            &&& first.0 == OutcomeView::Persist(image)
            &&& written.0 == Some(EventView::ImageChanged { file_name, file_path })
            &&& second == (OutcomeView::Idle, written.1)
        }),
{
}

/// A polling watcher reports nothing twice: once a reading was taken up, the
/// same reading leads to `Idle` and leaves the snapshot as it is, unless it
/// chose a picture that still waits to be written.
pub proof fn law_poll_reports_once(
    snapshot: SnapshotView,
    reading: ReadingView,
    order: Seq<ContentKind>,
    save_images: bool,
)
    requires
        first_held(reading, order) != Some(ContentKind::Image),
    ensures
        ({
            let first = step(snapshot, reading, order, Strategy::Poll, save_images);
            step(first.1, reading, order, Strategy::Poll, save_images) == (
                OutcomeView::Idle,
                first.1,
            )
        }),
{
    lemma_first_held(reading, order);
}

/// What the clipboard held when watching started is not reported: a polling
/// watcher whose snapshot was primed with a reading answers `Idle` to that
/// same reading.
pub proof fn law_primed_is_silent(
    reading: ReadingView,
    order: Seq<ContentKind>,
    save_images: bool,
)
    ensures
        step(SnapshotView::primed(reading), reading, order, Strategy::Poll, save_images) == (
            OutcomeView::Idle,
            SnapshotView::primed(reading),
        ),
{
    lemma_first_held(reading, order);
}

/// A kind that was not reported keeps its snapshot entry: a step changes at
/// most the entry of the kind that it chose.
pub proof fn law_other_kinds_untouched(
    snapshot: SnapshotView,
    reading: ReadingView,
    order: Seq<ContentKind>,
    strategy: Strategy,
    save_images: bool,
)
    ensures
        ({
            let next = step(snapshot, reading, order, strategy, save_images).1;
            let chosen = first_held(reading, order);
            &&& chosen != Some(ContentKind::Text) ==> next.last_text == snapshot.last_text
            &&& chosen != Some(ContentKind::FileList) ==> next.last_files == snapshot.last_files
            &&& next.last_image_bytes == snapshot.last_image_bytes
        }),
{
}

} // verus!
