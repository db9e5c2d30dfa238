use easy_paste::classify::{default_priority, select, select_kind};
use easy_paste::event::ChangeEvent;
use easy_paste::payload::{ClipboardPayload, ClipboardReading, ContentKind, RawImage};
use easy_paste::snapshot::ChangeSnapshot;
use easy_paste::watcher::{conclude_persist, observe, Outcome, Strategy};

fn picture(bytes: Vec<u8>) -> RawImage {
    RawImage { width: 1, height: 1, bytes }
}

fn pair(key: &str, value: &str) -> (String, String) {
    (key.to_string(), value.to_string())
}

#[test]
fn file_list_and_text_yield_one_file_event() {
    let reading = ClipboardReading {
        files: Some(vec!["a.txt".to_string()]),
        text: Some("a.txt".to_string()),
        image: None,
    };
    let mut snapshot = ChangeSnapshot::new();
    let outcome = observe(&mut snapshot, reading, &default_priority(), Strategy::Push, false);
    let event = match outcome {
        Outcome::Emit(event) => event,
        other => panic!("expected an event, got {:?}", other),
    };
    assert_eq!(event, ChangeEvent::FilesChanged { paths: vec!["a.txt".to_string()] });
    assert_eq!(
        event.fields(),
        Some(vec![pair("type", "file"), pair("file_path", "[\"a.txt\"]")])
    );
    assert_eq!(snapshot, ChangeSnapshot::new());
}

#[test]
fn image_only_change_is_silent_when_saving_is_off() {
    for strategy in [Strategy::Push, Strategy::Poll] {
        let reading =
            ClipboardReading { files: None, text: None, image: Some(picture(vec![1, 2, 3, 4])) };
        let mut snapshot = ChangeSnapshot::new();
        let outcome = observe(&mut snapshot, reading, &default_priority(), strategy, false);
        assert_eq!(outcome, Outcome::Idle);
        assert_eq!(snapshot, ChangeSnapshot::new());
    }
}

#[test]
fn polled_identical_image_is_reported_once() {
    let order = default_priority();
    let mut snapshot = ChangeSnapshot::new();
    let mut events = Vec::new();
    for _ in 0..2 {
        let reading =
            ClipboardReading { files: None, text: None, image: Some(picture(vec![9, 8, 7, 6])) };
        match observe(&mut snapshot, reading, &order, Strategy::Poll, true) {
            Outcome::Persist(image) => {
                assert_eq!(image, picture(vec![9, 8, 7, 6]));
                let saved = Some(("p.jpg".to_string(), "/tmp/p.jpg".to_string()));
                if let Some(event) = conclude_persist(&mut snapshot, Strategy::Poll, image, saved)
                {
                    events.push(event);
                }
            }
            Outcome::Idle => {}
            Outcome::Emit(event) => panic!("unexpected event {:?}", event),
        }
    }
    assert_eq!(
        events,
        vec![ChangeEvent::ImageChanged {
            file_name: "p.jpg".to_string(),
            file_path: "/tmp/p.jpg".to_string()
        }]
    );
    assert_eq!(snapshot.last_image_bytes, vec![9, 8, 7, 6]);
}

#[test]
fn select_follows_the_given_order() {
    let reading = ClipboardReading {
        files: Some(vec!["a".to_string()]),
        text: Some("t".to_string()),
        image: Some(picture(vec![1])),
    };
    assert_eq!(select_kind(&reading, &default_priority()), Some(ContentKind::FileList));
    let text_first = vec![ContentKind::Text, ContentKind::FileList];
    assert_eq!(select_kind(&reading, &text_first), Some(ContentKind::Text));
    assert_eq!(select(reading.clone(), &text_first), Some(ClipboardPayload::Text("t".to_string())));
    assert_eq!(select(reading, &Vec::new()), None);
}

fn text_reading(text: &str) -> ClipboardReading {
    ClipboardReading { files: None, text: Some(text.to_string()), image: None }
}

#[test]
fn empty_clipboard_reports_nothing() {
    let mut snapshot = ChangeSnapshot::new();
    let order = default_priority();
    assert_eq!(
        observe(&mut snapshot, ClipboardReading::empty(), &order, Strategy::Push, true),
        Outcome::Idle
    );
    let blank = ClipboardReading {
        files: Some(Vec::new()),
        text: Some(String::new()),
        image: Some(picture(Vec::new())),
    };
    assert_eq!(observe(&mut snapshot, blank, &order, Strategy::Poll, true), Outcome::Idle);
    assert_eq!(snapshot, ChangeSnapshot::new());
}

#[test]
fn polled_text_is_reported_once_and_recorded() {
    let order = default_priority();
    let mut snapshot = ChangeSnapshot::new();
    let first = observe(&mut snapshot, text_reading("hello"), &order, Strategy::Poll, false);
    assert_eq!(first, Outcome::Emit(ChangeEvent::TextChanged { content: "hello".to_string() }));
    assert_eq!(snapshot.last_text, "hello");
    let second = observe(&mut snapshot, text_reading("hello"), &order, Strategy::Poll, false);
    assert_eq!(second, Outcome::Idle);
    let third = observe(&mut snapshot, text_reading("world"), &order, Strategy::Poll, false);
    assert_eq!(third, Outcome::Emit(ChangeEvent::TextChanged { content: "world".to_string() }));
    assert_eq!(snapshot.last_text, "world");
    assert!(snapshot.last_files.is_empty());
    assert!(snapshot.last_image_bytes.is_empty());
}

#[test]
fn pushed_text_is_reported_each_time_and_not_recorded() {
    let order = default_priority();
    let mut snapshot = ChangeSnapshot::new();
    for _ in 0..2 {
        let outcome = observe(&mut snapshot, text_reading("same"), &order, Strategy::Push, false);
        assert_eq!(outcome, Outcome::Emit(ChangeEvent::TextChanged { content: "same".to_string() }));
    }
    assert_eq!(snapshot, ChangeSnapshot::new());
}

#[test]
fn polled_file_list_is_compared_in_order() {
    let order = default_priority();
    let mut snapshot = ChangeSnapshot::new();
    let ab = vec!["a".to_string(), "b".to_string()];
    let ba = vec!["b".to_string(), "a".to_string()];
    let read = |paths: &Vec<String>| ClipboardReading {
        files: Some(paths.clone()),
        text: Some("a".to_string()),
        image: None,
    };
    assert_eq!(
        observe(&mut snapshot, read(&ab), &order, Strategy::Poll, false),
        Outcome::Emit(ChangeEvent::FilesChanged { paths: ab.clone() })
    );
    assert_eq!(observe(&mut snapshot, read(&ab), &order, Strategy::Poll, false), Outcome::Idle);
    assert_eq!(
        observe(&mut snapshot, read(&ba), &order, Strategy::Poll, false),
        Outcome::Emit(ChangeEvent::FilesChanged { paths: ba.clone() })
    );
    assert_eq!(snapshot.last_files, ba);
    assert_eq!(snapshot.last_text, "");
}

#[test]
fn unchanged_file_list_suppresses_changed_text() {
    let order = default_priority();
    let mut snapshot = ChangeSnapshot::new();
    let reading = |text: &str| ClipboardReading {
        files: Some(vec!["a.txt".to_string()]),
        text: Some(text.to_string()),
        image: None,
    };
    let first = observe(&mut snapshot, reading("one"), &order, Strategy::Poll, false);
    assert!(matches!(first, Outcome::Emit(ChangeEvent::FilesChanged { .. })));
    let second = observe(&mut snapshot, reading("two"), &order, Strategy::Poll, false);
    assert_eq!(second, Outcome::Idle);
}

#[test]
fn primed_snapshot_keeps_existing_content_silent() {
    let order = default_priority();
    let existing = ClipboardReading {
        files: None,
        text: Some("before".to_string()),
        image: Some(picture(vec![5, 5, 5, 5])),
    };
    let mut snapshot = ChangeSnapshot::prime(existing.clone());
    assert_eq!(snapshot.last_text, "before");
    assert_eq!(snapshot.last_image_bytes, vec![5, 5, 5, 5]);
    assert!(snapshot.last_files.is_empty());
    assert_eq!(observe(&mut snapshot, existing, &order, Strategy::Poll, true), Outcome::Idle);
    let next = observe(&mut snapshot, text_reading("after"), &order, Strategy::Poll, true);
    assert_eq!(next, Outcome::Emit(ChangeEvent::TextChanged { content: "after".to_string() }));
}

#[test]
fn failed_write_leaves_the_picture_to_be_tried_again() {
    let order = default_priority();
    let mut snapshot = ChangeSnapshot::new();
    let reading = || ClipboardReading { files: None, text: None, image: Some(picture(vec![1, 2])) };
    let image = match observe(&mut snapshot, reading(), &order, Strategy::Poll, true) {
        Outcome::Persist(image) => image,
        other => panic!("expected a picture, got {:?}", other),
    };
    assert_eq!(conclude_persist(&mut snapshot, Strategy::Poll, image, None), None);
    assert_eq!(snapshot, ChangeSnapshot::new());
    assert!(matches!(
        observe(&mut snapshot, reading(), &order, Strategy::Poll, true),
        Outcome::Persist(_)
    ));
}

#[test]
fn pushed_picture_is_published_without_a_record() {
    let mut snapshot = ChangeSnapshot::new();
    let saved = Some(("n.jpg".to_string(), "/d/n.jpg".to_string()));
    let event = conclude_persist(&mut snapshot, Strategy::Push, picture(vec![3]), saved);
    assert_eq!(
        event,
        Some(ChangeEvent::ImageChanged {
            file_name: "n.jpg".to_string(),
            file_path: "/d/n.jpg".to_string()
        })
    );
    assert_eq!(snapshot, ChangeSnapshot::new());
}

#[test]
fn snapshot_records_and_recognises_each_kind() {
    let mut snapshot = ChangeSnapshot::new();
    let text = ClipboardPayload::Text("t".to_string());
    let image = ClipboardPayload::Image(picture(vec![7, 7]));
    let files = ClipboardPayload::FileList(vec!["f".to_string()]);
    assert!(!snapshot.has_seen(&text));
    assert!(!snapshot.has_seen(&image));
    assert!(!snapshot.has_seen(&files));
    snapshot.record(&image);
    assert!(snapshot.has_seen(&image));
    assert!(!snapshot.has_seen(&text));
    snapshot.record(&text);
    snapshot.record(&files);
    assert!(snapshot.has_seen(&text));
    assert!(snapshot.has_seen(&files));
    assert!(!snapshot.has_seen(&ClipboardPayload::Image(picture(vec![7, 8]))));
    assert!(!snapshot.has_seen(&ClipboardPayload::FileList(vec!["f".to_string(), "g".to_string()])));
    assert_eq!(text.kind(), ContentKind::Text);
    assert_eq!(image.kind(), ContentKind::Image);
    assert_eq!(files.kind(), ContentKind::FileList);
}

#[test]
fn reading_holds_only_non_empty_representations() {
    let reading = ClipboardReading {
        files: Some(Vec::new()),
        text: Some("t".to_string()),
        image: Some(picture(Vec::new())),
    };
    assert!(!reading.holds(ContentKind::FileList));
    assert!(reading.holds(ContentKind::Text));
    assert!(!reading.holds(ContentKind::Image));
    assert_eq!(reading.clone().into_payload(ContentKind::Image), None);
    assert_eq!(reading.clone().into_payload(ContentKind::FileList), None);
    assert_eq!(
        reading.into_payload(ContentKind::Text),
        Some(ClipboardPayload::Text("t".to_string()))
    );
    let empty = ClipboardReading::empty();
    assert_eq!(empty, ClipboardReading { files: None, text: None, image: None });
    assert_eq!(
        default_priority(),
        vec![ContentKind::FileList, ContentKind::Text, ContentKind::Image]
    );
}
