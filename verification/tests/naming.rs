use easy_paste::classify::default_priority;
use easy_paste::event::ChangeEvent;
use easy_paste::naming::{
    file_name, name_from_stamp, next_image_name, IMAGE_EXTENSION, IMAGE_PREFIX, STAMP_PATTERN,
    TAG_LENGTH,
};
use easy_paste::payload::{ClipboardReading, RawImage};
use easy_paste::snapshot::ChangeSnapshot;
use easy_paste::watcher::{handle_change, Strategy};

#[test]
fn file_name_joins_its_parts() {
    assert_eq!(
        file_name("EasyPaste", "2024-01-02_03-04-05-006", "tag", "jpg"),
        "EasyPaste_2024-01-02_03-04-05-006-tag.jpg"
    );
    assert_eq!(file_name("", "", "", ""), "_-.");
}

#[test]
fn name_follows_the_stamp_that_came_back() {
    assert_eq!(
        name_from_stamp("EasyPaste", Some("2024-01-02_03-04-05-006".to_string()), "tag", "jpg"),
        Some("EasyPaste_2024-01-02_03-04-05-006-tag.jpg".to_string())
    );
    assert_eq!(name_from_stamp("EasyPaste", Some(String::new()), "tag", "jpg"),
        Some("EasyPaste_-tag.jpg".to_string()));
    assert_eq!(name_from_stamp("EasyPaste", None, "tag", "jpg"), None);
}

#[test]
fn naming_constants() {
    assert_eq!(IMAGE_PREFIX, "EasyPaste");
    assert_eq!(IMAGE_EXTENSION, "jpg");
    assert_eq!(STAMP_PATTERN, "%Y-%m-%d_%H-%M-%S-%3f");
    assert_eq!(TAG_LENGTH, 36);
}

fn check_shape(name: &str) {
    assert!(name.starts_with("EasyPaste_"), "{}", name);
    assert!(name.ends_with(".jpg"), "{}", name);
    assert!(!name.contains('%'), "{}", name);
    let inner = &name["EasyPaste_".len()..name.len() - ".jpg".len()];
    assert!(inner.len() > TAG_LENGTH + 1, "{}", name);
    let (stamp, rest) = inner.split_at(inner.len() - TAG_LENGTH - 1);
    assert!(rest.starts_with('-'), "{}", name);
    let tag = &rest[1..];
    assert_eq!(tag.chars().count(), TAG_LENGTH);
    assert!(tag.chars().all(|c| c == '-' || c.is_ascii_hexdigit()), "{}", name);
    assert!(stamp.chars().all(|c| c == '-' || c == '_' || c.is_ascii_digit()), "{}", name);
    assert!(stamp.chars().filter(|c| c.is_ascii_digit()).count() >= 17, "{}", name);
}

#[test]
fn next_image_name_has_time_and_tag() {
    let name = next_image_name(IMAGE_PREFIX, IMAGE_EXTENSION).expect("a name");
    check_shape(&name);
}

#[test]
fn hundred_rapid_names_are_distinct() {
    let mut names = Vec::new();
    for _ in 0..100 {
        names.push(next_image_name(IMAGE_PREFIX, IMAGE_EXTENSION).expect("a name"));
    }
    for i in 0..names.len() {
        for j in 0..i {
            assert_ne!(names[i], names[j]);
        }
    }
}

#[test]
fn hundred_rapid_pictures_get_distinct_files() {
    let order = default_priority();
    let mut snapshot = ChangeSnapshot::new();
    let mut written: Vec<String> = Vec::new();
    for n in 0..100u8 {
        let reading = ClipboardReading {
            files: None,
            text: None,
            image: Some(RawImage { width: 1, height: 1, bytes: vec![n, 0, 0, 255] }),
        };
        let event = handle_change(&mut snapshot, reading, &order, Strategy::Poll, true, |_, name| {
            Some(format!("/pictures/{}", name))
        });
        match event {
            Some(ChangeEvent::ImageChanged { file_name, file_path }) => {
                check_shape(&file_name);
                assert_eq!(file_path, format!("/pictures/{}", file_name));
                assert!(!written.contains(&file_path), "{} written twice", file_path);
                written.push(file_path);
            }
            other => panic!("expected an image event, got {:?}", other),
        }
        assert_eq!(snapshot.last_image_bytes, vec![n, 0, 0, 255]);
    }
    assert_eq!(written.len(), 100);
}

#[test]
fn handle_change_drops_a_picture_that_could_not_be_written() {
    let order = default_priority();
    let mut snapshot = ChangeSnapshot::new();
    let reading = ClipboardReading {
        files: None,
        text: None,
        image: Some(RawImage { width: 1, height: 1, bytes: vec![1, 2, 3, 4] }),
    };
    let mut asked = 0;
    let event = handle_change(&mut snapshot, reading, &order, Strategy::Poll, true, |_, _| {
        asked += 1;
        None
    });
    assert_eq!(event, None);
    assert_eq!(asked, 1);
    assert_eq!(snapshot, ChangeSnapshot::new());
}

#[test]
fn handle_change_never_saves_when_saving_is_off() {
    let order = default_priority();
    let mut snapshot = ChangeSnapshot::new();
    let reading = ClipboardReading {
        files: None,
        text: None,
        image: Some(RawImage { width: 1, height: 1, bytes: vec![1, 2, 3, 4] }),
    };
    let mut asked = 0;
    let event = handle_change(&mut snapshot, reading, &order, Strategy::Push, false, |_, name| {
        asked += 1;
        Some(name)
    });
    assert_eq!(event, None);
    assert_eq!(asked, 0);
}

#[test]
fn handle_change_passes_text_through() {
    let order = default_priority();
    let mut snapshot = ChangeSnapshot::new();
    let reading = ClipboardReading { files: None, text: Some("t".to_string()), image: None };
    let event = handle_change(&mut snapshot, reading, &order, Strategy::Poll, true, |_, _| None);
    assert_eq!(event, Some(ChangeEvent::TextChanged { content: "t".to_string() }));
    assert_eq!(snapshot.last_text, "t");
}
