use easy_paste::writeback::{plan_write, write_to_clipboard, WriteError, WriteRequest};

#[test]
fn written_text_is_read_back() {
    let mut clipboard: Option<WriteRequest> = None;
    let written = write_to_clipboard("hello".to_string(), "text", |request| {
        clipboard = Some(request);
        true
    });
    assert!(written);
    let read_text = match clipboard {
        Some(WriteRequest::Text(text)) => Some(text),
        _ => None,
    };
    assert_eq!(read_text, Some("hello".to_string()));
}

#[test]
fn unsupported_format_fails_without_a_write() {
    let mut writes = 0;
    let written = write_to_clipboard("x".to_string(), "unsupported-format", |_| {
        writes += 1;
        true
    });
    assert!(!written);
    assert_eq!(writes, 0);
    assert_eq!(plan_write("x".to_string(), "unsupported-format"), Err(WriteError::UnsupportedFormat));
    assert_eq!(plan_write("x".to_string(), ""), Err(WriteError::UnsupportedFormat));
    assert_eq!(plan_write("x".to_string(), "Text"), Err(WriteError::UnsupportedFormat));
    assert_eq!(plan_write("x".to_string(), "file"), Err(WriteError::UnsupportedFormat));
}

#[test]
fn image_is_written_as_a_one_entry_file_list() {
    assert_eq!(
        plan_write("/data/images/a.jpg".to_string(), "image"),
        Ok(WriteRequest::Files(vec!["/data/images/a.jpg".to_string()]))
    );
}

#[test]
fn files_are_read_from_a_json_array() {
    assert_eq!(
        plan_write("[\"a.txt\", \"b\\\\c.txt\"]".to_string(), "files"),
        Ok(WriteRequest::Files(vec!["a.txt".to_string(), "b\\c.txt".to_string()]))
    );
    assert_eq!(plan_write("[]".to_string(), "files"), Ok(WriteRequest::Files(Vec::new())));
}

#[test]
fn malformed_file_list_fails_without_a_write() {
    assert_eq!(plan_write("a.txt".to_string(), "files"), Err(WriteError::MalformedFileList));
    assert_eq!(plan_write("[1, 2]".to_string(), "files"), Err(WriteError::MalformedFileList));
    assert_eq!(plan_write("".to_string(), "files"), Err(WriteError::MalformedFileList));
    let mut writes = 0;
    assert!(!write_to_clipboard("{".to_string(), "files", |_| {
        writes += 1;
        true
    }));
    assert_eq!(writes, 0);
}

#[test]
fn failed_write_is_reported() {
    assert!(!write_to_clipboard("hello".to_string(), "text", |_| false));
    assert!(write_to_clipboard("[\"a\"]".to_string(), "files", |request| {
        request == WriteRequest::Files(vec!["a".to_string()])
    }));
}
