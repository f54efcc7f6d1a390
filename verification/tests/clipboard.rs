use flow_core::clipboard::{
    clipboard_format_name, content_kind, describe_content, standard_format, ClipboardData,
    ClipboardError, ClipboardReport, ClipboardWalk, ContentKind, WalkAction, WalkEvent,
};

#[test]
fn standard_format_names() {
    assert_eq!(standard_format(1), Some("CF_TEXT"));
    assert_eq!(standard_format(13), Some("CF_UNICODETEXT"));
    assert_eq!(standard_format(15), Some("CF_HDROP"));
    assert_eq!(standard_format(17), Some("CF_DIBV5"));
    assert_eq!(standard_format(0), None);
    assert_eq!(standard_format(18), None);
    assert_eq!(standard_format(0xC009), None);
}

#[test]
fn registered_name_wins() {
    let n = clipboard_format_name(1, Some("Rich Text Format".to_string())).unwrap();
    assert_eq!(n, "Rich Text Format");
    assert_eq!(clipboard_format_name(7, None).unwrap(), "CF_OEMTEXT");
    let e = clipboard_format_name(49161, None).unwrap_err();
    assert!(matches!(e, ClipboardError::UnnamedFormat(49161)));
    assert_eq!(e.message(), "Failed to get clipboard format name for 49161");
}

#[test]
fn content_kinds() {
    assert_eq!(content_kind(1), ContentKind::Narrow);
    assert_eq!(content_kind(7), ContentKind::Narrow);
    assert_eq!(content_kind(13), ContentKind::Wide);
    assert_eq!(content_kind(2), ContentKind::Binary);
}

#[test]
fn text_stops_at_nul() {
    let d = ClipboardData::Narrow(b"hello\0garbage".to_vec());
    assert_eq!(describe_content(&d), "hello");
    let d = ClipboardData::Narrow(b"no terminator".to_vec());
    assert_eq!(describe_content(&d), "no terminator");
    let d = ClipboardData::Narrow(vec![0x66, 0xff, 0x6f, 0]);
    assert_eq!(describe_content(&d), "f\u{fffd}o");
    let wide: Vec<u16> = "h\u{e9}llo".encode_utf16().chain([0u16, 65]).collect();
    assert_eq!(describe_content(&ClipboardData::Wide(wide)), "h\u{e9}llo");
    assert_eq!(describe_content(&ClipboardData::Binary(4096)), "[Binary data, 4096 bytes]");
}

#[test]
fn report_layout() {
    let mut r = ClipboardReport::new();
    r.add_file_count(2);
    r.add_file("C:\\a.txt");
    r.add_file("C:\\b.txt");
    r.add_format("CF_UNICODETEXT", 13);
    r.add_content("hi");
    r.add_format("Custom", 0xC0FE);
    assert_eq!(
        r.text,
        "Found 2 files in clipboard:\n- C:\\a.txt\n- C:\\b.txt\n\nFormat: CF_UNICODETEXT (0xD)\nContent: hi\n\nFormat: Custom (0xC0FE)\n"
    );
}

#[test]
fn wide_text_pairs_surrogates_and_replaces_lone_ones() {
    let units = vec![0xD83D, 0xDE00, 0x41, 0xDC00, 0xD800, 0x42, 0];
    assert_eq!(describe_content(&ClipboardData::Wide(units)), "\u{1F600}A\u{FFFD}\u{FFFD}B");
}

fn walk_step(w: ClipboardWalk, e: WalkEvent) -> (ClipboardWalk, WalkAction) {
    w.step(e)
}

#[test]
fn walk_builds_the_whole_report() {
    let (w, a) = ClipboardWalk::start();
    assert!(matches!(a, WalkAction::ReadFileList));
    let (w, a) = walk_step(w, WalkEvent::FileList { count: 2, paths: vec!["C:\\a.txt".to_string()] });
    assert!(matches!(a, WalkAction::NextFormat(0)));
    let (w, a) = walk_step(w, WalkEvent::Format(13));
    assert!(matches!(a, WalkAction::RegisteredName(13)));
    let (w, a) = walk_step(w, WalkEvent::Name(None));
    assert!(matches!(a, WalkAction::ReadContent(13, ContentKind::Wide)));
    let units: Vec<u16> = "hi".encode_utf16().chain([0u16]).collect();
    let (w, a) = walk_step(w, WalkEvent::Content(Some(ClipboardData::Wide(units))));
    assert!(matches!(a, WalkAction::NextFormat(13)));
    let (w, _) = walk_step(w, WalkEvent::Format(0xC0FE));
    let (w, a) = walk_step(w, WalkEvent::Name(Some("Custom".to_string())));
    assert!(matches!(a, WalkAction::ReadContent(0xC0FE, ContentKind::Binary)));
    let (w, _) = walk_step(w, WalkEvent::Content(None));
    let (_, a) = walk_step(w, WalkEvent::Format(0));
    match a {
        WalkAction::Finish(Ok(text)) => assert_eq!(
            text,
            "Found 2 files in clipboard:\n- C:\\a.txt\n\nFormat: CF_UNICODETEXT (0xD)\nContent: hi\n\nFormat: Custom (0xC0FE)\n"
        ),
        other => panic!("expected a report, got {:?}", other),
    }
}

#[test]
fn walk_without_files_or_formats_is_empty() {
    let (w, _) = ClipboardWalk::start();
    let (w, _) = walk_step(w, WalkEvent::NoFileList);
    let (_, a) = walk_step(w, WalkEvent::Format(0));
    assert!(matches!(a, WalkAction::Finish(Ok(ref t)) if t.is_empty()));
}

#[test]
fn walk_stops_on_unnamed_format() {
    let (w, _) = ClipboardWalk::start();
    let (w, _) = walk_step(w, WalkEvent::NoFileList);
    let (w, _) = walk_step(w, WalkEvent::Format(49161));
    let (w, a) = walk_step(w, WalkEvent::Name(None));
    match a {
        WalkAction::Finish(Err(e)) => {
            assert!(matches!(e, ClipboardError::UnnamedFormat(49161)));
            assert_eq!(e.message(), "Failed to get clipboard format name for 49161");
        }
        other => panic!("expected an error, got {:?}", other),
    }
    let (_, a) = walk_step(w, WalkEvent::Format(0));
    assert!(matches!(a, WalkAction::Finish(Err(ClipboardError::UnexpectedEvent))));
}
