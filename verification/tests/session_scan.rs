use cc_switch::session_scan::{
    accept_resume_hint, fnv1a64, hint_tail_matches, is_unchanged, line_text, load_matching_resume_hint,
    make_resume_hint, should_load_resume_hint, tail_hash, tail_window, JsonlScanOutcome,
    ScanCursor, SyncResumeHint,
};
use std::io::BufRead;

/// Drives a scan over in-memory file contents the way the caller drives it
/// over a file: resume from a matching hint, else from byte 0.
fn scan(
    content: &[u8],
    file_modified: i64,
    last_modified: i64,
    last_offset: i64,
    hint: Option<SyncResumeHint>,
) -> Option<(JsonlScanOutcome, Vec<(String, bool)>)> {
    if is_unchanged(file_modified, last_modified) {
        return None;
    }
    let hint = if should_load_resume_hint(last_offset) { hint } else { None };
    let matching =
        load_matching_resume_hint(hint, last_modified, last_offset, content.len() as u64);
    let resumed = matching.and_then(|h| {
        let (start, len) = tail_window(h.byte_offset as u64);
        let tail = &content[start as usize..(start + len) as usize];
        if hint_tail_matches(&h, tail) && h.state.is_some() {
            Some(h.byte_offset as u64)
        } else {
            None
        }
    });
    let mut cursor = match resumed {
        Some(pos) => ScanCursor::start(last_offset, pos, last_offset),
        None => ScanCursor::start(0, 0, last_offset),
    };
    let mut reader = std::io::Cursor::new(&content[cursor.byte_pos as usize..]);
    let mut seen = Vec::new();
    let mut state_json = None;
    let mut raw = Vec::new();
    loop {
        raw.clear();
        let n = reader.read_until(b'\n', &mut raw).unwrap();
        if n == 0 {
            break;
        }
        let event = cursor.advance(&raw);
        if event.snapshot_before {
            state_json = Some(format!("{}", seen.len()));
            cursor.snapshot_taken(true);
        }
        if let Some(line) = event.line {
            seen.push((line.to_string(), event.is_new));
        }
    }
    if cursor.needs_final_snapshot() {
        state_json = Some(format!("{}", seen.len()));
    }
    Some((cursor.outcome(file_modified, state_json), seen))
}

fn hint_for(content: &[u8], path: &str, outcome: &JsonlScanOutcome) -> SyncResumeHint {
    let (start, len) = tail_window(outcome.byte_pos);
    let tail = &content[start as usize..(start + len) as usize];
    make_resume_hint(path.to_string(), outcome, Some(tail_hash(tail)))
}

#[test]
fn fnv1a64_matches_the_reference_vectors() {
    assert_eq!(fnv1a64(b""), 0xcbf2_9ce4_8422_2325);
    assert_eq!(fnv1a64(b"a"), 0xaf63_dc4c_8601_ec8c);
    assert_eq!(fnv1a64(b"foobar"), 0x8594_4171_f739_67e8);
    assert_eq!(tail_hash(b"a"), 0xaf63_dc4c_8601_ec8cu64 as i64);
}

#[test]
fn tail_window_is_at_most_sixty_four_bytes() {
    assert_eq!(tail_window(10), (0, 10));
    assert_eq!(tail_window(64), (0, 64));
    assert_eq!(tail_window(162), (98, 64));
}

#[test]
fn first_scan_reads_all_lines_and_reports_positions() {
    let (out, seen) = scan(b"l1\nl2\n", 7, 0, 0, None).expect("changed");
    assert_eq!(seen, vec![("l1".to_string(), true), ("l2".to_string(), true)]);
    assert_eq!(out.line_offset, 2);
    assert_eq!(out.byte_pos, 6);
    assert!(out.file_modified > 0);
}

#[test]
fn unchanged_file_is_skipped() {
    assert!(scan(b"l1\n", 5, 5, 1, None).is_none());
    assert!(is_unchanged(4, 5));
    assert!(!is_unchanged(6, 5));
}

#[test]
fn resume_seeks_past_history_even_when_head_bytes_change() {
    let l1 = "a".repeat(80);
    let l2 = "b".repeat(80);
    let v1 = format!("{l1}\n{l2}\n");
    let (first, _) = scan(v1.as_bytes(), 1_000, 0, 0, None).expect("changed");
    assert_eq!(first.byte_pos, 162);
    let hint = hint_for(v1.as_bytes(), "s.jsonl", &first);

    let v2 = format!("{l1} {l2}\nl3\n");
    let (second, seen) =
        scan(v2.as_bytes(), 2_000, first.file_modified, first.line_offset, Some(hint))
            .expect("changed");
    assert_eq!(seen, vec![("l3".to_string(), true)]);
    assert_eq!(second.line_offset, first.line_offset + 1);
    assert_eq!(second.byte_pos, 165);
}

#[test]
fn partial_tail_line_does_not_advance_persisted_progress() {
    let v1 = b"l1\nl2";
    let (first, seen) = scan(v1, 1_000, 0, 0, None).expect("changed");
    assert_eq!(seen, vec![("l1".to_string(), true), ("l2".to_string(), true)]);
    assert_eq!(first.line_offset, 1);
    assert_eq!(first.byte_pos, 3);
    // The snapshot was taken before the incomplete line reached the parser.
    assert_eq!(first.resume_state_json.as_deref(), Some("1"));
    let hint = hint_for(v1, "s.jsonl", &first);

    let v2 = b"l1\nl2-completed\nl3\n";
    let (second, seen) =
        scan(v2, 2_000, first.file_modified, first.line_offset, Some(hint)).expect("changed");
    assert_eq!(
        seen,
        vec![("l2-completed".to_string(), true), ("l3".to_string(), true)]
    );
    assert_eq!(second.line_offset, 3);
    assert_eq!(second.byte_pos, 19);
}

#[test]
fn rewritten_larger_file_invalidates_hint() {
    let l1 = "a".repeat(80);
    let v1 = format!("{l1}\n");
    let (first, _) = scan(v1.as_bytes(), 1_000, 0, 0, None).expect("changed");
    let hint = hint_for(v1.as_bytes(), "s.jsonl", &first);

    let rewritten = "z".repeat(200);
    let v2 = format!("{rewritten}\n");
    let (_, seen) =
        scan(v2.as_bytes(), 2_000, first.file_modified, first.line_offset, Some(hint))
            .expect("changed");
    assert_eq!(seen, vec![(rewritten, false)]);
}

#[test]
fn mismatched_hint_falls_back_to_line_skip() {
    let v1 = b"l1\nl2\n";
    let (first, _) = scan(v1, 1_000, 0, 0, None).expect("changed");
    let mut stale = hint_for(v1, "s.jsonl", &first);
    stale.last_modified += 1;

    let v2 = b"l1\nl2\nl3\n";
    let (_, seen) =
        scan(v2, 2_000, first.file_modified, first.line_offset, Some(stale)).expect("changed");
    assert_eq!(
        seen,
        vec![
            ("l1".to_string(), false),
            ("l2".to_string(), false),
            ("l3".to_string(), true)
        ]
    );
}

#[test]
fn truncated_file_invalidates_hint() {
    let v1 = b"long-line-1\nlong-line-2\n";
    let (first, _) = scan(v1, 1_000, 0, 0, None).expect("changed");
    let hint = hint_for(v1, "s.jsonl", &first);
    let (_, seen) =
        scan(b"x\n", 2_000, first.file_modified, first.line_offset, Some(hint)).expect("changed");
    assert_eq!(seen, vec![("x".to_string(), false)]);
}

#[test]
fn blank_and_invalid_lines_are_skipped_but_counted() {
    let content = b"a\r\n   \n\xff\xfe\n\nb";
    let (out, seen) = scan(content, 1, 0, 0, None).expect("changed");
    assert_eq!(seen, vec![("a".to_string(), true), ("b".to_string(), true)]);
    assert_eq!(out.line_offset, 4);
    assert_eq!(out.byte_pos, 11);
}

#[test]
fn line_text_strips_newlines_then_carriage_returns() {
    assert_eq!(line_text(b"x\r\r\n"), Some("x"));
    assert_eq!(line_text(b"x\n\r"), Some("x\n"));
    assert_eq!(line_text(b" y \n"), Some(" y "));
    assert_eq!(line_text(b"\t\n"), None);
    assert_eq!(line_text(b"\xc3\x28\n"), None);
}

#[test]
fn matching_hint_needs_same_progress_and_room_in_file() {
    let hint = SyncResumeHint {
        file_path: "p".to_string(),
        last_modified: 10,
        last_line_offset: 3,
        byte_offset: 40,
        state: Some("{}".to_string()),
        tail_hash: Some(1),
    };
    assert!(load_matching_resume_hint(Some(hint.clone()), 10, 3, 40).is_some());
    assert!(load_matching_resume_hint(Some(hint.clone()), 10, 3, 39).is_none());
    assert!(load_matching_resume_hint(Some(hint.clone()), 11, 3, 40).is_none());
    assert!(load_matching_resume_hint(Some(hint.clone()), 10, 2, 40).is_none());
    assert!(load_matching_resume_hint(Some(hint.clone()), 10, 0, 40).is_none());
    assert!(load_matching_resume_hint(None, 10, 3, 40).is_none());
    let no_hash = SyncResumeHint { tail_hash: None, ..hint };
    assert!(!hint_tail_matches(&no_hash, b""));
}

#[test]
fn resuming_at_a_boundary_equals_rescanning() {
    let content = b"l1\nl2\nl3\npartial";
    let drive = |mut cursor: ScanCursor, from: usize| {
        let mut seen = Vec::new();
        let mut reader = std::io::Cursor::new(&content[from..]);
        let mut raw = Vec::new();
        loop {
            raw.clear();
            if reader.read_until(b'\n', &mut raw).unwrap() == 0 {
                break;
            }
            let event = cursor.advance(&raw);
            if let Some(line) = event.line {
                seen.push((line.to_string(), event.is_new));
            }
        }
        (cursor.committed_line_offset, cursor.committed_byte_pos, cursor.line_offset, seen)
    };
    let full = drive(ScanCursor::start(0, 0, 1), 0);
    let resumed = drive(ScanCursor::start(1, 3, 1), 3);
    assert_eq!(full.0, resumed.0);
    assert_eq!(full.1, resumed.1);
    assert_eq!(full.2, resumed.2);
    assert_eq!(&full.3[1..], &resumed.3[..]);
    assert_eq!((full.0, full.1), (3, 9));
}

#[test]
fn resume_needs_restored_state_and_matching_fingerprint() {
    let tail = b"l1\n";
    let hint = SyncResumeHint {
        file_path: "p".to_string(),
        last_modified: 1,
        last_line_offset: 1,
        byte_offset: 3,
        state: Some("0".to_string()),
        tail_hash: Some(tail_hash(tail)),
    };
    assert_eq!(accept_resume_hint(&hint, tail, true), Some(3));
    assert_eq!(accept_resume_hint(&hint, tail, false), None);
    assert_eq!(accept_resume_hint(&hint, b"l2\n", true), None);
}
