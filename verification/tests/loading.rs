use frame_stream::event::FrameNotifyPayload;
use frame_stream::frame::{LoadError, TrackingFrame};
use frame_stream::session::Session;
use frame_stream::store::FrameStore;

fn line(stamp: u64) -> String {
    format!("{{\"pose_landmarks_stamp\": {}, \"pose_landmarks\": [[0, 1], [2, 3]]}}", stamp)
}

#[test]
fn new_frame_has_text_and_zero_timestamp() {
    let frame = TrackingFrame::new(line(77));
    assert_eq!(frame.json_str, line(77));
    assert_eq!(frame.timestamp, 0);
}

#[test]
fn extract_timestamp_reads_the_field() {
    let mut frame = TrackingFrame::new(line(1_700_000_123_456));
    assert_eq!(frame.extract_timestamp(), Ok(()));
    assert_eq!(frame.timestamp, 1_700_000_123_456);
    assert_eq!(frame.json_str, line(1_700_000_123_456));
}

#[test]
fn extract_timestamp_reads_the_largest_value() {
    let mut frame = TrackingFrame::new(line(u64::MAX));
    assert_eq!(frame.extract_timestamp(), Ok(()));
    assert_eq!(frame.timestamp, u64::MAX);
}

#[test]
fn extract_timestamp_ignores_other_fields() {
    let text = "{\"other\": 5, \"pose_landmarks_stamp\": 9, \"nested\": {\"pose_landmarks_stamp\": 1}}";
    let mut frame = TrackingFrame::new(text.to_string());
    assert_eq!(frame.extract_timestamp(), Ok(()));
    assert_eq!(frame.timestamp, 9);
}

#[test]
fn extract_timestamp_fails_without_the_field() {
    let mut frame = TrackingFrame::new("{\"stamp\": 5}".to_string());
    assert_eq!(frame.extract_timestamp(), Err(LoadError::MissingTimestamp));
    assert_eq!(frame.timestamp, 0);
    assert_eq!(frame.json_str, "{\"stamp\": 5}");
}

#[test]
fn extract_timestamp_fails_on_values_that_are_no_unsigned_integer() {
    let texts = [
        "{\"pose_landmarks_stamp\": -4}",
        "{\"pose_landmarks_stamp\": 2.5}",
        "{\"pose_landmarks_stamp\": \"12\"}",
        "{\"pose_landmarks_stamp\": null}",
        "{\"pose_landmarks_stamp\": 18446744073709551616}",
        "[1, 2, 3]",
        "12",
        "not json",
        "{\"pose_landmarks_stamp\": 12",
        "",
    ];
    for text in texts {
        let mut frame = TrackingFrame::new(text.to_string());
        assert_eq!(frame.extract_timestamp(), Err(LoadError::MissingTimestamp), "{}", text);
        assert_eq!(frame.timestamp, 0);
    }
}

#[test]
fn set_timestamp_takes_a_found_value() {
    let mut frame = TrackingFrame::new("x".to_string());
    assert_eq!(frame.set_timestamp(Some(41)), Ok(()));
    assert_eq!(frame.timestamp, 41);
    assert_eq!(frame.set_timestamp(None), Err(LoadError::MissingTimestamp));
    assert_eq!(frame.timestamp, 41);
    assert_eq!(frame.json_str, "x");
}

#[test]
fn load_of_valid_lines_keeps_each_line() {
    let lines = vec![line(1000), line(1500), line(4000)];
    let store = FrameStore::load_lines(&lines).unwrap();
    assert_eq!(store.len(), 3);
    assert!(!store.is_empty());
    for (i, stamp) in [1000u64, 1500, 4000].iter().enumerate() {
        let frame = store.get(i).unwrap();
        assert_eq!(frame.json_str, lines[i]);
        assert_eq!(frame.timestamp, *stamp);
        assert_eq!(store.stamp_at(i), Some(*stamp));
    }
    assert!(store.get(3).is_none());
    assert_eq!(store.stamp_at(3), None);
    assert_eq!(
        store.summary(),
        Some(FrameNotifyPayload {
            current_frame: 0,
            total_frames: 3,
            begin_timestamp: 1000,
            end_timestamp: 4000,
        })
    );
}

#[test]
fn load_of_one_line_has_equal_begin_and_end() {
    let store = FrameStore::load_lines(&vec![line(5)]).unwrap();
    assert_eq!(
        store.summary(),
        Some(FrameNotifyPayload {
            current_frame: 0,
            total_frames: 1,
            begin_timestamp: 5,
            end_timestamp: 5,
        })
    );
}

#[test]
fn load_of_nothing_gives_an_empty_store_without_summary() {
    let store = FrameStore::load_lines(&Vec::new()).unwrap();
    assert_eq!(store.len(), 0);
    assert!(store.is_empty());
    assert_eq!(store.summary(), None);
    assert!(store.get(0).is_none());
    assert!(store.payload(0).is_none());
    assert_eq!(FrameStore::new().summary(), None);
    assert_eq!(FrameStore::new().len(), 0);
}

#[test]
fn load_passes_over_empty_lines() {
    let lines = vec![String::new(), line(10), String::new(), line(20), String::new()];
    let store = FrameStore::load_lines(&lines).unwrap();
    assert_eq!(store.len(), 2);
    assert_eq!(store.stamp_at(0), Some(10));
    assert_eq!(store.stamp_at(1), Some(20));
    let only_empty = FrameStore::load_lines(&vec![String::new(), String::new()]).unwrap();
    assert_eq!(only_empty.len(), 0);
    assert_eq!(only_empty.summary(), None);
}

#[test]
fn load_fails_on_one_bad_line() {
    let lines = vec![line(10), "{\"no_stamp\": 1}".to_string(), line(20)];
    assert_eq!(FrameStore::load_lines(&lines).err(), Some(LoadError::MissingTimestamp));
    let blank = vec![line(10), " ".to_string()];
    assert_eq!(FrameStore::load_lines(&blank).err(), Some(LoadError::MissingTimestamp));
}

#[test]
fn from_stamped_goes_by_the_given_outcomes() {
    let lines = vec![
        ("a".to_string(), Some(3u64)),
        (String::new(), None),
        ("b".to_string(), Some(1)),
        (String::new(), Some(99)),
    ];
    let store = FrameStore::from_stamped(&lines).unwrap();
    assert_eq!(store.len(), 2);
    assert_eq!(store.get(0).unwrap().json_str, "a");
    assert_eq!(store.get(0).unwrap().timestamp, 3);
    assert_eq!(store.get(1).unwrap().json_str, "b");
    assert_eq!(store.get(1).unwrap().timestamp, 1);
    let bad = vec![("a".to_string(), Some(3u64)), ("b".to_string(), None)];
    assert_eq!(FrameStore::from_stamped(&bad).err(), Some(LoadError::MissingTimestamp));
}

#[test]
fn payload_shows_the_frame() {
    let lines = vec![line(7), line(8)];
    let store = FrameStore::load_lines(&lines).unwrap();
    let payload = store.payload(1).unwrap();
    assert_eq!(payload.filetext, lines[1]);
    assert_eq!(payload.current_frame, 1);
    assert_eq!(payload.current_stamp, 8);
    assert!(store.payload(2).is_none());
}

#[test]
fn session_load_replaces_the_store_and_resets_the_cursor() {
    let mut session = Session::new();
    assert_eq!(session.cursor(), 0);
    assert!(!session.running());
    assert_eq!(session.store().len(), 0);
    let summary = session.load(&vec![line(1), line(2), line(3)]).unwrap();
    assert_eq!(summary.unwrap().total_frames, 3);
    assert!(session.seek(1).unwrap().is_some());
    assert_eq!(session.cursor(), 2);
    let summary = session.load(&vec![line(50), line(60)]).unwrap();
    assert_eq!(
        summary,
        Some(FrameNotifyPayload {
            current_frame: 0,
            total_frames: 2,
            begin_timestamp: 50,
            end_timestamp: 60,
        })
    );
    assert_eq!(session.store().len(), 2);
    assert_eq!(session.cursor(), 0);
}

#[test]
fn session_load_of_an_empty_source() {
    let mut session = Session::new();
    session.load(&vec![line(1)]).unwrap();
    assert_eq!(session.load(&Vec::new()), Ok(None));
    assert_eq!(session.store().len(), 0);
    assert_eq!(session.cursor(), 0);
}

#[test]
fn failed_session_load_changes_nothing() {
    let mut session = Session::new();
    session.load(&vec![line(1), line(2), line(3)]).unwrap();
    session.seek(1).unwrap();
    assert_eq!(session.load(&vec![line(9), "oops".to_string()]), Err(LoadError::MissingTimestamp));
    assert_eq!(session.store().len(), 3);
    assert_eq!(session.store().stamp_at(0), Some(1));
    assert_eq!(session.cursor(), 2);
}

#[test]
fn reset_puts_the_cursor_at_zero() {
    let mut session = Session::new();
    session.load(&vec![line(1), line(2), line(3)]).unwrap();
    session.seek(2).unwrap();
    assert_eq!(session.cursor(), 3);
    session.reset();
    assert_eq!(session.cursor(), 0);
    assert_eq!(session.store().len(), 3);
}

#[test]
fn install_takes_a_store_built_elsewhere() {
    let mut session = Session::new();
    let store = FrameStore::from_stamped(&vec![("a".to_string(), Some(4u64))]).unwrap();
    let summary = session.install(store);
    assert_eq!(summary.unwrap().begin_timestamp, 4);
    assert_eq!(session.store().len(), 1);
    assert_eq!(session.cursor(), 0);
}
