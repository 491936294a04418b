use rayshot::entry::FileLocation;
use rayshot::messages::PipelineError;
use rayshot::registry::RayshotState;

#[test]
fn capture_success_end_to_end() {
    let mut s = RayshotState::new();
    s.register_capture("first.png".to_string());
    let idx = s.register_capture("shot.png".to_string());
    assert_eq!(idx, 1);

    let e = &s.list_entries()[idx];
    assert!(e.state.capturing);
    assert!(!e.state.writing);
    assert!(!e.state.failed);
    assert!(matches!(e.file_location, FileLocation::Local));
    assert!(e.dimension.is_none());
    assert!(e.file_size.is_none());
    assert!(e.texture_handle.is_none());

    s.complete_capture(idx, 1920, 1080, 42);
    let e = &s.list_entries()[idx];
    assert!(!e.state.capturing);
    assert!(e.state.writing);
    assert_eq!(e.dimension, Some((1920, 1080)));
    assert_eq!(e.texture_handle, Some(42));
    // The view jumps to the freshly uploaded capture.
    assert_eq!(s.current_index(), idx);

    s.finish_write_success(idx, 4096);
    let e = &s.list_entries()[idx];
    assert!(!e.state.capturing && !e.state.writing && !e.state.moving);
    assert!(!e.state.failed);
    assert!(matches!(e.file_location, FileLocation::Local));
    assert_eq!(e.file_size, Some(4096));
    assert!(s.error_log().is_empty());
}

#[test]
fn capture_with_absent_window_fails_but_stays_registered() {
    let mut s = RayshotState::new();
    let idx = s.register_capture("shot.png".to_string());
    s.record_capture_failure(idx, "Genshin", &PipelineError::WindowNotFound);

    let entries = s.list_entries();
    assert_eq!(entries.len(), 1);
    assert!(entries[idx].state.failed);
    assert!(entries[idx].file_size.is_none());
    let log = s.error_log();
    assert_eq!(log.len(), 1);
    assert_eq!(
        log[0],
        "Failed to capture screenshot for window 'Genshin': Window not found"
    );
}

#[test]
fn capture_layer_error_is_logged_with_its_detail() {
    let mut s = RayshotState::new();
    let idx = s.register_capture("shot.png".to_string());
    s.record_capture_failure(
        idx,
        "Genshin",
        &PipelineError::CaptureFailed("permission denied".to_string()),
    );
    assert_eq!(
        s.error_log()[0],
        "Failed to capture screenshot for window 'Genshin': permission denied"
    );

    s.record_capture_failure(
        idx,
        "Genshin",
        &PipelineError::TaskFailure("task cancelled".to_string()),
    );
    assert_eq!(s.error_log()[1], "Task failed for window 'Genshin': task cancelled");
}

#[test]
fn write_failure_marks_entry_and_logs_once() {
    let mut s = RayshotState::new();
    let idx = s.register_capture("shot.png".to_string());
    s.complete_capture(idx, 10, 10, 1);
    s.finish_write_failure(idx, "disk full");

    let e = &s.list_entries()[idx];
    assert!(e.state.failed);
    assert!(!e.state.writing);
    // The file size is recorded on success only.
    assert!(e.file_size.is_none());
    let log = s.error_log();
    assert_eq!(log.len(), 1);
    assert_eq!(log[0], "Failed to save screenshot: disk full");
}

#[test]
fn metadata_of_one_entry_survives_operations_on_others() {
    let mut s = RayshotState::new();
    let a = s.register_capture("a.png".to_string());
    s.complete_capture(a, 640, 480, 1);
    s.finish_write_success(a, 1111);

    let b = s.register_capture("b.png".to_string());
    s.complete_capture(b, 800, 600, 2);
    s.finish_write_failure(b, "disk full");
    let c = s.register_capture("c.png".to_string());
    s.record_capture_failure(c, "Genshin", &PipelineError::WindowNotFound);
    s.jump_to(a);
    let t = s.begin_toggle_location().unwrap();
    assert_eq!(t.0, a);
    s.finish_toggle_success(a);

    let e = &s.list_entries()[a];
    assert_eq!(e.dimension, Some((640, 480)));
    assert_eq!(e.file_size, Some(1111));
    let e = &s.list_entries()[b];
    assert_eq!(e.dimension, Some((800, 600)));
}
