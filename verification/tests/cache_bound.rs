use rayshot::MAX_LOADED_TEXTURES;
use rayshot::registry::RayshotState;

#[test]
fn forty_captures_keep_only_newest_window_loaded() {
    let mut s = RayshotState::new();
    for i in 0..40u64 {
        let idx = s.register_capture(format!("shot{}.png", i));
        s.complete_capture(idx, 100, 100, i);
        s.finish_write_success(idx, 1000);
    }
    let entries = s.list_entries();
    assert_eq!(entries.len(), 40);
    // Exactly the 32 most recently appended entries retain display handles.
    for (i, e) in entries.iter().enumerate() {
        if i < 40 - MAX_LOADED_TEXTURES {
            assert!(e.texture_handle.is_none(), "entry {} should be evicted", i);
        } else {
            assert_eq!(e.texture_handle, Some(i as u64), "entry {} should stay loaded", i);
        }
    }
}

#[test]
fn loaded_handles_never_exceed_bound() {
    let mut s = RayshotState::new();
    for i in 0..(MAX_LOADED_TEXTURES as u64 * 3) {
        let idx = s.register_capture(format!("shot{}.png", i));
        s.complete_capture(idx, 10, 10, i);
        let loaded = s
            .list_entries()
            .iter()
            .filter(|e| e.texture_handle.is_some())
            .count();
        assert!(loaded <= MAX_LOADED_TEXTURES + 1);
        let _ = idx;
    }
    // After one more registration (and its sweep), the bound holds strictly.
    s.register_capture("last.png".to_string());
    let loaded = s
        .list_entries()
        .iter()
        .filter(|e| e.texture_handle.is_some())
        .count();
    assert!(loaded <= MAX_LOADED_TEXTURES);
}

#[test]
fn eviction_keeps_everything_but_the_handle() {
    let mut s = RayshotState::new();
    let first = s.register_capture("first.png".to_string());
    s.complete_capture(first, 640, 480, 7);
    s.finish_write_success(first, 2222);
    for i in 0..MAX_LOADED_TEXTURES as u64 {
        s.register_capture(format!("pad{}.png", i));
    }
    let e = &s.list_entries()[first];
    assert!(e.texture_handle.is_none());
    assert_eq!(e.filename, "first.png");
    assert_eq!(e.dimension, Some((640, 480)));
    assert_eq!(e.file_size, Some(2222));
}
