use rayshot::matching::find_window_match;
use rayshot::naming::{app_display_name, file_stem_of, make_filename, new_capture_filename};

#[test]
fn filename_concatenates_name_timestamp_extension() {
    assert_eq!(
        make_filename("Genshin", "20240101_123456.000000001"),
        "Genshin_20240101_123456.000000001.png"
    );
    assert_eq!(make_filename("", ""), "_.png");
}

#[test]
fn fresh_filename_embeds_a_timestamp() {
    let name = new_capture_filename("Genshin");
    assert!(name.starts_with("Genshin_"));
    assert!(name.ends_with(".png"));
    // The timestamp between separator and extension is never empty.
    assert!(name.len() > "Genshin_.png".len());
}

#[test]
fn file_stem_strips_directories_and_extension() {
    assert_eq!(file_stem_of("C:\\Games\\Genshin.exe"), "Genshin");
    assert_eq!(file_stem_of("/usr/bin/app"), "app");
    assert_eq!(file_stem_of("archive.tar.gz"), "archive.tar");
    assert_eq!(file_stem_of(".bashrc"), ".bashrc");
    assert_eq!(file_stem_of("plain"), "plain");
    assert_eq!(file_stem_of("dir/"), "");
}

#[test]
fn app_display_name_falls_back_to_placeholder() {
    assert_eq!(app_display_name("/opt/game/Genshin.exe"), "Genshin");
    assert_eq!(app_display_name(""), "Unknown");
    assert_eq!(app_display_name("some/dir/"), "Unknown");
}

#[test]
fn window_match_ignores_case_both_ways() {
    let titles = vec![
        "Notepad".to_string(),
        "GENSHIN IMPACT - playing".to_string(),
    ];
    // Both the title and the target need folding for this to match.
    assert_eq!(find_window_match(&titles, "genshin impact"), Some(1));
    assert_eq!(find_window_match(&titles, "Genshin IMPACT"), Some(1));
    assert_eq!(find_window_match(&titles, "notePAD"), Some(0));
}

#[test]
fn window_match_returns_first_of_several() {
    let titles = vec![
        "editor one".to_string(),
        "Editor Two".to_string(),
    ];
    assert_eq!(find_window_match(&titles, "EDITOR"), Some(0));
}

#[test]
fn window_match_reports_absence() {
    let titles = vec!["Notepad".to_string(), "Browser".to_string()];
    assert_eq!(find_window_match(&titles, "genshin"), None);
    let no_titles: Vec<String> = Vec::new();
    assert_eq!(find_window_match(&no_titles, "anything"), None);
}

#[test]
fn empty_target_matches_the_first_window() {
    let titles = vec!["anything".to_string()];
    assert_eq!(find_window_match(&titles, ""), Some(0));
}
