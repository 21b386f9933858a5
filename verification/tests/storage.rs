use hvac_design_app::storage::{
    choose_recommended_path, files_with_extension, sanitize_extension, storage_root_info,
    to_lower, to_string_path, DirectoryEntry,
};
use std::path::PathBuf;

fn entry(path: &str, extension: &str, is_file: bool) -> DirectoryEntry {
    DirectoryEntry { path: path.to_string(), extension: extension.to_string(), is_file }
}

#[test]
fn sanitize_extension_removes_dot_and_normalizes_case() {
    assert_eq!(sanitize_extension(".SWS"), "sws");
    assert_eq!(sanitize_extension("png"), "png");
}

#[test]
fn choose_recommended_prefers_documents_when_available() {
    let selected = choose_recommended_path("/docs", "/appdata");
    assert_eq!(selected, "/docs");
}

#[test]
fn choose_recommended_falls_back_to_appdata() {
    let selected = choose_recommended_path("", "/appdata");
    assert_eq!(selected, "/appdata");
}

#[test]
fn sanitize_extension_drops_every_leading_dot() {
    assert_eq!(sanitize_extension("...Tar.GZ"), "tar.gz");
    assert_eq!(sanitize_extension(""), "");
    assert_eq!(sanitize_extension("..."), "");
}

#[test]
fn sanitize_extension_keeps_what_is_not_an_ascii_capital() {
    assert_eq!(sanitize_extension(".\u{c4}b-9_Z"), "\u{c4}b-9_z");
}

#[test]
fn to_lower_changes_ascii_capitals_only() {
    assert_eq!(to_lower('A'), 'a');
    assert_eq!(to_lower('Z'), 'z');
    assert_eq!(to_lower('@'), '@');
    assert_eq!(to_lower('['), '[');
    assert_eq!(to_lower('q'), 'q');
    assert_eq!(to_lower('\u{c9}'), '\u{c9}');
}

#[test]
fn choose_recommended_with_both_empty_is_empty() {
    assert_eq!(choose_recommended_path("", ""), "");
}

#[test]
fn storage_root_info_recommends_documents() {
    let info = storage_root_info("/home/u/Documents".to_string(), "/home/u/.data".to_string());
    assert_eq!(info.documents_path, "/home/u/Documents");
    assert_eq!(info.appdata_path, "/home/u/.data");
    assert_eq!(info.recommended_path, "/home/u/Documents");
}

#[test]
fn storage_root_info_falls_back_to_appdata() {
    let info = storage_root_info(String::new(), "/home/u/.data".to_string());
    assert_eq!(info.documents_path, "");
    assert_eq!(info.recommended_path, "/home/u/.data");
}

#[test]
fn to_string_path_gives_the_path_as_text() {
    assert_eq!(to_string_path(PathBuf::from("/docs/projects")), "/docs/projects");
    assert_eq!(to_string_path(PathBuf::new()), "");
}

#[test]
fn files_with_extension_filters_by_extension() {
    let entries = vec![
        entry("/tmp/list-files/project.sws", "sws", true),
        entry("/tmp/list-files/notes.txt", "txt", true),
    ];
    let result = files_with_extension(&entries, ".sws");
    assert_eq!(result.len(), 1);
    assert!(result[0].ends_with("project.sws"));
}

#[test]
fn files_with_extension_ignores_case_and_directories() {
    let entries = vec![
        entry("/d/a.SWS", "SWS", true),
        entry("/d/dir.sws", "sws", false),
        entry("/d/b.txt", "txt", true),
        entry("/d/c.Sws", "Sws", true),
        entry("/d/plain", "", true),
    ];
    assert_eq!(
        files_with_extension(&entries, "SWS"),
        vec!["/d/a.SWS".to_string(), "/d/c.Sws".to_string()]
    );
    assert_eq!(files_with_extension(&entries, ""), vec!["/d/plain".to_string()]);
    assert_eq!(files_with_extension(&entries, ".png"), Vec::<String>::new());
    assert_eq!(files_with_extension(&Vec::new(), "sws"), Vec::<String>::new());
}
