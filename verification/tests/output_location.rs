// The derived output location and the path-name helpers.

use audio_to_srt_core::pathname::join_path;
use audio_to_srt_core::pathname::parent_location;
use audio_to_srt_core::pathname::srt_output_location;

#[test]
fn replaces_extension() {
    assert_eq!(srt_output_location("/a/b/clip.wav"), "/a/b/clip.srt");
}

#[test]
fn appends_suffix_when_no_extension() {
    assert_eq!(srt_output_location("/a/b/clip"), "/a/b/clip.srt");
}

#[test]
fn hidden_file_has_no_extension() {
    assert_eq!(srt_output_location("/home/u/.bashrc"), "/home/u/.bashrc.srt");
}

#[test]
fn dot_in_directory_is_not_an_extension() {
    assert_eq!(srt_output_location("dir.d/file"), "dir.d/file.srt");
}

#[test]
fn only_the_last_dot_starts_the_extension() {
    assert_eq!(srt_output_location("/a/clip.tar.gz"), "/a/clip.tar.srt");
}

#[test]
fn relative_input_stays_relative() {
    assert_eq!(srt_output_location("clip.wav"), "clip.srt");
}

#[test]
fn empty_extension_is_replaced() {
    assert_eq!(srt_output_location("a."), "a.srt");
}

#[test]
fn parent_of_nested_file() {
    assert_eq!(parent_location("/x/y/file.srt"), Some("/x/y".to_string()));
}

#[test]
fn parent_of_file_under_root_is_root() {
    assert_eq!(parent_location("/file"), Some("/".to_string()));
}

#[test]
fn root_has_no_parent() {
    assert_eq!(parent_location("/"), None);
}

#[test]
fn bare_name_has_no_parent() {
    assert_eq!(parent_location("file.srt"), None);
}

#[test]
fn parent_of_relative_path() {
    assert_eq!(parent_location("a/b"), Some("a".to_string()));
}

#[test]
fn join_inserts_one_separator() {
    assert_eq!(join_path("/res", "audio_to_srt.py"), "/res/audio_to_srt.py");
}

#[test]
fn join_does_not_double_a_separator() {
    assert_eq!(join_path("/res/", "audio_to_srt.py"), "/res/audio_to_srt.py");
}

#[test]
fn join_with_empty_base_is_the_name() {
    assert_eq!(join_path("", "audio_to_srt.py"), "audio_to_srt.py");
}
