// The reveal dispatcher: one invocation shape per platform family, and a
// result that depends on the launch attempt alone.

use audio_to_srt_core::reveal_dispatch::reveal_invocation;
use audio_to_srt_core::reveal_dispatch::reveal_result;
use audio_to_srt_core::reveal_dispatch::LaunchAttempt;
use audio_to_srt_core::reveal_dispatch::OsKind;

#[test]
fn macos_invocation_is_exact() {
    let invocation = reveal_invocation("/x/y/file.srt", OsKind::MacOs);
    assert_eq!(invocation.program, "open");
    assert_eq!(invocation.args, vec!["-R".to_string(), "/x/y/file.srt".to_string()]);
}

#[test]
fn windows_flag_keeps_the_comma() {
    let invocation = reveal_invocation("/x/y/file.srt", OsKind::Windows);
    assert_eq!(invocation.program, "explorer");
    assert_eq!(invocation.args, vec!["/select,".to_string(), "/x/y/file.srt".to_string()]);
}

#[test]
fn linux_points_at_the_parent_directory() {
    let invocation = reveal_invocation("/x/y/file.srt", OsKind::Linux);
    assert_eq!(invocation.program, "xdg-open");
    assert_eq!(invocation.args, vec!["/x/y".to_string()]);
}

#[test]
fn linux_falls_back_to_the_target_itself() {
    let invocation = reveal_invocation("file.srt", OsKind::Linux);
    assert_eq!(invocation.program, "xdg-open");
    assert_eq!(invocation.args, vec!["file.srt".to_string()]);
}

#[test]
fn launch_alone_means_success() {
    assert!(reveal_result(LaunchAttempt::Launched).is_ok());
}

#[test]
fn failed_launch_carries_the_error_text() {
    let r = reveal_result(LaunchAttempt::NotLaunched { detail: "boom".to_string() });
    assert_eq!(r.unwrap_err().message(), "Failed to reveal file: boom");
}
