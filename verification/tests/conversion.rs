// The conversion orchestrator: invocation construction and outcome mapping.

use audio_to_srt_core::convert::conversion_invocation;
use audio_to_srt_core::convert::conversion_result;
use audio_to_srt_core::convert::ConversionError;
use audio_to_srt_core::convert::ConversionEvent;
use audio_to_srt_core::convert::ConversionRequest;
use audio_to_srt_core::convert::ProcessOutcome;

fn sample_request() -> ConversionRequest {
    ConversionRequest {
        input_location: "/a/b/clip.wav".to_string(),
        model_size: "small".to_string(),
        max_chars: 42,
        max_duration_text: "3.5".to_string(),
    }
}

#[test]
fn invocation_vector_is_exact() {
    let invocation = conversion_invocation(&sample_request(), "/res");
    assert_eq!(invocation.program, "python3");
    assert_eq!(
        invocation.args,
        vec![
            "/res/audio_to_srt.py".to_string(),
            "/a/b/clip.wav".to_string(),
            "-o".to_string(),
            "/a/b/clip.srt".to_string(),
            "-m".to_string(),
            "small".to_string(),
            "--max-chars".to_string(),
            "42".to_string(),
            "--max-duration".to_string(),
            "3.5".to_string(),
        ]
    );
}

#[test]
fn invocation_is_repeatable() {
    let first = conversion_invocation(&sample_request(), "/res");
    let second = conversion_invocation(&sample_request(), "/res");
    assert_eq!(first.program, second.program);
    assert_eq!(first.args, second.args);
}

#[test]
fn output_target_ignores_model_and_limits() {
    let mut other = sample_request();
    other.model_size = "large".to_string();
    other.max_chars = 9;
    other.max_duration_text = "0.25".to_string();
    let first = conversion_invocation(&sample_request(), "/res");
    let second = conversion_invocation(&other, "/res");
    assert_eq!(first.args[3], second.args[3]);
    assert_eq!(first.args[3], "/a/b/clip.srt");
}

#[test]
fn success_returns_the_output_location() {
    let event = ConversionEvent::Completed {
        outcome: ProcessOutcome { exit_success: true, captured_error_text: String::new() },
    };
    let r = conversion_result(&sample_request(), event);
    assert_eq!(r.unwrap(), "/a/b/clip.srt");
}

#[test]
fn pipeline_failure_keeps_the_diagnostic() {
    let event = ConversionEvent::Completed {
        outcome: ProcessOutcome {
            exit_success: false,
            captured_error_text: "model not found".to_string(),
        },
    };
    let r = conversion_result(&sample_request(), event);
    assert!(r.is_err());
    let e = r.unwrap_err();
    assert!(matches!(e, ConversionError::PipelineFailed { .. }));
    assert_eq!(e.message(), "Python script failed: model not found");
    assert!(e.message().contains("model not found"));
}

#[test]
fn launch_failure_is_its_own_kind() {
    let event = ConversionEvent::NotLaunched { detail: "no such file".to_string() };
    let r = conversion_result(&sample_request(), event);
    let e = r.unwrap_err();
    assert!(matches!(e, ConversionError::LaunchFailed { .. }));
    assert!(!matches!(e, ConversionError::PipelineFailed { .. }));
    assert_eq!(e.message(), "Failed to execute Python script: no such file");
}

#[test]
fn unresolved_resources_are_their_own_kind() {
    let event = ConversionEvent::ResourceUnresolved { detail: "bundle broken".to_string() };
    let r = conversion_result(&sample_request(), event);
    let e = r.unwrap_err();
    assert!(matches!(e, ConversionError::ResourceResolutionFailed { .. }));
    assert_eq!(e.message(), "Failed to get resource directory: bundle broken");
}

#[test]
fn interleaved_conversions_do_not_interfere() {
    let first = sample_request();
    let second = ConversionRequest {
        input_location: "/tmp/talk.mp3".to_string(),
        model_size: "large".to_string(),
        max_chars: 80,
        max_duration_text: "6".to_string(),
    };
    let invocation_a = conversion_invocation(&first, "/res");
    let invocation_b = conversion_invocation(&second, "/other");
    let r_b = conversion_result(
        &second,
        ConversionEvent::Completed {
            outcome: ProcessOutcome {
                exit_success: false,
                captured_error_text: "codec missing".to_string(),
            },
        },
    );
    let r_a = conversion_result(
        &first,
        ConversionEvent::Completed {
            outcome: ProcessOutcome { exit_success: true, captured_error_text: String::new() },
        },
    );
    assert_eq!(invocation_a.args[3], "/a/b/clip.srt");
    assert_eq!(invocation_b.args[3], "/tmp/talk.srt");
    assert_eq!(r_a.unwrap(), "/a/b/clip.srt");
    assert_eq!(r_b.unwrap_err().message(), "Python script failed: codec missing");
}
