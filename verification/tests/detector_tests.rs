use shtml_dev::AppState;
use shtml_dev::BuildOutcome;
use shtml_dev::BuildState;
use shtml_dev::ChangeDetector;
use shtml_dev::ReloadHub;
use shtml_dev::StepOutput;
use shtml_dev::classify_build;
use shtml_dev::finish_build;
use shtml_dev::is_noisy_path;

fn success_outcome() -> BuildOutcome {
    classify_build(
        &StepOutput { ok: true, stdout: String::new(), stderr: String::new() },
        &Some(StepOutput { ok: true, stdout: String::new(), stderr: String::new() }),
    )
}

#[test]
fn noisy_paths_are_ignored() {
    assert!(is_noisy_path("Sources/main.swift.swp"));
    assert!(is_noisy_path("Sources/main.swift~"));
    assert!(is_noisy_path("project/.git/config"));
    assert!(is_noisy_path("project/.build/debug/app"));
    assert!(!is_noisy_path("Sources/main.swift"));
}

#[test]
fn two_events_inside_the_window_build_once() {
    let mut d = ChangeDetector::new();
    let mut s = AppState::new(3000, String::from("127.0.0.1"));
    let mut hub = ReloadHub::new();
    let paths = vec![String::from("Sources/main.swift")];

    assert!(d.on_fs_event(&mut s, &paths, 1000));
    assert!(matches!(s.build_state, BuildState::Building));
    finish_build(&mut s, &mut hub, &success_outcome(), 5, 10);

    // A second notification 200 ms later falls inside the 300 ms quiet
    // window and is dropped.
    assert!(!d.on_fs_event(&mut s, &paths, 1200));
    assert!(matches!(s.build_state, BuildState::Success { .. }));

    // Once the window has elapsed the next notification is accepted.
    assert!(d.on_fs_event(&mut s, &paths, 1300));
    assert!(matches!(s.build_state, BuildState::Building));
}

#[test]
fn all_noisy_event_does_not_trigger() {
    let mut d = ChangeDetector::new();
    let mut s = AppState::new(3000, String::from("127.0.0.1"));
    let paths = vec![String::from("Sources/main.swift.swp"), String::from("x/.git/HEAD")];
    assert!(!d.on_fs_event(&mut s, &paths, 1000));
    assert!(matches!(s.build_state, BuildState::Idle));
    let empty: Vec<String> = Vec::new();
    assert!(!d.on_fs_event(&mut s, &empty, 1000));
}

#[test]
fn noise_is_filtered_per_path_not_per_event() {
    // A real source change saved alongside an editor swap file still
    // triggers, and the first surviving path is what gets recorded.
    let mut d = ChangeDetector::new();
    let mut s = AppState::new(3000, String::from("127.0.0.1"));
    let paths = vec![
        String::from("Sources/main.swift.swp"),
        String::from("Sources/main.swift"),
        String::from("Sources/other.swift"),
    ];
    assert!(d.on_fs_event(&mut s, &paths, 1000));
    assert!(matches!(s.build_state, BuildState::Building));
    assert_eq!(s.file_changed.as_deref(), Some("Sources/main.swift"));
}

#[test]
fn accepted_event_records_first_path() {
    let mut d = ChangeDetector::new();
    let mut s = AppState::new(3000, String::from("127.0.0.1"));
    let paths = vec![String::from("Sources/a.swift"), String::from("Sources/b.swift")];
    assert!(d.on_fs_event(&mut s, &paths, 50));
    assert_eq!(s.file_changed.as_deref(), Some("Sources/a.swift"));
}

#[test]
fn poll_triggers_only_on_advancing_mtime() {
    let mut d = ChangeDetector::new();
    let mut s = AppState::new(3000, String::from("127.0.0.1"));
    let mut hub = ReloadHub::new();

    // No modification time seen at all: nothing to do.
    assert!(!d.on_poll(&mut s, 0, 10));

    assert!(d.on_poll(&mut s, 500, 100));
    assert_eq!(s.file_changed.as_deref(), Some("Source files"));
    finish_build(&mut s, &mut hub, &success_outcome(), 5, 10);

    // Same mtime again: no advance, no trigger.
    assert!(!d.on_poll(&mut s, 500, 1000));
    // Advance inside the quiet window: consumed but not accepted.
    assert!(!d.on_poll(&mut s, 600, 150));
    // Advance after the window: accepted.
    assert!(d.on_poll(&mut s, 700, 401));
    assert!(matches!(s.build_state, BuildState::Building));
}

#[test]
fn manual_request_during_build_is_deferred_once() {
    let mut d = ChangeDetector::new();
    let mut s = AppState::new(3000, String::from("127.0.0.1"));
    let mut hub = ReloadHub::new();
    let paths = vec![String::from("Sources/main.swift")];

    assert!(d.on_fs_event(&mut s, &paths, 1000));
    // The dashboard asks for a rebuild while the build is in flight.
    d.request_manual_rebuild();
    finish_build(&mut s, &mut hub, &success_outcome(), 5, 10);

    // The deferred request yields exactly one additional build.
    assert!(d.take_manual_rebuild(&mut s));
    assert!(matches!(s.build_state, BuildState::Building));
    finish_build(&mut s, &mut hub, &success_outcome(), 5, 10);
    assert!(!d.take_manual_rebuild(&mut s));
    assert!(matches!(s.build_state, BuildState::Success { .. }));
}

#[test]
fn manual_request_bypasses_the_quiet_window() {
    let mut d = ChangeDetector::new();
    let mut s = AppState::new(3000, String::from("127.0.0.1"));
    let mut hub = ReloadHub::new();
    let paths = vec![String::from("Sources/main.swift")];

    assert!(d.on_fs_event(&mut s, &paths, 1000));
    finish_build(&mut s, &mut hub, &success_outcome(), 5, 10);
    // Still inside the quiet window, yet the manual request is accepted.
    d.request_manual_rebuild();
    assert!(d.take_manual_rebuild(&mut s));
}

#[test]
fn successful_build_records_a_clock_time() {
    let mut d = ChangeDetector::new();
    let mut s = AppState::new(3000, String::from("127.0.0.1"));
    let mut hub = ReloadHub::new();
    let paths = vec![String::from("Sources/main.swift")];
    assert!(d.on_fs_event(&mut s, &paths, 1000));
    finish_build(&mut s, &mut hub, &success_outcome(), 5, 10);
    let t = s.last_build_time.expect("a successful build records its time");
    let bytes = t.as_bytes();
    assert_eq!(bytes.len(), 8);
    assert_eq!(bytes[2], b':');
    assert_eq!(bytes[5], b':');
    for i in [0usize, 1, 3, 4, 6, 7] {
        assert!(bytes[i].is_ascii_digit());
    }
}

#[test]
fn compile_failure_takes_stderr_then_stdout_then_generic() {
    let r = classify_build(
        &StepOutput {
            ok: false,
            stdout: String::from("out"),
            stderr: String::from("syntax error line 4"),
        },
        &None,
    );
    assert!(!r.success);
    assert_eq!(r.message, "Build Error:\n\nsyntax error line 4");

    let r = classify_build(
        &StepOutput { ok: false, stdout: String::from("out"), stderr: String::from("  \n") },
        &None,
    );
    assert_eq!(r.message, "Build Error:\n\nout");

    let r = classify_build(
        &StepOutput { ok: false, stdout: String::from(" "), stderr: String::new() },
        &None,
    );
    assert_eq!(r.message, "Build Error:\n\nBuild failed with no output.");
}

#[test]
fn run_failure_combines_both_streams() {
    let compile = StepOutput { ok: true, stdout: String::new(), stderr: String::new() };
    let r = classify_build(
        &compile,
        &Some(StepOutput {
            ok: false,
            stdout: String::from("partial page"),
            stderr: String::from("crash"),
        }),
    );
    assert!(!r.success);
    assert_eq!(r.message, "Generation Error:\n\nOutput:\npartial page\n\nErrors:\ncrash");

    let r = classify_build(
        &compile,
        &Some(StepOutput { ok: false, stdout: String::new(), stderr: String::from("crash") }),
    );
    assert_eq!(r.message, "Generation Error:\n\nErrors:\ncrash");

    let r = classify_build(
        &compile,
        &Some(StepOutput { ok: false, stdout: String::new(), stderr: String::from("\t") }),
    );
    assert_eq!(r.message, "Generation failed with no output.");
}

#[test]
fn successful_build_has_empty_message() {
    let r = success_outcome();
    assert!(r.success);
    assert_eq!(r.message, "");
}
