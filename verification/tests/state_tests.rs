use shtml_dev::AppState;
use shtml_dev::BuildState;
use shtml_dev::build_status_text;
use shtml_dev::get_build_status;
use shtml_dev::set_build_status;

#[test]
fn new_state_is_idle_with_url() {
    let s = AppState::new(8080, String::from("10.0.0.5"));
    assert!(matches!(s.build_state, BuildState::Idle));
    assert!(s.last_build_time.is_none());
    assert!(s.file_changed.is_none());
    assert_eq!(s.port, 8080);
    assert_eq!(s.local_ip, "10.0.0.5");
    assert_eq!(s.server_url, "http://10.0.0.5:8080");
}

#[test]
fn status_text_covers_all_tags() {
    assert_eq!(build_status_text(&BuildState::Idle), "unknown");
    assert_eq!(build_status_text(&BuildState::Building), "building");
    assert_eq!(
        build_status_text(&BuildState::Success { duration_ms: 1200, artifact_size: 4096 }),
        "success"
    );
    assert_eq!(
        build_status_text(&BuildState::Failed { message: String::from("boom") }),
        "failed"
    );
}

#[test]
fn transitions_and_snapshots() {
    let mut s = AppState::new(3000, String::from("127.0.0.1"));
    set_build_status(&mut s, BuildState::Building);
    assert!(matches!(get_build_status(&s), BuildState::Building));
    set_build_status(&mut s, BuildState::Success { duration_ms: 10, artifact_size: 2 });
    match get_build_status(&s) {
        BuildState::Success { duration_ms, artifact_size } => {
            assert_eq!(duration_ms, 10);
            assert_eq!(artifact_size, 2);
        }
        other => panic!("unexpected state {:?}", other),
    }
    set_build_status(&mut s, BuildState::Building);
    set_build_status(&mut s, BuildState::Failed { message: String::from("broken") });
    match get_build_status(&s) {
        BuildState::Failed { message } => assert_eq!(message, "broken"),
        other => panic!("unexpected state {:?}", other),
    }
}

#[test]
fn snapshot_is_a_copy_of_the_failure_message() {
    let mut s = AppState::new(3000, String::from("127.0.0.1"));
    set_build_status(&mut s, BuildState::Building);
    set_build_status(&mut s, BuildState::Failed { message: String::from("m") });
    let snap = get_build_status(&s);
    assert_eq!(snap, BuildState::Failed { message: String::from("m") });
}
