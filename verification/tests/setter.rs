use wallpicker::setter::{img_args, img_step, init_args, init_step, tool_name};
use wallpicker::{ErrorKind, SetStep, SpawnOutcome};

#[test]
fn init_nonzero_exit_is_swallowed() {
    // A stub daemon whose init step exits non-zero but whose img step exits
    // zero: the operation still succeeds overall.
    assert!(init_step(SpawnOutcome::Exited(false)).is_ok());
    assert!(img_step(SpawnOutcome::Exited(true)).is_ok());
}

#[test]
fn init_zero_exit_continues() {
    assert!(init_step(SpawnOutcome::Exited(true)).is_ok());
}

#[test]
fn img_nonzero_exit_is_tool_reported_failure() {
    let r = img_step(SpawnOutcome::Exited(false));
    match r {
        Ok(_) => panic!("a non-zero img exit must fail the operation"),
        Err(e) => {
            assert!(matches!(e, ErrorKind::ToolReportedFailure));
            let m = e.message();
            assert!(!m.is_empty());
            assert_eq!(m, "swww failed to set wallpaper");
        }
    }
}

#[test]
fn missing_tool_is_launch_failure_on_first_spawn() {
    let os_text = "No such file or directory (os error 2)";
    let r = init_step(SpawnOutcome::LaunchFailed(os_text.to_string()));
    match r {
        Ok(_) => panic!("a spawn failure must fail the operation"),
        Err(e) => {
            assert!(matches!(e, ErrorKind::ProcessLaunchFailed(SetStep::Init, _)));
            assert_eq!(e.message(), format!("Failed to run swww init: {}", os_text));
        }
    }
}

#[test]
fn img_launch_failure_names_img_step() {
    let os_text = "permission denied (os error 13)";
    let r = img_step(SpawnOutcome::LaunchFailed(os_text.to_string()));
    match r {
        Ok(_) => panic!("a spawn failure must fail the operation"),
        Err(e) => {
            assert!(matches!(e, ErrorKind::ProcessLaunchFailed(SetStep::Img, _)));
            assert_eq!(e.message(), format!("Failed to run swww img: {}", os_text));
        }
    }
}

#[test]
fn tool_and_init_argv_exact() {
    assert_eq!(tool_name(), "swww");
    assert_eq!(init_args(), vec!["init".to_string()]);
}

#[test]
fn img_argv_exact() {
    let path = "/home/user/Pictures/wallpapers/a.png";
    let args = img_args(path);
    let expected = vec![
        "img".to_string(),
        path.to_string(),
        "--transition-type".to_string(),
        "any".to_string(),
        "--transition-step".to_string(),
        "90".to_string(),
        "--transition-duration".to_string(),
        "2".to_string(),
    ];
    assert_eq!(args, expected);
}
