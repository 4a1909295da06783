use rustbot::configuration::{get_container_settings, Environment};
use rustbot::container::{ContainerActions, ContainerSettings, PullError};
use rustbot::transport::trampoline_command;

fn profile() -> ContainerSettings {
    ContainerSettings {
        cpu: "0.5".to_string(),
        memory: "100m".to_string(),
        swap: "5m".to_string(),
        image: "ghcr.io/theconner/rustbot-runner:latest".to_string(),
        max_runtime: 5000,
        network: "none".to_string(),
        pid_limit: 64,
        running_in_container: false,
    }
}

fn occurrences(line: &str, needle: &str) -> usize {
    line.matches(needle).count()
}

#[test]
fn local_binary_outside_a_container() {
    let mut settings = profile();
    settings.running_in_container = false;
    assert_eq!(settings.container_command(), "podman");
}

#[test]
fn remote_binary_inside_a_container() {
    let mut settings = profile();
    settings.running_in_container = true;
    assert_eq!(settings.container_command(), "podman-remote");
}

#[test]
fn flags_in_fixed_order() {
    assert_eq!(
        profile().generate_runtime_flags(),
        "--cap-drop=ALL --security-opt=no-new-privileges --cpus=0.5 --memory=100m --network=none --pids-limit=64"
    );
}

#[test]
fn flags_follow_the_profile() {
    let settings = ContainerSettings {
        cpu: "2".to_string(),
        memory: "1g".to_string(),
        swap: "2g".to_string(),
        image: "localhost/runner".to_string(),
        max_runtime: 1,
        network: "host".to_string(),
        pid_limit: 18446744073709551615,
        running_in_container: true,
    };
    assert_eq!(
        settings.generate_runtime_flags(),
        "--cap-drop=ALL --security-opt=no-new-privileges --cpus=2 --memory=1g --network=host --pids-limit=18446744073709551615"
    );
}

#[test]
fn each_flag_once_and_no_swap() {
    let settings = profile();
    let command = settings.invoke_command(trampoline_command(b"fn main() {}"));
    let line = &command.arguments[1];
    assert_eq!(occurrences(line, "--cpus="), 1);
    assert_eq!(occurrences(line, "--memory="), 1);
    assert_eq!(occurrences(line, "--network="), 1);
    assert_eq!(occurrences(line, "--pids-limit="), 1);
    assert_eq!(occurrences(line, "--cap-drop=ALL"), 1);
    assert_eq!(occurrences(line, "--security-opt=no-new-privileges"), 1);
    assert_eq!(occurrences(line, "swap"), 0);
    assert_eq!(occurrences(line, "5m"), 0);
}

#[test]
fn run_line_through_the_shell() {
    let command = profile().invoke_command("trampoline Zm9v".to_string());
    assert_eq!(command.program, "sh");
    assert_eq!(command.arguments.len(), 2);
    assert_eq!(command.arguments[0], "-c");
    assert_eq!(
        command.arguments[1],
        "podman run --rm --cap-drop=ALL --security-opt=no-new-privileges --cpus=0.5 --memory=100m --network=none --pids-limit=64 ghcr.io/theconner/rustbot-runner:latest trampoline Zm9v"
    );
}

#[test]
fn run_line_with_remote_binary() {
    let mut settings = profile();
    settings.running_in_container = true;
    let command = settings.invoke_command("ls -al".to_string());
    assert!(command.arguments[1].starts_with("podman-remote run --rm --cap-drop=ALL "));
    assert!(command.arguments[1].ends_with(" ghcr.io/theconner/rustbot-runner:latest ls -al"));
}

#[test]
fn run_line_splits_into_twelve_words() {
    let command = profile().invoke_command(trampoline_command(b"\"$(reboot)\"; `id`"));
    let words: Vec<&str> = command.arguments[1].split(' ').collect();
    assert_eq!(
        words,
        vec![
            "podman",
            "run",
            "--rm",
            "--cap-drop=ALL",
            "--security-opt=no-new-privileges",
            "--cpus=0.5",
            "--memory=100m",
            "--network=none",
            "--pids-limit=64",
            "ghcr.io/theconner/rustbot-runner:latest",
            "trampoline",
            "IiQocmVib290KSI7IGBpZGA=",
        ]
    );
}

#[test]
fn pull_command_names_binary_and_image() {
    let command = profile().pull_command();
    assert_eq!(command.program, "podman");
    assert_eq!(command.arguments, vec!["pull".to_string(), "ghcr.io/theconner/rustbot-runner:latest".to_string()]);
    let mut settings = profile();
    settings.running_in_container = true;
    assert_eq!(settings.pull_command().program, "podman-remote");
}

#[test]
fn pull_with_exit_code_zero_succeeds() {
    assert_eq!(profile().pull_image(Some(0)), Ok(()));
}

#[test]
fn pull_with_other_exit_code_fails() {
    assert_eq!(profile().pull_image(Some(1)), Err(PullError::Failed { code: 1 }));
    assert_eq!(profile().pull_image(Some(125)), Err(PullError::Failed { code: 125 }));
    assert_eq!(profile().pull_image(Some(-1)), Err(PullError::Failed { code: -1 }));
}

#[test]
fn pull_without_exit_code_fails() {
    assert_eq!(profile().pull_image(None), Err(PullError::NoExitCode));
}

#[test]
fn pull_error_messages() {
    assert_eq!(
        PullError::Failed { code: 125 }.message(),
        "Could not pull container image, got error code 125"
    );
    assert_eq!(
        PullError::Failed { code: -2147483648 }.message(),
        "Could not pull container image, got error code -2147483648"
    );
    assert_eq!(PullError::NoExitCode.message(), "Could not pull container image, got no exit code");
}

#[test]
fn default_profile_is_well_formed() {
    assert!(get_container_settings(&Environment::empty()).is_well_formed());
    assert!(profile().is_well_formed());
}

#[test]
fn ill_formed_profiles_are_recognised() {
    let mut s = profile();
    s.cpu = "".to_string();
    assert!(!s.is_well_formed());
    let mut s = profile();
    s.memory = "100m --privileged".to_string();
    assert!(!s.is_well_formed());
    let mut s = profile();
    s.network = "none;reboot".to_string();
    assert!(!s.is_well_formed());
    let mut s = profile();
    s.image = "--privileged".to_string();
    assert!(!s.is_well_formed());
    let mut s = profile();
    s.image = "$(id)".to_string();
    assert!(!s.is_well_formed());
    let mut s = profile();
    s.swap = " ".to_string();
    assert!(!s.is_well_formed());
    let mut s = profile();
    s.max_runtime = 0;
    assert!(!s.is_well_formed());
    let mut s = profile();
    s.pid_limit = 0;
    assert!(!s.is_well_formed());
}
