use pwnenv::config::Config;
use pwnenv::manager::{
    generate_docker_compose_config, subprocess_outcome, AppError, AppManager, EngineAction,
    FilesInfo, ProgramsDir, RuntimeDir, SetupAction,
};

const ROOT: &str = "/home/user/.config/pwnenv";

#[test]
fn derive_is_pure() {
    let a = FilesInfo::new(ROOT);
    let b = FilesInfo::new(ROOT);
    assert_eq!(a.path(), b.path());
    assert_eq!(a.sample_config, b.sample_config);
    assert_eq!(a.config, b.config);
    assert_eq!(a.runtime.path(), b.runtime.path());
    assert_eq!(a.runtime.dockerfile, b.runtime.dockerfile);
    assert_eq!(a.runtime.docker_compose_file, b.runtime.docker_compose_file);
    assert_eq!(a.runtime.programs.path(), b.runtime.programs.path());
}

#[test]
fn derive_produces_the_fixed_layout() {
    let f = FilesInfo::new(ROOT);
    assert_eq!(f.path(), ROOT);
    assert_eq!(f.sample_config, format!("{}/sample_config.yml", ROOT));
    assert_eq!(f.config, format!("{}/config.yml", ROOT));
    assert_eq!(f.runtime.path(), format!("{}/runtime", ROOT));
    assert_eq!(f.runtime.dockerfile, format!("{}/runtime/Dockerfile", ROOT));
    assert_eq!(
        f.runtime.docker_compose_file,
        format!("{}/runtime/docker-compose.yml", ROOT)
    );
    assert_eq!(f.runtime.programs.path(), format!("{}/runtime/programs", ROOT));
    let r = RuntimeDir::new("/elsewhere/runtime");
    assert_eq!(r.dockerfile, "/elsewhere/runtime/Dockerfile");
    let p = ProgramsDir::new("/elsewhere/programs");
    assert_eq!(p.path(), "/elsewhere/programs");
}

#[test]
fn setup_on_fresh_root_creates_everything_in_order() {
    let m = AppManager::new(ROOT);
    let plan = m.setup_minimum_requirements(false, false, false);
    assert_eq!(
        plan,
        vec![
            SetupAction::CreateDir(ROOT.to_string()),
            SetupAction::WriteDefaultConfig(format!("{}/config.yml", ROOT)),
            SetupAction::CreateDir(format!("{}/runtime", ROOT)),
        ]
    );
}

#[test]
fn setup_is_idempotent() {
    let m = AppManager::new(ROOT);
    // First run on a fresh root owes work; afterwards every component
    // exists, so a second run owes nothing and cannot fail.
    let first = m.setup_minimum_requirements(false, false, false);
    assert_eq!(first.len(), 3);
    let second = m.setup_minimum_requirements(true, true, true);
    assert!(second.is_empty());
    let third = m.setup_minimum_requirements(true, true, true);
    assert!(third.is_empty());
}

#[test]
fn setup_creates_only_what_is_missing() {
    let m = AppManager::new(ROOT);
    let plan = m.setup_minimum_requirements(true, false, true);
    assert_eq!(
        plan,
        vec![SetupAction::WriteDefaultConfig(format!("{}/config.yml", ROOT))]
    );
    let plan = m.setup_minimum_requirements(true, true, false);
    assert_eq!(plan, vec![SetupAction::CreateDir(format!("{}/runtime", ROOT))]);
}

#[test]
fn compose_config_carries_name_and_host_dir() {
    let out = generate_docker_compose_config("Dockerfile", "/home/user/ctf");
    let expected = r#"
version: "3.9"
services:
    pwn:
        build:
            context: .
            dockerfile: Dockerfile
            args:
                UID: $UID
                GID: $GID
                USERNAME: $USERNAME
                GROUPNAME: $GROUPNAME
        user: $UID:$GID
        tty: true
        privileged: true
        ulimits:
            core:
                soft: -1
                hard: -1
        cap_add:
            - "SYS_PTRACE"
        security_opt:
            - "seccomp=unconfined"
        ports:
            - "127.0.0.1:3333:3333"
        volumes:
            - /home/user/ctf:/root/workspace:rw
"#;
    assert_eq!(out, expected);
}

fn argv(words: &[&str]) -> Vec<String> {
    words.iter().map(|w| w.to_string()).collect()
}

#[test]
fn init_plan_on_fresh_root_with_default_config() {
    let m = AppManager::new(ROOT);
    let config = Config::default();
    let plan = m.init(&config, "/home/user/ctf").expect("derived layout");
    assert_eq!(plan.runtime_path, format!("{}/runtime", ROOT));
    assert_eq!(plan.dockerfile_path, format!("{}/runtime/Dockerfile", ROOT));
    assert!(!plan.dockerfile_content.is_empty());
    assert!(plan.dockerfile_content.starts_with("FROM amd64/ubuntu:22.04\n"));
    assert!(plan
        .dockerfile_content
        .ends_with("COPY programs /root/workspace\nWORKDIR /root/workspace\n"));
    assert_eq!(
        plan.dockerfile_content,
        format!(
            "{}COPY programs /root/workspace\nWORKDIR /root/workspace\n",
            config.to_dockerfile()
        )
    );
    assert_eq!(plan.compose_path, format!("{}/runtime/docker-compose.yml", ROOT));
    assert!(plan.compose_content.contains("/home/user/ctf"));
    assert_eq!(
        plan.compose_content,
        generate_docker_compose_config("Dockerfile", "/home/user/ctf")
    );
    assert_eq!(plan.programs_path, format!("{}/runtime/programs", ROOT));
    assert_eq!(plan.host_dir, "/home/user/ctf");
    assert_eq!(
        plan.engine_steps,
        vec![
            EngineAction::SpawnWait(argv(&["docker", "compose", "up", "-d", "--build"])),
            EngineAction::ExecReplace(argv(&["docker", "compose", "exec", "pwn", "/usr/bin/fish"])),
        ]
    );
}

#[test]
fn enter_attaches_a_shell_replacing_the_process() {
    let m = AppManager::new(ROOT);
    let plan = m.enter();
    assert_eq!(plan.runtime_path, format!("{}/runtime", ROOT));
    assert_eq!(
        plan.attach,
        EngineAction::ExecReplace(argv(&["docker", "compose", "exec", "pwn", "/usr/bin/fish"]))
    );
}

#[test]
fn kill_stops_then_removes() {
    let m = AppManager::new(ROOT);
    let plan = m.kill();
    assert_eq!(plan.runtime_path, format!("{}/runtime", ROOT));
    assert_eq!(
        plan.engine_steps,
        vec![
            EngineAction::SpawnWait(argv(&["docker", "compose", "kill", "pwn"])),
            EngineAction::ExecReplace(argv(&["docker", "compose", "rm", "-f", "pwn"])),
        ]
    );
}

#[test]
fn failed_engine_invocation_surfaces_a_subprocess_error() {
    // `kill` with no service: the engine exits non-zero.
    assert_eq!(subprocess_outcome(true, 1), Err(AppError::SubprocessError));
    // The engine binary could not be spawned at all.
    assert_eq!(subprocess_outcome(false, 0), Err(AppError::SubprocessError));
    assert_eq!(subprocess_outcome(true, 0), Ok(()));
}
