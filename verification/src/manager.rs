use vstd::prelude::*;

use crate::join_path;
use crate::config::{Config, ConfigV, dockerfile_text, views_of_strings};

verus! {

/// Path of one component under a base path.
pub open spec fn joined(base: Seq<char>, name: Seq<char>) -> Seq<char> {
    base + seq!['/'] + name
}

/// Mathematical view of a `ProgramsDir`.
pub struct ProgramsDirV {
    pub path: Seq<char>,
}

/// Mathematical view of a `RuntimeDir`.
pub struct RuntimeDirV {
    pub path: Seq<char>,
    pub programs: ProgramsDirV,
    pub dockerfile: Seq<char>,
    pub docker_compose_file: Seq<char>,
}

/// Mathematical view of a `FilesInfo`.
pub struct FilesInfoV {
    pub path: Seq<char>,
    pub sample_config: Seq<char>,
    pub config: Seq<char>,
    pub runtime: RuntimeDirV,
}

/// The layout of the mirrored-workspace directory, derived from its path.
pub open spec fn programs_dir_of(path: Seq<char>) -> ProgramsDirV {
    ProgramsDirV { path }
}

/// The layout of the runtime directory, derived from its path.
pub open spec fn runtime_dir_of(path: Seq<char>) -> RuntimeDirV {
    RuntimeDirV {
        path,
        programs: programs_dir_of(joined(path, "programs"@)),
        dockerfile: joined(path, "Dockerfile"@),
        docker_compose_file: joined(path, "docker-compose.yml"@),
    }
}

/// The whole workspace layout, derived from the configuration root path.
pub open spec fn files_info_of(root: Seq<char>) -> FilesInfoV {
    FilesInfoV {
        path: root,
        sample_config: joined(root, "sample_config.yml"@),
        config: joined(root, "config.yml"@),
        runtime: runtime_dir_of(joined(root, "runtime"@)),
    }
}

/// The directory that holds the workspace sources mirrored into the
/// container build context.
#[derive(Debug)]
pub struct ProgramsDir {
    path: String,
}

impl View for ProgramsDir {
    type V = ProgramsDirV;

    closed spec fn view(&self) -> ProgramsDirV {
        ProgramsDirV { path: self.path@ }
    }
}

impl ProgramsDir {
    /// Wraps the given path.
    pub fn new(path: &str) -> (r: Self)
        ensures
            r@ == programs_dir_of(path@),
    {
        Self { path: String::from_str(path) }
    }

    /// The directory's own path.
    pub fn path(&self) -> (r: String)
        ensures
            r@ == self@.path,
    {
        self.path.clone()
    }
}

/// The runtime directory: build artifacts and the mirrored workspace.
#[derive(Debug)]
pub struct RuntimeDir {
    path: String,
    pub programs: ProgramsDir,
    pub dockerfile: String,
    pub docker_compose_file: String,
}

impl View for RuntimeDir {
    type V = RuntimeDirV;

    closed spec fn view(&self) -> RuntimeDirV {
        RuntimeDirV {
            path: self.path@,
            programs: self.programs@,
            dockerfile: self.dockerfile@,
            docker_compose_file: self.docker_compose_file@,
        }
    }
}

impl RuntimeDir {
    /// Derives the runtime layout under the given path.
    pub fn new(path: &str) -> (r: Self)
        ensures
            r@ == runtime_dir_of(path@),
    {
        Self {
            path: String::from_str(path),
            programs: ProgramsDir::new(join_path(path, "programs").as_str()),
            dockerfile: join_path(path, "Dockerfile"),
            docker_compose_file: join_path(path, "docker-compose.yml"),
        }
    }

    /// The directory's own path.
    pub fn path(&self) -> (r: String)
        ensures
            r@ == self@.path,
    {
        self.path.clone()
    }
}

/// The full workspace layout under the configuration root.
#[derive(Debug)]
pub struct FilesInfo {
    path: String,
    pub sample_config: String,
    pub config: String,
    pub runtime: RuntimeDir,
}

impl View for FilesInfo {
    type V = FilesInfoV;

    closed spec fn view(&self) -> FilesInfoV {
        FilesInfoV {
            path: self.path@,
            sample_config: self.sample_config@,
            config: self.config@,
            runtime: self.runtime@,
        }
    }
}

impl FilesInfo {
    /// Derives the whole layout from the configuration root path.
    pub fn new(path: &str) -> (r: Self)
        ensures
            r@ == files_info_of(path@),
    {
        Self {
            path: String::from_str(path),
            sample_config: join_path(path, "sample_config.yml"),
            config: join_path(path, "config.yml"),
            runtime: RuntimeDir::new(join_path(path, "runtime").as_str()),
        }
    }

    /// The configuration root path.
    pub fn path(&self) -> (r: String)
        ensures
            r@ == self@.path,
    {
        self.path.clone()
    }
}

/// Deriving the layout is pure: equal roots give layouts that compare
/// equal, path for path.
pub proof fn lemma_derive_deterministic(r1: Seq<char>, r2: Seq<char>)
    requires
        r1 == r2,
    ensures
        files_info_of(r1) == files_info_of(r2),
{
}


/// Errors of the lifecycle manager, by failure family.
#[derive(Debug, PartialEq, Eq, Structural, Clone, Copy)]
pub enum AppError {
    /// The persisted configuration is missing, unwritable or malformed.
    ConfigError,
    /// A layout invariant does not hold.
    PathError,
    /// A file or directory operation failed.
    IoError,
    /// The external engine could not be spawned or exited non-zero.
    SubprocessError,
}

/// One step of the first-run setup: create a directory, or write the
/// default configuration to the given path.
#[derive(Debug, PartialEq)]
pub enum SetupAction {
    CreateDir(String),
    WriteDefaultConfig(String),
}

/// Mathematical view of a `SetupAction`.
pub enum SetupActionV {
    CreateDir(Seq<char>),
    WriteDefaultConfig(Seq<char>),
}

impl View for SetupAction {
    type V = SetupActionV;

    open spec fn view(&self) -> SetupActionV {
        match self {
            SetupAction::CreateDir(p) => SetupActionV::CreateDir(p@),
            SetupAction::WriteDefaultConfig(p) => SetupActionV::WriteDefaultConfig(p@),
        }
    }
}

/// The create-if-absent steps owed for a layout whose components exist as
/// the three flags say: configuration root, config file, runtime directory.
pub open spec fn setup_plan(
    f: FilesInfoV,
    root_exists: bool,
    config_exists: bool,
    runtime_exists: bool,
) -> Seq<SetupActionV> {
    (if !root_exists {
        seq![SetupActionV::CreateDir(f.path)]
    } else {
        Seq::<SetupActionV>::empty()
    }) + (if !config_exists {
        seq![SetupActionV::WriteDefaultConfig(f.config)]
    } else {
        Seq::<SetupActionV>::empty()
    }) + (if !runtime_exists {
        seq![SetupActionV::CreateDir(f.runtime.path)]
    } else {
        Seq::<SetupActionV>::empty()
    })
}

/// The directories and files that exist after the setup steps have been
/// carried out on a filesystem that held `dirs` and `files`.
pub open spec fn setup_after(
    dirs: Set<Seq<char>>,
    files: Set<Seq<char>>,
    f: FilesInfoV,
) -> (Set<Seq<char>>, Set<Seq<char>>) {
    (dirs.insert(f.path).insert(f.runtime.path), files.insert(f.config))
}

/// Setup is idempotent: once its steps have run, every component exists, a
/// second run owes no step at all — so it cannot fail — and leaves the
/// filesystem unchanged.
pub proof fn lemma_setup_idempotent(dirs: Set<Seq<char>>, files: Set<Seq<char>>, f: FilesInfoV)
    ensures
        ({
            let (d2, f2) = setup_after(dirs, files, f);
            &&& setup_plan(f, d2.contains(f.path), f2.contains(f.config), d2.contains(f.runtime.path))
                == Seq::<SetupActionV>::empty()
            &&& setup_after(d2, f2, f) == (d2, f2)
        }),
{
    let (d2, f2) = setup_after(dirs, files, f);
    assert(setup_plan(
        f,
        d2.contains(f.path),
        f2.contains(f.config),
        d2.contains(f.runtime.path),
    ) =~= Seq::<SetupActionV>::empty());
    assert(d2.insert(f.path).insert(f.runtime.path) =~= d2);
    assert(f2.insert(f.config) =~= f2);
}

/// One invocation of the external container engine.  A spawned invocation
/// is waited for and yields an exit status; a replacing invocation takes
/// over the process image and never returns on success.
#[derive(Debug, PartialEq)]
pub enum EngineAction {
    SpawnWait(Vec<String>),
    ExecReplace(Vec<String>),
}

/// Mathematical view of an `EngineAction`.
pub enum EngineActionV {
    SpawnWait(Seq<Seq<char>>),
    ExecReplace(Seq<Seq<char>>),
}

impl View for EngineAction {
    type V = EngineActionV;

    open spec fn view(&self) -> EngineActionV {
        match self {
            EngineAction::SpawnWait(argv) => EngineActionV::SpawnWait(views_of_strings(argv@)),
            EngineAction::ExecReplace(argv) => EngineActionV::ExecReplace(views_of_strings(argv@)),
        }
    }
}

/// Views of a sequence of engine actions.
pub open spec fn views_of_actions(actions: Seq<EngineAction>) -> Seq<EngineActionV> {
    actions.map_values(|a: EngineAction| a@)
}

/// Argument vector that builds and starts the service detached.
pub open spec fn up_argv() -> Seq<Seq<char>> {
    seq!["docker"@, "compose"@, "up"@, "-d"@, "--build"@]
}

/// Argument vector that attaches an interactive shell in the service.
pub open spec fn attach_argv() -> Seq<Seq<char>> {
    seq!["docker"@, "compose"@, "exec"@, "pwn"@, "/usr/bin/fish"@]
}

/// Argument vector that stops the service.
pub open spec fn kill_argv() -> Seq<Seq<char>> {
    seq!["docker"@, "compose"@, "kill"@, "pwn"@]
}

/// Argument vector that removes the stopped service's container record.
pub open spec fn rm_argv() -> Seq<Seq<char>> {
    seq!["docker"@, "compose"@, "rm"@, "-f"@, "pwn"@]
}

/// Four command-line words as a vector.
fn argv4(a: &str, b: &str, c: &str, d: &str) -> (r: Vec<String>)
    ensures
        views_of_strings(r@) == seq![a@, b@, c@, d@],
{
    let mut r: Vec<String> = Vec::new();
    r.push(String::from_str(a));
    r.push(String::from_str(b));
    r.push(String::from_str(c));
    r.push(String::from_str(d));
    assert(views_of_strings(r@) =~= seq![a@, b@, c@, d@]);
    r
}

/// Five command-line words as a vector.
fn argv5(a: &str, b: &str, c: &str, d: &str, e: &str) -> (r: Vec<String>)
    ensures
        views_of_strings(r@) == seq![a@, b@, c@, d@, e@],
{
    let mut r: Vec<String> = Vec::new();
    r.push(String::from_str(a));
    r.push(String::from_str(b));
    r.push(String::from_str(c));
    r.push(String::from_str(d));
    r.push(String::from_str(e));
    assert(views_of_strings(r@) =~= seq![a@, b@, c@, d@, e@]);
    r
}

/// Leading part of the orchestration descriptor, up to the build-script
/// file name.
pub const COMPOSE_HEAD: &'static str = "\nversion: \"3.9\"\nservices:\n    pwn:\n        build:\n            context: .\n            dockerfile: ";

/// Middle part of the orchestration descriptor, between the build-script
/// file name and the bound host directory: template arguments, user, tty,
/// privileges, unlimited core dumps, tracing capability, disabled syscall
/// filtering, and the fixed port binding.
pub const COMPOSE_MIDDLE: &'static str = "\n            args:\n                UID: $UID\n                GID: $GID\n                USERNAME: $USERNAME\n                GROUPNAME: $GROUPNAME\n        user: $UID:$GID\n        tty: true\n        privileged: true\n        ulimits:\n            core:\n                soft: -1\n                hard: -1\n        cap_add:\n            - \"SYS_PTRACE\"\n        security_opt:\n            - \"seccomp=unconfined\"\n        ports:\n            - \"127.0.0.1:3333:3333\"\n        volumes:\n            - ";

/// Trailing part of the orchestration descriptor, after the bound host
/// directory: the in-container workspace path, mounted read-write.
pub const COMPOSE_TAIL: &'static str = ":/root/workspace:rw\n";

/// The orchestration descriptor for one service built from the given
/// build-script file, with the given host directory bound into the
/// container's workspace.
pub open spec fn compose_text(dockerfile: Seq<char>, host_dir: Seq<char>) -> Seq<char> {
    COMPOSE_HEAD@ + dockerfile + COMPOSE_MIDDLE@ + host_dir + COMPOSE_TAIL@
}

/// Renders the orchestration descriptor for one service.
pub fn generate_docker_compose_config(dockerfile_name: &str, host_dir_path: &str) -> (r: String)
    ensures
        r@ == compose_text(dockerfile_name@, host_dir_path@),
{
    let mut out = String::from_str(COMPOSE_HEAD);
    out.append(dockerfile_name);
    out.append(COMPOSE_MIDDLE);
    out.append(host_dir_path);
    out.append(COMPOSE_TAIL);
    assert(out@ =~= compose_text(dockerfile_name@, host_dir_path@));
    out
}

/// Classifies one finished engine invocation: success exactly when the
/// engine was spawned and exited zero, a `SubprocessError` otherwise.
pub fn subprocess_outcome(spawned: bool, exit_code: i32) -> (r: Result<(), AppError>)
    ensures
        match r {
            Ok(_) => spawned && exit_code == 0,
            Err(e) => e == AppError::SubprocessError && !(spawned && exit_code == 0),
        },
{
    if spawned && exit_code == 0 {
        Ok(())
    } else {
        Err(AppError::SubprocessError)
    }
}

/// Everything `init` decides before any effect is performed: the files to
/// write and their exact contents, the directory to mirror the host
/// workspace into, and the engine invocations to make, in order.
#[derive(Debug)]
pub struct InitPlan {
    /// Directory the engine must be invoked from.
    pub runtime_path: String,
    /// Where the compiled build script is written, overwriting.
    pub dockerfile_path: String,
    /// The compiled build script, with the two trailer lines.
    pub dockerfile_content: String,
    /// Where the orchestration descriptor is written, overwriting.
    pub compose_path: String,
    /// The orchestration descriptor.
    pub compose_content: String,
    /// Directory to delete if present, then copy the host directory into.
    pub programs_path: String,
    /// The host directory whose contents are mirrored.
    pub host_dir: String,
    /// Engine invocations, in order: build-and-start, then attach.
    pub engine_steps: Vec<EngineAction>,
}

/// Mathematical view of an `InitPlan`.
pub struct InitPlanV {
    pub runtime_path: Seq<char>,
    pub dockerfile_path: Seq<char>,
    pub dockerfile_content: Seq<char>,
    pub compose_path: Seq<char>,
    pub compose_content: Seq<char>,
    pub programs_path: Seq<char>,
    pub host_dir: Seq<char>,
    pub engine_steps: Seq<EngineActionV>,
}

impl View for InitPlan {
    type V = InitPlanV;

    open spec fn view(&self) -> InitPlanV {
        InitPlanV {
            runtime_path: self.runtime_path@,
            dockerfile_path: self.dockerfile_path@,
            dockerfile_content: self.dockerfile_content@,
            compose_path: self.compose_path@,
            compose_content: self.compose_content@,
            programs_path: self.programs_path@,
            host_dir: self.host_dir@,
            engine_steps: views_of_actions(self.engine_steps@),
        }
    }
}

/// The compiled build script with the two trailer lines: copy the mirrored
/// workspace sources into the image, then select the working directory.
pub open spec fn init_dockerfile_text(c: ConfigV) -> Seq<char> {
    dockerfile_text(c) + "COPY programs /root/workspace\n"@ + "WORKDIR /root/workspace\n"@
}

/// The full `init` plan for a layout, configuration and host directory.
pub open spec fn init_plan_of(f: FilesInfoV, c: ConfigV, host_dir: Seq<char>) -> InitPlanV {
    InitPlanV {
        runtime_path: f.runtime.path,
        dockerfile_path: f.runtime.dockerfile,
        dockerfile_content: init_dockerfile_text(c),
        compose_path: f.runtime.docker_compose_file,
        compose_content: compose_text("Dockerfile"@, host_dir),
        programs_path: f.runtime.programs.path,
        host_dir,
        engine_steps: seq![
            EngineActionV::SpawnWait(up_argv()),
            EngineActionV::ExecReplace(attach_argv()),
        ],
    }
}

/// The `enter` plan: attach an interactive shell, replacing the process.
#[derive(Debug)]
pub struct EnterPlan {
    /// Directory the engine must be invoked from.
    pub runtime_path: String,
    /// The replacing engine invocation.
    pub attach: EngineAction,
}

/// Mathematical view of an `EnterPlan`.
pub struct EnterPlanV {
    pub runtime_path: Seq<char>,
    pub attach: EngineActionV,
}

impl View for EnterPlan {
    type V = EnterPlanV;

    open spec fn view(&self) -> EnterPlanV {
        EnterPlanV { runtime_path: self.runtime_path@, attach: self.attach@ }
    }
}

/// The `enter` plan for a layout.
pub open spec fn enter_plan_of(f: FilesInfoV) -> EnterPlanV {
    EnterPlanV {
        runtime_path: f.runtime.path,
        attach: EngineActionV::ExecReplace(attach_argv()),
    }
}

/// The `kill` plan: stop the service and wait, then remove its container
/// record, replacing the process.
#[derive(Debug)]
pub struct KillPlan {
    /// Directory the engine must be invoked from.
    pub runtime_path: String,
    /// Engine invocations, in order: stop-and-wait, then remove.
    pub engine_steps: Vec<EngineAction>,
}

/// Mathematical view of a `KillPlan`.
pub struct KillPlanV {
    pub runtime_path: Seq<char>,
    pub engine_steps: Seq<EngineActionV>,
}

impl View for KillPlan {
    type V = KillPlanV;

    open spec fn view(&self) -> KillPlanV {
        KillPlanV {
            runtime_path: self.runtime_path@,
            engine_steps: views_of_actions(self.engine_steps@),
        }
    }
}

/// The `kill` plan for a layout.
pub open spec fn kill_plan_of(f: FilesInfoV) -> KillPlanV {
    KillPlanV {
        runtime_path: f.runtime.path,
        engine_steps: seq![
            EngineActionV::SpawnWait(kill_argv()),
            EngineActionV::ExecReplace(rm_argv()),
        ],
    }
}

/// In a layout derived from a root, the mirrored-workspace directory sits
/// directly under the runtime directory, so `init` never fails the layout
/// check.
pub proof fn lemma_programs_under_runtime(root: Seq<char>)
    ensures
        files_info_of(root).runtime.programs.path == joined(
            files_info_of(root).runtime.path,
            "programs"@,
        ),
{
}

/// Drives one command invocation: derives the layout once and decides each
/// command's effects; the effects themselves — filesystem writes and
/// engine invocations — are carried out by the caller.
#[derive(Debug)]
pub struct AppManager {
    files_info: FilesInfo,
}

impl View for AppManager {
    type V = FilesInfoV;

    closed spec fn view(&self) -> FilesInfoV {
        self.files_info@
    }
}

impl AppManager {
    /// Derives the layout under the given configuration root.
    pub fn new(base_path: &str) -> (r: Self)
        ensures
            r@ == files_info_of(base_path@),
    {
        Self { files_info: FilesInfo::new(base_path) }
    }

    /// Decides the first-run setup steps, given which layout components
    /// exist: create the configuration root if absent, write the default
    /// configuration if absent, create the runtime directory if absent.
    pub fn setup_minimum_requirements(
        &self,
        root_exists: bool,
        config_exists: bool,
        runtime_exists: bool,
    ) -> (r: Vec<SetupAction>)
        ensures
            r@.map_values(|a: SetupAction| a@) == setup_plan(
                self@,
                root_exists,
                config_exists,
                runtime_exists,
            ),
    {
        let mut r: Vec<SetupAction> = Vec::new();
        if !root_exists {
            r.push(SetupAction::CreateDir(self.files_info.path()));
        }
        if !config_exists {
            r.push(SetupAction::WriteDefaultConfig(self.files_info.config.clone()));
        }
        if !runtime_exists {
            r.push(SetupAction::CreateDir(self.files_info.runtime.path()));
        }
        assert(r@.map_values(|a: SetupAction| a@) =~= setup_plan(
            self@,
            root_exists,
            config_exists,
            runtime_exists,
        ));
        r
    }

    /// Decides everything `init` writes and invokes: the compiled build
    /// script with its trailer lines, the orchestration descriptor naming
    /// the host directory, the mirror step, and the two engine
    /// invocations.  Fails with `PathError` exactly when the
    /// mirrored-workspace directory is not directly under the runtime
    /// directory — which never happens in a derived layout.
    pub fn init(&self, config: &Config, host_dir_path: &str) -> (r: Result<InitPlan, AppError>)
        ensures
            match r {
                Ok(plan) => self@.runtime.programs.path == joined(
                    self@.runtime.path,
                    "programs"@,
                ) && plan@ == init_plan_of(self@, config@, host_dir_path@),
                Err(e) => e == AppError::PathError && self@.runtime.programs.path != joined(
                    self@.runtime.path,
                    "programs"@,
                ),
            },
    {
        let runtime_path = self.files_info.runtime.path();
        let programs_path = self.files_info.runtime.programs.path();
        let expected_programs = crate::join_path(runtime_path.as_str(), "programs");
        if !(expected_programs == programs_path) {
            return Err(AppError::PathError);
        }
        let mut dockerfile_content = config.to_dockerfile();
        dockerfile_content.append("COPY programs /root/workspace\n");
        dockerfile_content.append("WORKDIR /root/workspace\n");
        let compose_content = generate_docker_compose_config("Dockerfile", host_dir_path);
        let mut engine_steps: Vec<EngineAction> = Vec::new();
        engine_steps.push(EngineAction::SpawnWait(argv5("docker", "compose", "up", "-d", "--build")));
        engine_steps.push(
            EngineAction::ExecReplace(argv5("docker", "compose", "exec", "pwn", "/usr/bin/fish")),
        );
        let plan = InitPlan {
            runtime_path,
            dockerfile_path: self.files_info.runtime.dockerfile.clone(),
            dockerfile_content,
            compose_path: self.files_info.runtime.docker_compose_file.clone(),
            compose_content,
            programs_path,
            host_dir: String::from_str(host_dir_path),
            engine_steps,
        };
        proof {
            assert(plan@.engine_steps =~= init_plan_of(self@, config@, host_dir_path@).engine_steps);
            assert(plan@.dockerfile_content =~= init_dockerfile_text(config@));
        }
        Ok(plan)
    }

    /// Decides the `enter` command: attach an interactive shell inside the
    /// running service, replacing the current process.
    pub fn enter(&self) -> (r: EnterPlan)
        ensures
            r@ == enter_plan_of(self@),
    {
        let plan = EnterPlan {
            runtime_path: self.files_info.runtime.path(),
            attach: EngineAction::ExecReplace(
                argv5("docker", "compose", "exec", "pwn", "/usr/bin/fish"),
            ),
        };
        plan
    }

    /// Decides the `kill` command: stop the service and wait for the
    /// engine, then remove the container record, replacing the process.
    pub fn kill(&self) -> (r: KillPlan)
        ensures
            r@ == kill_plan_of(self@),
    {
        let mut engine_steps: Vec<EngineAction> = Vec::new();
        engine_steps.push(EngineAction::SpawnWait(argv4("docker", "compose", "kill", "pwn")));
        engine_steps.push(
            EngineAction::ExecReplace(argv5("docker", "compose", "rm", "-f", "pwn")),
        );
        let plan = KillPlan { runtime_path: self.files_info.runtime.path(), engine_steps };
        proof {
            assert(plan@.engine_steps =~= kill_plan_of(self@).engine_steps);
        }
        plan
    }
}

} // verus!
