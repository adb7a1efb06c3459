//! The CMake backend's decisions: which steps a command asks for, the
//! configuration arguments, and the additions to the project's CMake file.
use vstd::prelude::*;

verus! {

#[derive(Clone, Copy, Debug, PartialEq, Eq)]
pub enum BuildProfile {
    Debug,
    Release,
}

#[derive(Clone, Copy, Debug, PartialEq, Eq)]
pub struct BuildCommandOptions {
    pub profile: BuildProfile,
    /// Stop after code generation where false.
    pub compile_target_code: bool,
    /// Go on with the other targets after one fails.
    pub keep_going: bool,
}

#[derive(Clone, Copy, Debug, PartialEq, Eq)]
pub enum CommandSpec {
    Build(BuildCommandOptions),
    Clean,
}

/// What the backend does for a command over a batch of targets.
#[derive(Clone, Copy, Debug, PartialEq, Eq)]
pub enum BackendAction {
    /// Set the batch's keep-going flag, and where `compile` holds generate
    /// each target's CMake files and then build them all.
    Build { keep_going: bool, compile: bool, release: bool },
    /// Remove each target's build output.
    Clean,
}

/// The C++ backend driven by CMake.
#[derive(Clone, Copy, Debug, PartialEq, Eq)]
pub struct CmakeCpp;

/// How a command that was started ended.
#[derive(Clone, Copy, Debug, PartialEq, Eq)]
pub struct ExitInfo {
    pub success: bool,
    pub code: Option<i32>,
}

/// Why a build step failed.
#[derive(Clone, Copy, Debug, PartialEq, Eq)]
pub enum BuildError {
    /// The command could not be started.
    NotStarted,
    /// The command exited unsuccessfully, with this code if it had one.
    CommandFailed { code: Option<i32> },
}

impl CmakeCpp {
    pub fn execute_command(&self, command: &CommandSpec) -> (r: BackendAction)
        ensures
            r == (match *command {
                CommandSpec::Build(o) => BackendAction::Build {
                    keep_going: o.keep_going,
                    compile: o.compile_target_code,
                    release: o.profile == BuildProfile::Release,
                },
                CommandSpec::Clean => BackendAction::Clean,
            }),
    {
        match command {
            CommandSpec::Build(o) => BackendAction::Build {
                keep_going: o.keep_going,
                compile: o.compile_target_code,
                release: match o.profile {
                    BuildProfile::Release => true,
                    BuildProfile::Debug => false,
                },
            },
            CommandSpec::Clean => BackendAction::Clean,
        }
    }
}

/// The result of a build step given how its command ended.
pub fn build_result_of(run: Option<ExitInfo>) -> (r: Result<(), BuildError>)
    ensures
        run is None ==> r == Err::<(), _>(BuildError::NotStarted),
        run matches Some(e) ==> (e.success ==> r is Ok) && (!e.success ==> r == Err::<(), _>(
            BuildError::CommandFailed { code: e.code },
        )),
{
    match run {
        None => Err(BuildError::NotStarted),
        Some(e) => if e.success {
            Ok(())
        } else {
            Err(BuildError::CommandFailed { code: e.code })
        },
    }
}

pub open spec fn build_type_of(profile: BuildProfile) -> Seq<char> {
    match profile {
        BuildProfile::Release => "RELEASE"@,
        BuildProfile::Debug => "DEBUG"@,
    }
}

/// The CMake build type of a profile.
pub fn cmake_build_type(profile: BuildProfile) -> (r: &'static str)
    ensures
        r@ == build_type_of(profile),
{
    match profile {
        BuildProfile::Release => "RELEASE",
        BuildProfile::Debug => "DEBUG",
    }
}

/// The arguments of the CMake configuration step for the sources in
/// `source_dir`, building into `build_dir`.
pub fn cmake_configure_args(profile: BuildProfile, source_dir: &str, build_dir: &str) -> (r: Vec<
    String,
>)
    ensures
        r@.len() == 7,
        r@[0]@ == "-DCMAKE_BUILD_TYPE="@ + build_type_of(profile),
        r@[1]@ == "-DCMAKE_INSTALL_BINDIR=bin"@,
        r@[2]@ == "-DREACTOR_CPP_VALIDATE=ON"@,
        r@[3]@ == "-DREACTOR_CPP_TRACE=OFF"@,
        r@[4]@ == "-DREACTOR_CPP_LOG_LEVEL=3"@,
        r@[5]@ == source_dir@,
        r@[6]@ == "-B "@ + build_dir@,
{
    let mut args: Vec<String> = Vec::new();
    args.push(String::from_str("-DCMAKE_BUILD_TYPE=").concat(cmake_build_type(profile)));
    args.push(String::from_str("-DCMAKE_INSTALL_BINDIR=bin"));
    args.push(String::from_str("-DREACTOR_CPP_VALIDATE=ON"));
    args.push(String::from_str("-DREACTOR_CPP_TRACE=OFF"));
    args.push(String::from_str("-DREACTOR_CPP_LOG_LEVEL=3"));
    args.push(String::from_str(source_dir));
    args.push(String::from_str("-B ").concat(build_dir));
    args
}

/// The project's CMake file with the library include directory and the
/// aggregated CMake include of `build_folder` appended.
pub fn patched_cmake_lists(content: &str, build_folder: &str) -> (r: String)
    ensures
        r@ == content@ + "\ninclude_directories(lfc_include)"@ + "\ninclude("@ + build_folder@
            + "/aggregated_cmake_include.cmake)"@,
{
    let r = String::from_str(content).concat("\ninclude_directories(lfc_include)");
    let r = r.concat("\ninclude(");
    let r = r.concat(build_folder);
    r.concat("/aggregated_cmake_include.cmake)")
}

} // verus!
