use lingo::backend::{
    build_result_of, cmake_build_type, cmake_configure_args, patched_cmake_lists, BackendAction,
    BuildCommandOptions, BuildError, BuildProfile, CmakeCpp, CommandSpec, ExitInfo,
};

#[test]
fn build_command_is_planned() {
    let backend = CmakeCpp;
    let options = BuildCommandOptions { profile: BuildProfile::Release, compile_target_code: false, keep_going: true };
    assert_eq!(
        backend.execute_command(&CommandSpec::Build(options)),
        BackendAction::Build { keep_going: true, compile: false, release: true }
    );
    assert_eq!(backend.execute_command(&CommandSpec::Clean), BackendAction::Clean);
}

#[test]
fn command_outcomes_map_to_build_results() {
    assert_eq!(build_result_of(None), Err(BuildError::NotStarted));
    assert_eq!(build_result_of(Some(ExitInfo { success: true, code: Some(0) })), Ok(()));
    assert_eq!(
        build_result_of(Some(ExitInfo { success: false, code: Some(2) })),
        Err(BuildError::CommandFailed { code: Some(2) })
    );
}

#[test]
fn cmake_arguments() {
    assert_eq!(cmake_build_type(BuildProfile::Debug), "DEBUG");
    let args = cmake_configure_args(BuildProfile::Release, "/out/src", "/out/build");
    assert_eq!(
        args,
        vec![
            "-DCMAKE_BUILD_TYPE=RELEASE",
            "-DCMAKE_INSTALL_BINDIR=bin",
            "-DREACTOR_CPP_VALIDATE=ON",
            "-DREACTOR_CPP_TRACE=OFF",
            "-DREACTOR_CPP_LOG_LEVEL=3",
            "/out/src",
            "-B /out/build",
        ]
    );
}

#[test]
fn cmake_file_gets_library_includes() {
    assert_eq!(
        patched_cmake_lists("project(x)", "/out"),
        "project(x)\ninclude_directories(lfc_include)\ninclude(/out/aggregated_cmake_include.cmake)"
    );
}
