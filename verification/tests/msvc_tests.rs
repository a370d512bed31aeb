use drot::msvc::{
    INSIDE_MSVC_ENV_VAR, devshell_launch_script, devshell_reexec_needed, is_vs_dev_environment, msvc_cmd_file,
    run_with_msvc_env, should_skip_devshell_bootstrap, vswhere_args, vswhere_exe_path, vswhere_install_path,
};

#[test]
fn msvc_run_with_msvc_env_is_windows_only() {
    let error = run_with_msvc_env("echo test", "linux", "").unwrap_err();
    assert!(error.to_string().contains("MSVC"));
}

#[test]
fn msvc_inside_msvc_var_name_is_stable() {
    assert_eq!(INSIDE_MSVC_ENV_VAR, "DHARA_TOOL_INSIDE_MSVC");
}

#[test]
fn msvc_stub_run_with_msvc_env_is_windows_only() {
    let error = run_with_msvc_env("echo test", "linux", "").unwrap_err();
    assert!(error.to_string().contains("MSVC"));
}

#[test]
fn msvc_stub_inside_msvc_var_name_is_stable() {
    assert_eq!(INSIDE_MSVC_ENV_VAR, "DHARA_TOOL_INSIDE_MSVC");
}

#[test]
fn environment_rules_by_host() {
    assert!(!is_vs_dev_environment(false, false, false));
    assert!(is_vs_dev_environment(false, true, false));
    assert!(is_vs_dev_environment(true, false, false));
    assert_eq!(
        vswhere_exe_path("linux", Some("C:\\Program Files (x86)".to_owned())).unwrap_err(),
        "Visual Studio discovery is only supported on Windows"
    );
    assert_eq!(
        vswhere_exe_path("windows", None).unwrap_err(),
        "ProgramFiles(x86) is not set; MSVC tooling requires Windows"
    );
    assert_eq!(
        vswhere_exe_path("windows", Some("C:\\Program Files (x86)".to_owned())).unwrap(),
        "C:\\Program Files (x86)\\Microsoft Visual Studio\\Installer\\vswhere.exe"
    );
    assert_eq!(vswhere_args()[0], "-latest");
    assert_eq!(vswhere_args().len(), 7);
    assert!(!devshell_reexec_needed("linux", false, &["build".to_owned()]));
    assert!(devshell_reexec_needed("windows", false, &["build".to_owned()]));
    assert!(!devshell_reexec_needed("windows", true, &["build".to_owned()]));
    assert!(!devshell_reexec_needed("windows", false, &["config".to_owned(), "show".to_owned()]));
}

fn words(ws: &[&str]) -> Vec<String> {
    ws.iter().map(|w| (*w).to_owned()).collect()
}

#[test]
fn devshell_skip_rules() {
    assert!(!should_skip_devshell_bootstrap(&[]));
    assert!(should_skip_devshell_bootstrap(&words(&["build", "run", "--help"])));
    assert!(should_skip_devshell_bootstrap(&words(&["-V"])));
    assert!(should_skip_devshell_bootstrap(&words(&["config", "show", "--x"])));
    assert!(should_skip_devshell_bootstrap(&words(&["version", "bump"])));
    assert!(!should_skip_devshell_bootstrap(&words(&["version"])));
    assert!(!should_skip_devshell_bootstrap(&words(&["build", "run"])));
}

#[test]
fn powershell_scripts_quote_their_words() {
    let script = devshell_launch_script("C:\\drot.exe", &words(&["it's", "x"]), "C:\\VS");
    assert!(script.starts_with("$vsPath = 'C:\\VS'; Import-Module"));
    assert!(script.ends_with("$env:DHARA_TOOL_INSIDE_MSVC='1'; & 'C:\\drot.exe' 'it''s' 'x'"));
}

#[test]
fn msvc_commands_run_from_a_batch_file_calling_vcvarsall() {
    let file = msvc_cmd_file("cargo build", "C:\\VS");
    assert_eq!(
        file,
        "@echo off\r\ncall \"C:\\VS\\VC\\Auxiliary\\Build\\vcvarsall.bat\" x64_arm64\r\nif errorlevel 1 exit /b 1\r\nset DHARA_TOOL_INSIDE_MSVC=1\r\ncargo build\r\nexit /b %errorlevel%\r\n"
    );
    assert_eq!(run_with_msvc_env("cargo build", "windows", "C:\\VS"), Ok(file));
}

#[test]
fn vswhere_output_is_trimmed_and_unquoted() {
    assert_eq!(vswhere_install_path("  \"C:\\VS\"\r\n").unwrap(), "C:\\VS");
    assert_eq!(vswhere_install_path("C:\\VS\n").unwrap(), "C:\\VS");
    assert_eq!(
        vswhere_install_path(" \"\" \n").unwrap_err(),
        "Visual Studio with MSVC build tools was not found"
    );
}
