use opencode_desktop::launch::{launch_plan, port_arg, shell_command, user_shell, LaunchStrategy};
use opencode_desktop::script::{init_script, retry_prompt, scripts_after, server_url_script};
use opencode_desktop::resolver::{Endpoint, Failure, Outcome};
use opencode_desktop::text::{decimal_text, escape_quoted, trim_end_slashes};

#[test]
fn port_argument_and_shell_command() {
    assert_eq!(port_arg(4096), "--port=4096");
    assert_eq!(port_arg(0), "--port=0");
    assert_eq!(shell_command("/opt/oc/bin/opencode", 51234), "\"/opt/oc/bin/opencode\" serve --port=51234");
}

#[test]
fn login_shell_plan() {
    let p = launch_plan(
        LaunchStrategy::LoginShell { shell: "/bin/zsh".to_string(), path: "/a b/oc".to_string() },
        "/home/u/.local/share/app",
        7,
    );
    assert_eq!(p.program, "/bin/zsh");
    assert_eq!(p.args, vec!["-il".to_string(), "-c".to_string(), "\"/a b/oc\" serve --port=7".to_string()]);
    assert_eq!(p.env[2], ("XDG_STATE_HOME".to_string(), "/home/u/.local/share/app".to_string()));
    assert_eq!(p.env[1], ("OPENCODE_CLIENT".to_string(), "desktop".to_string()));
}

#[test]
fn sidecar_plan() {
    let p = launch_plan(LaunchStrategy::Sidecar, "C:\\data", 8080);
    assert_eq!(p.program, "opencode-cli");
    assert_eq!(p.args, vec!["serve".to_string(), "--port=8080".to_string()]);
    assert_eq!(p.env[0], ("OPENCODE_EXPERIMENTAL_ICON_DISCOVERY".to_string(), "true".to_string()));
}

#[test]
fn shell_defaults_to_bin_sh() {
    assert_eq!(user_shell(None), "/bin/sh");
    assert_eq!(user_shell(Some("/usr/bin/fish".to_string())), "/usr/bin/fish");
}

#[test]
fn decimal_and_trim() {
    assert_eq!(decimal_text(0), "0");
    assert_eq!(decimal_text(4294967295), "4294967295");
    assert_eq!(trim_end_slashes("a/b//"), "a/b");
    assert_eq!(trim_end_slashes("///"), "");
}

#[test]
fn url_script_escapes_quotes_and_backslashes() {
    assert_eq!(escape_quoted("a\\b\"c"), "a\\\\b\\\"c");
    assert_eq!(
        server_url_script("http://x/\"q\""),
        "window.__OPENCODE__.serverUrl = \"http://x/\\\"q\\\"\";"
    );
}

#[test]
fn scripts_follow_the_outcome() {
    let remote = Outcome::Ready(Endpoint::Remote { url: "http://h".to_string() });
    assert_eq!(
        scripts_after(&remote),
        vec![
            "window.__OPENCODE__.serverReady = true;".to_string(),
            "window.__OPENCODE__.serverUrl = \"http://h\";".to_string()
        ]
    );
    let local = Outcome::Ready(Endpoint::Local { port: 1 });
    assert_eq!(scripts_after(&local).len(), 1);
    assert!(scripts_after(&Outcome::Failed(Failure::UserCancelled)).is_empty());
}

#[test]
fn init_and_prompt_text() {
    assert_eq!(
        init_script(false, 4096),
        "window.__OPENCODE__ ??= {};\nwindow.__OPENCODE__.updaterEnabled = false;\nwindow.__OPENCODE__.port = 4096;\n"
    );
    assert!(init_script(true, 1).contains("updaterEnabled = true;"));
    assert_eq!(
        retry_prompt("http://h"),
        "Could not connect to configured server:\nhttp://h\n\nWould you like to retry or start a local server instead?"
    );
}
