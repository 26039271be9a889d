use cargo_cook::collect::DirEntry;
use cargo_cook::config::{Deploy, FsCopy, SshConfig};
use cargo_cook::deploy::{deploy, Action, DeployError, Deployment, Event};

fn listing(names: &[&str]) -> Vec<DirEntry> {
    names
        .iter()
        .map(|n| DirEntry { name: n.to_string(), path: format!("out/{}", n) })
        .collect()
}

fn fscopy_block() -> Deploy {
    Deploy { targets: None, ssh: None, fscopy: Some(FsCopy { path: "/dest".to_string() }) }
}

fn ssh_block(script: Option<&str>) -> Deploy {
    Deploy {
        targets: None,
        ssh: Some(SshConfig {
            hostname: "example.org:22".to_string(),
            username: "deployer".to_string(),
            remote_path: "/srv/demo".to_string(),
            deploy_script: script.map(|s| s.to_string()),
        }),
        fscopy: None,
    }
}

fn copy(from: &str, to: &str) -> Action {
    Action::Copy { from: from.to_string(), to: to.to_string() }
}

fn ask() -> Action {
    Action::AskPassword { user: "deployer".to_string() }
}

fn auth(pw: &str) -> Action {
    Action::Authenticate { user: "deployer".to_string(), password: pw.to_string() }
}

fn run(command: &str) -> Action {
    Action::Run { command: command.to_string() }
}

fn upload(local: &str, remote: &str) -> Action {
    Action::Upload { local: local.to_string(), remote: remote.to_string() }
}

fn failed(m: &str) -> Event {
    Event::Failed(m.to_string())
}

fn password(p: &str) -> Event {
    Event::Password(p.to_string())
}

fn start(target: &str, names: &[&str], d: &Deploy) -> (Deployment, Action) {
    deploy(target, listing(names), d).unwrap()
}

#[test]
fn fscopy_copies_every_entry() {
    let (mut d, first) = start("fscopy", &["demo-1.0.0.tar", "demo-1.0.0.tar.sha256"], &fscopy_block());
    assert_eq!(first, copy("out/demo-1.0.0.tar", "/dest/demo-1.0.0.tar"));
    assert_eq!(
        d.on_event(Event::Completed),
        copy("out/demo-1.0.0.tar.sha256", "/dest/demo-1.0.0.tar.sha256")
    );
    assert_eq!(d.on_event(Event::Completed), Action::Finish(Ok(())));
    assert!(d.is_done());
}

#[test]
fn fscopy_second_copy_failure_fails_target() {
    let (mut d, first) = start("fscopy", &["a.tar", "b.tar"], &fscopy_block());
    assert_eq!(first, copy("out/a.tar", "/dest/a.tar"));
    assert_eq!(d.on_event(Event::Completed), copy("out/b.tar", "/dest/b.tar"));
    assert_eq!(
        d.on_event(failed("Permission denied (os error 13)")),
        Action::Finish(Err("Permission denied (os error 13)".to_string()))
    );
    assert!(d.is_done());
}

#[test]
fn fscopy_of_empty_directory_finishes_at_once() {
    let (d, first) = start("FSCOPY", &[], &fscopy_block());
    assert_eq!(first, Action::Finish(Ok(())));
    assert!(d.is_done());
}

#[test]
fn ssh_three_wrong_passwords_fail_target() {
    let (mut d, first) = start("ssh", &["demo.tar"], &ssh_block(None));
    assert_eq!(first, Action::Connect { host: "example.org:22".to_string() });
    let mut actions = vec![d.on_event(Event::Completed)];
    for pw in ["one", "two", "three"] {
        actions.push(d.on_event(password(pw)));
        actions.push(d.on_event(failed("Authentication failed")));
    }
    assert_eq!(
        actions,
        vec![
            ask(),
            auth("one"),
            ask(),
            auth("two"),
            ask(),
            auth("three"),
            Action::Finish(Err("Authentication failed".to_string())),
        ]
    );
    assert!(!actions.iter().any(|a| matches!(a, Action::Upload { .. })));
    assert!(d.is_done());
}

#[test]
fn ssh_three_empty_passwords_fail_target() {
    let (mut d, _) = start("ssh", &["demo.tar"], &ssh_block(None));
    assert_eq!(d.on_event(Event::Completed), ask());
    assert_eq!(d.on_event(password("")), ask());
    assert_eq!(d.on_event(password("")), ask());
    assert_eq!(
        d.on_event(password("")),
        Action::Finish(Err("SSH password can not be empty".to_string()))
    );
}

#[test]
fn ssh_connection_failure_fails_target() {
    let (mut d, _) = start("ssh", &["demo.tar"], &ssh_block(None));
    assert_eq!(
        d.on_event(failed("Connection refused")),
        Action::Finish(Err("Connection refused".to_string()))
    );
}

#[test]
fn ssh_uploads_and_runs_script() {
    let (mut d, first) = start("Ssh", &["demo.tar", "demo.tar.sha256"], &ssh_block(Some("deploy.sh")));
    assert_eq!(first, Action::Connect { host: "example.org:22".to_string() });
    assert_eq!(d.on_event(Event::Completed), ask());
    assert_eq!(d.on_event(password("")), ask());
    assert_eq!(d.on_event(password("wrong")), auth("wrong"));
    assert_eq!(d.on_event(failed("Authentication failed")), ask());
    assert_eq!(d.on_event(password("secret")), auth("secret"));
    assert_eq!(d.on_event(Event::Completed), run("mkdir -p /srv/demo"));
    assert_eq!(d.on_event(failed("mkdir: exists")), upload("out/demo.tar", "/srv/demo/demo.tar"));
    assert_eq!(
        d.on_event(Event::Completed),
        upload("out/demo.tar.sha256", "/srv/demo/demo.tar.sha256")
    );
    assert_eq!(d.on_event(Event::Completed), upload("deploy.sh", "/srv/demo/deploy.sh"));
    assert_eq!(d.on_event(Event::Completed), run("cd /srv/demo; sh deploy.sh"));
    assert_eq!(d.on_event(failed("exit status 1")), run("rm /srv/demo/deploy.sh"));
    assert_eq!(d.on_event(Event::Completed), Action::Finish(Ok(())));
    assert!(d.is_done());
}

#[test]
fn ssh_upload_failure_fails_target() {
    let (mut d, _) = start("ssh", &["demo.tar", "other.tar"], &ssh_block(Some("deploy.sh")));
    d.on_event(Event::Completed);
    d.on_event(password("secret"));
    assert_eq!(d.on_event(Event::Completed), run("mkdir -p /srv/demo"));
    assert_eq!(d.on_event(Event::Completed), upload("out/demo.tar", "/srv/demo/demo.tar"));
    assert_eq!(
        d.on_event(failed("broken pipe")),
        Action::Finish(Err("broken pipe".to_string()))
    );
}

#[test]
fn ssh_without_script_finishes_after_uploads() {
    let (mut d, _) = start("ssh", &["demo.tar"], &ssh_block(None));
    d.on_event(Event::Completed);
    d.on_event(password("secret"));
    d.on_event(Event::Completed);
    assert_eq!(d.on_event(Event::Completed), upload("out/demo.tar", "/srv/demo/demo.tar"));
    assert_eq!(d.on_event(Event::Completed), Action::Finish(Ok(())));
}

#[test]
fn unknown_target_does_not_start() {
    assert!(matches!(
        deploy("ftp", listing(&["a"]), &fscopy_block()),
        Err(DeployError::UnsupportedTarget(n)) if n == "ftp"
    ));
}

#[test]
fn target_without_parameters_does_not_start() {
    assert!(matches!(
        deploy("ssh", listing(&["a"]), &fscopy_block()),
        Err(DeployError::MissingParameters(n)) if n == "ssh"
    ));
    assert!(matches!(
        deploy("fscopy", listing(&["a"]), &ssh_block(None)),
        Err(DeployError::MissingParameters(n)) if n == "fscopy"
    ));
}
