use lxp::commands::{delete_outcome, invoice_file_name, job_ids, DeleteOutcome, LxpCommands};
use lxp::config::{ConfigError, LxpConfig, Profile, Profiles};
use lxp::types::{Response, SubJobArgs};

fn profile(user: &str, url: &str) -> Profile {
    Profile { user_name: user.to_string(), url: url.to_string(), api_key: "SECRET-REDACTED".to_string() }
}

fn commands() -> LxpCommands {
    LxpCommands::new(LxpConfig::new("/etc/lxp/lxp.toml", Profiles::new()))
}

#[test]
fn new_profile_becomes_active() {
    let mut c = LxpConfig::new("cfg.toml", Profiles::new());
    assert!(c.get_active_profile().is_none());
    c.new_profile("work", profile("alice", "https://a/"));
    c.new_profile("home", profile("bob", "https://b/"));
    assert_eq!(c.get_active_profile_name(), Some("home".to_string()));
    assert_eq!(c.get_active_profile().unwrap().user_name, "bob");
    c.new_profile("work", profile("carol", "https://c/"));
    let e = c.profiles.entries();
    assert_eq!(e.len(), 2);
    assert_eq!(e[0].0, "work");
    assert_eq!(e[0].1.user_name, "carol");
    assert_eq!(c.config_path, "cfg.toml");
}

#[test]
fn switching_profiles() {
    let mut c = LxpConfig::new("cfg.toml", Profiles::new());
    c.new_profile("work", profile("alice", "https://a/"));
    c.new_profile("home", profile("bob", "https://b/"));
    assert_eq!(c.switch_profile("work"), Ok(()));
    assert_eq!(c.get_active_profile().unwrap().user_name, "alice");
    assert_eq!(c.switch_profile("nope"), Err(ConfigError::ProfileNotFound));
    assert_eq!(c.get_active_profile_name(), Some("work".to_string()));
}

#[test]
fn deleting_profiles() {
    let mut c = LxpConfig::new("cfg.toml", Profiles::new());
    c.new_profile("work", profile("alice", "https://a/"));
    c.new_profile("home", profile("bob", "https://b/"));
    assert_eq!(c.delete_profile("nope"), Err(ConfigError::ProfileNotFound));
    assert_eq!(c.delete_profile("home"), Ok(()));
    assert_eq!(c.get_active_profile_name(), Some("work".to_string()));
    assert_eq!(c.delete_profile("work"), Ok(()));
    assert_eq!(c.get_active_profile_name(), None);
    c.new_profile("x", profile("x", "u"));
    c.delete_all_profiles();
    assert!(c.profiles.entries().is_empty());
    assert_eq!(c.get_active_profile_name(), None);
}

#[test]
fn profiles_from_stored_entries() {
    let entries = vec![
        ("a".to_string(), profile("u1", "w1")),
        ("b".to_string(), profile("u2", "w2")),
        ("a".to_string(), profile("u3", "w3")),
    ];
    let p = Profiles::from_entries(Some("b".to_string()), entries);
    let e = p.entries();
    assert_eq!(e.len(), 2);
    assert_eq!(e[0].1.user_name, "u3");
    assert_eq!(p.active_name(), Some("b".to_string()));
    let q = Profiles::from_entries(Some("zz".to_string()), vec![("a".to_string(), profile("u", "w"))]);
    assert_eq!(q.active_name(), None);
}

#[test]
fn profile_overview_lines() {
    let mut c = LxpConfig::new("cfg.toml", Profiles::new());
    assert_eq!(c.show_profiles()[0], "<No profile active>");
    c.new_profile("work", profile("alice", "https://a/"));
    let lines = c.show_profiles();
    assert_eq!(lines.len(), 4);
    assert_eq!(lines[0], "Active profile 'work'");
    assert_eq!(lines[1], "");
    assert_eq!(lines[2], format!("{:<15} {:<30} {}", "<profile>", "<user>", "<url>"));
    assert_eq!(lines[3], format!("{:<15} {:<30} {}", "work", "alice", "https://a/"));
}

#[test]
fn client_needs_an_active_profile() {
    let mut cmds = commands();
    assert_eq!(cmds.api().err(), Some(ConfigError::NoActiveProfile));
    cmds.profile_new("work", "alice", "https://a/", "SECRET-REDACTED");
    let api = cmds.api().ok().unwrap();
    assert_eq!(api.url, "https://a/");
    assert_eq!(api.auth.username, "alice");
    assert_eq!(api.auth.apikey, "SECRET-REDACTED");
    assert!(cmds.api_ref.is_some());
    cmds.profile_new("home", "bob", "https://b/", "k2");
    assert_eq!(cmds.api().ok().unwrap().auth.username, "bob");
}

#[test]
fn profile_commands() {
    let mut cmds = commands();
    cmds.profile_new("work", "alice", "https://a/", "k");
    cmds.profile_new("home", "bob", "https://b/", "k");
    assert_eq!(cmds.profile_switch("work"), Ok(()));
    assert_eq!(cmds.profile_show()[0], "Active profile 'work'");
    assert_eq!(cmds.profile_delete("gone"), Err(ConfigError::ProfileNotFound));
    assert_eq!(cmds.profile_delete("work"), Ok(()));
    assert_eq!(cmds.profile_show()[0], "Active profile 'home'");
    cmds.profile_delete_all();
    assert_eq!(cmds.profile_show()[0], "<No profile active>");
    assert_eq!(cmds.api().err(), Some(ConfigError::NoActiveProfile));
}

#[test]
fn invoice_file_names() {
    assert_eq!(invoice_file_name("2021-03-01", "work"), "2021-03-01_work-invoice.pdf");
}

#[test]
fn deletion_statuses() {
    assert_eq!(delete_outcome(200), DeleteOutcome::Deleted);
    assert_eq!(delete_outcome(404), DeleteOutcome::NotFound);
    assert_eq!(delete_outcome(500), DeleteOutcome::Unexpected(500));
}

#[test]
fn job_ids_from_reply() {
    let mut r = Response::default();
    assert_eq!(job_ids(&r), Some(Vec::new()));
    let mut j1 = SubJobArgs::default();
    j1.jid = "12".to_string();
    j1.address = "a.pdf".to_string();
    let mut j2 = SubJobArgs::default();
    j2.jid = "40".to_string();
    j2.address = "b.pdf".to_string();
    r.jobs = Some(vec![("12".to_string(), j1.clone()), ("40".to_string(), j2)]);
    assert_eq!(job_ids(&r), Some(vec![(12, "a.pdf".to_string()), (40, "b.pdf".to_string())]));
    let mut bad = SubJobArgs::default();
    bad.jid = "x1".to_string();
    r.jobs = Some(vec![("12".to_string(), j1), ("x1".to_string(), bad)]);
    assert_eq!(job_ids(&r), None);
}
