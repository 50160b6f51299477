use daemon::systemd::SystemD;
use daemon::systemv::SystemV;
use daemon::text::{join_spaces, replace_all};
use daemon::Daemon;

#[test]
fn replace_all_replaces_every_occurrence() {
    let out = replace_all("a{X}b{X}c", "{X}", "1");
    assert_eq!(out, "a1b1c");
}

#[test]
fn replace_all_leaves_other_tokens_literal() {
    let out = replace_all("a{Y}b", "{X}", "1");
    assert_eq!(out, "a{Y}b");
}

#[test]
fn replace_all_scans_left_to_right_without_overlap() {
    let out = replace_all("aaa", "aa", "b");
    assert_eq!(out, "ba");
    let out = replace_all("ababa", "aba", "x");
    assert_eq!(out, "xba");
}

#[test]
fn replace_all_on_empty_text() {
    let out = replace_all("", "{X}", "1");
    assert_eq!(out, "");
}

#[test]
fn join_spaces_puts_one_space_between_words() {
    let words = vec![String::from("a"), String::from("bb"), String::from("c")];
    assert_eq!(join_spaces(&words), "a bb c");
    let one = vec![String::from("only")];
    assert_eq!(join_spaces(&one), "only");
    let none: Vec<String> = vec![];
    assert_eq!(join_spaces(&none), "");
}

#[test]
fn template_roundtrip_systemd() {
    let mut d = SystemD::new(
        String::from("svc"),
        String::from("a service"),
        vec![],
    );
    d.set_template("custom {Name} template");
    assert_eq!(d.get_template(), "custom {Name} template");
}

#[test]
fn template_roundtrip_systemv() {
    let mut d = SystemV::new(
        String::from("svc"),
        String::from("a service"),
        vec![],
    );
    d.set_template("#!/bin/sh\n# {Name}\n");
    assert_eq!(d.get_template(), "#!/bin/sh\n# {Name}\n");
}

#[test]
fn render_uses_the_replaced_template() {
    let mut d = SystemD::new(
        String::from("svc"),
        String::from("described"),
        vec![String::from("network"), String::from("syslog")],
    );
    d.set_template("n={Name};d={Description};r={Dependencies};p={Path};a={Args}");
    let rendered = d.render_descriptor(
        "/usr/local/bin/svc",
        &vec![String::from("--flag"), String::from("on")],
    );
    assert_eq!(
        rendered,
        "n=svc;d=described;r=network syslog;p=/usr/local/bin/svc;a=--flag on"
    );
}

#[test]
fn echo_test_substitution_leaves_no_tokens() {
    let d = SystemD::new(
        String::from("echo-test"),
        String::from("echo test daemon"),
        vec![],
    );
    let rendered = d.render_descriptor("/usr/local/bin/echo-test", &vec![]);
    assert!(rendered.contains("/usr/local/bin/echo-test"));
    assert!(rendered.contains("echo-test"));
    assert!(!rendered.contains("{Name}"));
    assert!(!rendered.contains("{Description}"));
    assert!(!rendered.contains("{Dependencies}"));
    assert!(!rendered.contains("{Path}"));
    assert!(!rendered.contains("{Args}"));
    assert!(rendered.contains("PIDFile=/var/run/echo-test.pid"));
    assert!(rendered.contains("ExecStart=/usr/local/bin/echo-test "));
}

#[test]
fn default_templates_are_the_built_in_ones() {
    let d = SystemD::new(String::from("svc"), String::from("x"), vec![]);
    assert_eq!(d.get_template(), daemon::systemd::SYSTEMD_UNIT_TEMPLATE);
    assert!(d.get_template().starts_with("[Unit]\n"));
    assert!(d.get_template().contains("Restart=on-failure"));
    let v = SystemV::new(String::from("svc"), String::from("x"), vec![]);
    assert_eq!(v.get_template(), daemon::systemv::SYSTEMV_INIT_TEMPLATE);
    assert!(v.get_template().starts_with("#! /bin/sh\n"));
    assert!(v.get_template().contains("# chkconfig: 2345 87 17"));
}

#[test]
fn service_paths_follow_the_name() {
    let d = SystemD::new(String::from("foo"), String::from("x"), vec![]);
    assert_eq!(d.service_path(), "/etc/systemd/system/foo.service");
    let v = SystemV::new(String::from("foo"), String::from("x"), vec![]);
    assert_eq!(v.service_path(), "/etc/init.d/foo");
}

#[test]
fn systemd_commands_have_the_exact_argv() {
    let d = SystemD::new(String::from("foo"), String::from("x"), vec![]);
    assert_eq!(d.daemon_reload_command(), vec!["systemctl", "daemon-reload"]);
    assert_eq!(d.enable_command(), vec!["systemctl", "enable", "foo"]);
    assert_eq!(d.disable_command(), vec!["systemctl", "disable", "foo"]);
    assert_eq!(d.start_command(), vec!["systemctl", "start", "foo"]);
    assert_eq!(d.stop_command(), vec!["systemctl", "stop", "foo"]);
    assert_eq!(d.status_command(), vec!["systemctl", "status", "foo.service"]);
}

#[test]
fn systemv_commands_and_links_have_the_exact_shape() {
    let v = SystemV::new(String::from("foo"), String::from("x"), vec![]);
    assert_eq!(v.start_command(), vec!["service", "foo", "start"]);
    assert_eq!(v.stop_command(), vec!["service", "foo", "stop"]);
    assert_eq!(v.status_command(), vec!["service", "foo", "status"]);
    assert_eq!(v.script_mode(), 0o755);
    assert_eq!(
        v.rc_symlink_paths(),
        vec![
            "/etc/rc2.d/S87foo",
            "/etc/rc3.d/S87foo",
            "/etc/rc4.d/S87foo",
            "/etc/rc5.d/S87foo",
            "/etc/rc0.d/K17foo",
            "/etc/rc1.d/K17foo",
            "/etc/rc6.d/K17foo",
        ]
    );
}

#[test]
fn status_patterns_differ_by_backend() {
    let d = SystemD::new(String::from("foo"), String::from("x"), vec![]);
    assert_eq!(d.status_pattern(), "Active: active");
    let v = SystemV::new(String::from("foo"), String::from("x"), vec![]);
    assert_eq!(v.status_pattern(), "foo");
}
