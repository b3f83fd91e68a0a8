use service_launcher::config::{
    Settings, DEFAULT_POLL_INTERVAL_MS, DEFAULT_PORT, DEFAULT_TIMEOUT_MS, READY_STATUS,
};
use service_launcher::plan::{root_var, skip_var, spawn_plan};
use service_launcher::text::{decimal_text, status_url};

#[test]
fn decimal_of_single_digits() {
    assert_eq!(decimal_text(0), "0");
    assert_eq!(decimal_text(7), "7");
    assert_eq!(decimal_text(9), "9");
}

#[test]
fn decimal_of_longer_numbers() {
    assert_eq!(decimal_text(10), "10");
    assert_eq!(decimal_text(3001), "3001");
    assert_eq!(decimal_text(12345), "12345");
    assert_eq!(decimal_text(60089), "60089");
    assert_eq!(decimal_text(u16::MAX), "65535");
}

#[test]
fn decimal_agrees_with_the_standard_library() {
    let mut n: u16 = 0;
    loop {
        assert_eq!(decimal_text(n), n.to_string());
        if n == u16::MAX {
            break;
        }
        n += 1;
    }
}

#[test]
fn status_url_names_port_and_path() {
    assert_eq!(status_url(3001), "http://localhost:3001/api/status");
    assert_eq!(status_url(80), "http://localhost:80/api/status");
    assert_eq!(status_url(0), "http://localhost:0/api/status");
}

#[test]
fn standard_settings() {
    let settings = Settings::standard();
    assert_eq!(settings.port, 3001);
    assert_eq!(settings.poll_interval_ms, 300);
    assert_eq!(settings.timeout_ms, 30_000);
    assert_eq!(settings.timeout_secs(), 30);
    assert_eq!(DEFAULT_PORT, 3001);
    assert_eq!(DEFAULT_POLL_INTERVAL_MS, 300);
    assert_eq!(DEFAULT_TIMEOUT_MS, 30_000);
    assert_eq!(READY_STATUS, 200);
}

#[test]
fn timeout_in_seconds_rounds_down() {
    let settings = Settings { port: 1, poll_interval_ms: 1, timeout_ms: 1999 };
    assert_eq!(settings.timeout_secs(), 1);
    let settings = Settings { port: 1, poll_interval_ms: 1, timeout_ms: 999 };
    assert_eq!(settings.timeout_secs(), 0);
}

#[test]
fn variable_names() {
    assert_eq!(root_var(), "OLDPHOTOS_ROOT");
    assert_eq!(skip_var(), "TAURI_DEV_SERVER_RUNNING");
}

#[test]
fn spawn_plan_of_a_regular_launch() {
    let plan = spawn_plan("/srv/app", 3001);
    assert_eq!(plan.program, "node");
    assert_eq!(plan.script, "/srv/app/packages/core/index.js");
    assert_eq!(plan.workdir, "/srv/app");
    assert_eq!(plan.env.len(), 2);
    assert_eq!(plan.env[0].name, "PORT");
    assert_eq!(plan.env[0].value, "3001");
    assert_eq!(plan.env[1].name, "OLDPHOTOS_ROOT");
    assert_eq!(plan.env[1].value, "/srv/app");
}

#[test]
fn spawn_plan_follows_root_and_port() {
    let plan = spawn_plan("somewhere/else", 8080);
    assert_eq!(plan.script, "somewhere/else/packages/core/index.js");
    assert_eq!(plan.workdir, "somewhere/else");
    assert_eq!(plan.env[0].value, "8080");
    assert_eq!(plan.env[1].value, "somewhere/else");
}
