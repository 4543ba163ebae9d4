use invest_log::launch::{backend_file_name, get_sidecar_path, missing_backend_message, prepare_launch};
use invest_log::paths::{join_path, Platform};
use invest_log::ports::{pick_port, DEFAULT_PORT};
use invest_log::probe::{ProbeAction, ReadinessProbe, PROBE_MAX_ATTEMPTS};
use invest_log::text::{backend_url, decimal_text, loading_html};
use invest_log::ui::{
    launch_failure_script, loading_script, page_script, page_writer_script, port_notice_script, redirect_script,
    strip_quotes,
};

#[test]
fn default_port_when_free() {
    assert_eq!(pick_port(true, None), 8000);
    assert_eq!(pick_port(true, Some(40000)), DEFAULT_PORT);
}

#[test]
fn ephemeral_port_when_default_taken() {
    assert_eq!(pick_port(false, Some(53117)), 53117);
}

#[test]
fn default_port_unchecked_when_no_bind_works() {
    assert_eq!(pick_port(false, None), 8000);
}

#[test]
fn backend_on_default_port_moves_everything_to_ephemeral() {
    let port = pick_port(false, Some(49731));
    assert_eq!(port, 49731);
    let plan = prepare_launch("/app/invest-log-backend", true, "/data", port).unwrap();
    assert_eq!(plan.args, vec!["--data-dir", "/data", "--port", "49731"]);
    let mut probe = ReadinessProbe::new(port, PROBE_MAX_ATTEMPTS);
    assert_eq!(
        probe.on_attempt(true),
        ProbeAction::Navigate { url: "http://127.0.0.1:49731/?t=1".to_string() }
    );
}

#[test]
fn missing_backend_is_fatal_and_names_path() {
    let r = prepare_launch("/Applications/Invest Log/invest-log-backend", false, "/data", 8000);
    assert_eq!(
        r.err().unwrap(),
        "Backend not found at: \"/Applications/Invest Log/invest-log-backend\""
    );
    let r = prepare_launch("C:\\apps\\b\"x.exe", false, "/data", 8000);
    assert_eq!(r.err().unwrap(), "Backend not found at: \"C:\\\\apps\\\\b\\\"x.exe\"");
}

#[test]
fn launch_plan_holds_arguments_and_environment() {
    let plan = prepare_launch("/opt/b", true, "/home/u/data", 8000).unwrap();
    assert_eq!(plan.program, "/opt/b");
    assert_eq!(plan.args, vec!["--data-dir", "/home/u/data", "--port", "8000"]);
    assert_eq!(
        plan.env,
        vec![
            ("INVEST_LOG_DATA_DIR".to_string(), "/home/u/data".to_string()),
            ("INVEST_LOG_PARENT_WATCH".to_string(), "1".to_string()),
        ]
    );
}

#[test]
fn sidecar_lies_next_to_executable() {
    assert_eq!(get_sidecar_path("/Applications/Invest Log.app/Contents/MacOS", Platform::MacOs),
        "/Applications/Invest Log.app/Contents/MacOS/invest-log-backend");
    assert_eq!(get_sidecar_path("C:\\Program Files\\Invest Log", Platform::Windows),
        "C:\\Program Files\\Invest Log\\invest-log-backend.exe");
    assert_eq!(backend_file_name(Platform::Other), "invest-log-backend");
}

#[test]
fn paths_join_with_one_separator() {
    assert_eq!(join_path("/a/b", "c", Platform::Other), "/a/b/c");
    assert_eq!(join_path("/a/b/", "c", Platform::MacOs), "/a/b/c");
    assert_eq!(join_path("a\\", "c", Platform::Other), "a\\/c");
    assert_eq!(join_path("C:\\Users\\u", ".investlog", Platform::Windows), "C:\\Users\\u\\.investlog");
    assert_eq!(join_path("C:/Users/u/", "c", Platform::Windows), "C:/Users/u/c");
    assert_eq!(join_path("", "c", Platform::Windows), "c");
}

#[test]
fn decimal_text_of_numbers() {
    assert_eq!(decimal_text(0), "0");
    assert_eq!(decimal_text(7), "7");
    assert_eq!(decimal_text(8000), "8000");
    assert_eq!(decimal_text(65535), "65535");
    assert_eq!(decimal_text(4294967295), "4294967295");
}

#[test]
fn backend_url_carries_port_and_token() {
    assert_eq!(backend_url(8000, 12), "http://127.0.0.1:8000/?t=12");
}

#[test]
fn loading_page_carries_port() {
    let with = loading_html(Some(8123));
    assert!(with.contains("window.__INVEST_LOG_PORT__=8123;"));
    assert!(with.starts_with("<!doctype html>"));
    assert!(with.ends_with("</html>"));
    let without = loading_html(None);
    assert!(without.contains("window.__INVEST_LOG_PORT__=null;"));
    assert!(without.contains("@keyframes spin{to{transform:rotate(360deg)}}"));
}

#[test]
fn loading_script_writes_page_as_json() {
    let s = loading_script(Some(8000)).unwrap();
    assert!(s.starts_with("document.open();document.write(\"<!doctype html><html lang=\\\"zh-CN\\\">"));
    assert!(s.ends_with("</html>\");document.close();"));
    assert!(s.contains("window.__INVEST_LOG_PORT__=8000;"));
}

#[test]
fn page_writer_wraps_page() {
    assert_eq!(page_writer_script("\"x\""), "document.open();document.write(\"x\");document.close();");
}

#[test]
fn port_notice_names_port_twice() {
    assert_eq!(
        port_notice_script(8000),
        "window.__INVEST_LOG_PORT__ = 8000; window.__INVEST_LOG_SET_PORT__ && window.__INVEST_LOG_SET_PORT__(8000);"
    );
}

#[test]
fn launch_failure_script_drops_quotes() {
    assert_eq!(strip_quotes("can't spawn 'x'"), "cant spawn x");
    assert_eq!(strip_quotes(""), "");
    assert_eq!(
        launch_failure_script("No such file 'b'"),
        "document.body.innerHTML = '<h2>后台启动失败</h2><p>No such file b</p>';"
    );
}

#[test]
fn redirect_script_quotes_url() {
    assert_eq!(
        redirect_script("http://127.0.0.1:8000/?t=1"),
        "window.location.replace('http://127.0.0.1:8000/?t=1');"
    );
}

#[test]
fn page_script_escapes_json() {
    assert_eq!(
        page_script("a\"b\\c\nd\u{1}e\u{1f}/").unwrap(),
        "document.open();document.write(\"a\\\"b\\\\c\\nd\\u0001e\\u001f/\");document.close();"
    );
    assert_eq!(page_script("").unwrap(), "document.open();document.write(\"\");document.close();");
}

#[test]
fn missing_backend_message_follows_quoted_path() {
    assert_eq!(missing_backend_message("\"/x\""), "Backend not found at: \"/x\"");
}
