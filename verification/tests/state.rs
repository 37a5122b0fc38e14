use serde_json::Value;
use spectre::browser::{
    chrome_args, debugging_port_flag, new_target_url, version_url, ConnectWait, VersionInfo,
};
use spectre::cdp::runtime::{EvaluateBody, RemoteObject, RemoteObjectType};
use spectre::cdp::{CDPConnection, GetTargetBody, GetTargetResponse};
use spectre::download::{
    browsers_dir, entry_is_dir, install_plan, safe_name, unpack_steps, ArchiveEntry, InstallStep,
    Platform,
};
use std::io::Write;
use spectre::json::{FromJson, Json, Member};
use spectre::{Error, Page};

fn to_json(v: &Value) -> Json {
    match v {
        Value::Null => Json::Null,
        Value::Bool(b) => Json::Bool(*b),
        Value::Number(n) => match n.as_i64() {
            Some(i) => Json::Int(i),
            None => Json::Number(n.to_string()),
        },
        Value::String(s) => Json::Str(s.clone()),
        Value::Array(items) => Json::Array(items.iter().map(to_json).collect()),
        Value::Object(map) => Json::Object(
            map.iter()
                .map(|(k, v)| Member {
                    key: k.clone(),
                    value: to_json(v),
                })
                .collect(),
        ),
    }
}

fn parse(text: &str) -> Json {
    to_json(&serde_json::from_str::<Value>(text).unwrap())
}

#[test]
fn addresses_of_the_browser() {
    assert_eq!(version_url(9222), "http://localhost:9222/json/version");
    assert_eq!(version_url(0), "http://localhost:0/json/version");
    assert_eq!(version_url(65535), "http://localhost:65535/json/version");
    assert_eq!(
        new_target_url(9222, "https://youtube.com"),
        "http://localhost:9222/json/new?https://youtube.com"
    );
    assert_eq!(debugging_port_flag(1024), "--remote-debugging-port=1024");
}

#[test]
fn browser_is_started_headless() {
    assert_eq!(
        chrome_args(9222),
        vec![
            "--headless".to_string(),
            "--disable-gpu".to_string(),
            "--no-sandbox".to_string(),
            "--remote-debugging-port=9222".to_string(),
        ]
    );
}

#[test]
fn waiting_for_the_browser_gives_up_at_the_thirty_second_failure() {
    let mut wait = ConnectWait::new();
    for _ in 0..31 {
        assert!(!wait.on_failure());
    }
    assert_eq!(wait.elapsed_ms(), 3100);
    assert!(wait.on_failure());
    assert!(wait.on_failure());
    assert_eq!(wait.elapsed_ms(), 3100);
}

#[test]
fn download_locations() {
    assert_eq!(browsers_dir(), ".spectre/browsers");
    assert_eq!(
        Platform::Linux.chrome_archive_url(),
        "https://storage.googleapis.com/chrome-for-testing-public/136.0.7103.49/linux64/chrome-linux64.zip"
    );
    assert_eq!(Platform::Windows.chrome_binary_path(), "chrome-win64/chrome.exe");
    assert_eq!(
        Platform::MacOs.chrome_binary_path(),
        "chrome-mac-arm64/Google Chrome for Testing.app/Contents/MacOS/Google Chrome for Testing"
    );
}

#[test]
fn page_url_comes_from_the_evaluated_string() {
    let body = EvaluateBody {
        result: RemoteObject {
            object_type: RemoteObjectType::String,
            description: None,
            class_name: None,
            value: Some(Json::Str("https://www.youtube.com/".to_string())),
            object_id: None,
        },
        exception_details: None,
    };
    assert_eq!(Page::url_of(&body).unwrap(), "https://www.youtube.com/");
}

#[test]
fn page_url_without_value_is_a_page_error() {
    let body = EvaluateBody {
        result: RemoteObject {
            object_type: RemoteObjectType::Undefined,
            description: None,
            class_name: None,
            value: None,
            object_id: None,
        },
        exception_details: None,
    };
    match Page::url_of(&body) {
        Err(Error::PageError(m)) => assert_eq!(m, "Failed to get page url"),
        _ => panic!("expected a page error"),
    }
}

#[test]
fn class_selector_starts_with_a_dot() {
    assert_eq!(Page::class_selector("my-class-7"), ".my-class-7");
    assert_eq!(Page::class_selector(""), ".");
}

#[test]
fn session_attaches_to_the_first_target() {
    let targets = GetTargetResponse::from_json(&parse(
        r#"{"id":1,"result":{"targetInfos":[{"targetId":"A1","type":"page","title":"","url":"about:blank","attached":false,"browserContextId":"B"},{"targetId":"A2","type":"page","title":"","url":"about:blank","attached":false,"browserContextId":"B"}]}}"#,
    ))
    .unwrap()
    .body();
    let attach = CDPConnection::attach_request(&targets).json().unwrap();
    let params = attach.get("params").unwrap();
    assert_eq!(params.get("targetId"), Some(&Json::Str("A1".to_string())));
    assert_eq!(params.get("flatten"), Some(&Json::Bool(true)));
    assert_eq!(attach.get("id"), Some(&Json::Int(1)));
    let list = CDPConnection::targets_request().json().unwrap();
    assert_eq!(
        list.get("method"),
        Some(&Json::Str("Target.getTargets".to_string()))
    );
    let _: GetTargetBody = targets;
}


fn archive(entries: &[(&str, Option<&[u8]>)]) -> Vec<u8> {
    let mut w = zip::ZipWriter::new(std::io::Cursor::new(Vec::new()));
    let options = zip::write::SimpleFileOptions::default()
        .compression_method(zip::CompressionMethod::Stored);
    for (name, data) in entries {
        match data {
            None => w.add_directory(*name, options).unwrap(),
            Some(d) => {
                w.start_file(*name, options).unwrap();
                w.write_all(d).unwrap();
            }
        }
    }
    w.finish().unwrap().into_inner()
}

#[test]
fn archive_unpacks_into_the_directory() {
    let bytes = archive(&[("chrome-linux64/", None), ("chrome-linux64/chrome", Some(b"ELF"))]);
    let (steps, stopped) = unpack_steps("/home/u/.spectre/browsers", &bytes, true).unwrap();
    assert!(!stopped);
    assert_eq!(steps.len(), 2);
    match &steps[0] {
        InstallStep::CreateDir(p) => assert_eq!(p, "/home/u/.spectre/browsers/chrome-linux64/"),
        _ => panic!("expected a directory"),
    }
    match &steps[1] {
        InstallStep::WriteFile { path, data, executable } => {
            assert_eq!(path, "/home/u/.spectre/browsers/chrome-linux64/chrome");
            assert_eq!(data, b"ELF");
            assert!(*executable);
        }
        _ => panic!("expected a file"),
    }
}

#[test]
fn unpacking_stops_at_an_unsafe_name() {
    let bytes = archive(&[("a.txt", Some(b"1")), ("../evil.txt", Some(b"2")), ("b.txt", Some(b"3"))]);
    let (steps, stopped) = unpack_steps(".", &bytes, false).unwrap();
    assert!(stopped);
    assert_eq!(steps.len(), 1);
    match &steps[0] {
        InstallStep::WriteFile { path, executable, .. } => {
            assert_eq!(path, "./a.txt");
            assert!(!*executable);
        }
        _ => panic!("expected a file"),
    }
}

#[test]
fn bytes_that_are_not_an_archive_are_a_zip_error() {
    assert!(matches!(
        unpack_steps(".", b"not a zip archive", true),
        Err(Error::ZipError(_))
    ));
}

#[test]
fn install_plan_keeps_the_order_and_bytes() {
    let entries = vec![
        ArchiveEntry { name: "d/".to_string(), data: vec![] },
        ArchiveEntry { name: "d/f".to_string(), data: vec![7, 8] },
    ];
    let (steps, stopped) = install_plan("x", entries, false);
    assert!(!stopped);
    assert!(matches!(&steps[0], InstallStep::CreateDir(p) if p == "x/d/"));
    assert!(matches!(&steps[1], InstallStep::WriteFile { path, data, executable: false } if path == "x/d/f" && data == &vec![7u8, 8]));
    let (steps, stopped) = install_plan("x", vec![ArchiveEntry { name: "../x".to_string(), data: vec![] }], true);
    assert!(stopped);
    assert!(steps.is_empty());
}

#[test]
fn only_windows_files_are_left_without_execute_permission() {
    assert!(Platform::Linux.marks_executable());
    assert!(Platform::MacOs.marks_executable());
    assert!(!Platform::Windows.marks_executable());
}

#[test]
fn version_reply_gives_the_web_socket() {
    let j = parse(r#"{"Browser":"HeadlessChrome/136.0.7103.49","webSocketDebuggerUrl":"ws://localhost:9222/devtools/browser/x"}"#);
    assert_eq!(
        VersionInfo::from_json(&j).unwrap().web_socket_debugger_url,
        "ws://localhost:9222/devtools/browser/x"
    );
    let j = parse(r#"{"Browser":"HeadlessChrome"}"#);
    assert!(VersionInfo::from_json(&j).is_none());
    assert_eq!(VersionInfo::failure(&j), "missing or invalid member `webSocketDebuggerUrl`");
}

#[test]
fn ports_are_written_in_decimal() {
    assert_eq!(version_url(0), "http://localhost:0/json/version");
    assert_eq!(version_url(65535), "http://localhost:65535/json/version");
    assert_eq!(debugging_port_flag(10), "--remote-debugging-port=10");
}

#[test]
fn entry_names_are_checked_the_same_way_on_every_platform() {
    assert!(safe_name("chrome-linux64/chrome"));
    assert!(safe_name("a/../b"));
    assert!(safe_name("./x"));
    assert!(safe_name("a\\b.txt"));
    assert!(!safe_name("a/../../b"));
    assert!(!safe_name("a\\..\\..\\x"));
    assert!(!safe_name("/etc/passwd"));
    assert!(!safe_name("\\server\\share"));
    assert!(!safe_name("C:x"));
    assert!(safe_name("a/b:c"));
    assert!(!safe_name(".."));
    assert!(!safe_name("a\0b"));
}

#[test]
fn directories_end_with_a_separator() {
    assert!(entry_is_dir("chrome-linux64/"));
    assert!(entry_is_dir("win\\"));
    assert!(!entry_is_dir("chrome-linux64/chrome"));
    assert!(!entry_is_dir(""));
}
