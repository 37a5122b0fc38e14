use spectre::cdp::{CDPMessage, CDPMethod, ScreenshotFormat};
use spectre::json::{FromJson, Json, Member};
use spectre::Result;

fn member(key: &str, value: Json) -> Member {
    Member { key: key.to_string(), value }
}

fn text(s: &str) -> Json {
    Json::Str(s.to_string())
}

#[test]
fn cdp_send_cdp_message() {}

#[test]
fn message_json_representation() -> Result<()> {
    let method = CDPMessage::new(20, "abc", CDPMethod::GetTargets);
    let json = method.json()?;

    assert_eq!(
        json,
        Json::Object(vec![
            member("id", Json::Int(20)),
            member("sessionId", text("abc")),
            member("method", text("Target.getTargets")),
        ])
    );

    Ok(())
}

#[test]
fn root_message_has_no_session() -> Result<()> {
    let json = CDPMessage::root(7, CDPMethod::GetTargets).json()?;
    assert_eq!(
        json,
        Json::Object(vec![
            member("id", Json::Int(7)),
            member("method", text("Target.getTargets")),
        ])
    );
    Ok(())
}

#[test]
fn get_targets_message_is_a_root_message() -> Result<()> {
    let a = CDPMessage::get_targets(1).json()?;
    let b = CDPMessage::root(1, CDPMethod::GetTargets).json()?;
    assert_eq!(a, b);
    Ok(())
}

#[test]
fn navigate_message_params() -> Result<()> {
    let json = CDPMessage::navigate(2, "s1", "https://youtube.com").json()?;
    assert_eq!(
        json,
        Json::Object(vec![
            member("id", Json::Int(2)),
            member("sessionId", text("s1")),
            member("method", text("Page.navigate")),
            member("params", Json::Object(vec![member("url", text("https://youtube.com"))])),
        ])
    );
    Ok(())
}

#[test]
fn evaluate_message_awaits_promise() -> Result<()> {
    let json = CDPMessage::evaluate(3, "s1", "1 + 1").json()?;
    assert_eq!(
        json,
        Json::Object(vec![
            member("id", Json::Int(3)),
            member("sessionId", text("s1")),
            member("method", text("Runtime.evaluate")),
            member(
                "params",
                Json::Object(vec![
                    member("expression", text("1 + 1")),
                    member("awaitPromise", Json::Bool(true)),
                ])
            ),
        ])
    );
    Ok(())
}

#[test]
fn screenshot_message_format_is_lowercase() -> Result<()> {
    let json = CDPMessage::screenshot(4, "s2", ScreenshotFormat::Webp).json()?;
    assert_eq!(
        json,
        Json::Object(vec![
            member("id", Json::Int(4)),
            member("sessionId", text("s2")),
            member("method", text("Page.captureScreenshot")),
            member("params", Json::Object(vec![member("format", text("webp"))])),
        ])
    );
    Ok(())
}

#[test]
fn attach_and_query_params_are_camel_case() -> Result<()> {
    let attach = CDPMessage::root(
        1,
        CDPMethod::AttachToTarget { target_id: "T1".to_string(), flatten: true },
    )
    .json()?;
    assert_eq!(
        attach,
        Json::Object(vec![
            member("id", Json::Int(1)),
            member("method", text("Target.attachToTarget")),
            member(
                "params",
                Json::Object(vec![member("targetId", text("T1")), member("flatten", Json::Bool(true))])
            ),
        ])
    );
    let query = CDPMessage::root(
        5,
        CDPMethod::QuerySelector { node_id: 9, selector: ".x".to_string() },
    )
    .json()?;
    assert_eq!(
        query,
        Json::Object(vec![
            member("id", Json::Int(5)),
            member("method", text("DOM.querySelector")),
            member(
                "params",
                Json::Object(vec![member("nodeId", Json::Int(9)), member("selector", text(".x"))])
            ),
        ])
    );
    Ok(())
}

#[test]
fn every_message_reads_back() -> Result<()> {
    let methods = vec![
        CDPMethod::GetTargets,
        CDPMethod::CreateTarget { url: "https://example.com".to_string() },
        CDPMethod::AttachToTarget { target_id: "T".to_string(), flatten: false },
        CDPMethod::CloseTarget { target_id: "T".to_string() },
        CDPMethod::Screenshot { format: ScreenshotFormat::Png },
        CDPMethod::Navigate { url: "https://blank.org/".to_string() },
        CDPMethod::GetDocument { depth: -1 },
        CDPMethod::Evaluate { expression: "5".to_string(), await_promise: true },
        CDPMethod::ResolveNode { node_id: 3 },
        CDPMethod::QuerySelector { node_id: 1, selector: "body".to_string() },
        CDPMethod::GetBoxModel { node_id: 2 },
    ];
    for (i, method) in methods.into_iter().enumerate() {
        let message = CDPMessage::new(i as i32, "session", method);
        let json = message.json()?;
        let back = CDPMessage::from_json(&json).expect("message reads back");
        assert_eq!(back.json()?, json);
        assert_eq!(back.id(), i as i32);
    }
    Ok(())
}

#[test]
fn unknown_method_does_not_read() {
    let json = Json::Object(vec![
        member("id", Json::Int(1)),
        member("method", text("Target.unknown")),
    ]);
    assert!(CDPMessage::from_json(&json).is_none());
}

#[test]
fn message_without_id_does_not_read() {
    let json = Json::Object(vec![member("method", text("Target.getTargets"))]);
    assert!(CDPMessage::from_json(&json).is_none());
}
