use serde_json::Value;
use spectre::cdp::runtime::{check_evaluation, EvaluateBody, EvaluateResponse, RemoteObjectType};
use spectre::cdp::{
    AttachToTargetResponse, CDPConnection, CreateTargetResponse, FrameOutcome,
    GetDocumentResponse, GetTargetResponse, PageNavigateResponse, Target, TargetType,
    WebSocketTarget,
};
use spectre::dom::{DomNode, NodeName};
use spectre::error::CDPError;
use spectre::json::{FromJson, Json, Member};
use spectre::Error;

fn to_json(v: &Value) -> Json {
    match v {
        Value::Null => Json::Null,
        Value::Bool(b) => Json::Bool(*b),
        Value::Number(n) => match n.as_i64() {
            Some(i) => Json::Int(i),
            None => Json::Number(n.to_string()),
        },
        Value::String(s) => Json::Str(s.clone()),
        Value::Array(items) => Json::Array(items.iter().map(to_json).collect()),
        Value::Object(map) => Json::Object(
            map.iter()
                .map(|(k, v)| Member {
                    key: k.clone(),
                    value: to_json(v),
                })
                .collect(),
        ),
    }
}

fn parse(text: &str) -> Json {
    to_json(&serde_json::from_str::<Value>(text).unwrap())
}

const TARGETS: &str = r#"{"id":1,"result":{"targetInfos":[{"targetId":"A1","type":"page","title":"New Tab","url":"chrome://newtab/","attached":false,"canAccessOpener":false,"browserContextId":"B1"},{"targetId":"A2","type":"service_worker","title":"sw","url":"https://example.com/sw.js","attached":true,"browserContextId":"B1"}]}}"#;

#[test]
fn reads_target_list() {
    let response = GetTargetResponse::from_json(&parse(TARGETS)).unwrap();
    assert_eq!(response.id(), 1);
    let targets = response.body().targets;
    assert_eq!(targets.len(), 2);
    assert_eq!(targets[0].id(), "A1");
    assert_eq!(targets[0].url(), "chrome://newtab/");
    assert_eq!(targets[1].target_id, "A2");
    assert_eq!(targets[1].url(), "https://example.com/sw.js");
}

#[test]
fn target_with_unknown_type_does_not_read() {
    let text = TARGETS.replace("service_worker", "gadget");
    assert!(GetTargetResponse::from_json(&parse(&text)).is_none());
}

#[test]
fn reads_session_and_created_target() {
    let attached = AttachToTargetResponse::from_json(&parse(
        r#"{"id":1,"result":{"sessionId":"S9"}}"#,
    ))
    .unwrap();
    assert_eq!(attached.body().session_id, "S9");
    let created = CreateTargetResponse::from_json(&parse(
        r#"{"id":4,"sessionId":null,"result":{"targetId":"T3"}}"#,
    ))
    .unwrap();
    assert_eq!(created.id(), 4);
    assert_eq!(created.body().target_id, "T3");
}

#[test]
fn reads_navigation_error_text() {
    let ok = PageNavigateResponse::from_json(&parse(
        r#"{"id":2,"sessionId":"S","result":{"frameId":"F","loaderId":"L"}}"#,
    ))
    .unwrap();
    assert!(ok.body().error_text.is_none());
    let failed = PageNavigateResponse::from_json(&parse(
        r#"{"id":2,"sessionId":"S","result":{"frameId":"F","loaderId":"L","errorText":"net::ERR_NAME_NOT_RESOLVED"}}"#,
    ))
    .unwrap();
    assert_eq!(
        failed.body().error_text.as_deref(),
        Some("net::ERR_NAME_NOT_RESOLVED")
    );
}

#[test]
fn id_out_of_i32_range_does_not_read() {
    assert!(AttachToTargetResponse::from_json(&parse(
        r#"{"id":4294967296,"result":{"sessionId":"S"}}"#
    ))
    .is_none());
    assert!(AttachToTargetResponse::from_json(&parse(
        r#"{"id":1.5,"result":{"sessionId":"S"}}"#
    ))
    .is_none());
}

const DOCUMENT: &str = r##"{"id":2,"result":{"root":{"nodeId":1,"backendNodeId":1,"nodeType":9,"nodeName":"#document","localName":"","nodeValue":"","childNodeCount":1,"children":[{"nodeId":2,"parentId":1,"nodeName":"html","localName":"html","nodeValue":"","attributes":["lang","en"],"children":[{"nodeId":3,"parentId":2,"nodeName":"BODY","localName":"body","nodeValue":""},{"nodeId":4,"parentId":2,"nodeName":"MY-WIDGET","localName":"my-widget","nodeValue":""}]}],"documentURL":"https://blank.org/"}}}"##;

#[test]
fn reads_document_tree() {
    let response = GetDocumentResponse::from_json(&parse(DOCUMENT)).unwrap();
    let root = response.body().root;
    assert_eq!(root.node_id, 1);
    assert_eq!(root.node_name, NodeName::Document);
    assert_eq!(root.parent_id, None);
    // `documentUrl` is the member the node reads, not `documentURL`.
    assert_eq!(root.document_url, None);
    assert_eq!(root.children.len(), 1);
    let html = &root.children[0];
    assert_eq!(html.node_name, NodeName::Html);
    assert_eq!(html.attributes, vec!["lang".to_string(), "en".to_string()]);
    assert_eq!(html.children[0].node_name, NodeName::Body);
    assert_eq!(
        html.children[1].node_name,
        NodeName::Unknown("MY-WIDGET".to_string())
    );
    assert_eq!(html.children[1].parent_id, Some(2));
}

#[test]
fn dom_node_copy_is_equal() {
    let response = GetDocumentResponse::from_json(&parse(DOCUMENT)).unwrap();
    let root = response.body().root;
    assert_eq!(root.clone(), root);
    assert_eq!(DomNode::default().node_name, NodeName::Document);
}

#[test]
fn child_that_does_not_read_fails_the_tree() {
    let text = DOCUMENT.replace(r#""nodeId":4,"#, r#""nodeId":"four","#);
    assert!(GetDocumentResponse::from_json(&parse(&text)).is_none());
}

#[test]
fn node_names_read_in_both_cases() {
    assert_eq!(NodeName::from_text("svg"), NodeName::Svg);
    assert_eq!(NodeName::from_text("SVG"), NodeName::Svg);
    assert_eq!(NodeName::from_text("#text"), NodeName::Text);
    assert_eq!(NodeName::from_text("DATALIST"), NodeName::DataList);
    assert_eq!(NodeName::from_text("div"), NodeName::Unknown("div".to_string()));
}

#[test]
fn reads_web_socket_target() {
    let text = r#"{"description":"","devtoolsFrontendUrl":"/devtools/inspector.html?ws=localhost:9222/devtools/page/P1","id":"P1","title":"","type":"page","url":"https://example.com/","webSocketDebuggerUrl":"ws://localhost:9222/devtools/page/P1"}"#;
    let target = WebSocketTarget::from_json(&parse(text)).unwrap();
    assert_eq!(target.endpoint, "ws://localhost:9222/devtools/page/P1");
    assert_eq!(target.target_type, TargetType::Page);
    assert_eq!(target.id, "P1");
}

#[test]
fn event_frames_are_skipped() {
    let frame = parse(r#"{"method":"Target.targetCreated","params":{}}"#);
    assert!(matches!(
        CDPConnection::read_reply::<GetTargetResponse>(&frame),
        FrameOutcome::Event
    ));
}

#[test]
fn reply_frames_are_read() {
    match CDPConnection::read_reply::<GetTargetResponse>(&parse(TARGETS)) {
        FrameOutcome::Reply(Ok(r)) => assert_eq!(r.body().targets.len(), 2),
        _ => panic!("expected a reply"),
    }
}

#[test]
fn error_frames_become_cdp_errors() {
    let frame = parse(r#"{"id":3,"error":{"code":-32601,"message":"'Foo.bar' wasn't found"}}"#);
    match CDPConnection::read_reply::<GetTargetResponse>(&frame) {
        FrameOutcome::Reply(Err(Error::CDPError { code, message })) => {
            assert_eq!(code, -32601);
            assert_eq!(message, "'Foo.bar' wasn't found");
        }
        _ => panic!("expected a CDP error"),
    }
}

#[test]
fn unexpected_frames_are_undecodable() {
    let frame = parse(r#"{"id":3,"result":{"unexpected":true}}"#);
    assert!(matches!(
        CDPConnection::read_reply::<GetTargetResponse>(&frame),
        FrameOutcome::Undecodable
    ));
    let frame = parse(r#"{"id":4}"#);
    assert!(matches!(
        CDPConnection::read_reply::<AttachToTargetResponse>(&frame),
        FrameOutcome::Undecodable
    ));
}

#[test]
fn failure_names_the_failing_member_of_a_reply() {
    let j = parse(r#"{"id":"seven","result":{}}"#);
    assert_eq!(GetTargetResponse::failure(&j), "missing or invalid member `id`");
    let j = parse(r#"{"id":4}"#);
    assert_eq!(AttachToTargetResponse::failure(&j), "missing or invalid member `result`");
    let j = parse(
        r#"{"id":5,"result":{"targetInfos":[{"targetId":"A1","type":"page","title":"t","url":"u","attached":"no","browserContextId":"B"}]}}"#,
    );
    assert_eq!(
        GetTargetResponse::failure(&j),
        "in member `result`: in member `targetInfos`: not an array of targets"
    );
}

#[test]
fn failure_names_the_first_bad_member_of_a_target() {
    let j = parse(r#"{"targetId":"A1","type":"page","title":"t","url":"u","attached":"no","browserContextId":"B"}"#);
    assert!(Target::from_json(&j).is_none());
    assert_eq!(Target::failure(&j), "missing or invalid member `attached`");
    let j = parse(r#"{"targetId":"A1","type":"spaceship"}"#);
    assert_eq!(Target::failure(&j), "missing or invalid member `type`");
}

#[test]
fn failure_of_an_evaluation_names_the_exception_member() {
    let j = parse(r#"{"result":{"type":"object"},"exceptionDetails":{"columnNumber":1,"lineNumber":0,"text":"Uncaught"}}"#);
    assert!(EvaluateBody::from_json(&j).is_none());
    assert_eq!(
        EvaluateBody::failure(&j),
        "in member `exceptionDetails`: missing or invalid member `exceptionId`"
    );
    let j = parse(r#"{"result":{"type":"nothing"}}"#);
    assert_eq!(
        EvaluateBody::failure(&j),
        "in member `result`: missing or invalid member `type`"
    );
}

#[test]
fn failure_of_a_node_names_the_member() {
    let j = parse(r##"{"nodeId":1,"nodeValue":"","localName":"","nodeName":"#document","children":[{"nodeId":2}]}"##);
    assert!(DomNode::from_json(&j).is_none());
    assert_eq!(
        DomNode::failure(&j),
        "in member `children`: a child node does not have the expected form"
    );
    let j = parse(r##"{"nodeId":1,"nodeValue":"","localName":"","nodeName":"#document","attributes":[1]}"##);
    assert_eq!(DomNode::failure(&j), "missing or invalid member `attributes`");
}

#[test]
fn cdp_error_converts_to_error() {
    let e = CDPError::from_json(&parse(
        r#"{"id":3,"sessionId":"S","error":{"code":-32000,"message":"No node"}}"#,
    ))
    .unwrap();
    assert_eq!(e.session_id.as_deref(), Some("S"));
    match Error::from(e) {
        Error::CDPError { code, message } => {
            assert_eq!(code, -32000);
            assert_eq!(message, "No node");
        }
        _ => panic!("expected a CDP error"),
    }
}

#[test]
fn thrown_exception_is_a_runtime_error() {
    let text = r#"{"id":5,"sessionId":"S","result":{"result":{"type":"number","value":5,"description":"5"},"exceptionDetails":{"exceptionId":1,"text":"Uncaught","lineNumber":0,"columnNumber":0,"scriptId":"7"}}}"#;
    let response = EvaluateResponse::from_json(&parse(text)).unwrap();
    match check_evaluation(response) {
        Err(Error::RuntimeError {
            line_number,
            column_number,
            value,
            description,
        }) => {
            assert_eq!(line_number, 0);
            assert_eq!(column_number, 0);
            assert_eq!(value, Some(Json::Int(5)));
            assert_eq!(description, "5");
        }
        _ => panic!("expected a runtime error"),
    }
}

#[test]
fn evaluation_without_exception_is_returned() {
    let text = r#"{"id":6,"sessionId":"S","result":{"result":{"type":"string","value":"https://blank.org/"}}}"#;
    let response = EvaluateResponse::from_json(&parse(text)).unwrap();
    let response = check_evaluation(response).unwrap();
    let body = response.body();
    assert_eq!(body.result.object_type, RemoteObjectType::String);
    assert_eq!(body.result.value, Some(Json::Str("https://blank.org/".to_string())));
    assert_eq!(body.result.description, None);
}

#[test]
fn syntax_error_without_description_has_empty_description() {
    let text = r#"{"id":7,"result":{"result":{"type":"object","subtype":"error","className":"SyntaxError","objectId":"O1"},"exceptionDetails":{"exceptionId":2,"text":"Uncaught","lineNumber":1,"columnNumber":4}}}"#;
    let response = EvaluateResponse::from_json(&parse(text)).unwrap();
    match check_evaluation(response) {
        Err(Error::RuntimeError {
            line_number,
            column_number,
            value,
            description,
        }) => {
            assert_eq!((line_number, column_number), (1, 4));
            assert_eq!(value, None);
            assert_eq!(description, "");
        }
        _ => panic!("expected a runtime error"),
    }
}

#[test]
fn get_by_name_finds_the_first_node_in_document_order() {
    let root = GetDocumentResponse::from_json(&parse(DOCUMENT)).unwrap().body().root;
    let found = root.get_by_name(&NodeName::Body).unwrap();
    assert_eq!(found.node_id, 3);
    let doc = root.get_by_name(&NodeName::Document).unwrap();
    assert_eq!(doc.node_id, 1);
    let custom = root
        .get_by_name(&NodeName::Unknown("MY-WIDGET".to_string()))
        .unwrap();
    assert_eq!(custom.node_id, 4);
    assert!(root.get_by_name(&NodeName::Title).is_none());
}

#[test]
fn node_name_equality() {
    assert!(NodeName::Html == NodeName::from_text("html"));
    assert!(NodeName::Unknown("x".to_string()) != NodeName::Unknown("y".to_string()));
    assert!(NodeName::A != NodeName::B);
}

#[test]
fn end_of_stream_is_a_failed_send() {
    match CDPConnection::on_frame::<GetTargetResponse>(None) {
        FrameOutcome::Reply(Err(Error::FailedToSendMessage)) => {}
        _ => panic!("expected a failed send"),
    }
    let frame = parse(r#"{"method":"Page.loadEventFired","params":{"timestamp":1}}"#);
    assert!(matches!(
        CDPConnection::on_frame::<GetTargetResponse>(Some(&frame)),
        FrameOutcome::Event
    ));
}
