//! Messages sent to the browser over the Chrome DevTools Protocol, and the
//! replies that come back.
mod connection;
pub mod runtime;

pub use connection::{CDPConnection, CDPSession, CDPSessionV, FrameOutcome, Socket};

use crate::dom::{dom_node_from_json, DomNode, DomNodeV};
use crate::error::Error;
use crate::json::{
    array_from_json, bad_member, bad_member_text, bool_member, in_member, in_member_text, copy_opt_text, i32_member, lemma_object_view, member_keys,
    member_values, opt_str_member, opt_text_view, same_text, spec_array_from_json, str_member,
    views, FromJson, Json, JsonV, Member,
};
use runtime::{RemoteObject, RemoteObjectV};
use vstd::prelude::*;

verus! {

broadcast use vstd::seq::group_seq_axioms;

/// Screenshot image formats supported by the browser
#[derive(Debug, Clone, Copy, PartialEq, Eq, Structural)]
pub enum ScreenshotFormat {
    Jpeg,
    Webp,
    Png,
}

/// The name by which a format is written in a message.
pub open spec fn format_name(f: ScreenshotFormat) -> Seq<char> {
    match f {
        ScreenshotFormat::Jpeg => "jpeg"@,
        ScreenshotFormat::Webp => "webp"@,
        ScreenshotFormat::Png => "png"@,
    }
}

/// The format written with `name`, if any.
pub open spec fn format_from_name(name: Seq<char>) -> Option<ScreenshotFormat> {
    if name == "jpeg"@ {
        Some(ScreenshotFormat::Jpeg)
    } else if name == "webp"@ {
        Some(ScreenshotFormat::Webp)
    } else if name == "png"@ {
        Some(ScreenshotFormat::Png)
    } else {
        None
    }
}

impl ScreenshotFormat {
    pub fn name(&self) -> (r: &'static str)
        ensures
            r@ == format_name(*self),
    {
        match self {
            ScreenshotFormat::Jpeg => "jpeg",
            ScreenshotFormat::Webp => "webp",
            ScreenshotFormat::Png => "png",
        }
    }

    pub fn from_name(name: &str) -> (r: Option<ScreenshotFormat>)
        ensures
            r == format_from_name(name@),
    {
        if same_text(name, "jpeg") {
            Some(ScreenshotFormat::Jpeg)
        } else if same_text(name, "webp") {
            Some(ScreenshotFormat::Webp)
        } else if same_text(name, "png") {
            Some(ScreenshotFormat::Png)
        } else {
            None
        }
    }
}

/// A command of the protocol, with its parameters.
#[derive(Debug, Clone)]
pub enum CDPMethod {
    GetTargets,
    CreateTarget { url: String },
    AttachToTarget { target_id: String, flatten: bool },
    CloseTarget { target_id: String },
    Screenshot { format: ScreenshotFormat },
    /// Navigates the current page to the given url.
    ///
    /// Corresponds to [`Page.navigate`](https://vanilla.aslushnikov.com/?Page.navigate)
    Navigate { url: String },
    /// Returns the root DOM node.
    ///
    /// Corresponds to [`DOM.getDocument`](https://vanilla.aslushnikov.com/?DOM.getDocument)
    GetDocument { depth: i32 },
    /// Evaluates expression on global object.
    ///
    /// Corresponds to [`Runtime.evaluate`](https://vanilla.aslushnikov.com/?Runtime.evaluate)
    Evaluate {
        /// The expression to evaluate
        expression: String,
        /// Where execution should await the expression and
        /// return the awaited value once the promise is
        /// resolved.
        await_promise: bool,
    },
    /// Resolves the JavaScript object of a node.
    ///
    /// Corresponds to [`DOM.resolveNode`](https://vanilla.aslushnikov.com/?DOM.resolveNode)
    ResolveNode { node_id: i32 },
    /// Runs `document.querySelector` on the given node.
    ///
    /// Corresponds to [`DOM.querySelector`](https://vanilla.aslushnikov.com/?DOM.querySelector)
    QuerySelector { node_id: i32, selector: String },
    /// Get the box model for the given node.
    ///
    /// Corresponds to [`DOM.getBoxModel`](https://vanilla.aslushnikov.com/?DOM.getBoxModel)
    GetBoxModel { node_id: i32 },
}

/// The mathematical value of a [`CDPMethod`].
pub enum CDPMethodV {
    GetTargets,
    CreateTarget { url: Seq<char> },
    AttachToTarget { target_id: Seq<char>, flatten: bool },
    CloseTarget { target_id: Seq<char> },
    Screenshot { format: ScreenshotFormat },
    Navigate { url: Seq<char> },
    GetDocument { depth: i32 },
    Evaluate { expression: Seq<char>, await_promise: bool },
    ResolveNode { node_id: i32 },
    QuerySelector { node_id: i32, selector: Seq<char> },
    GetBoxModel { node_id: i32 },
}

impl View for CDPMethod {
    type V = CDPMethodV;

    open spec fn view(&self) -> CDPMethodV {
        match self {
            CDPMethod::GetTargets => CDPMethodV::GetTargets,
            CDPMethod::CreateTarget { url } => CDPMethodV::CreateTarget { url: url@ },
            CDPMethod::AttachToTarget { target_id, flatten } => CDPMethodV::AttachToTarget {
                target_id: target_id@,
                flatten: *flatten,
            },
            CDPMethod::CloseTarget { target_id } => CDPMethodV::CloseTarget {
                target_id: target_id@,
            },
            CDPMethod::Screenshot { format } => CDPMethodV::Screenshot { format: *format },
            CDPMethod::Navigate { url } => CDPMethodV::Navigate { url: url@ },
            CDPMethod::GetDocument { depth } => CDPMethodV::GetDocument { depth: *depth },
            CDPMethod::Evaluate { expression, await_promise } => CDPMethodV::Evaluate {
                expression: expression@,
                await_promise: *await_promise,
            },
            CDPMethod::ResolveNode { node_id } => CDPMethodV::ResolveNode { node_id: *node_id },
            CDPMethod::QuerySelector { node_id, selector } => CDPMethodV::QuerySelector {
                node_id: *node_id,
                selector: selector@,
            },
            CDPMethod::GetBoxModel { node_id } => CDPMethodV::GetBoxModel { node_id: *node_id },
        }
    }
}

/// The protocol name of a command.
pub open spec fn method_name(m: CDPMethodV) -> Seq<char> {
    match m {
        CDPMethodV::GetTargets => "Target.getTargets"@,
        CDPMethodV::CreateTarget { .. } => "Target.createTarget"@,
        CDPMethodV::AttachToTarget { .. } => "Target.attachToTarget"@,
        CDPMethodV::CloseTarget { .. } => "Target.closeTarget"@,
        CDPMethodV::Screenshot { .. } => "Page.captureScreenshot"@,
        CDPMethodV::Navigate { .. } => "Page.navigate"@,
        CDPMethodV::GetDocument { .. } => "DOM.getDocument"@,
        CDPMethodV::Evaluate { .. } => "Runtime.evaluate"@,
        CDPMethodV::ResolveNode { .. } => "DOM.resolveNode"@,
        CDPMethodV::QuerySelector { .. } => "DOM.querySelector"@,
        CDPMethodV::GetBoxModel { .. } => "DOM.getBoxModel"@,
    }
}

/// The `params` object of a command; a command without parameters has none.
pub open spec fn method_params(m: CDPMethodV) -> Option<JsonV> {
    match m {
        CDPMethodV::GetTargets => None,
        CDPMethodV::CreateTarget { url } => Some(
            JsonV::Object(seq!["url"@], seq![JsonV::Str(url)]),
        ),
        CDPMethodV::AttachToTarget { target_id, flatten } => Some(
            JsonV::Object(
                seq!["targetId"@, "flatten"@],
                seq![JsonV::Str(target_id), JsonV::Bool(flatten)],
            ),
        ),
        CDPMethodV::CloseTarget { target_id } => Some(
            JsonV::Object(seq!["targetId"@], seq![JsonV::Str(target_id)]),
        ),
        CDPMethodV::Screenshot { format } => Some(
            JsonV::Object(seq!["format"@], seq![JsonV::Str(format_name(format))]),
        ),
        CDPMethodV::Navigate { url } => Some(JsonV::Object(seq!["url"@], seq![JsonV::Str(url)])),
        CDPMethodV::GetDocument { depth } => Some(
            JsonV::Object(seq!["depth"@], seq![JsonV::Int(depth as int)]),
        ),
        CDPMethodV::Evaluate { expression, await_promise } => Some(
            JsonV::Object(
                seq!["expression"@, "awaitPromise"@],
                seq![JsonV::Str(expression), JsonV::Bool(await_promise)],
            ),
        ),
        CDPMethodV::ResolveNode { node_id } => Some(
            JsonV::Object(seq!["nodeId"@], seq![JsonV::Int(node_id as int)]),
        ),
        CDPMethodV::QuerySelector { node_id, selector } => Some(
            JsonV::Object(
                seq!["nodeId"@, "selector"@],
                seq![JsonV::Int(node_id as int), JsonV::Str(selector)],
            ),
        ),
        CDPMethodV::GetBoxModel { node_id } => Some(
            JsonV::Object(seq!["nodeId"@], seq![JsonV::Int(node_id as int)]),
        ),
    }
}

/// A member of an object.
pub fn member(key: &str, value: Json) -> (m: Member)
    ensures
        m.key@ == key@,
        m.value == value,
{
    Member { key: key.to_owned(), value }
}

/// An object with the given members, in order.
pub fn object(members: Vec<Member>) -> (j: Json)
    ensures
        j@ == JsonV::Object(member_keys(members@), member_values(members@)),
{
    proof {
        lemma_object_view(members);
    }
    Json::Object(members)
}

pub fn text(s: &String) -> (j: Json)
    ensures
        j@ == JsonV::Str(s@),
{
    Json::Str(s.clone())
}

impl CDPMethod {
    /// The protocol name of the command.
    pub fn name(&self) -> (r: &'static str)
        ensures
            r@ == method_name(self@),
    {
        match self {
            CDPMethod::GetTargets => "Target.getTargets",
            CDPMethod::CreateTarget { .. } => "Target.createTarget",
            CDPMethod::AttachToTarget { .. } => "Target.attachToTarget",
            CDPMethod::CloseTarget { .. } => "Target.closeTarget",
            CDPMethod::Screenshot { .. } => "Page.captureScreenshot",
            CDPMethod::Navigate { .. } => "Page.navigate",
            CDPMethod::GetDocument { .. } => "DOM.getDocument",
            CDPMethod::Evaluate { .. } => "Runtime.evaluate",
            CDPMethod::ResolveNode { .. } => "DOM.resolveNode",
            CDPMethod::QuerySelector { .. } => "DOM.querySelector",
            CDPMethod::GetBoxModel { .. } => "DOM.getBoxModel",
        }
    }

    /// The `params` object of the command.
    pub fn params(&self) -> (r: Option<Json>)
        ensures
            match r {
                Some(p) => method_params(self@) == Some(p@),
                None => method_params(self@) is None,
            },
    {
        let mut members: Vec<Member> = Vec::new();
        match self {
            CDPMethod::GetTargets => {
                return None;
            },
            CDPMethod::CreateTarget { url } => {
                members.push(member("url", text(url)));
            },
            CDPMethod::AttachToTarget { target_id, flatten } => {
                members.push(member("targetId", text(target_id)));
                members.push(member("flatten", Json::Bool(*flatten)));
            },
            CDPMethod::CloseTarget { target_id } => {
                members.push(member("targetId", text(target_id)));
            },
            CDPMethod::Screenshot { format } => {
                members.push(member("format", Json::Str(format.name().to_owned())));
            },
            CDPMethod::Navigate { url } => {
                members.push(member("url", text(url)));
            },
            CDPMethod::GetDocument { depth } => {
                members.push(member("depth", Json::Int(*depth as i64)));
            },
            CDPMethod::Evaluate { expression, await_promise } => {
                members.push(member("expression", text(expression)));
                members.push(member("awaitPromise", Json::Bool(*await_promise)));
            },
            CDPMethod::ResolveNode { node_id } => {
                members.push(member("nodeId", Json::Int(*node_id as i64)));
            },
            CDPMethod::QuerySelector { node_id, selector } => {
                members.push(member("nodeId", Json::Int(*node_id as i64)));
                members.push(member("selector", text(selector)));
            },
            CDPMethod::GetBoxModel { node_id } => {
                members.push(member("nodeId", Json::Int(*node_id as i64)));
            },
        }
        let p = object(members);
        proof {
            let p2 = method_params(self@)->Some_0;
            assert(member_keys(members@) =~= p2->Object_0);
            assert(member_values(members@) =~= p2->Object_1);
        }
        Some(p)
    }
}

/// A request to the browser: the command `method`, tagged with `id` so that
/// its reply can be recognised, and sent within the session `session_id`
/// (the browser itself when there is none).
#[derive(Debug)]
pub struct CDPMessage {
    id: i32,
    session_id: Option<String>,
    method: CDPMethod,
}

/// The mathematical value of a [`CDPMessage`].
pub struct CDPMessageV {
    pub id: i32,
    pub session_id: Option<Seq<char>>,
    pub method: CDPMethodV,
}

impl View for CDPMessage {
    type V = CDPMessageV;

    closed spec fn view(&self) -> CDPMessageV {
        CDPMessageV { id: self.id, session_id: opt_text_view(self.session_id), method: self.method@ }
    }
}

/// The keys of the members of a message, in the order they are written:
/// `id`, `sessionId` (left out for the browser's own session), `method` and
/// `params` (left out for a command without parameters).
pub open spec fn message_keys(m: CDPMessageV) -> Seq<Seq<char>> {
    seq!["id"@] + (if m.session_id is Some {
        seq!["sessionId"@]
    } else {
        Seq::empty()
    }) + seq!["method"@] + (if method_params(m.method) is Some {
        seq!["params"@]
    } else {
        Seq::empty()
    })
}

/// The values of the members of a message, at the positions of
/// [`message_keys`].
pub open spec fn message_values(m: CDPMessageV) -> Seq<JsonV> {
    seq![JsonV::Int(m.id as int)] + (match m.session_id {
        Some(s) => seq![JsonV::Str(s)],
        None => Seq::empty(),
    }) + seq![JsonV::Str(method_name(m.method))] + (match method_params(m.method) {
        Some(p) => seq![p],
        None => Seq::empty(),
    })
}

/// The JSON form of a message.
pub open spec fn message_json(m: CDPMessageV) -> JsonV {
    JsonV::Object(message_keys(m), message_values(m))
}

impl CDPMessage {
    pub fn new(id: i32, session_id: &str, method: CDPMethod) -> (m: Self)
        ensures
            m@ == (CDPMessageV { id, session_id: Some(session_id@), method: method@ }),
    {
        Self { id, session_id: Some(session_id.to_owned()), method }
    }

    pub fn root(id: i32, method: CDPMethod) -> (m: Self)
        ensures
            m@ == (CDPMessageV { id, session_id: None, method: method@ }),
    {
        Self { id, session_id: None, method }
    }

    pub fn get_targets(id: i32) -> (m: Self)
        ensures
            m@ == (CDPMessageV { id, session_id: None, method: CDPMethodV::GetTargets }),
    {
        Self { id, session_id: None, method: CDPMethod::GetTargets }
    }

    /// Navigate the page
    ///
    /// Corresponds to [`Page.navigate`](https://vanilla.aslushnikov.com/?Page.navigate)
    pub fn navigate(id: i32, session_id: &str, url: &str) -> (m: Self)
        ensures
            m@ == (CDPMessageV {
                id,
                session_id: Some(session_id@),
                method: CDPMethodV::Navigate { url: url@ },
            }),
    {
        Self {
            id,
            session_id: Some(session_id.to_owned()),
            method: CDPMethod::Navigate { url: url.to_owned() },
        }
    }

    pub fn screenshot(id: i32, session_id: &str, format: ScreenshotFormat) -> (m: Self)
        ensures
            m@ == (CDPMessageV {
                id,
                session_id: Some(session_id@),
                method: CDPMethodV::Screenshot { format },
            }),
    {
        Self { id, session_id: Some(session_id.to_owned()), method: CDPMethod::Screenshot { format } }
    }

    /// Evaluate JS in the browser.
    pub fn evaluate(id: i32, session_id: &str, expression: &str) -> (m: Self)
        ensures
            m@ == (CDPMessageV {
                id,
                session_id: Some(session_id@),
                method: CDPMethodV::Evaluate { expression: expression@, await_promise: true },
            }),
    {
        Self {
            id,
            session_id: Some(session_id.to_owned()),
            method: CDPMethod::Evaluate { expression: expression.to_owned(), await_promise: true },
        }
    }

    pub fn id(&self) -> (r: i32)
        ensures
            r == self@.id,
    {
        self.id
    }

    /// Get the json representation of the message
    pub fn json(&self) -> (r: Result<Json, Error>)
        ensures
            match r {
                Ok(j) => j@ == message_json(self@),
                Err(_) => false,
            },
    {
        let mut members: Vec<Member> = Vec::new();
        members.push(member("id", Json::Int(self.id as i64)));
        match &self.session_id {
            Some(s) => {
                members.push(member("sessionId", text(s)));
            },
            None => {},
        }
        members.push(member("method", Json::Str(self.method.name().to_owned())));
        match self.method.params() {
            Some(p) => {
                members.push(member("params", p));
            },
            None => {},
        }
        let j = object(members);
        proof {
            assert(member_keys(members@) =~= message_keys(self@));
            assert(member_values(members@) =~= message_values(self@));
        }
        Ok(j)
    }
}

/// The unit parameters of a command without parameters: absent or `null`.
pub open spec fn no_params(j: JsonV) -> bool {
    match j.get("params"@) {
        None => true,
        Some(JsonV::Null) => true,
        _ => false,
    }
}

/// Reads a command back from the `method` and `params` members of `j`.
pub open spec fn method_from_json(j: JsonV) -> Option<CDPMethodV> {
    match str_member(j, "method"@) {
        None => None,
        Some(name) => {
            let p = match j.get("params"@) {
                Some(p) => p,
                None => JsonV::Null,
            };
            if name == "Target.getTargets"@ {
                if no_params(j) {
                    Some(CDPMethodV::GetTargets)
                } else {
                    None
                }
            } else if name == "Target.createTarget"@ {
                match str_member(p, "url"@) {
                    Some(url) => Some(CDPMethodV::CreateTarget { url }),
                    None => None,
                }
            } else if name == "Target.attachToTarget"@ {
                match (str_member(p, "targetId"@), bool_member(p, "flatten"@)) {
                    (Some(target_id), Some(flatten)) => Some(
                        CDPMethodV::AttachToTarget { target_id, flatten },
                    ),
                    _ => None,
                }
            } else if name == "Target.closeTarget"@ {
                match str_member(p, "targetId"@) {
                    Some(target_id) => Some(CDPMethodV::CloseTarget { target_id }),
                    None => None,
                }
            } else if name == "Page.captureScreenshot"@ {
                match str_member(p, "format"@) {
                    Some(f) => match format_from_name(f) {
                        Some(format) => Some(CDPMethodV::Screenshot { format }),
                        None => None,
                    },
                    None => None,
                }
            } else if name == "Page.navigate"@ {
                match str_member(p, "url"@) {
                    Some(url) => Some(CDPMethodV::Navigate { url }),
                    None => None,
                }
            } else if name == "DOM.getDocument"@ {
                match i32_member(p, "depth"@) {
                    Some(depth) => Some(CDPMethodV::GetDocument { depth }),
                    None => None,
                }
            } else if name == "Runtime.evaluate"@ {
                match (str_member(p, "expression"@), bool_member(p, "awaitPromise"@)) {
                    (Some(expression), Some(await_promise)) => Some(
                        CDPMethodV::Evaluate { expression, await_promise },
                    ),
                    _ => None,
                }
            } else if name == "DOM.resolveNode"@ {
                match i32_member(p, "nodeId"@) {
                    Some(node_id) => Some(CDPMethodV::ResolveNode { node_id }),
                    None => None,
                }
            } else if name == "DOM.querySelector"@ {
                match (i32_member(p, "nodeId"@), str_member(p, "selector"@)) {
                    (Some(node_id), Some(selector)) => Some(
                        CDPMethodV::QuerySelector { node_id, selector },
                    ),
                    _ => None,
                }
            } else if name == "DOM.getBoxModel"@ {
                match i32_member(p, "nodeId"@) {
                    Some(node_id) => Some(CDPMethodV::GetBoxModel { node_id }),
                    None => None,
                }
            } else {
                None
            }
        },
    }
}

/// Reads a message back from its JSON form: an object with an `i32` member
/// `id`, an optional string `sessionId`, and the members of its command.
/// Other members are ignored.
pub open spec fn message_from_json(j: JsonV) -> Option<CDPMessageV> {
    if !j.is_object() {
        None
    } else {
        match (i32_member(j, "id"@), opt_str_member(j, "sessionId"@), method_from_json(j)) {
            (Some(id), Some(session_id), Some(method)) => Some(
                CDPMessageV { id, session_id, method },
            ),
            _ => None,
        }
    }
}

impl CDPMethod {
    /// Reads a command from the `method` and `params` members of `j`.
    pub fn from_json(j: &Json) -> (r: Option<CDPMethod>)
        ensures
            match r {
                Some(m) => method_from_json(j@) == Some(m@),
                None => method_from_json(j@) is None,
            },
    {
        let name = match j.str_member("method") {
            Some(name) => name,
            None => {
                return None;
            },
        };
        let null = Json::Null;
        let p: &Json = match j.get("params") {
            Some(p) => p,
            None => &null,
        };
        let name = name.as_str();
        if same_text(name, "Target.getTargets") {
            match p {
                Json::Null => Some(CDPMethod::GetTargets),
                _ => None,
            }
        } else if same_text(name, "Target.createTarget") {
            match p.str_member("url") {
                Some(url) => Some(CDPMethod::CreateTarget { url }),
                None => None,
            }
        } else if same_text(name, "Target.attachToTarget") {
            match (p.str_member("targetId"), p.bool_member("flatten")) {
                (Some(target_id), Some(flatten)) => Some(
                    CDPMethod::AttachToTarget { target_id, flatten },
                ),
                _ => None,
            }
        } else if same_text(name, "Target.closeTarget") {
            match p.str_member("targetId") {
                Some(target_id) => Some(CDPMethod::CloseTarget { target_id }),
                None => None,
            }
        } else if same_text(name, "Page.captureScreenshot") {
            match p.str_member("format") {
                Some(f) => match ScreenshotFormat::from_name(f.as_str()) {
                    Some(format) => Some(CDPMethod::Screenshot { format }),
                    None => None,
                },
                None => None,
            }
        } else if same_text(name, "Page.navigate") {
            match p.str_member("url") {
                Some(url) => Some(CDPMethod::Navigate { url }),
                None => None,
            }
        } else if same_text(name, "DOM.getDocument") {
            match p.i32_member("depth") {
                Some(depth) => Some(CDPMethod::GetDocument { depth }),
                None => None,
            }
        } else if same_text(name, "Runtime.evaluate") {
            match (p.str_member("expression"), p.bool_member("awaitPromise")) {
                (Some(expression), Some(await_promise)) => Some(
                    CDPMethod::Evaluate { expression, await_promise },
                ),
                _ => None,
            }
        } else if same_text(name, "DOM.resolveNode") {
            match p.i32_member("nodeId") {
                Some(node_id) => Some(CDPMethod::ResolveNode { node_id }),
                None => None,
            }
        } else if same_text(name, "DOM.querySelector") {
            match (p.i32_member("nodeId"), p.str_member("selector")) {
                (Some(node_id), Some(selector)) => Some(
                    CDPMethod::QuerySelector { node_id, selector },
                ),
                _ => None,
            }
        } else if same_text(name, "DOM.getBoxModel") {
            match p.i32_member("nodeId") {
                Some(node_id) => Some(CDPMethod::GetBoxModel { node_id }),
                None => None,
            }
        } else {
            None
        }
    }
}

impl FromJson for CDPMessage {
    open spec fn spec_from_json(j: JsonV) -> Option<CDPMessageV> {
        message_from_json(j)
    }

    fn from_json(j: &Json) -> (r: Option<CDPMessage>) {
        if !matches!(j, Json::Object(_)) {
            return None;
        }
        match (j.i32_member("id"), j.opt_str_member("sessionId"), CDPMethod::from_json(j)) {
            (Some(id), Some(session_id), Some(method)) => Some(CDPMessage { id, session_id, method }),
            _ => None,
        }
    }

    open spec fn spec_failure(j: JsonV) -> Seq<char> {
        if !j.is_object() {
            "not an object"@
        } else if i32_member(j, "id"@) is None {
            bad_member("id"@)
        } else if opt_str_member(j, "sessionId"@) is None {
            bad_member("sessionId"@)
        } else {
            bad_member("method"@ + " or "@ + "params"@)
        }
    }

    fn failure(j: &Json) -> (r: String) {
        if !matches!(j, Json::Object(_)) {
            "not an object".to_owned()
        } else if j.i32_member("id").is_none() {
            bad_member_text("id")
        } else if j.opt_str_member("sessionId").is_none() {
            bad_member_text("sessionId")
        } else {
            bad_member_text("method".to_owned().concat(" or ").concat("params").as_str())
        }
    }
}

proof fn lemma_method_names_distinct()
    ensures
        "Target.getTargets"@ != "Target.createTarget"@,
        "Target.getTargets"@ != "Target.attachToTarget"@,
        "Target.getTargets"@ != "Target.closeTarget"@,
        "Target.getTargets"@ != "Page.captureScreenshot"@,
        "Target.getTargets"@ != "Page.navigate"@,
        "Target.getTargets"@ != "DOM.getDocument"@,
        "Target.getTargets"@ != "Runtime.evaluate"@,
        "Target.getTargets"@ != "DOM.resolveNode"@,
        "Target.getTargets"@ != "DOM.querySelector"@,
        "Target.getTargets"@ != "DOM.getBoxModel"@,
        "Target.createTarget"@ != "Target.attachToTarget"@,
        "Target.createTarget"@ != "Target.closeTarget"@,
        "Target.createTarget"@ != "Page.captureScreenshot"@,
        "Target.createTarget"@ != "Page.navigate"@,
        "Target.createTarget"@ != "DOM.getDocument"@,
        "Target.createTarget"@ != "Runtime.evaluate"@,
        "Target.createTarget"@ != "DOM.resolveNode"@,
        "Target.createTarget"@ != "DOM.querySelector"@,
        "Target.createTarget"@ != "DOM.getBoxModel"@,
        "Target.attachToTarget"@ != "Target.closeTarget"@,
        "Target.attachToTarget"@ != "Page.captureScreenshot"@,
        "Target.attachToTarget"@ != "Page.navigate"@,
        "Target.attachToTarget"@ != "DOM.getDocument"@,
        "Target.attachToTarget"@ != "Runtime.evaluate"@,
        "Target.attachToTarget"@ != "DOM.resolveNode"@,
        "Target.attachToTarget"@ != "DOM.querySelector"@,
        "Target.attachToTarget"@ != "DOM.getBoxModel"@,
        "Target.closeTarget"@ != "Page.captureScreenshot"@,
        "Target.closeTarget"@ != "Page.navigate"@,
        "Target.closeTarget"@ != "DOM.getDocument"@,
        "Target.closeTarget"@ != "Runtime.evaluate"@,
        "Target.closeTarget"@ != "DOM.resolveNode"@,
        "Target.closeTarget"@ != "DOM.querySelector"@,
        "Target.closeTarget"@ != "DOM.getBoxModel"@,
        "Page.captureScreenshot"@ != "Page.navigate"@,
        "Page.captureScreenshot"@ != "DOM.getDocument"@,
        "Page.captureScreenshot"@ != "Runtime.evaluate"@,
        "Page.captureScreenshot"@ != "DOM.resolveNode"@,
        "Page.captureScreenshot"@ != "DOM.querySelector"@,
        "Page.captureScreenshot"@ != "DOM.getBoxModel"@,
        "Page.navigate"@ != "DOM.getDocument"@,
        "Page.navigate"@ != "Runtime.evaluate"@,
        "Page.navigate"@ != "DOM.resolveNode"@,
        "Page.navigate"@ != "DOM.querySelector"@,
        "Page.navigate"@ != "DOM.getBoxModel"@,
        "DOM.getDocument"@ != "Runtime.evaluate"@,
        "DOM.getDocument"@ != "DOM.resolveNode"@,
        "DOM.getDocument"@ != "DOM.querySelector"@,
        "DOM.getDocument"@ != "DOM.getBoxModel"@,
        "Runtime.evaluate"@ != "DOM.resolveNode"@,
        "Runtime.evaluate"@ != "DOM.querySelector"@,
        "Runtime.evaluate"@ != "DOM.getBoxModel"@,
        "DOM.resolveNode"@ != "DOM.querySelector"@,
        "DOM.resolveNode"@ != "DOM.getBoxModel"@,
        "DOM.querySelector"@ != "DOM.getBoxModel"@,
{
    reveal_strlit("Target.getTargets");
    reveal_strlit("Target.createTarget");
    reveal_strlit("Target.attachToTarget");
    reveal_strlit("Target.closeTarget");
    reveal_strlit("Page.captureScreenshot");
    reveal_strlit("Page.navigate");
    reveal_strlit("DOM.getDocument");
    reveal_strlit("Runtime.evaluate");
    reveal_strlit("DOM.resolveNode");
    reveal_strlit("DOM.querySelector");
    reveal_strlit("DOM.getBoxModel");
    assert("Target.getTargets"@[0] == 'T');
    assert("Target.createTarget"@[0] == 'T');
    assert("Target.attachToTarget"@[0] == 'T');
    assert("Target.closeTarget"@[0] == 'T');
    assert("Page.captureScreenshot"@[0] == 'P');
    assert("Page.navigate"@[0] == 'P');
    assert("DOM.getDocument"@[0] == 'D');
    assert("Runtime.evaluate"@[0] == 'R');
    assert("DOM.resolveNode"@[0] == 'D');
    assert("DOM.querySelector"@[0] == 'D');
    assert("DOM.getBoxModel"@[0] == 'D');
    assert("Target.getTargets"@[7] != "Target.createTarget"@[7]);
    assert("Target.getTargets"@[7] != "Target.attachToTarget"@[7]);
    assert("Target.getTargets"@[7] != "Target.closeTarget"@[7]);
    assert("Target.createTarget"@[7] != "Target.attachToTarget"@[7]);
    assert("Target.createTarget"@[8] != "Target.closeTarget"@[8]);
    assert("Target.attachToTarget"@[7] != "Target.closeTarget"@[7]);
    assert("Page.captureScreenshot"@[5] != "Page.navigate"@[5]);
    assert("DOM.getDocument"@[4] != "DOM.resolveNode"@[4]);
    assert("DOM.getDocument"@[7] != "DOM.getBoxModel"@[7]);
    assert("DOM.resolveNode"@[4] != "DOM.getBoxModel"@[4]);
}

proof fn lemma_member_keys_distinct()
    ensures
        "id"@ != "sessionId"@,
        "id"@ != "method"@,
        "id"@ != "params"@,
        "sessionId"@ != "method"@,
        "sessionId"@ != "params"@,
        "method"@ != "params"@,
        "targetId"@ != "flatten"@,
        "expression"@ != "awaitPromise"@,
        "nodeId"@ != "selector"@,
        "jpeg"@ != "webp"@,
        "jpeg"@ != "png"@,
        "webp"@ != "png"@,
{
    reveal_strlit("id");
    reveal_strlit("sessionId");
    reveal_strlit("method");
    reveal_strlit("params");
    reveal_strlit("targetId");
    reveal_strlit("flatten");
    reveal_strlit("expression");
    reveal_strlit("awaitPromise");
    reveal_strlit("nodeId");
    reveal_strlit("selector");
    reveal_strlit("jpeg");
    reveal_strlit("webp");
    reveal_strlit("png");
    assert("id"@[0] == 'i');
    assert("sessionId"@[0] == 's');
    assert("method"@[0] == 'm');
    assert("params"@[0] == 'p');
    assert("targetId"@[0] == 't');
    assert("flatten"@[0] == 'f');
    assert("expression"@[0] == 'e');
    assert("awaitPromise"@[0] == 'a');
    assert("nodeId"@[0] == 'n');
    assert("selector"@[0] == 's');
    assert("jpeg"@[0] == 'j');
    assert("webp"@[0] == 'w');
    assert("png"@[0] == 'p');
}

/// Reading a screenshot format back from its name gives the format.
pub proof fn lemma_format_round_trip(f: ScreenshotFormat)
    ensures
        format_from_name(format_name(f)) == Some(f),
{
    lemma_member_keys_distinct();
}

/// Reading a command back from the members that encode it gives the command.
pub proof fn lemma_method_round_trip(m: CDPMessageV)
    ensures
        method_from_json(message_json(m)) == Some(m.method),
{
    lemma_method_names_distinct();
    lemma_member_keys_distinct();
    reveal_with_fuel(crate::json::lookup, 5);
    let j = message_json(m);
    assert(str_member(j, "method"@) == Some(method_name(m.method)));
    match method_params(m.method) {
        Some(p) => {
            assert(j.get("params"@) == Some(p));
        },
        None => {
            assert(j.get("params"@) is None);
        },
    }
    match m.method {
        CDPMethodV::Screenshot { format } => {
            lemma_format_round_trip(format);
        },
        _ => {},
    }
}

/// A message survives being written as JSON and read back: reading the JSON
/// form of `m` gives `m`.
pub proof fn lemma_message_round_trip(m: CDPMessageV)
    ensures
        message_from_json(message_json(m)) == Some(m),
{
    lemma_member_keys_distinct();
    lemma_method_round_trip(m);
    reveal_with_fuel(crate::json::lookup, 5);
    let j = message_json(m);
    assert(i32_member(j, "id"@) == Some(m.id));
    assert(opt_str_member(j, "sessionId"@) == Some(m.session_id));
}

/// The kind of a target.
#[derive(Debug, Clone, Copy, PartialEq, Eq, Structural)]
pub enum TargetType {
    Tab,
    Page,
    Iframe,
    Worker,
    ServiceWorker,
    Browser,
    WebView,
}

/// The target type written as `name`, if any.
pub open spec fn target_type_from_name(name: Seq<char>) -> Option<TargetType> {
    if name == "tab"@ {
        Some(TargetType::Tab)
    } else if name == "page"@ {
        Some(TargetType::Page)
    } else if name == "iframe"@ {
        Some(TargetType::Iframe)
    } else if name == "worker"@ {
        Some(TargetType::Worker)
    } else if name == "service_worker"@ {
        Some(TargetType::ServiceWorker)
    } else if name == "browser"@ {
        Some(TargetType::Browser)
    } else if name == "web_view"@ {
        Some(TargetType::WebView)
    } else {
        None
    }
}

/// A target type held in the string member `key`.
pub open spec fn target_type_member(j: JsonV, key: Seq<char>) -> Option<TargetType> {
    match str_member(j, key) {
        Some(name) => target_type_from_name(name),
        None => None,
    }
}

impl TargetType {
    pub fn from_name(name: &str) -> (r: Option<TargetType>)
        ensures
            r == target_type_from_name(name@),
    {
        if same_text(name, "tab") {
            Some(TargetType::Tab)
        } else if same_text(name, "page") {
            Some(TargetType::Page)
        } else if same_text(name, "iframe") {
            Some(TargetType::Iframe)
        } else if same_text(name, "worker") {
            Some(TargetType::Worker)
        } else if same_text(name, "service_worker") {
            Some(TargetType::ServiceWorker)
        } else if same_text(name, "browser") {
            Some(TargetType::Browser)
        } else if same_text(name, "web_view") {
            Some(TargetType::WebView)
        } else {
            None
        }
    }

    pub fn from_member(j: &Json, key: &str) -> (r: Option<TargetType>)
        ensures
            r == target_type_member(j@, key@),
    {
        match j.str_member(key) {
            Some(name) => TargetType::from_name(name.as_str()),
            None => None,
        }
    }
}

/// A target (a tab, a page, a worker, ...) as the browser describes it.
#[derive(Debug)]
pub struct Target {
    pub target_id: String,
    target_type: TargetType,
    title: String,
    url: String,
    attached: bool,
    browser_context_id: String,
}

pub struct TargetV {
    pub target_id: Seq<char>,
    pub target_type: TargetType,
    pub title: Seq<char>,
    pub url: Seq<char>,
    pub attached: bool,
    pub browser_context_id: Seq<char>,
}

impl View for Target {
    type V = TargetV;

    closed spec fn view(&self) -> TargetV {
        TargetV {
            target_id: self.target_id@,
            target_type: self.target_type,
            title: self.title@,
            url: self.url@,
            attached: self.attached,
            browser_context_id: self.browser_context_id@,
        }
    }
}

impl Clone for Target {
    fn clone(&self) -> (r: Self)
        ensures
            r@ == self@,
    {
        Target {
            target_id: self.target_id.clone(),
            target_type: self.target_type,
            title: self.title.clone(),
            url: self.url.clone(),
            attached: self.attached,
            browser_context_id: self.browser_context_id.clone(),
        }
    }
}

impl Target {
    pub fn id(&self) -> (r: &str)
        ensures
            r@ == self@.target_id,
    {
        self.target_id.as_str()
    }

    pub fn url(&self) -> (r: &str)
        ensures
            r@ == self@.url,
    {
        self.url.as_str()
    }
}

impl FromJson for Target {
    /// `{"targetId", "type", "title", "url", "attached", "browserContextId"}`
    open spec fn spec_from_json(j: JsonV) -> Option<TargetV> {
        match (
            str_member(j, "targetId"@),
            target_type_member(j, "type"@),
            str_member(j, "title"@),
            str_member(j, "url"@),
            bool_member(j, "attached"@),
            str_member(j, "browserContextId"@),
        ) {
            (
                Some(target_id),
                Some(target_type),
                Some(title),
                Some(url),
                Some(attached),
                Some(browser_context_id),
            ) => Some(TargetV { target_id, target_type, title, url, attached, browser_context_id }),
            _ => None,
        }
    }

    fn from_json(j: &Json) -> (r: Option<Target>) {
        match (
            j.str_member("targetId"),
            TargetType::from_member(j, "type"),
            j.str_member("title"),
            j.str_member("url"),
            j.bool_member("attached"),
            j.str_member("browserContextId"),
        ) {
            (
                Some(target_id),
                Some(target_type),
                Some(title),
                Some(url),
                Some(attached),
                Some(browser_context_id),
            ) => Some(Target { target_id, target_type, title, url, attached, browser_context_id }),
            _ => None,
        }
    }

    open spec fn spec_failure(j: JsonV) -> Seq<char> {
        if str_member(j, "targetId"@) is None {
            bad_member("targetId"@)
        } else if target_type_member(j, "type"@) is None {
            bad_member("type"@)
        } else if str_member(j, "title"@) is None {
            bad_member("title"@)
        } else if str_member(j, "url"@) is None {
            bad_member("url"@)
        } else if bool_member(j, "attached"@) is None {
            bad_member("attached"@)
        } else {
            bad_member("browserContextId"@)
        }
    }

    fn failure(j: &Json) -> (r: String) {
        if j.str_member("targetId").is_none() {
            bad_member_text("targetId")
        } else if TargetType::from_member(j, "type").is_none() {
            bad_member_text("type")
        } else if j.str_member("title").is_none() {
            bad_member_text("title")
        } else if j.str_member("url").is_none() {
            bad_member_text("url")
        } else if j.bool_member("attached").is_none() {
            bad_member_text("attached")
        } else {
            bad_member_text("browserContextId")
        }
    }
}

/// A reply from the browser to the request `id`, carrying `result`.
#[derive(Debug)]
pub struct CDPResponse<T: Clone> {
    id: i32,
    session_id: Option<String>,
    result: T,
}

pub struct CDPResponseV<V> {
    pub id: i32,
    pub session_id: Option<Seq<char>>,
    pub result: V,
}

impl<T: Clone + View> View for CDPResponse<T> {
    type V = CDPResponseV<T::V>;

    closed spec fn view(&self) -> CDPResponseV<T::V> {
        CDPResponseV { id: self.id, session_id: opt_text_view(self.session_id), result: self.result@ }
    }
}

impl<T: Clone + View> CDPResponse<T> {
    /// The result carried by the reply.
    pub closed spec fn result(&self) -> T {
        self.result
    }

    pub fn id(&self) -> (r: i32)
        ensures
            r == self@.id,
    {
        self.id
    }

    pub fn body(&self) -> (r: T)
        ensures
            cloned::<T>(self.result(), r),
            self@.result == self.result()@,
    {
        self.result.clone()
    }
}

impl<T: Clone + FromJson> FromJson for CDPResponse<T> {
    /// `{"id": i32, "sessionId": string or absent, "result": T}`
    open spec fn spec_from_json(j: JsonV) -> Option<CDPResponseV<T::V>> {
        match (i32_member(j, "id"@), opt_str_member(j, "sessionId"@), j.get("result"@)) {
            (Some(id), Some(session_id), Some(r)) => match T::spec_from_json(r) {
                Some(result) => Some(CDPResponseV { id, session_id, result }),
                None => None,
            },
            _ => None,
        }
    }

    fn from_json(j: &Json) -> (r: Option<CDPResponse<T>>) {
        let id = j.i32_member("id");
        let session_id = j.opt_str_member("sessionId");
        match (id, session_id, j.get("result")) {
            (Some(id), Some(session_id), Some(r)) => match T::from_json(r) {
                Some(result) => Some(CDPResponse { id, session_id, result }),
                None => None,
            },
            _ => None,
        }
    }

    open spec fn spec_failure(j: JsonV) -> Seq<char> {
        if i32_member(j, "id"@) is None {
            bad_member("id"@)
        } else if opt_str_member(j, "sessionId"@) is None {
            bad_member("sessionId"@)
        } else {
            match j.get("result"@) {
                None => bad_member("result"@),
                Some(r) => in_member("result"@, T::spec_failure(r)),
            }
        }
    }

    fn failure(j: &Json) -> (r: String) {
        if j.i32_member("id").is_none() {
            bad_member_text("id")
        } else if j.opt_str_member("sessionId").is_none() {
            bad_member_text("sessionId")
        } else {
            match j.get("result") {
                None => bad_member_text("result"),
                Some(r) => {
                    let why = T::failure(r);
                    in_member_text("result", why.as_str())
                },
            }
        }
    }
}

/// The result of `Target.createTarget`.
#[derive(Debug)]
pub struct CreateTargetBody {
    pub target_id: String,
}

pub struct CreateTargetBodyV {
    pub target_id: Seq<char>,
}

impl View for CreateTargetBody {
    type V = CreateTargetBodyV;

    open spec fn view(&self) -> CreateTargetBodyV {
        CreateTargetBodyV { target_id: self.target_id@ }
    }
}

impl Clone for CreateTargetBody {
    fn clone(&self) -> (r: Self)
        ensures
            r@ == self@,
    {
        CreateTargetBody { target_id: self.target_id.clone() }
    }
}

impl FromJson for CreateTargetBody {
    /// `{"targetId": string}`
    open spec fn spec_from_json(j: JsonV) -> Option<CreateTargetBodyV> {
        match str_member(j, "targetId"@) {
            Some(target_id) => Some(CreateTargetBodyV { target_id }),
            None => None,
        }
    }

    fn from_json(j: &Json) -> (r: Option<CreateTargetBody>) {
        match j.str_member("targetId") {
            Some(target_id) => Some(CreateTargetBody { target_id }),
            None => None,
        }
    }

    open spec fn spec_failure(j: JsonV) -> Seq<char> {
        bad_member("targetId"@)
    }

    fn failure(j: &Json) -> (r: String) {
        bad_member_text("targetId")
    }
}

/// The result of `Target.getTargets`.
#[derive(Debug)]
pub struct GetTargetBody {
    pub targets: Vec<Target>,
}

pub struct GetTargetBodyV {
    pub targets: Seq<TargetV>,
}

impl View for GetTargetBody {
    type V = GetTargetBodyV;

    open spec fn view(&self) -> GetTargetBodyV {
        GetTargetBodyV { targets: views(self.targets@) }
    }
}

impl Clone for GetTargetBody {
    fn clone(&self) -> (r: Self)
        ensures
            r@ == self@,
    {
        let mut targets: Vec<Target> = Vec::new();
        let n = self.targets.len();
        for i in 0..n
            invariant
                n == self.targets.len(),
                targets.len() == i,
                forall|k: int| 0 <= k < i ==> #[trigger] targets@[k]@ == self.targets@[k]@,
        {
            targets.push(self.targets[i].clone());
        }
        let r = GetTargetBody { targets };
        assert(views(r.targets@) =~= views(self.targets@));
        r
    }
}

impl FromJson for GetTargetBody {
    /// `{"targetInfos": [Target]}`
    open spec fn spec_from_json(j: JsonV) -> Option<GetTargetBodyV> {
        match j.get("targetInfos"@) {
            Some(items) => match spec_array_from_json::<Target>(items) {
                Some(targets) => Some(GetTargetBodyV { targets }),
                None => None,
            },
            None => None,
        }
    }

    fn from_json(j: &Json) -> (r: Option<GetTargetBody>) {
        match j.get("targetInfos") {
            Some(items) => match array_from_json::<Target>(items) {
                Some(targets) => Some(GetTargetBody { targets }),
                None => None,
            },
            None => None,
        }
    }

    open spec fn spec_failure(j: JsonV) -> Seq<char> {
        match j.get("targetInfos"@) {
            None => bad_member("targetInfos"@),
            Some(_) => in_member("targetInfos"@, "not an array of targets"@),
        }
    }

    fn failure(j: &Json) -> (r: String) {
        match j.get("targetInfos") {
            None => bad_member_text("targetInfos"),
            Some(_) => in_member_text("targetInfos", "not an array of targets"),
        }
    }
}

/// The result of `Target.attachToTarget`.
#[derive(Debug)]
pub struct AttachToTargetBody {
    pub session_id: String,
}

pub struct AttachToTargetBodyV {
    pub session_id: Seq<char>,
}

impl View for AttachToTargetBody {
    type V = AttachToTargetBodyV;

    open spec fn view(&self) -> AttachToTargetBodyV {
        AttachToTargetBodyV { session_id: self.session_id@ }
    }
}

impl Clone for AttachToTargetBody {
    fn clone(&self) -> (r: Self)
        ensures
            r@ == self@,
    {
        AttachToTargetBody { session_id: self.session_id.clone() }
    }
}

impl FromJson for AttachToTargetBody {
    /// `{"sessionId": string}`
    open spec fn spec_from_json(j: JsonV) -> Option<AttachToTargetBodyV> {
        match str_member(j, "sessionId"@) {
            Some(session_id) => Some(AttachToTargetBodyV { session_id }),
            None => None,
        }
    }

    fn from_json(j: &Json) -> (r: Option<AttachToTargetBody>) {
        match j.str_member("sessionId") {
            Some(session_id) => Some(AttachToTargetBody { session_id }),
            None => None,
        }
    }

    open spec fn spec_failure(j: JsonV) -> Seq<char> {
        bad_member("sessionId"@)
    }

    fn failure(j: &Json) -> (r: String) {
        bad_member_text("sessionId")
    }
}

/// The result of `DOM.querySelector`: the matched node, `0` for none.
#[derive(Debug, Clone, Copy)]
pub struct QuerySelectorBody {
    pub node_id: i32,
}

impl View for QuerySelectorBody {
    type V = QuerySelectorBody;

    open spec fn view(&self) -> QuerySelectorBody {
        *self
    }
}

impl FromJson for QuerySelectorBody {
    /// `{"nodeId": i32}`
    open spec fn spec_from_json(j: JsonV) -> Option<QuerySelectorBody> {
        match i32_member(j, "nodeId"@) {
            Some(node_id) => Some(QuerySelectorBody { node_id }),
            None => None,
        }
    }

    fn from_json(j: &Json) -> (r: Option<QuerySelectorBody>) {
        match j.i32_member("nodeId") {
            Some(node_id) => Some(QuerySelectorBody { node_id }),
            None => None,
        }
    }

    open spec fn spec_failure(j: JsonV) -> Seq<char> {
        bad_member("nodeId"@)
    }

    fn failure(j: &Json) -> (r: String) {
        bad_member_text("nodeId")
    }
}

/// The result of `Page.navigate`; `error_text` is set when the page could
/// not be loaded.
#[derive(Debug)]
pub struct PageNavigateBody {
    pub frame_id: String,
    pub loader_id: String,
    pub error_text: Option<String>,
}

pub struct PageNavigateBodyV {
    pub frame_id: Seq<char>,
    pub loader_id: Seq<char>,
    pub error_text: Option<Seq<char>>,
}

impl View for PageNavigateBody {
    type V = PageNavigateBodyV;

    open spec fn view(&self) -> PageNavigateBodyV {
        PageNavigateBodyV {
            frame_id: self.frame_id@,
            loader_id: self.loader_id@,
            error_text: opt_text_view(self.error_text),
        }
    }
}

impl Clone for PageNavigateBody {
    fn clone(&self) -> (r: Self)
        ensures
            r@ == self@,
    {
        PageNavigateBody {
            frame_id: self.frame_id.clone(),
            loader_id: self.loader_id.clone(),
            error_text: copy_opt_text(&self.error_text),
        }
    }
}

impl FromJson for PageNavigateBody {
    /// `{"frameId": string, "loaderId": string, "errorText": string or absent}`
    open spec fn spec_from_json(j: JsonV) -> Option<PageNavigateBodyV> {
        match (str_member(j, "frameId"@), str_member(j, "loaderId"@), opt_str_member(j, "errorText"@)) {
            (Some(frame_id), Some(loader_id), Some(error_text)) => Some(
                PageNavigateBodyV { frame_id, loader_id, error_text },
            ),
            _ => None,
        }
    }

    fn from_json(j: &Json) -> (r: Option<PageNavigateBody>) {
        match (j.str_member("frameId"), j.str_member("loaderId"), j.opt_str_member("errorText")) {
            (Some(frame_id), Some(loader_id), Some(error_text)) => Some(
                PageNavigateBody { frame_id, loader_id, error_text },
            ),
            _ => None,
        }
    }

    open spec fn spec_failure(j: JsonV) -> Seq<char> {
        if str_member(j, "frameId"@) is None {
            bad_member("frameId"@)
        } else if str_member(j, "loaderId"@) is None {
            bad_member("loaderId"@)
        } else {
            bad_member("errorText"@)
        }
    }

    fn failure(j: &Json) -> (r: String) {
        if j.str_member("frameId").is_none() {
            bad_member_text("frameId")
        } else if j.str_member("loaderId").is_none() {
            bad_member_text("loaderId")
        } else {
            bad_member_text("errorText")
        }
    }
}

/// A target as listed by the browser's HTTP endpoint (`/json/new`).
#[derive(Debug)]
pub struct WebSocketTarget {
    pub id: String,
    pub url: String,
    pub title: String,
    pub description: String,
    pub devtools_frontend_url: String,
    pub target_type: TargetType,
    /// The web socket url of the target
    pub endpoint: String,
}

pub struct WebSocketTargetV {
    pub id: Seq<char>,
    pub url: Seq<char>,
    pub title: Seq<char>,
    pub description: Seq<char>,
    pub devtools_frontend_url: Seq<char>,
    pub target_type: TargetType,
    pub endpoint: Seq<char>,
}

impl View for WebSocketTarget {
    type V = WebSocketTargetV;

    open spec fn view(&self) -> WebSocketTargetV {
        WebSocketTargetV {
            id: self.id@,
            url: self.url@,
            title: self.title@,
            description: self.description@,
            devtools_frontend_url: self.devtools_frontend_url@,
            target_type: self.target_type,
            endpoint: self.endpoint@,
        }
    }
}

impl FromJson for WebSocketTarget {
    /// `{"id", "url", "title", "description", "devtoolsFrontendUrl", "type",
    /// "webSocketDebuggerUrl"}`
    open spec fn spec_from_json(j: JsonV) -> Option<WebSocketTargetV> {
        match (
            str_member(j, "id"@),
            str_member(j, "url"@),
            str_member(j, "title"@),
            str_member(j, "description"@),
            str_member(j, "devtoolsFrontendUrl"@),
            target_type_member(j, "type"@),
            str_member(j, "webSocketDebuggerUrl"@),
        ) {
            (
                Some(id),
                Some(url),
                Some(title),
                Some(description),
                Some(devtools_frontend_url),
                Some(target_type),
                Some(endpoint),
            ) => Some(
                WebSocketTargetV {
                    id,
                    url,
                    title,
                    description,
                    devtools_frontend_url,
                    target_type,
                    endpoint,
                },
            ),
            _ => None,
        }
    }

    fn from_json(j: &Json) -> (r: Option<WebSocketTarget>) {
        match (
            j.str_member("id"),
            j.str_member("url"),
            j.str_member("title"),
            j.str_member("description"),
            j.str_member("devtoolsFrontendUrl"),
            TargetType::from_member(j, "type"),
            j.str_member("webSocketDebuggerUrl"),
        ) {
            (
                Some(id),
                Some(url),
                Some(title),
                Some(description),
                Some(devtools_frontend_url),
                Some(target_type),
                Some(endpoint),
            ) => Some(
                WebSocketTarget {
                    id,
                    url,
                    title,
                    description,
                    devtools_frontend_url,
                    target_type,
                    endpoint,
                },
            ),
            _ => None,
        }
    }

    open spec fn spec_failure(j: JsonV) -> Seq<char> {
        if str_member(j, "id"@) is None {
            bad_member("id"@)
        } else if str_member(j, "url"@) is None {
            bad_member("url"@)
        } else if str_member(j, "title"@) is None {
            bad_member("title"@)
        } else if str_member(j, "description"@) is None {
            bad_member("description"@)
        } else if str_member(j, "devtoolsFrontendUrl"@) is None {
            bad_member("devtoolsFrontendUrl"@)
        } else if target_type_member(j, "type"@) is None {
            bad_member("type"@)
        } else {
            bad_member("webSocketDebuggerUrl"@)
        }
    }

    fn failure(j: &Json) -> (r: String) {
        if j.str_member("id").is_none() {
            bad_member_text("id")
        } else if j.str_member("url").is_none() {
            bad_member_text("url")
        } else if j.str_member("title").is_none() {
            bad_member_text("title")
        } else if j.str_member("description").is_none() {
            bad_member_text("description")
        } else if j.str_member("devtoolsFrontendUrl").is_none() {
            bad_member_text("devtoolsFrontendUrl")
        } else if TargetType::from_member(j, "type").is_none() {
            bad_member_text("type")
        } else {
            bad_member_text("webSocketDebuggerUrl")
        }
    }
}

pub type GetTargetResponse = CDPResponse<GetTargetBody>;

pub type CreateTargetResponse = CDPResponse<CreateTargetBody>;

pub type AttachToTargetResponse = CDPResponse<AttachToTargetBody>;

pub type PageNavigateResponse = CDPResponse<PageNavigateBody>;

/// The result of `DOM.getDocument`.
#[derive(Debug)]
pub struct GetDocumentBody {
    pub root: DomNode,
}

pub struct GetDocumentBodyV {
    pub root: DomNodeV,
}

impl View for GetDocumentBody {
    type V = GetDocumentBodyV;

    open spec fn view(&self) -> GetDocumentBodyV {
        GetDocumentBodyV { root: self.root@ }
    }
}

impl Clone for GetDocumentBody {
    fn clone(&self) -> (r: Self)
        ensures
            r@ == self@,
    {
        GetDocumentBody { root: self.root.copy() }
    }
}

impl FromJson for GetDocumentBody {
    /// `{"root": DomNode}`
    open spec fn spec_from_json(j: JsonV) -> Option<GetDocumentBodyV> {
        match j.get("root"@) {
            Some(r) => match dom_node_from_json(r) {
                Some(root) => Some(GetDocumentBodyV { root }),
                None => None,
            },
            None => None,
        }
    }

    fn from_json(j: &Json) -> (r: Option<GetDocumentBody>) {
        match j.get("root") {
            Some(r) => match DomNode::read(r) {
                Some(root) => Some(GetDocumentBody { root }),
                None => None,
            },
            None => None,
        }
    }

    open spec fn spec_failure(j: JsonV) -> Seq<char> {
        match j.get("root"@) {
            None => bad_member("root"@),
            Some(v) => in_member("root"@, DomNode::spec_failure(v)),
        }
    }

    fn failure(j: &Json) -> (r: String) {
        match j.get("root") {
            None => bad_member_text("root"),
            Some(v) => {
                let why = DomNode::failure(v);
                in_member_text("root", why.as_str())
            },
        }
    }
}

/// The result of `DOM.resolveNode`.
#[derive(Debug)]
pub struct ResolveNodeBody {
    pub object: RemoteObject,
}

pub struct ResolveNodeBodyV {
    pub object: RemoteObjectV,
}

impl View for ResolveNodeBody {
    type V = ResolveNodeBodyV;

    open spec fn view(&self) -> ResolveNodeBodyV {
        ResolveNodeBodyV { object: self.object@ }
    }
}

impl Clone for ResolveNodeBody {
    fn clone(&self) -> (r: Self)
        ensures
            r@ == self@,
    {
        ResolveNodeBody { object: self.object.clone() }
    }
}

impl FromJson for ResolveNodeBody {
    /// `{"object": RemoteObject}`
    open spec fn spec_from_json(j: JsonV) -> Option<ResolveNodeBodyV> {
        match j.get("object"@) {
            Some(o) => match RemoteObject::spec_from_json(o) {
                Some(object) => Some(ResolveNodeBodyV { object }),
                None => None,
            },
            None => None,
        }
    }

    fn from_json(j: &Json) -> (r: Option<ResolveNodeBody>) {
        match j.get("object") {
            Some(o) => match RemoteObject::from_json(o) {
                Some(object) => Some(ResolveNodeBody { object }),
                None => None,
            },
            None => None,
        }
    }

    open spec fn spec_failure(j: JsonV) -> Seq<char> {
        match j.get("object"@) {
            None => bad_member("object"@),
            Some(v) => in_member("object"@, RemoteObject::spec_failure(v)),
        }
    }

    fn failure(j: &Json) -> (r: String) {
        match j.get("object") {
            None => bad_member_text("object"),
            Some(v) => {
                let why = RemoteObject::failure(v);
                in_member_text("object", why.as_str())
            },
        }
    }
}

pub type GetDocumentResponse = CDPResponse<GetDocumentBody>;

pub type ResolveNodeResponse = CDPResponse<ResolveNodeBody>;


/// Each command is written under its protocol name.
pub proof fn lemma_method_name_table(m: CDPMethodV)
    ensures
        match m {
            CDPMethodV::GetTargets => method_name(m) == "Target.getTargets"@,
            CDPMethodV::CreateTarget { .. } => method_name(m) == "Target.createTarget"@,
            CDPMethodV::AttachToTarget { .. } => method_name(m) == "Target.attachToTarget"@,
            CDPMethodV::CloseTarget { .. } => method_name(m) == "Target.closeTarget"@,
            CDPMethodV::Screenshot { .. } => method_name(m) == "Page.captureScreenshot"@,
            CDPMethodV::Navigate { .. } => method_name(m) == "Page.navigate"@,
            CDPMethodV::GetDocument { .. } => method_name(m) == "DOM.getDocument"@,
            CDPMethodV::Evaluate { .. } => method_name(m) == "Runtime.evaluate"@,
            CDPMethodV::ResolveNode { .. } => method_name(m) == "DOM.resolveNode"@,
            CDPMethodV::QuerySelector { .. } => method_name(m) == "DOM.querySelector"@,
            CDPMethodV::GetBoxModel { .. } => method_name(m) == "DOM.getBoxModel"@,
        },
{
}

/// Each command's parameters are written under the protocol's camelCase
/// names, in this order, and a command without parameters has none.
pub proof fn lemma_method_params_table(m: CDPMethodV)
    ensures
        match m {
            CDPMethodV::GetTargets => method_params(m) is None,
            CDPMethodV::CreateTarget { url } => method_params(m) == Some(
                JsonV::Object(seq!["url"@], seq![JsonV::Str(url)]),
            ),
            CDPMethodV::AttachToTarget { target_id, flatten } => method_params(m) == Some(
                JsonV::Object(
                    seq!["targetId"@, "flatten"@],
                    seq![JsonV::Str(target_id), JsonV::Bool(flatten)],
                ),
            ),
            CDPMethodV::CloseTarget { target_id } => method_params(m) == Some(
                JsonV::Object(seq!["targetId"@], seq![JsonV::Str(target_id)]),
            ),
            CDPMethodV::Screenshot { format } => method_params(m) == Some(
                JsonV::Object(seq!["format"@], seq![JsonV::Str(format_name(format))]),
            ),
            CDPMethodV::Navigate { url } => method_params(m) == Some(
                JsonV::Object(seq!["url"@], seq![JsonV::Str(url)]),
            ),
            CDPMethodV::GetDocument { depth } => method_params(m) == Some(
                JsonV::Object(seq!["depth"@], seq![JsonV::Int(depth as int)]),
            ),
            CDPMethodV::Evaluate { expression, await_promise } => method_params(m) == Some(
                JsonV::Object(
                    seq!["expression"@, "awaitPromise"@],
                    seq![JsonV::Str(expression), JsonV::Bool(await_promise)],
                ),
            ),
            CDPMethodV::ResolveNode { node_id } => method_params(m) == Some(
                JsonV::Object(seq!["nodeId"@], seq![JsonV::Int(node_id as int)]),
            ),
            CDPMethodV::QuerySelector { node_id, selector } => method_params(m) == Some(
                JsonV::Object(
                    seq!["nodeId"@, "selector"@],
                    seq![JsonV::Int(node_id as int), JsonV::Str(selector)],
                ),
            ),
            CDPMethodV::GetBoxModel { node_id } => method_params(m) == Some(
                JsonV::Object(seq!["nodeId"@], seq![JsonV::Int(node_id as int)]),
            ),
        },
{
}

/// Screenshot formats are written in lower case, and read back from it.
pub proof fn lemma_format_name_table()
    ensures
        format_name(ScreenshotFormat::Jpeg) == "jpeg"@,
        format_name(ScreenshotFormat::Webp) == "webp"@,
        format_name(ScreenshotFormat::Png) == "png"@,
        format_from_name("jpeg"@) == Some(ScreenshotFormat::Jpeg),
        format_from_name("webp"@) == Some(ScreenshotFormat::Webp),
        format_from_name("png"@) == Some(ScreenshotFormat::Png),
{
    lemma_member_keys_distinct();
}

/// The JSON of a message: `id` holds its id, `sessionId` its session (absent
/// for the browser's own session), `method` the protocol name of its command
/// and `params` the command's parameters (absent when it has none), in this
/// order and with no other member.
pub proof fn lemma_message_members(m: CDPMessageV)
    ensures
        message_json(m).get("id"@) == Some(JsonV::Int(m.id as int)),
        message_json(m).get("sessionId"@) == (match m.session_id {
            Some(s) => Some(JsonV::Str(s)),
            None => None,
        }),
        message_json(m).get("method"@) == Some(JsonV::Str(method_name(m.method))),
        message_json(m).get("params"@) == method_params(m.method),
        message_json(m)->Object_0 == seq!["id"@] + (if m.session_id is Some {
            seq!["sessionId"@]
        } else {
            Seq::empty()
        }) + seq!["method"@] + (if method_params(m.method) is Some {
            seq!["params"@]
        } else {
            Seq::empty()
        }),
{
    lemma_member_keys_distinct();
    reveal_with_fuel(crate::json::lookup, 5);
}

/// Target types are read from their snake_case names.
pub proof fn lemma_target_type_table()
    ensures
        target_type_from_name("tab"@) == Some(TargetType::Tab),
        target_type_from_name("page"@) == Some(TargetType::Page),
        target_type_from_name("iframe"@) == Some(TargetType::Iframe),
        target_type_from_name("worker"@) == Some(TargetType::Worker),
        target_type_from_name("service_worker"@) == Some(TargetType::ServiceWorker),
        target_type_from_name("browser"@) == Some(TargetType::Browser),
        target_type_from_name("web_view"@) == Some(TargetType::WebView),
{
    reveal_strlit("tab");
    reveal_strlit("page");
    reveal_strlit("iframe");
    reveal_strlit("worker");
    reveal_strlit("service_worker");
    reveal_strlit("browser");
    reveal_strlit("web_view");
    assert("tab"@.len() == 3);
    assert("page"@.len() == 4);
    assert("iframe"@.len() == 6);
    assert("worker"@.len() == 6);
    assert("service_worker"@.len() == 14);
    assert("browser"@.len() == 7);
    assert("web_view"@.len() == 8);
    assert("iframe"@[0] == 'i');
    assert("worker"@[0] == 'w');
}

/// A target is read from `targetId`, `type`, `title`, `url`, `attached` and `browserContextId`, each into its own field, and reads exactly when they all do.
pub proof fn lemma_target_members(j: JsonV)
    ensures
        Target::spec_from_json(j) is Some <==> (str_member(j, "targetId"@) is Some && target_type_member(j, "type"@) is Some && str_member(j, "title"@) is Some && str_member(j, "url"@) is Some && bool_member(j, "attached"@) is Some && str_member(j, "browserContextId"@) is Some),
        Target::spec_from_json(j) matches Some(v) ==> {
            &&& str_member(j, "targetId"@) == Some(v.target_id)
            &&& target_type_member(j, "type"@) == Some(v.target_type)
            &&& str_member(j, "title"@) == Some(v.title)
            &&& str_member(j, "url"@) == Some(v.url)
            &&& bool_member(j, "attached"@) == Some(v.attached)
            &&& str_member(j, "browserContextId"@) == Some(v.browser_context_id)
        },
{
}

/// The result of `Target.createTarget` is read from `targetId`.
pub proof fn lemma_create_target_members(j: JsonV)
    ensures
        CreateTargetBody::spec_from_json(j) is Some <==> (str_member(j, "targetId"@) is Some),
        CreateTargetBody::spec_from_json(j) matches Some(v) ==> {
            &&& str_member(j, "targetId"@) == Some(v.target_id)
        },
{
}

/// The result of `Target.attachToTarget` is read from `sessionId`.
pub proof fn lemma_attach_members(j: JsonV)
    ensures
        AttachToTargetBody::spec_from_json(j) is Some <==> (str_member(j, "sessionId"@) is Some),
        AttachToTargetBody::spec_from_json(j) matches Some(v) ==> {
            &&& str_member(j, "sessionId"@) == Some(v.session_id)
        },
{
}

/// The result of `DOM.querySelector` is read from `nodeId`.
pub proof fn lemma_query_selector_members(j: JsonV)
    ensures
        QuerySelectorBody::spec_from_json(j) is Some <==> (i32_member(j, "nodeId"@) is Some),
        QuerySelectorBody::spec_from_json(j) matches Some(v) ==> {
            &&& i32_member(j, "nodeId"@) == Some(v.node_id)
        },
{
}

/// The result of `Page.navigate` is read from `frameId`, `loaderId` and `errorText`, each into its own field.
pub proof fn lemma_navigate_members(j: JsonV)
    ensures
        PageNavigateBody::spec_from_json(j) is Some <==> (str_member(j, "frameId"@) is Some && str_member(j, "loaderId"@) is Some && opt_str_member(j, "errorText"@) is Some),
        PageNavigateBody::spec_from_json(j) matches Some(v) ==> {
            &&& str_member(j, "frameId"@) == Some(v.frame_id)
            &&& str_member(j, "loaderId"@) == Some(v.loader_id)
            &&& opt_str_member(j, "errorText"@) == Some(v.error_text)
        },
{
}

/// A target listed over HTTP is read from its members, each into its own field; its web socket comes from `webSocketDebuggerUrl`.
pub proof fn lemma_web_socket_target_members(j: JsonV)
    ensures
        WebSocketTarget::spec_from_json(j) is Some <==> (str_member(j, "id"@) is Some && str_member(j, "url"@) is Some && str_member(j, "title"@) is Some && str_member(j, "description"@) is Some && str_member(j, "devtoolsFrontendUrl"@) is Some && target_type_member(j, "type"@) is Some && str_member(j, "webSocketDebuggerUrl"@) is Some),
        WebSocketTarget::spec_from_json(j) matches Some(v) ==> {
            &&& str_member(j, "id"@) == Some(v.id)
            &&& str_member(j, "url"@) == Some(v.url)
            &&& str_member(j, "title"@) == Some(v.title)
            &&& str_member(j, "description"@) == Some(v.description)
            &&& str_member(j, "devtoolsFrontendUrl"@) == Some(v.devtools_frontend_url)
            &&& target_type_member(j, "type"@) == Some(v.target_type)
            &&& str_member(j, "webSocketDebuggerUrl"@) == Some(v.endpoint)
        },
{
}

/// A reply is read from `id`, `sessionId` and `result`, and reads exactly
/// when they do and its result reads as a `T`.
pub proof fn lemma_response_members<T: Clone + FromJson>(j: JsonV)
    ensures
        CDPResponse::<T>::spec_from_json(j) is Some <==> (i32_member(j, "id"@) is Some
            && opt_str_member(j, "sessionId"@) is Some && match j.get("result"@) {
            Some(r) => T::spec_from_json(r) is Some,
            None => false,
        }),
        CDPResponse::<T>::spec_from_json(j) matches Some(v) ==> {
            &&& i32_member(j, "id"@) == Some(v.id)
            &&& opt_str_member(j, "sessionId"@) == Some(v.session_id)
            &&& j.get("result"@) matches Some(r) && T::spec_from_json(r) == Some(v.result)
        },
{
}

/// The result of `Target.getTargets` is the array `targetInfos`, each item
/// read as a target, in order.
pub proof fn lemma_get_targets_members(j: JsonV)
    ensures
        GetTargetBody::spec_from_json(j) matches Some(v) ==> j.get("targetInfos"@) matches Some(
            JsonV::Array(items),
        ) && v.targets.len() == items.len() && forall|i: int|
            0 <= i < items.len() ==> Target::spec_from_json(#[trigger] items[i]) == Some(v.targets[i]),
        (j.get("targetInfos"@) matches Some(JsonV::Array(items)) && forall|i: int|
            0 <= i < items.len() ==> (#[trigger] Target::spec_from_json(items[i])) is Some)
            ==> GetTargetBody::spec_from_json(j) is Some,
{
}

/// The result of `DOM.getDocument` is the node `root`.
pub proof fn lemma_get_document_members(j: JsonV)
    ensures
        GetDocumentBody::spec_from_json(j) matches Some(v) ==> j.get("root"@) matches Some(r)
            && dom_node_from_json(r) == Some(v.root),
        (j.get("root"@) matches Some(r) && dom_node_from_json(r) is Some)
            ==> GetDocumentBody::spec_from_json(j) is Some,
{
}

/// The result of `DOM.resolveNode` is the remote object `object`.
pub proof fn lemma_resolve_node_members(j: JsonV)
    ensures
        ResolveNodeBody::spec_from_json(j) matches Some(v) ==> j.get("object"@) matches Some(o)
            && RemoteObject::spec_from_json(o) == Some(v.object),
        (j.get("object"@) matches Some(o) && RemoteObject::spec_from_json(o) is Some)
            ==> ResolveNodeBody::spec_from_json(j) is Some,
{
}

} // verus!
