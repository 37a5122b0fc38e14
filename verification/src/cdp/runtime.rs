//! Evaluating JavaScript in the page.
use super::CDPResponse;
use crate::error::Error;
use crate::json::{
    bad_member, bad_member_text, copy_opt_text, i32_member, in_member, in_member_text, opt_member, opt_str_member, opt_text_view, str_member, FromJson,
    Json, JsonV,
};
use vstd::prelude::*;

verus! {

pub type EvaluateResponse = CDPResponse<EvaluateBody>;

/// The JavaScript type of a remote object.
#[derive(Debug, Clone, Copy, PartialEq, Eq, PartialOrd, Ord, Structural)]
pub enum RemoteObjectType {
    Object,
    Function,
    Undefined,
    String,
    Number,
    Boolean,
    Symbol,
    Bigint,
}

/// The type written as `name`, if any.
pub open spec fn remote_object_type_from_name(name: Seq<char>) -> Option<RemoteObjectType> {
    if name == "object"@ {
        Some(RemoteObjectType::Object)
    } else if name == "function"@ {
        Some(RemoteObjectType::Function)
    } else if name == "undefined"@ {
        Some(RemoteObjectType::Undefined)
    } else if name == "string"@ {
        Some(RemoteObjectType::String)
    } else if name == "number"@ {
        Some(RemoteObjectType::Number)
    } else if name == "boolean"@ {
        Some(RemoteObjectType::Boolean)
    } else if name == "symbol"@ {
        Some(RemoteObjectType::Symbol)
    } else if name == "bigint"@ {
        Some(RemoteObjectType::Bigint)
    } else {
        None
    }
}

impl RemoteObjectType {
    pub fn from_name(name: &str) -> (r: Option<RemoteObjectType>)
        ensures
            r == remote_object_type_from_name(name@),
    {
        if crate::json::same_text(name, "object") {
            Some(RemoteObjectType::Object)
        } else if crate::json::same_text(name, "function") {
            Some(RemoteObjectType::Function)
        } else if crate::json::same_text(name, "undefined") {
            Some(RemoteObjectType::Undefined)
        } else if crate::json::same_text(name, "string") {
            Some(RemoteObjectType::String)
        } else if crate::json::same_text(name, "number") {
            Some(RemoteObjectType::Number)
        } else if crate::json::same_text(name, "boolean") {
            Some(RemoteObjectType::Boolean)
        } else if crate::json::same_text(name, "symbol") {
            Some(RemoteObjectType::Symbol)
        } else if crate::json::same_text(name, "bigint") {
            Some(RemoteObjectType::Bigint)
        } else {
            None
        }
    }
}

/// Mirror object referencing the original javascript object
///
/// Corresponds to [`Runtime.RemoteObject`](https://vanilla.aslushnikov.com/?Runtime.RemoteObject)
#[derive(Debug)]
pub struct RemoteObject {
    pub object_type: RemoteObjectType,
    /// String representation of the object
    pub description: Option<String>,
    /// The object class name (for object types only)
    pub class_name: Option<String>,
    /// The value of a primitive object
    pub value: Option<Json>,
    /// The id of the object, for objects that are not primitives
    pub object_id: Option<String>,
}

pub struct RemoteObjectV {
    pub object_type: RemoteObjectType,
    pub description: Option<Seq<char>>,
    pub class_name: Option<Seq<char>>,
    pub value: Option<JsonV>,
    pub object_id: Option<Seq<char>>,
}

pub open spec fn opt_json_view(v: Option<Json>) -> Option<JsonV> {
    match v {
        Some(j) => Some(j@),
        None => None,
    }
}

impl View for RemoteObject {
    type V = RemoteObjectV;

    open spec fn view(&self) -> RemoteObjectV {
        RemoteObjectV {
            object_type: self.object_type,
            description: opt_text_view(self.description),
            class_name: opt_text_view(self.class_name),
            value: opt_json_view(self.value),
            object_id: opt_text_view(self.object_id),
        }
    }
}

pub fn copy_opt_json(v: &Option<Json>) -> (r: Option<Json>)
    ensures
        opt_json_view(r) == opt_json_view(*v),
{
    match v {
        Some(j) => Some(j.deep_copy()),
        None => None,
    }
}

impl Clone for RemoteObject {
    fn clone(&self) -> (r: Self)
        ensures
            r@ == self@,
    {
        RemoteObject {
            object_type: self.object_type,
            description: copy_opt_text(&self.description),
            class_name: copy_opt_text(&self.class_name),
            value: copy_opt_json(&self.value),
            object_id: copy_opt_text(&self.object_id),
        }
    }
}

impl FromJson for RemoteObject {
    /// `{"type": string, "description", "className", "objectId": string or
    /// absent, "value": any or absent}`; a `null` value is no value.
    open spec fn spec_from_json(j: JsonV) -> Option<RemoteObjectV> {
        match (
            str_member(j, "type"@),
            opt_str_member(j, "description"@),
            opt_str_member(j, "className"@),
            opt_str_member(j, "objectId"@),
        ) {
            (Some(t), Some(description), Some(class_name), Some(object_id)) => match remote_object_type_from_name(t) {
                Some(object_type) => Some(
                    RemoteObjectV {
                        object_type,
                        description,
                        class_name,
                        value: opt_member(j, "value"@),
                        object_id,
                    },
                ),
                None => None,
            },
            _ => None,
        }
    }

    fn from_json(j: &Json) -> (r: Option<RemoteObject>) {
        match (
            j.str_member("type"),
            j.opt_str_member("description"),
            j.opt_str_member("className"),
            j.opt_str_member("objectId"),
        ) {
            (Some(t), Some(description), Some(class_name), Some(object_id)) => match RemoteObjectType::from_name(t.as_str()) {
                Some(object_type) => {
                    let value = match j.get("value") {
                        None => None,
                        Some(Json::Null) => None,
                        Some(v) => Some(v.deep_copy()),
                    };
                    Some(RemoteObject { object_type, description, class_name, value, object_id })
                },
                None => None,
            },
            _ => None,
        }
    }

    open spec fn spec_failure(j: JsonV) -> Seq<char> {
        let type_ok = match str_member(j, "type"@) {
            Some(t) => remote_object_type_from_name(t) is Some,
            None => false,
        };
        if !type_ok {
            bad_member("type"@)
        } else if opt_str_member(j, "description"@) is None {
            bad_member("description"@)
        } else if opt_str_member(j, "className"@) is None {
            bad_member("className"@)
        } else {
            bad_member("objectId"@)
        }
    }

    fn failure(j: &Json) -> (r: String) {
        let type_ok = match j.str_member("type") {
            Some(t) => RemoteObjectType::from_name(t.as_str()).is_some(),
            None => false,
        };
        if !type_ok {
            bad_member_text("type")
        } else if j.opt_str_member("description").is_none() {
            bad_member_text("description")
        } else if j.opt_str_member("className").is_none() {
            bad_member_text("className")
        } else {
            bad_member_text("objectId")
        }
    }
}

/// Where and how an evaluation threw.
#[derive(Debug, PartialEq, Eq)]
pub struct ExceptionDetails {
    pub column_number: i32,
    pub line_number: i32,
    pub exception_id: i32,
    pub text: String,
    pub script_id: Option<String>,
}

pub struct ExceptionDetailsV {
    pub column_number: i32,
    pub line_number: i32,
    pub exception_id: i32,
    pub text: Seq<char>,
    pub script_id: Option<Seq<char>>,
}

impl View for ExceptionDetails {
    type V = ExceptionDetailsV;

    open spec fn view(&self) -> ExceptionDetailsV {
        ExceptionDetailsV {
            column_number: self.column_number,
            line_number: self.line_number,
            exception_id: self.exception_id,
            text: self.text@,
            script_id: opt_text_view(self.script_id),
        }
    }
}

impl Clone for ExceptionDetails {
    fn clone(&self) -> (r: Self)
        ensures
            r@ == self@,
    {
        ExceptionDetails {
            column_number: self.column_number,
            line_number: self.line_number,
            exception_id: self.exception_id,
            text: self.text.clone(),
            script_id: copy_opt_text(&self.script_id),
        }
    }
}

impl FromJson for ExceptionDetails {
    /// `{"columnNumber", "lineNumber", "exceptionId": i32, "text": string,
    /// "scriptId": string or absent}`
    open spec fn spec_from_json(j: JsonV) -> Option<ExceptionDetailsV> {
        match (
            i32_member(j, "columnNumber"@),
            i32_member(j, "lineNumber"@),
            i32_member(j, "exceptionId"@),
            str_member(j, "text"@),
            opt_str_member(j, "scriptId"@),
        ) {
            (Some(column_number), Some(line_number), Some(exception_id), Some(text), Some(script_id)) => Some(
                ExceptionDetailsV { column_number, line_number, exception_id, text, script_id },
            ),
            _ => None,
        }
    }

    fn from_json(j: &Json) -> (r: Option<ExceptionDetails>) {
        match (
            j.i32_member("columnNumber"),
            j.i32_member("lineNumber"),
            j.i32_member("exceptionId"),
            j.str_member("text"),
            j.opt_str_member("scriptId"),
        ) {
            (Some(column_number), Some(line_number), Some(exception_id), Some(text), Some(script_id)) => Some(
                ExceptionDetails { column_number, line_number, exception_id, text, script_id },
            ),
            _ => None,
        }
    }

    open spec fn spec_failure(j: JsonV) -> Seq<char> {
        if i32_member(j, "columnNumber"@) is None {
            bad_member("columnNumber"@)
        } else if i32_member(j, "lineNumber"@) is None {
            bad_member("lineNumber"@)
        } else if i32_member(j, "exceptionId"@) is None {
            bad_member("exceptionId"@)
        } else if str_member(j, "text"@) is None {
            bad_member("text"@)
        } else {
            bad_member("scriptId"@)
        }
    }

    fn failure(j: &Json) -> (r: String) {
        if j.i32_member("columnNumber").is_none() {
            bad_member_text("columnNumber")
        } else if j.i32_member("lineNumber").is_none() {
            bad_member_text("lineNumber")
        } else if j.i32_member("exceptionId").is_none() {
            bad_member_text("exceptionId")
        } else if j.str_member("text").is_none() {
            bad_member_text("text")
        } else {
            bad_member_text("scriptId")
        }
    }
}

/// The result of `Runtime.evaluate`: the value, and the exception if the
/// evaluation threw.
#[derive(Debug)]
pub struct EvaluateBody {
    pub result: RemoteObject,
    pub exception_details: Option<ExceptionDetails>,
}

pub struct EvaluateBodyV {
    pub result: RemoteObjectV,
    pub exception_details: Option<ExceptionDetailsV>,
}

impl View for EvaluateBody {
    type V = EvaluateBodyV;

    open spec fn view(&self) -> EvaluateBodyV {
        EvaluateBodyV {
            result: self.result@,
            exception_details: match self.exception_details {
                Some(d) => Some(d@),
                None => None,
            },
        }
    }
}

impl Clone for EvaluateBody {
    fn clone(&self) -> (r: Self)
        ensures
            r@ == self@,
    {
        EvaluateBody {
            result: self.result.clone(),
            exception_details: match &self.exception_details {
                Some(d) => Some(d.clone()),
                None => None,
            },
        }
    }
}

impl FromJson for EvaluateBody {
    /// `{"result": RemoteObject, "exceptionDetails": ExceptionDetails or
    /// absent}`
    open spec fn spec_from_json(j: JsonV) -> Option<EvaluateBodyV> {
        match j.get("result"@) {
            Some(r) => match RemoteObject::spec_from_json(r) {
                Some(result) => match opt_member(j, "exceptionDetails"@) {
                    None => Some(EvaluateBodyV { result, exception_details: None }),
                    Some(d) => match ExceptionDetails::spec_from_json(d) {
                        Some(d) => Some(EvaluateBodyV { result, exception_details: Some(d) }),
                        None => None,
                    },
                },
                None => None,
            },
            None => None,
        }
    }

    fn from_json(j: &Json) -> (r: Option<EvaluateBody>) {
        let result = match j.get("result") {
            Some(r) => match RemoteObject::from_json(r) {
                Some(result) => result,
                None => {
                    return None;
                },
            },
            None => {
                return None;
            },
        };
        match j.get("exceptionDetails") {
            None => Some(EvaluateBody { result, exception_details: None }),
            Some(Json::Null) => Some(EvaluateBody { result, exception_details: None }),
            Some(d) => match ExceptionDetails::from_json(d) {
                Some(d) => Some(EvaluateBody { result, exception_details: Some(d) }),
                None => None,
            },
        }
    }

    open spec fn spec_failure(j: JsonV) -> Seq<char> {
        match j.get("result"@) {
            None => bad_member("result"@),
            Some(r) => if RemoteObject::spec_from_json(r) is None {
                in_member("result"@, RemoteObject::spec_failure(r))
            } else {
                match opt_member(j, "exceptionDetails"@) {
                    Some(d) => in_member("exceptionDetails"@, ExceptionDetails::spec_failure(d)),
                    None => Seq::empty(),
                }
            },
        }
    }

    fn failure(j: &Json) -> (r: String) {
        match j.get("result") {
            None => bad_member_text("result"),
            Some(r) => if RemoteObject::from_json(r).is_none() {
                let why = RemoteObject::failure(r);
                in_member_text("result", why.as_str())
            } else {
                match j.get("exceptionDetails") {
                    None => String::new(),
                    Some(Json::Null) => String::new(),
                    Some(d) => {
                        let why = ExceptionDetails::failure(d);
                        in_member_text("exceptionDetails", why.as_str())
                    },
                }
            },
        }
    }
}

/// The text of an optional string, empty when there is none.
pub open spec fn text_or_empty(s: Option<Seq<char>>) -> Seq<char> {
    match s {
        Some(t) => t,
        None => Seq::empty(),
    }
}

/// Whether `e` is the runtime error that reports the exception of the
/// evaluation `body`.
pub open spec fn is_runtime_error_for(e: Error, body: EvaluateBodyV) -> bool {
    match (e, body.exception_details) {
        (Error::RuntimeError { line_number, column_number, value, description }, Some(d)) => {
            &&& line_number == d.line_number
            &&& column_number == d.column_number
            &&& opt_json_view(value) == body.result.value
            &&& description@ == text_or_empty(body.result.description)
        },
        _ => false,
    }
}

/// Turns a reply to `Runtime.evaluate` into the outcome of the evaluation:
/// the reply itself when the expression did not throw, and otherwise a
/// [`Error::RuntimeError`] with the position of the exception, the thrown
/// value and its description.
pub fn check_evaluation(response: EvaluateResponse) -> (r: Result<EvaluateResponse, Error>)
    ensures
        match response@.result.exception_details {
            None => r matches Ok(x) && x@ == response@,
            Some(_) => r matches Err(e) && is_runtime_error_for(e, response@.result),
        },
{
    match &response.result.exception_details {
        Some(details) => {
            let line_number = details.line_number;
            let column_number = details.column_number;
            let value = copy_opt_json(&response.result.result.value);
            let description = match &response.result.result.description {
                Some(d) => d.clone(),
                None => String::new(),
            };
            Err(Error::RuntimeError { line_number, column_number, value, description })
        },
        None => Ok(response),
    }
}


/// Remote object types are read from their lower-case names.
pub proof fn lemma_remote_object_type_table()
    ensures
        remote_object_type_from_name("object"@) == Some(RemoteObjectType::Object),
        remote_object_type_from_name("function"@) == Some(RemoteObjectType::Function),
        remote_object_type_from_name("undefined"@) == Some(RemoteObjectType::Undefined),
        remote_object_type_from_name("string"@) == Some(RemoteObjectType::String),
        remote_object_type_from_name("number"@) == Some(RemoteObjectType::Number),
        remote_object_type_from_name("boolean"@) == Some(RemoteObjectType::Boolean),
        remote_object_type_from_name("symbol"@) == Some(RemoteObjectType::Symbol),
        remote_object_type_from_name("bigint"@) == Some(RemoteObjectType::Bigint),
{
    reveal_strlit("object");
    reveal_strlit("function");
    reveal_strlit("undefined");
    reveal_strlit("string");
    reveal_strlit("number");
    reveal_strlit("boolean");
    reveal_strlit("symbol");
    reveal_strlit("bigint");
    assert("object"@.len() == 6);
    assert("function"@.len() == 8);
    assert("undefined"@.len() == 9);
    assert("string"@.len() == 6);
    assert("number"@.len() == 6);
    assert("boolean"@.len() == 7);
    assert("symbol"@.len() == 6);
    assert("bigint"@.len() == 6);
    assert("object"@[0] == 'o');
    assert("string"@[0] == 's');
    assert("number"@[0] == 'n');
    assert("symbol"@[0] == 's');
    assert("bigint"@[0] == 'b');
    assert("string"@[1] == 't');
    assert("symbol"@[1] == 'y');
}

/// A remote object is read from `type`, `description`, `className`,
/// `objectId` and `value` (absent or `null` being no value), each into its
/// own field.
pub proof fn lemma_remote_object_members(j: JsonV)
    ensures
        RemoteObject::spec_from_json(j) is Some <==> ((match str_member(j, "type"@) {
            Some(t) => remote_object_type_from_name(t) is Some,
            None => false,
        }) && opt_str_member(j, "description"@) is Some && opt_str_member(j, "className"@) is Some
            && opt_str_member(j, "objectId"@) is Some),
        RemoteObject::spec_from_json(j) matches Some(o) ==> {
            &&& str_member(j, "type"@) matches Some(t) && remote_object_type_from_name(t) == Some(o.object_type)
            &&& opt_str_member(j, "description"@) == Some(o.description)
            &&& opt_str_member(j, "className"@) == Some(o.class_name)
            &&& opt_str_member(j, "objectId"@) == Some(o.object_id)
            &&& o.value == match j.get("value"@) {
                None => None,
                Some(JsonV::Null) => None,
                Some(v) => Some(v),
            }
        },
{
}

/// Exception details are read from `columnNumber`, `lineNumber`, `exceptionId`, `text` and `scriptId`, each into its own field.
pub proof fn lemma_exception_details_members(j: JsonV)
    ensures
        ExceptionDetails::spec_from_json(j) is Some <==> (i32_member(j, "columnNumber"@) is Some && i32_member(j, "lineNumber"@) is Some && i32_member(j, "exceptionId"@) is Some && str_member(j, "text"@) is Some && opt_str_member(j, "scriptId"@) is Some),
        ExceptionDetails::spec_from_json(j) matches Some(v) ==> {
            &&& i32_member(j, "columnNumber"@) == Some(v.column_number)
            &&& i32_member(j, "lineNumber"@) == Some(v.line_number)
            &&& i32_member(j, "exceptionId"@) == Some(v.exception_id)
            &&& str_member(j, "text"@) == Some(v.text)
            &&& opt_str_member(j, "scriptId"@) == Some(v.script_id)
        },
{
}

/// The result of `Runtime.evaluate` is the remote object `result` and the
/// exception `exceptionDetails` (absent or `null` when nothing was thrown).
pub proof fn lemma_evaluate_members(j: JsonV)
    ensures
        EvaluateBody::spec_from_json(j) matches Some(b) ==> {
            &&& j.get("result"@) matches Some(r) && RemoteObject::spec_from_json(r) == Some(b.result)
            &&& match j.get("exceptionDetails"@) {
                None => b.exception_details is None,
                Some(JsonV::Null) => b.exception_details is None,
                Some(d) => ExceptionDetails::spec_from_json(d) == b.exception_details && b.exception_details is Some,
            }
        },
        (match j.get("result"@) {
            Some(r) => RemoteObject::spec_from_json(r) is Some,
            None => false,
        }) && (match j.get("exceptionDetails"@) {
            None => true,
            Some(JsonV::Null) => true,
            Some(d) => ExceptionDetails::spec_from_json(d) is Some,
        }) ==> EvaluateBody::spec_from_json(j) is Some,
{
}


/// The runtime error of an evaluation that threw carries the exception's
/// line and column, the thrown value, and the value's description (empty when
/// there is none); an evaluation that did not throw has no runtime error.
pub proof fn lemma_runtime_error_fields(e: Error, body: EvaluateBodyV)
    ensures
        is_runtime_error_for(e, body) <==> match (e, body.exception_details) {
            (Error::RuntimeError { line_number, column_number, value, description }, Some(d)) => {
                &&& line_number == d.line_number
                &&& column_number == d.column_number
                &&& opt_json_view(value) == body.result.value
                &&& description@ == match body.result.description {
                    Some(t) => t,
                    None => Seq::<char>::empty(),
                }
            },
            _ => false,
        },
{
}

} // verus!
