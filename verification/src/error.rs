//! The errors of the library.
use crate::json::{bad_member, bad_member_text, in_member, in_member_text, i32_member, opt_str_member, opt_text_view, str_member, FromJson, Json, JsonV};
use zip::result::ZipError;
use vstd::prelude::*;

verus! {

/// What can go wrong in the library's own logic. Failures of the network,
/// the file system and the JSON text itself are added to these where the
/// socket and the files are handled.
#[derive(Debug)]
pub enum Error {
    FailedToSendMessage,
    FailedToCreatePage,
    FailedToGetHomeDir,
    MissingBinary,
    InvalidResponse(String),
    NavigationError(String),
    PageError(String),
    /// An error that occured while evaluating javascript
    /// in browser
    RuntimeError {
        line_number: i32,
        column_number: i32,
        value: Option<Json>,
        description: String,
    },
    CDPError { code: i32, message: String },
    /// A downloaded archive could not be read.
    ZipError(ZipError),
}

pub type Result<T> = core::result::Result<T, Error>;

/// The body of an error reply.
#[derive(Debug, Clone)]
pub struct CDPErrorBody {
    pub code: i32,
    pub message: String,
}

/// An error reply from the browser: the request `id` failed.
#[derive(Debug, Clone)]
pub struct CDPError {
    pub id: i32,
    pub session_id: Option<String>,
    pub error: CDPErrorBody,
}

pub struct CDPErrorBodyV {
    pub code: i32,
    pub message: Seq<char>,
}

pub struct CDPErrorV {
    pub id: i32,
    pub session_id: Option<Seq<char>>,
    pub error: CDPErrorBodyV,
}

impl View for CDPErrorBody {
    type V = CDPErrorBodyV;

    open spec fn view(&self) -> CDPErrorBodyV {
        CDPErrorBodyV { code: self.code, message: self.message@ }
    }
}

impl View for CDPError {
    type V = CDPErrorV;

    open spec fn view(&self) -> CDPErrorV {
        CDPErrorV {
            id: self.id,
            session_id: opt_text_view(self.session_id),
            error: self.error@,
        }
    }
}

impl FromJson for CDPErrorBody {
    /// `{"code": i32, "message": string}`
    open spec fn spec_from_json(j: JsonV) -> Option<CDPErrorBodyV> {
        match (i32_member(j, "code"@), str_member(j, "message"@)) {
            (Some(code), Some(message)) => Some(CDPErrorBodyV { code, message }),
            _ => None,
        }
    }

    fn from_json(j: &Json) -> (r: Option<CDPErrorBody>) {
        match (j.i32_member("code"), j.str_member("message")) {
            (Some(code), Some(message)) => Some(CDPErrorBody { code, message }),
            _ => None,
        }
    }

    open spec fn spec_failure(j: JsonV) -> Seq<char> {
        if i32_member(j, "code"@) is None {
            bad_member("code"@)
        } else {
            bad_member("message"@)
        }
    }

    fn failure(j: &Json) -> (r: String) {
        if j.i32_member("code").is_none() {
            bad_member_text("code")
        } else {
            bad_member_text("message")
        }
    }
}

impl FromJson for CDPError {
    /// `{"id": i32, "sessionId": string or absent, "error": {..}}`
    open spec fn spec_from_json(j: JsonV) -> Option<CDPErrorV> {
        match (i32_member(j, "id"@), opt_str_member(j, "sessionId"@), j.get("error"@)) {
            (Some(id), Some(session_id), Some(e)) => match CDPErrorBody::spec_from_json(e) {
                Some(error) => Some(CDPErrorV { id, session_id, error }),
                None => None,
            },
            _ => None,
        }
    }

    fn from_json(j: &Json) -> (r: Option<CDPError>) {
        let id = j.i32_member("id");
        let session_id = j.opt_str_member("sessionId");
        match (id, session_id, j.get("error")) {
            (Some(id), Some(session_id), Some(e)) => match CDPErrorBody::from_json(e) {
                Some(error) => Some(CDPError { id, session_id, error }),
                None => None,
            },
            _ => None,
        }
    }

    open spec fn spec_failure(j: JsonV) -> Seq<char> {
        if i32_member(j, "id"@) is None {
            bad_member("id"@)
        } else if opt_str_member(j, "sessionId"@) is None {
            bad_member("sessionId"@)
        } else {
            match j.get("error"@) {
                None => bad_member("error"@),
                Some(e) => in_member("error"@, CDPErrorBody::spec_failure(e)),
            }
        }
    }

    fn failure(j: &Json) -> (r: String) {
        if j.i32_member("id").is_none() {
            bad_member_text("id")
        } else if j.opt_str_member("sessionId").is_none() {
            bad_member_text("sessionId")
        } else {
            match j.get("error") {
                None => bad_member_text("error"),
                Some(e) => {
                    let why = CDPErrorBody::failure(e);
                    in_member_text("error", why.as_str())
                },
            }
        }
    }
}

impl From<CDPError> for Error {
    fn from(value: CDPError) -> (r: Error) {
        Error::CDPError { code: value.error.code, message: value.error.message }
    }
}

impl vstd::std_specs::convert::FromSpecImpl<CDPError> for Error {
    open spec fn obeys_from_spec() -> bool {
        true
    }

    open spec fn from_spec(v: CDPError) -> Error {
        Error::CDPError { code: v.error.code, message: v.error.message }
    }
}


/// The body of an error reply is read from `code` and `message`.
pub proof fn lemma_error_body_members(j: JsonV)
    ensures
        CDPErrorBody::spec_from_json(j) is Some <==> (i32_member(j, "code"@) is Some && str_member(j, "message"@) is Some),
        CDPErrorBody::spec_from_json(j) matches Some(v) ==> {
            &&& i32_member(j, "code"@) == Some(v.code)
            &&& str_member(j, "message"@) == Some(v.message)
        },
{
}

/// An error reply is read from `id`, `sessionId` and the body `error`.
pub proof fn lemma_error_reply_members(j: JsonV)
    ensures
        CDPError::spec_from_json(j) is Some <==> (i32_member(j, "id"@) is Some && opt_str_member(
            j,
            "sessionId"@,
        ) is Some && match j.get("error"@) {
            Some(e) => CDPErrorBody::spec_from_json(e) is Some,
            None => false,
        }),
        CDPError::spec_from_json(j) matches Some(c) ==> {
            &&& i32_member(j, "id"@) == Some(c.id)
            &&& opt_str_member(j, "sessionId"@) == Some(c.session_id)
            &&& j.get("error"@) matches Some(e) && CDPErrorBody::spec_from_json(e) == Some(c.error)
        },
{
}

} // verus!
