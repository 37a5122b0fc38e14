//! A page (a tab) of the browser.
use crate::cdp::runtime::{EvaluateBody, EvaluateBodyV};
use crate::cdp::{CDPMessage, CDPMethod, CDPMethodV, CDPSession};
use crate::dom::DomNode;
use crate::error::Error;
use crate::json::{Json, JsonV};
use vstd::prelude::*;

verus! {

/// A page of the browser, driven through its own session.
#[derive(Debug)]
pub struct Page {
    session: CDPSession,
    endpoint: String,
}

/// The text of the error reported when a page's url cannot be read.
pub open spec fn missing_url_text() -> Seq<char> {
    "Failed to get page url"@
}

/// Whether the value of an evaluation is absent or a string: the values of
/// which [`Page::url_of`] can make a url.
pub open spec fn is_url_value(body: EvaluateBodyV) -> bool {
    match body.result.value {
        None => true,
        Some(JsonV::Str(_)) => true,
        _ => false,
    }
}

/// The selector that matches the elements of class `class`.
pub open spec fn class_selector(class: Seq<char>) -> Seq<char> {
    seq!['.'] + class
}

impl Page {
    /// The page driven through `session`, whose web socket is `endpoint`.
    pub fn from_session(session: CDPSession, endpoint: &str) -> (p: Page)
        ensures
            p.session() == session,
            p.endpoint_text() == endpoint@,
    {
        Page { session, endpoint: endpoint.to_owned() }
    }

    pub closed spec fn session(&self) -> CDPSession {
        self.session
    }

    pub closed spec fn endpoint_text(&self) -> Seq<char> {
        self.endpoint@
    }

    pub fn endpoint(&self) -> (r: &str)
        ensures
            r@ == self.endpoint_text(),
    {
        self.endpoint.as_str()
    }

    /// The session of the page.
    pub fn cdp_session(&self) -> (r: &CDPSession)
        ensures
            *r == self.session(),
    {
        &self.session
    }

    /// The request that evaluates the page's `document.URL`.
    pub fn url_request(&self) -> (m: CDPMessage)
        ensures
            m@.session_id == Some(self.session()@.session_id),
            m@.method == (CDPMethodV::Evaluate { expression: "document.URL"@, await_promise: true }),
    {
        self.session.message(
            CDPMethod::Evaluate { expression: "document.URL".to_owned(), await_promise: true },
        )
    }

    /// The url of the page, from the evaluation of `document.URL`: the
    /// evaluated string, or a page error when the evaluation gave no value.
    pub fn url_of(body: &EvaluateBody) -> (r: Result<String, Error>)
        requires
            is_url_value(body@),
        ensures
            match body@.result.value {
                Some(JsonV::Str(s)) => r matches Ok(u) && u@ == s,
                _ => r matches Err(Error::PageError(m)) && m@ == missing_url_text(),
            },
    {
        match &body.result.value {
            Some(Json::Str(s)) => Ok(s.clone()),
            _ => Err(Error::PageError("Failed to get page url".to_owned())),
        }
    }

    /// The selector of [`Page::locate_by_class`]: `.` followed by the class.
    pub fn class_selector(class: &str) -> (r: String)
        ensures
            r@ == class_selector(class@),
    {
        proof {
            reveal_strlit(".");
        }
        ".".to_owned().concat(class)
    }

    /// The request of [`Page::locate_by_class`]: `document.querySelector`
    /// with the class selector, run on the document's root node.
    pub fn locate_request(&self, root: &DomNode, class: &str) -> (m: CDPMessage)
        ensures
            m@.session_id == Some(self.session()@.session_id),
            m@.method == (CDPMethodV::QuerySelector {
                node_id: root@.node_id,
                selector: class_selector(class@),
            }),
    {
        let selector = Page::class_selector(class);
        self.session.message(CDPMethod::QuerySelector { node_id: root.node_id, selector })
    }

    /// The request for the whole document of the page.
    pub fn dom_request(&self) -> (m: CDPMessage)
        ensures
            m@.session_id == Some(self.session()@.session_id),
            m@.method == (CDPMethodV::GetDocument { depth: -1i32 }),
    {
        // Set to -1 to get all sub nodes.
        self.session.message(CDPMethod::GetDocument { depth: -1 })
    }

    /// The request that navigates the page to `url`.
    pub fn navigate_request(&self, url: &str) -> (m: CDPMessage)
        ensures
            m@.session_id == Some(self.session()@.session_id),
            m@.method == (CDPMethodV::Navigate { url: url@ }),
    {
        self.session.message(CDPMethod::Navigate { url: url.to_owned() })
    }
}


/// The class selector is the class after a dot, and the url error says the
/// url could not be got.
pub proof fn lemma_page_texts(class: Seq<char>)
    ensures
        class_selector(class).len() == class.len() + 1,
        class_selector(class)[0] == '.',
        class_selector(class).drop_first() == class,
        missing_url_text() == "Failed to get page url"@,
{
    assert(class_selector(class).drop_first() =~= class);
}

} // verus!
