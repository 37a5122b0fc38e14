//! The document tree of a page.
use crate::json::{
    i32_member, lemma_array_view, lemma_get_decreases, opt_i32_member, opt_str_member,
    same_text, spec_array_from_json, array_from_json, str_member, views, FromJson, Json, JsonV,
    opt_text_view, copy_opt_text, bad_member, bad_member_text, in_member, in_member_text,
};
use crate::cdp::CDPSession;
use vstd::prelude::*;

verus! {

/// The name of a DOM node, as the browser writes it.
#[derive(Debug, Eq, PartialOrd, Ord)]
pub enum NodeName {
    /// The root document
    Document,
    /// Inner text
    Text,
    Title,
    A,
    Meta,
    P,
    Style,
    H1,
    H2,
    H3,
    H4,
    H5,
    H6,
    Br,
    Img,
    Div,
    Html,
    Body,
    Head,
    Script,
    Link,
    Svg,
    Abbr,
    Area,
    Article,
    Aside,
    Audio,
    B,
    Base,
    Code,
    Col,
    Data,
    DataList,
    Form,
    Input,
    Label,
    Button,
    Iframe,
    Li,
    Ul,
    Ol,
    Main,
    Menu,
    Header,
    Path,
    NoScript,
    Image,
    Nav,
    Select,
    Search,
    Section,
    Span,
    Table,
    Dialog,
    TextArea,
    Hr,
    Rect,
    Track,
    Video,
    Tr,
    Center,
    G,
    Circle,
    /// Any unknown or custom elements
    Unknown(String),
}

/// The mathematical value of a [`NodeName`].
pub enum NodeNameV {
    Document,
    Text,
    Title,
    A,
    Meta,
    P,
    Style,
    H1,
    H2,
    H3,
    H4,
    H5,
    H6,
    Br,
    Img,
    Div,
    Html,
    Body,
    Head,
    Script,
    Link,
    Svg,
    Abbr,
    Area,
    Article,
    Aside,
    Audio,
    B,
    Base,
    Code,
    Col,
    Data,
    DataList,
    Form,
    Input,
    Label,
    Button,
    Iframe,
    Li,
    Ul,
    Ol,
    Main,
    Menu,
    Header,
    Path,
    NoScript,
    Image,
    Nav,
    Select,
    Search,
    Section,
    Span,
    Table,
    Dialog,
    TextArea,
    Hr,
    Rect,
    Track,
    Video,
    Tr,
    Center,
    G,
    Circle,
    Unknown(Seq<char>),
}

impl View for NodeName {
    type V = NodeNameV;

    open spec fn view(&self) -> NodeNameV {
        match self {
            NodeName::Document => NodeNameV::Document,
            NodeName::Text => NodeNameV::Text,
            NodeName::Title => NodeNameV::Title,
            NodeName::A => NodeNameV::A,
            NodeName::Meta => NodeNameV::Meta,
            NodeName::P => NodeNameV::P,
            NodeName::Style => NodeNameV::Style,
            NodeName::H1 => NodeNameV::H1,
            NodeName::H2 => NodeNameV::H2,
            NodeName::H3 => NodeNameV::H3,
            NodeName::H4 => NodeNameV::H4,
            NodeName::H5 => NodeNameV::H5,
            NodeName::H6 => NodeNameV::H6,
            NodeName::Br => NodeNameV::Br,
            NodeName::Img => NodeNameV::Img,
            NodeName::Div => NodeNameV::Div,
            NodeName::Html => NodeNameV::Html,
            NodeName::Body => NodeNameV::Body,
            NodeName::Head => NodeNameV::Head,
            NodeName::Script => NodeNameV::Script,
            NodeName::Link => NodeNameV::Link,
            NodeName::Svg => NodeNameV::Svg,
            NodeName::Abbr => NodeNameV::Abbr,
            NodeName::Area => NodeNameV::Area,
            NodeName::Article => NodeNameV::Article,
            NodeName::Aside => NodeNameV::Aside,
            NodeName::Audio => NodeNameV::Audio,
            NodeName::B => NodeNameV::B,
            NodeName::Base => NodeNameV::Base,
            NodeName::Code => NodeNameV::Code,
            NodeName::Col => NodeNameV::Col,
            NodeName::Data => NodeNameV::Data,
            NodeName::DataList => NodeNameV::DataList,
            NodeName::Form => NodeNameV::Form,
            NodeName::Input => NodeNameV::Input,
            NodeName::Label => NodeNameV::Label,
            NodeName::Button => NodeNameV::Button,
            NodeName::Iframe => NodeNameV::Iframe,
            NodeName::Li => NodeNameV::Li,
            NodeName::Ul => NodeNameV::Ul,
            NodeName::Ol => NodeNameV::Ol,
            NodeName::Main => NodeNameV::Main,
            NodeName::Menu => NodeNameV::Menu,
            NodeName::Header => NodeNameV::Header,
            NodeName::Path => NodeNameV::Path,
            NodeName::NoScript => NodeNameV::NoScript,
            NodeName::Image => NodeNameV::Image,
            NodeName::Nav => NodeNameV::Nav,
            NodeName::Select => NodeNameV::Select,
            NodeName::Search => NodeNameV::Search,
            NodeName::Section => NodeNameV::Section,
            NodeName::Span => NodeNameV::Span,
            NodeName::Table => NodeNameV::Table,
            NodeName::Dialog => NodeNameV::Dialog,
            NodeName::TextArea => NodeNameV::TextArea,
            NodeName::Hr => NodeNameV::Hr,
            NodeName::Rect => NodeNameV::Rect,
            NodeName::Track => NodeNameV::Track,
            NodeName::Video => NodeNameV::Video,
            NodeName::Tr => NodeNameV::Tr,
            NodeName::Center => NodeNameV::Center,
            NodeName::G => NodeNameV::G,
            NodeName::Circle => NodeNameV::Circle,
            NodeName::Unknown(s) => NodeNameV::Unknown(s@),
        }
    }
}

/// The node name written as `s`: one of the names the browser uses for
/// the known elements (in upper case, a few also in lower case), and
/// `Unknown(s)` for any other text.
pub open spec fn node_name_from_text(s: Seq<char>) -> NodeNameV {
    if s == "#document"@ {
        NodeNameV::Document
    } else if s == "#text"@ {
        NodeNameV::Text
    } else if s == "TITLE"@ {
        NodeNameV::Title
    } else if s == "A"@ {
        NodeNameV::A
    } else if s == "META"@ {
        NodeNameV::Meta
    } else if s == "P"@ {
        NodeNameV::P
    } else if s == "STYLE"@ {
        NodeNameV::Style
    } else if s == "H1"@ {
        NodeNameV::H1
    } else if s == "H2"@ {
        NodeNameV::H2
    } else if s == "H3"@ {
        NodeNameV::H3
    } else if s == "H4"@ {
        NodeNameV::H4
    } else if s == "H5"@ {
        NodeNameV::H5
    } else if s == "H6"@ {
        NodeNameV::H6
    } else if s == "BR"@ {
        NodeNameV::Br
    } else if s == "IMG"@ {
        NodeNameV::Img
    } else if s == "DIV"@ {
        NodeNameV::Div
    } else if s == "HTML"@ || s == "html"@ {
        NodeNameV::Html
    } else if s == "BODY"@ {
        NodeNameV::Body
    } else if s == "HEAD"@ {
        NodeNameV::Head
    } else if s == "SCRIPT"@ {
        NodeNameV::Script
    } else if s == "LINK"@ {
        NodeNameV::Link
    } else if s == "SVG"@ || s == "svg"@ {
        NodeNameV::Svg
    } else if s == "ABBR"@ {
        NodeNameV::Abbr
    } else if s == "AREA"@ {
        NodeNameV::Area
    } else if s == "ARTICLE"@ {
        NodeNameV::Article
    } else if s == "ASIDE"@ {
        NodeNameV::Aside
    } else if s == "AUDIO"@ {
        NodeNameV::Audio
    } else if s == "B"@ {
        NodeNameV::B
    } else if s == "BASE"@ {
        NodeNameV::Base
    } else if s == "CODE"@ {
        NodeNameV::Code
    } else if s == "COL"@ {
        NodeNameV::Col
    } else if s == "DATA"@ {
        NodeNameV::Data
    } else if s == "DATALIST"@ {
        NodeNameV::DataList
    } else if s == "FORM"@ {
        NodeNameV::Form
    } else if s == "INPUT"@ {
        NodeNameV::Input
    } else if s == "LABEL"@ {
        NodeNameV::Label
    } else if s == "BUTTON"@ {
        NodeNameV::Button
    } else if s == "IFRAME"@ {
        NodeNameV::Iframe
    } else if s == "LI"@ {
        NodeNameV::Li
    } else if s == "UL"@ {
        NodeNameV::Ul
    } else if s == "OL"@ {
        NodeNameV::Ol
    } else if s == "MAIN"@ {
        NodeNameV::Main
    } else if s == "MENU"@ {
        NodeNameV::Menu
    } else if s == "HEADER"@ {
        NodeNameV::Header
    } else if s == "PATH"@ || s == "path"@ {
        NodeNameV::Path
    } else if s == "NOSCRIPT"@ {
        NodeNameV::NoScript
    } else if s == "IMAGE"@ || s == "image"@ {
        NodeNameV::Image
    } else if s == "NAV"@ {
        NodeNameV::Nav
    } else if s == "SELECT"@ {
        NodeNameV::Select
    } else if s == "SEARCH"@ {
        NodeNameV::Search
    } else if s == "SECTION"@ {
        NodeNameV::Section
    } else if s == "SPAN"@ {
        NodeNameV::Span
    } else if s == "TABLE"@ {
        NodeNameV::Table
    } else if s == "DIALOG"@ {
        NodeNameV::Dialog
    } else if s == "TEXTAREA"@ {
        NodeNameV::TextArea
    } else if s == "HR"@ {
        NodeNameV::Hr
    } else if s == "RECT"@ || s == "rect"@ {
        NodeNameV::Rect
    } else if s == "TRACK"@ {
        NodeNameV::Track
    } else if s == "VIDEO"@ {
        NodeNameV::Video
    } else if s == "TR"@ {
        NodeNameV::Tr
    } else if s == "CENTER"@ {
        NodeNameV::Center
    } else if s == "G"@ || s == "g"@ {
        NodeNameV::G
    } else if s == "CIRCLE"@ || s == "circle"@ {
        NodeNameV::Circle
    } else {
        NodeNameV::Unknown(s)
    }
}

impl NodeName {
    /// The node name written as `s`.
    pub fn from_text(s: &str) -> (r: NodeName)
        ensures
            r@ == node_name_from_text(s@),
    {
        if same_text(s, "#document") {
            NodeName::Document
        } else if same_text(s, "#text") {
            NodeName::Text
        } else if same_text(s, "TITLE") {
            NodeName::Title
        } else if same_text(s, "A") {
            NodeName::A
        } else if same_text(s, "META") {
            NodeName::Meta
        } else if same_text(s, "P") {
            NodeName::P
        } else if same_text(s, "STYLE") {
            NodeName::Style
        } else if same_text(s, "H1") {
            NodeName::H1
        } else if same_text(s, "H2") {
            NodeName::H2
        } else if same_text(s, "H3") {
            NodeName::H3
        } else if same_text(s, "H4") {
            NodeName::H4
        } else if same_text(s, "H5") {
            NodeName::H5
        } else if same_text(s, "H6") {
            NodeName::H6
        } else if same_text(s, "BR") {
            NodeName::Br
        } else if same_text(s, "IMG") {
            NodeName::Img
        } else if same_text(s, "DIV") {
            NodeName::Div
        } else if same_text(s, "HTML") || same_text(s, "html") {
            NodeName::Html
        } else if same_text(s, "BODY") {
            NodeName::Body
        } else if same_text(s, "HEAD") {
            NodeName::Head
        } else if same_text(s, "SCRIPT") {
            NodeName::Script
        } else if same_text(s, "LINK") {
            NodeName::Link
        } else if same_text(s, "SVG") || same_text(s, "svg") {
            NodeName::Svg
        } else if same_text(s, "ABBR") {
            NodeName::Abbr
        } else if same_text(s, "AREA") {
            NodeName::Area
        } else if same_text(s, "ARTICLE") {
            NodeName::Article
        } else if same_text(s, "ASIDE") {
            NodeName::Aside
        } else if same_text(s, "AUDIO") {
            NodeName::Audio
        } else if same_text(s, "B") {
            NodeName::B
        } else if same_text(s, "BASE") {
            NodeName::Base
        } else if same_text(s, "CODE") {
            NodeName::Code
        } else if same_text(s, "COL") {
            NodeName::Col
        } else if same_text(s, "DATA") {
            NodeName::Data
        } else if same_text(s, "DATALIST") {
            NodeName::DataList
        } else if same_text(s, "FORM") {
            NodeName::Form
        } else if same_text(s, "INPUT") {
            NodeName::Input
        } else if same_text(s, "LABEL") {
            NodeName::Label
        } else if same_text(s, "BUTTON") {
            NodeName::Button
        } else if same_text(s, "IFRAME") {
            NodeName::Iframe
        } else if same_text(s, "LI") {
            NodeName::Li
        } else if same_text(s, "UL") {
            NodeName::Ul
        } else if same_text(s, "OL") {
            NodeName::Ol
        } else if same_text(s, "MAIN") {
            NodeName::Main
        } else if same_text(s, "MENU") {
            NodeName::Menu
        } else if same_text(s, "HEADER") {
            NodeName::Header
        } else if same_text(s, "PATH") || same_text(s, "path") {
            NodeName::Path
        } else if same_text(s, "NOSCRIPT") {
            NodeName::NoScript
        } else if same_text(s, "IMAGE") || same_text(s, "image") {
            NodeName::Image
        } else if same_text(s, "NAV") {
            NodeName::Nav
        } else if same_text(s, "SELECT") {
            NodeName::Select
        } else if same_text(s, "SEARCH") {
            NodeName::Search
        } else if same_text(s, "SECTION") {
            NodeName::Section
        } else if same_text(s, "SPAN") {
            NodeName::Span
        } else if same_text(s, "TABLE") {
            NodeName::Table
        } else if same_text(s, "DIALOG") {
            NodeName::Dialog
        } else if same_text(s, "TEXTAREA") {
            NodeName::TextArea
        } else if same_text(s, "HR") {
            NodeName::Hr
        } else if same_text(s, "RECT") || same_text(s, "rect") {
            NodeName::Rect
        } else if same_text(s, "TRACK") {
            NodeName::Track
        } else if same_text(s, "VIDEO") {
            NodeName::Video
        } else if same_text(s, "TR") {
            NodeName::Tr
        } else if same_text(s, "CENTER") {
            NodeName::Center
        } else if same_text(s, "G") || same_text(s, "g") {
            NodeName::G
        } else if same_text(s, "CIRCLE") || same_text(s, "circle") {
            NodeName::Circle
        } else {
            NodeName::Unknown(s.to_owned())
        }
    }

    /// A copy of the name.
    pub fn copy(&self) -> (r: NodeName)
        ensures
            r@ == self@,
    {
        match self {
            NodeName::Document => NodeName::Document,
            NodeName::Text => NodeName::Text,
            NodeName::Title => NodeName::Title,
            NodeName::A => NodeName::A,
            NodeName::Meta => NodeName::Meta,
            NodeName::P => NodeName::P,
            NodeName::Style => NodeName::Style,
            NodeName::H1 => NodeName::H1,
            NodeName::H2 => NodeName::H2,
            NodeName::H3 => NodeName::H3,
            NodeName::H4 => NodeName::H4,
            NodeName::H5 => NodeName::H5,
            NodeName::H6 => NodeName::H6,
            NodeName::Br => NodeName::Br,
            NodeName::Img => NodeName::Img,
            NodeName::Div => NodeName::Div,
            NodeName::Html => NodeName::Html,
            NodeName::Body => NodeName::Body,
            NodeName::Head => NodeName::Head,
            NodeName::Script => NodeName::Script,
            NodeName::Link => NodeName::Link,
            NodeName::Svg => NodeName::Svg,
            NodeName::Abbr => NodeName::Abbr,
            NodeName::Area => NodeName::Area,
            NodeName::Article => NodeName::Article,
            NodeName::Aside => NodeName::Aside,
            NodeName::Audio => NodeName::Audio,
            NodeName::B => NodeName::B,
            NodeName::Base => NodeName::Base,
            NodeName::Code => NodeName::Code,
            NodeName::Col => NodeName::Col,
            NodeName::Data => NodeName::Data,
            NodeName::DataList => NodeName::DataList,
            NodeName::Form => NodeName::Form,
            NodeName::Input => NodeName::Input,
            NodeName::Label => NodeName::Label,
            NodeName::Button => NodeName::Button,
            NodeName::Iframe => NodeName::Iframe,
            NodeName::Li => NodeName::Li,
            NodeName::Ul => NodeName::Ul,
            NodeName::Ol => NodeName::Ol,
            NodeName::Main => NodeName::Main,
            NodeName::Menu => NodeName::Menu,
            NodeName::Header => NodeName::Header,
            NodeName::Path => NodeName::Path,
            NodeName::NoScript => NodeName::NoScript,
            NodeName::Image => NodeName::Image,
            NodeName::Nav => NodeName::Nav,
            NodeName::Select => NodeName::Select,
            NodeName::Search => NodeName::Search,
            NodeName::Section => NodeName::Section,
            NodeName::Span => NodeName::Span,
            NodeName::Table => NodeName::Table,
            NodeName::Dialog => NodeName::Dialog,
            NodeName::TextArea => NodeName::TextArea,
            NodeName::Hr => NodeName::Hr,
            NodeName::Rect => NodeName::Rect,
            NodeName::Track => NodeName::Track,
            NodeName::Video => NodeName::Video,
            NodeName::Tr => NodeName::Tr,
            NodeName::Center => NodeName::Center,
            NodeName::G => NodeName::G,
            NodeName::Circle => NodeName::Circle,
            NodeName::Unknown(s) => NodeName::Unknown(s.clone()),
        }
    }
}

impl NodeName {
    /// Whether two names are the same name.
    pub fn same(&self, other: &NodeName) -> (r: bool)
        ensures
            r == (self@ == other@),
    {
        match (self, other) {
            (NodeName::Document, NodeName::Document) => true,
            (NodeName::Text, NodeName::Text) => true,
            (NodeName::Title, NodeName::Title) => true,
            (NodeName::A, NodeName::A) => true,
            (NodeName::Meta, NodeName::Meta) => true,
            (NodeName::P, NodeName::P) => true,
            (NodeName::Style, NodeName::Style) => true,
            (NodeName::H1, NodeName::H1) => true,
            (NodeName::H2, NodeName::H2) => true,
            (NodeName::H3, NodeName::H3) => true,
            (NodeName::H4, NodeName::H4) => true,
            (NodeName::H5, NodeName::H5) => true,
            (NodeName::H6, NodeName::H6) => true,
            (NodeName::Br, NodeName::Br) => true,
            (NodeName::Img, NodeName::Img) => true,
            (NodeName::Div, NodeName::Div) => true,
            (NodeName::Html, NodeName::Html) => true,
            (NodeName::Body, NodeName::Body) => true,
            (NodeName::Head, NodeName::Head) => true,
            (NodeName::Script, NodeName::Script) => true,
            (NodeName::Link, NodeName::Link) => true,
            (NodeName::Svg, NodeName::Svg) => true,
            (NodeName::Abbr, NodeName::Abbr) => true,
            (NodeName::Area, NodeName::Area) => true,
            (NodeName::Article, NodeName::Article) => true,
            (NodeName::Aside, NodeName::Aside) => true,
            (NodeName::Audio, NodeName::Audio) => true,
            (NodeName::B, NodeName::B) => true,
            (NodeName::Base, NodeName::Base) => true,
            (NodeName::Code, NodeName::Code) => true,
            (NodeName::Col, NodeName::Col) => true,
            (NodeName::Data, NodeName::Data) => true,
            (NodeName::DataList, NodeName::DataList) => true,
            (NodeName::Form, NodeName::Form) => true,
            (NodeName::Input, NodeName::Input) => true,
            (NodeName::Label, NodeName::Label) => true,
            (NodeName::Button, NodeName::Button) => true,
            (NodeName::Iframe, NodeName::Iframe) => true,
            (NodeName::Li, NodeName::Li) => true,
            (NodeName::Ul, NodeName::Ul) => true,
            (NodeName::Ol, NodeName::Ol) => true,
            (NodeName::Main, NodeName::Main) => true,
            (NodeName::Menu, NodeName::Menu) => true,
            (NodeName::Header, NodeName::Header) => true,
            (NodeName::Path, NodeName::Path) => true,
            (NodeName::NoScript, NodeName::NoScript) => true,
            (NodeName::Image, NodeName::Image) => true,
            (NodeName::Nav, NodeName::Nav) => true,
            (NodeName::Select, NodeName::Select) => true,
            (NodeName::Search, NodeName::Search) => true,
            (NodeName::Section, NodeName::Section) => true,
            (NodeName::Span, NodeName::Span) => true,
            (NodeName::Table, NodeName::Table) => true,
            (NodeName::Dialog, NodeName::Dialog) => true,
            (NodeName::TextArea, NodeName::TextArea) => true,
            (NodeName::Hr, NodeName::Hr) => true,
            (NodeName::Rect, NodeName::Rect) => true,
            (NodeName::Track, NodeName::Track) => true,
            (NodeName::Video, NodeName::Video) => true,
            (NodeName::Tr, NodeName::Tr) => true,
            (NodeName::Center, NodeName::Center) => true,
            (NodeName::G, NodeName::G) => true,
            (NodeName::Circle, NodeName::Circle) => true,
            (NodeName::Unknown(a), NodeName::Unknown(b)) => *a == *b,
            _ => false,
        }
    }
}

impl PartialEq for NodeName {
    fn eq(&self, other: &NodeName) -> (r: bool) {
        self.same(other)
    }
}

impl vstd::std_specs::cmp::PartialEqSpecImpl for NodeName {
    open spec fn obeys_eq_spec() -> bool {
        true
    }

    open spec fn eq_spec(&self, other: &NodeName) -> bool {
        self@ == other@
    }
}

/// A node of the document, with the children that were fetched with it.
#[derive(Debug, PartialEq, Eq)]
pub struct DomNode {
    pub node_id: i32,
    pub node_value: String,
    pub local_name: String,
    pub document_url: Option<String>,
    pub node_name: NodeName,
    pub parent_id: Option<i32>,
    pub attributes: Vec<String>,
    pub children: Vec<Box<DomNode>>,
}

/// A node with no name, value or children.
pub open spec fn empty_node_v() -> DomNodeV {
    DomNodeV {
        node_id: 0,
        node_value: Seq::empty(),
        local_name: Seq::empty(),
        document_url: None,
        node_name: NodeNameV::Document,
        parent_id: None,
        attributes: Seq::empty(),
        children: Seq::empty(),
    }
}

/// The mathematical value of a [`DomNode`].
pub struct DomNodeV {
    pub node_id: i32,
    pub node_value: Seq<char>,
    pub local_name: Seq<char>,
    pub document_url: Option<Seq<char>>,
    pub node_name: NodeNameV,
    pub parent_id: Option<i32>,
    pub attributes: Seq<Seq<char>>,
    pub children: Seq<DomNodeV>,
}

/// The views of a sequence of nodes.
pub open spec fn nodes_view(nodes: Seq<Box<DomNode>>) -> Seq<DomNodeV>
    decreases nodes,
{
    if nodes.len() == 0 {
        Seq::empty()
    } else {
        proof {
            vstd::seq::axiom_seq_len_decreases(nodes, nodes.drop_last());
        }
        nodes_view(nodes.drop_last()).push(node_view(*nodes.last()))
    }
}

/// The view of a node.
pub open spec fn node_view(n: DomNode) -> DomNodeV
    decreases n,
{
    DomNodeV {
        node_id: n.node_id,
        node_value: n.node_value@,
        local_name: n.local_name@,
        document_url: opt_text_view(n.document_url),
        node_name: n.node_name@,
        parent_id: n.parent_id,
        attributes: views(n.attributes@),
        children: nodes_view(n.children@),
    }
}

impl View for DomNode {
    type V = DomNodeV;

    open spec fn view(&self) -> DomNodeV {
        node_view(*self)
    }
}

/// The view of a sequence of nodes holds the view of each node.
pub proof fn lemma_nodes_view(nodes: Seq<Box<DomNode>>)
    ensures
        nodes_view(nodes).len() == nodes.len(),
        forall|i: int| 0 <= i < nodes.len() ==> #[trigger] nodes_view(nodes)[i] == (*nodes[i])@,
    decreases nodes.len(),
{
    if nodes.len() > 0 {
        lemma_nodes_view(nodes.drop_last());
    }
}

/// The children of a node as read by [`dom_node_from_json`]: an absent
/// member is no children.
pub open spec fn children_json(j: JsonV) -> Option<Seq<JsonV>> {
    match j.get("children"@) {
        None => Some(Seq::empty()),
        Some(JsonV::Array(items)) => Some(items),
        _ => None,
    }
}

/// The attributes of a node as read by [`dom_node_from_json`]: an absent
/// member is no attributes.
pub open spec fn attributes_json(j: JsonV) -> Option<Seq<Seq<char>>> {
    match j.get("attributes"@) {
        None => Some(Seq::empty()),
        Some(a) => spec_array_from_json::<String>(a),
    }
}

/// The children array of a node is part of the node.
pub proof fn lemma_children_decrease(j: JsonV)
    ensures
        children_json(j) matches Some(items) ==> (items.len() == 0 || decreases_to!(j => items)),
{
    lemma_get_decreases(j, "children"@);
    if let Some(JsonV::Array(items)) = j.get("children"@) {
        let c = j.get("children"@)->Some_0;
        assert(decreases_to!(c => c->Array_0));
    }
}

/// Reads a sequence of nodes; fails if any of them fails.
pub open spec fn nodes_from_json(items: Seq<JsonV>) -> Option<Seq<DomNodeV>>
    decreases items,
{
    if items.len() == 0 {
        Some(Seq::empty())
    } else {
        proof {
            vstd::seq::axiom_seq_len_decreases(items, items.drop_last());
        }
        match (nodes_from_json(items.drop_last()), dom_node_from_json(items.last())) {
            (Some(first), Some(last)) => Some(first.push(last)),
            _ => None,
        }
    }
}

/// Reads a node and its children: `nodeId`, `nodeValue`, `localName`,
/// `nodeName` are required; `documentUrl` and `parentId` may be absent or
/// `null`; `attributes` (strings) and `children` (nodes) may be absent.
/// Other members are ignored.
pub open spec fn dom_node_from_json(j: JsonV) -> Option<DomNodeV>
    decreases j,
{
    match (
        i32_member(j, "nodeId"@),
        str_member(j, "nodeValue"@),
        str_member(j, "localName"@),
        opt_str_member(j, "documentUrl"@),
        str_member(j, "nodeName"@),
        opt_i32_member(j, "parentId"@),
        attributes_json(j),
        children_json(j),
    ) {
        (
            Some(node_id),
            Some(node_value),
            Some(local_name),
            Some(document_url),
            Some(node_name),
            Some(parent_id),
            Some(attributes),
            Some(items),
        ) => {
            let children = if items.len() == 0 {
                Some(Seq::empty())
            } else {
                proof {
                    lemma_children_decrease(j);
                }
                nodes_from_json(items)
            };
            match children {
                Some(children) => Some(
                    DomNodeV {
                        node_id,
                        node_value,
                        local_name,
                        document_url,
                        node_name: node_name_from_text(node_name),
                        parent_id,
                        attributes,
                        children,
                    },
                ),
                None => None,
            }
        },
        _ => None,
    }
}

impl DomNode {
    /// Reads a node and its children.
    pub fn read(j: &Json) -> (r: Option<DomNode>)
        ensures
            match r {
                Some(n) => dom_node_from_json(j@) == Some(n@),
                None => dom_node_from_json(j@) is None,
            },
        decreases j@,
    {
        let node_id = match j.i32_member("nodeId") {
            Some(v) => v,
            None => {
                return None;
            },
        };
        let node_value = match j.str_member("nodeValue") {
            Some(v) => v,
            None => {
                return None;
            },
        };
        let local_name = match j.str_member("localName") {
            Some(v) => v,
            None => {
                return None;
            },
        };
        let document_url = match j.opt_str_member("documentUrl") {
            Some(v) => v,
            None => {
                return None;
            },
        };
        let node_name = match j.str_member("nodeName") {
            Some(v) => NodeName::from_text(v.as_str()),
            None => {
                return None;
            },
        };
        let parent_id = match j.opt_i32_member("parentId") {
            Some(v) => v,
            None => {
                return None;
            },
        };
        let attributes: Vec<String> = match j.get("attributes") {
            None => Vec::new(),
            Some(a) => match array_from_json::<String>(a) {
                Some(v) => v,
                None => {
                    return None;
                },
            },
        };
        proof {
            assert(views(attributes@) == attributes_json(j@)->Some_0);
        }
        let mut children: Vec<Box<DomNode>> = Vec::new();
        match j.get("children") {
            None => {
                proof {
                    lemma_nodes_view(children@);
                    assert(nodes_view(children@) =~= Seq::empty());
                }
            },
            Some(c) => {
                let items = match c {
                    Json::Array(items) => items,
                    _ => {
                        return None;
                    },
                };
                proof {
                    lemma_array_view(*items);
                    lemma_children_decrease(j@);
                }
                let ghost iv = Seq::new(items@.len(), |i: int| items@[i]@);
                assert(children_json(j@) == Some(iv));
                let n = items.len();
                assert(iv.take(0) =~= Seq::<JsonV>::empty());
                for i in 0..n
                    invariant
                        n == items.len(),
                        iv == Seq::new(items@.len(), |i: int| items@[i]@),
                        children_json(j@) == Some(iv),
                        iv.len() == 0 || decreases_to!(j@ => iv),
                        children.len() == i,
                        nodes_from_json(iv.take(i as int)) == Some(nodes_view(children@)),
                {
                    proof {
                        assert(decreases_to!(iv => iv[i as int]));
                    }
                    match DomNode::read(&items[i]) {
                        Some(child) => {
                            let ghost before = children@;
                            children.push(Box::new(child));
                            proof {
                                assert(iv.take(i + 1).drop_last() =~= iv.take(i as int));
                                assert(children@.drop_last() =~= before);
                                vstd::seq::axiom_seq_len_decreases(iv.take(i + 1), iv.take(i as int));
                            }
                        },
                        None => {
                            proof {
                                assert(iv.take(i + 1).drop_last() =~= iv.take(i as int));
                                assert(iv.take(i + 1).last() == iv[i as int]);
                                assert(nodes_from_json(iv.take(i + 1)) is None);
                                lemma_nodes_fail_extends(iv, i + 1);
                                assert(iv.take(n as int) =~= iv);
                            }
                            return None;
                        },
                    }
                }
                assert(iv.take(n as int) =~= iv);
            },
        }
        Some(
            DomNode {
                node_id,
                node_value,
                local_name,
                document_url,
                node_name,
                parent_id,
                attributes,
                children,
            },
        )
    }
}

/// If a prefix of the items fails to read, so do the items.
pub proof fn lemma_nodes_fail_extends(items: Seq<JsonV>, k: int)
    requires
        0 <= k <= items.len(),
        nodes_from_json(items.take(k)) is None,
    ensures
        nodes_from_json(items) is None,
    decreases items.len() - k,
{
    if k < items.len() {
        assert(items.take(k + 1).drop_last() =~= items.take(k));
        lemma_nodes_fail_extends(items, k + 1);
    } else {
        assert(items.take(k) =~= items);
    }
}

/// A copy of a list of strings.
pub fn copy_texts(v: &Vec<String>) -> (r: Vec<String>)
    ensures
        views(r@) == views(v@),
{
    let mut out: Vec<String> = Vec::new();
    let n = v.len();
    for i in 0..n
        invariant
            n == v.len(),
            out.len() == i,
            forall|k: int| 0 <= k < i ==> #[trigger] out@[k]@ == v@[k]@,
    {
        out.push(v[i].clone());
    }
    assert(views(out@) =~= views(v@));
    out
}

impl DomNode {
    /// A copy of the node and its children.
    pub fn copy(&self) -> (r: DomNode)
        ensures
            r@ == self@,
        decreases self,
    {
        let mut children: Vec<Box<DomNode>> = Vec::new();
        let n = self.children.len();
        for i in 0..n
            invariant
                n == self.children.len(),
                children.len() == i,
                forall|k: int| 0 <= k < i ==> (*#[trigger] children@[k])@ == (*self.children@[k])@,
        {
            proof {
                assert(decreases_to!(self => self.children));
                assert(decreases_to!(self.children => self.children@));
                assert(decreases_to!(self.children@ => self.children@[i as int]));
                assert(decreases_to!(self => *self.children@[i as int]));
            }
            let c = self.children[i].copy();
            children.push(Box::new(c));
        }
        proof {
            lemma_nodes_view(children@);
            lemma_nodes_view(self.children@);
            assert(nodes_view(children@) =~= nodes_view(self.children@));
        }
        DomNode {
            node_id: self.node_id,
            node_value: self.node_value.clone(),
            local_name: self.local_name.clone(),
            document_url: copy_opt_text(&self.document_url),
            node_name: self.node_name.copy(),
            parent_id: self.parent_id,
            attributes: copy_texts(&self.attributes),
            children,
        }
    }
}

impl Clone for DomNode {
    fn clone(&self) -> (r: Self)
        ensures
            r@ == self@,
    {
        self.copy()
    }
}

impl Clone for NodeName {
    fn clone(&self) -> (r: Self)
        ensures
            r@ == self@,
    {
        self.copy()
    }
}

impl Default for NodeName {
    fn default() -> (r: Self)
        ensures
            r@ == NodeNameV::Document,
    {
        NodeName::Document
    }
}

impl Default for DomNode {
    fn default() -> (r: Self)
        ensures
            r@ == empty_node_v(),
    {
        let r = DomNode {
            node_id: 0,
            node_value: String::new(),
            local_name: String::new(),
            document_url: None,
            node_name: NodeName::Document,
            parent_id: None,
            attributes: Vec::new(),
            children: Vec::new(),
        };
        proof {
            lemma_nodes_view(r.children@);
            assert(r@.children =~= Seq::empty());
            assert(r@.attributes =~= Seq::empty());
        }
        r
    }
}

impl FromJson for DomNode {
    open spec fn spec_from_json(j: JsonV) -> Option<DomNodeV> {
        dom_node_from_json(j)
    }

    fn from_json(j: &Json) -> (r: Option<DomNode>) {
        DomNode::read(j)
    }

    open spec fn spec_failure(j: JsonV) -> Seq<char> {
        if i32_member(j, "nodeId"@) is None {
            bad_member("nodeId"@)
        } else if str_member(j, "nodeValue"@) is None {
            bad_member("nodeValue"@)
        } else if str_member(j, "localName"@) is None {
            bad_member("localName"@)
        } else if opt_str_member(j, "documentUrl"@) is None {
            bad_member("documentUrl"@)
        } else if str_member(j, "nodeName"@) is None {
            bad_member("nodeName"@)
        } else if opt_i32_member(j, "parentId"@) is None {
            bad_member("parentId"@)
        } else if attributes_json(j) is None {
            bad_member("attributes"@)
        } else if children_json(j) is None {
            bad_member("children"@)
        } else {
            in_member("children"@, "a child node does not have the expected form"@)
        }
    }

    fn failure(j: &Json) -> (r: String) {
        let attributes_ok = match j.get("attributes") {
            None => true,
            Some(a) => array_from_json::<String>(a).is_some(),
        };
        let children_ok = match j.get("children") {
            None => true,
            Some(Json::Array(_)) => true,
            Some(_) => false,
        };
        if j.i32_member("nodeId").is_none() {
            bad_member_text("nodeId")
        } else if j.str_member("nodeValue").is_none() {
            bad_member_text("nodeValue")
        } else if j.str_member("localName").is_none() {
            bad_member_text("localName")
        } else if j.opt_str_member("documentUrl").is_none() {
            bad_member_text("documentUrl")
        } else if j.str_member("nodeName").is_none() {
            bad_member_text("nodeName")
        } else if j.opt_i32_member("parentId").is_none() {
            bad_member_text("parentId")
        } else if !attributes_ok {
            bad_member_text("attributes")
        } else if !children_ok {
            bad_member_text("children")
        } else {
            in_member_text("children", "a child node does not have the expected form")
        }
    }
}

/// An element in the DOM, all elements are matched not just
/// html tags including `#document` and `#text`.
#[derive(Debug)]
pub struct Element {
    node_id: i32,
    session: CDPSession,
}

impl View for Element {
    type V = i32;

    /// The node of the element.
    closed spec fn view(&self) -> i32 {
        self.node_id
    }
}

impl Element {
    pub fn new(node_id: i32, session: CDPSession) -> (e: Self)
        ensures
            e@ == node_id,
            e.session() == session,
    {
        Self { node_id, session }
    }

    pub closed spec fn session(&self) -> CDPSession {
        self.session
    }

    pub fn node_id(&self) -> (r: i32)
        ensures
            r == self@,
    {
        self.node_id
    }

    /// The session the element was found in.
    pub fn cdp_session(&self) -> (r: &CDPSession)
        ensures
            *r == self.session(),
    {
        &self.session
    }
}

/// Html attributes
#[derive(Debug, Clone, PartialEq, Eq)]
pub enum Attribute {
    Href(String),
    Id(String),
    Class(String),
    Unknown(String),
}

/// The first node named `name` in the tree under `n`, in document order:
/// `n` itself, then the trees of its children in turn.
pub open spec fn find_named(n: DomNodeV, name: NodeNameV) -> Option<DomNodeV>
    decreases n,
{
    if n.node_name == name {
        Some(n)
    } else {
        find_in(n.children, name)
    }
}

/// The first node named `name` in the trees of `nodes`, in order.
pub open spec fn find_in(nodes: Seq<DomNodeV>, name: NodeNameV) -> Option<DomNodeV>
    decreases nodes,
{
    if nodes.len() == 0 {
        None
    } else {
        proof {
            vstd::seq::axiom_seq_len_decreases(nodes, nodes.drop_first());
        }
        match find_named(nodes[0], name) {
            Some(found) => Some(found),
            None => find_in(nodes.drop_first(), name),
        }
    }
}

impl DomNode {
    /// The first node named `name` in the tree under this node, in document
    /// order (the node itself first, then its children's trees in turn).
    pub fn get_by_name(&self, name: &NodeName) -> (r: Option<DomNode>)
        ensures
            match r {
                Some(n) => find_named(self@, name@) == Some(n@),
                None => find_named(self@, name@) is None,
            },
        decreases self,
    {
        if self.node_name.same(name) {
            return Some(self.copy());
        }
        proof {
            lemma_nodes_view(self.children@);
        }
        let ghost kids = nodes_view(self.children@);
        assert(kids.skip(0) =~= kids);
        assert(self@.children == kids);
        assert(find_named(self@, name@) == find_in(kids, name@));
        let n = self.children.len();
        for i in 0..n
            invariant
                n == self.children.len(),
                kids == nodes_view(self.children@),
                kids.len() == n,
                forall|k: int| 0 <= k < n ==> #[trigger] kids[k] == (*self.children@[k])@,
                find_in(kids, name@) == find_in(kids.skip(i as int), name@),
                find_named(self@, name@) == find_in(kids, name@),
        {
            proof {
                assert(decreases_to!(self => self.children));
                assert(decreases_to!(self.children => self.children@));
                assert(decreases_to!(self.children@ => self.children@[i as int]));
                assert(decreases_to!(self => *self.children@[i as int]));
            }
            let ghost rest = kids.skip(i as int);
            assert(rest[0] == kids[i as int]);
            assert(rest.drop_first() =~= kids.skip(i + 1));
            match self.children[i].get_by_name(name) {
                Some(found) => {
                    return Some(found);
                },
                None => {},
            }
        }
        assert(kids.skip(n as int).len() == 0);
        None
    }
}

/// A node found by name has that name.
pub proof fn lemma_found_has_name(n: DomNodeV, name: NodeNameV)
    ensures
        find_named(n, name) matches Some(found) ==> found.node_name == name,
    decreases n,
{
    if n.node_name != name {
        lemma_found_in_has_name(n.children, name);
    }
}

/// A node found by name among trees has that name.
pub proof fn lemma_found_in_has_name(nodes: Seq<DomNodeV>, name: NodeNameV)
    ensures
        find_in(nodes, name) matches Some(found) ==> found.node_name == name,
    decreases nodes,
{
    if nodes.len() > 0 {
        vstd::seq::axiom_seq_len_decreases(nodes, nodes.drop_first());
        lemma_found_has_name(nodes[0], name);
        lemma_found_in_has_name(nodes.drop_first(), name);
    }
}

/// Searching a tree whose root has the name finds the root.
pub proof fn lemma_root_found_first(n: DomNodeV)
    ensures
        find_named(n, n.node_name) == Some(n),
{
}


/// Node names are read as the browser writes them: `#document` and `#text`,
/// and the element names in upper case (a few also in lower case); any other
/// text is an unknown node that keeps its text.
#[verifier::rlimit(50)]
pub proof fn lemma_node_name_table(s: Seq<char>)
    ensures
        node_name_from_text("#document"@) == NodeNameV::Document,
        node_name_from_text("#text"@) == NodeNameV::Text,
        node_name_from_text("TITLE"@) == NodeNameV::Title,
        node_name_from_text("A"@) == NodeNameV::A,
        node_name_from_text("META"@) == NodeNameV::Meta,
        node_name_from_text("P"@) == NodeNameV::P,
        node_name_from_text("STYLE"@) == NodeNameV::Style,
        node_name_from_text("H1"@) == NodeNameV::H1,
        node_name_from_text("H2"@) == NodeNameV::H2,
        node_name_from_text("H3"@) == NodeNameV::H3,
        node_name_from_text("H4"@) == NodeNameV::H4,
        node_name_from_text("H5"@) == NodeNameV::H5,
        node_name_from_text("H6"@) == NodeNameV::H6,
        node_name_from_text("BR"@) == NodeNameV::Br,
        node_name_from_text("IMG"@) == NodeNameV::Img,
        node_name_from_text("DIV"@) == NodeNameV::Div,
        node_name_from_text("HTML"@) == NodeNameV::Html,
        node_name_from_text("html"@) == NodeNameV::Html,
        node_name_from_text("BODY"@) == NodeNameV::Body,
        node_name_from_text("HEAD"@) == NodeNameV::Head,
        node_name_from_text("SCRIPT"@) == NodeNameV::Script,
        node_name_from_text("LINK"@) == NodeNameV::Link,
        node_name_from_text("SVG"@) == NodeNameV::Svg,
        node_name_from_text("svg"@) == NodeNameV::Svg,
        node_name_from_text("ABBR"@) == NodeNameV::Abbr,
        node_name_from_text("AREA"@) == NodeNameV::Area,
        node_name_from_text("ARTICLE"@) == NodeNameV::Article,
        node_name_from_text("ASIDE"@) == NodeNameV::Aside,
        node_name_from_text("AUDIO"@) == NodeNameV::Audio,
        node_name_from_text("B"@) == NodeNameV::B,
        node_name_from_text("BASE"@) == NodeNameV::Base,
        node_name_from_text("CODE"@) == NodeNameV::Code,
        node_name_from_text("COL"@) == NodeNameV::Col,
        node_name_from_text("DATA"@) == NodeNameV::Data,
        node_name_from_text("DATALIST"@) == NodeNameV::DataList,
        node_name_from_text("FORM"@) == NodeNameV::Form,
        node_name_from_text("INPUT"@) == NodeNameV::Input,
        node_name_from_text("LABEL"@) == NodeNameV::Label,
        node_name_from_text("BUTTON"@) == NodeNameV::Button,
        node_name_from_text("IFRAME"@) == NodeNameV::Iframe,
        node_name_from_text("LI"@) == NodeNameV::Li,
        node_name_from_text("UL"@) == NodeNameV::Ul,
        node_name_from_text("OL"@) == NodeNameV::Ol,
        node_name_from_text("MAIN"@) == NodeNameV::Main,
        node_name_from_text("MENU"@) == NodeNameV::Menu,
        node_name_from_text("HEADER"@) == NodeNameV::Header,
        node_name_from_text("PATH"@) == NodeNameV::Path,
        node_name_from_text("path"@) == NodeNameV::Path,
        node_name_from_text("NOSCRIPT"@) == NodeNameV::NoScript,
        node_name_from_text("IMAGE"@) == NodeNameV::Image,
        node_name_from_text("image"@) == NodeNameV::Image,
        node_name_from_text("NAV"@) == NodeNameV::Nav,
        node_name_from_text("SELECT"@) == NodeNameV::Select,
        node_name_from_text("SEARCH"@) == NodeNameV::Search,
        node_name_from_text("SECTION"@) == NodeNameV::Section,
        node_name_from_text("SPAN"@) == NodeNameV::Span,
        node_name_from_text("TABLE"@) == NodeNameV::Table,
        node_name_from_text("DIALOG"@) == NodeNameV::Dialog,
        node_name_from_text("TEXTAREA"@) == NodeNameV::TextArea,
        node_name_from_text("HR"@) == NodeNameV::Hr,
        node_name_from_text("RECT"@) == NodeNameV::Rect,
        node_name_from_text("rect"@) == NodeNameV::Rect,
        node_name_from_text("TRACK"@) == NodeNameV::Track,
        node_name_from_text("VIDEO"@) == NodeNameV::Video,
        node_name_from_text("TR"@) == NodeNameV::Tr,
        node_name_from_text("CENTER"@) == NodeNameV::Center,
        node_name_from_text("G"@) == NodeNameV::G,
        node_name_from_text("g"@) == NodeNameV::G,
        node_name_from_text("CIRCLE"@) == NodeNameV::Circle,
        node_name_from_text("circle"@) == NodeNameV::Circle,
        node_name_from_text(s) is Unknown ==> node_name_from_text(s) == NodeNameV::Unknown(s),
{
    reveal_strlit("#document");
    reveal_strlit("#text");
    reveal_strlit("TITLE");
    reveal_strlit("A");
    reveal_strlit("META");
    reveal_strlit("P");
    reveal_strlit("STYLE");
    reveal_strlit("H1");
    reveal_strlit("H2");
    reveal_strlit("H3");
    reveal_strlit("H4");
    reveal_strlit("H5");
    reveal_strlit("H6");
    reveal_strlit("BR");
    reveal_strlit("IMG");
    reveal_strlit("DIV");
    reveal_strlit("HTML");
    reveal_strlit("html");
    reveal_strlit("BODY");
    reveal_strlit("HEAD");
    reveal_strlit("SCRIPT");
    reveal_strlit("LINK");
    reveal_strlit("SVG");
    reveal_strlit("svg");
    reveal_strlit("ABBR");
    reveal_strlit("AREA");
    reveal_strlit("ARTICLE");
    reveal_strlit("ASIDE");
    reveal_strlit("AUDIO");
    reveal_strlit("B");
    reveal_strlit("BASE");
    reveal_strlit("CODE");
    reveal_strlit("COL");
    reveal_strlit("DATA");
    reveal_strlit("DATALIST");
    reveal_strlit("FORM");
    reveal_strlit("INPUT");
    reveal_strlit("LABEL");
    reveal_strlit("BUTTON");
    reveal_strlit("IFRAME");
    reveal_strlit("LI");
    reveal_strlit("UL");
    reveal_strlit("OL");
    reveal_strlit("MAIN");
    reveal_strlit("MENU");
    reveal_strlit("HEADER");
    reveal_strlit("PATH");
    reveal_strlit("path");
    reveal_strlit("NOSCRIPT");
    reveal_strlit("IMAGE");
    reveal_strlit("image");
    reveal_strlit("NAV");
    reveal_strlit("SELECT");
    reveal_strlit("SEARCH");
    reveal_strlit("SECTION");
    reveal_strlit("SPAN");
    reveal_strlit("TABLE");
    reveal_strlit("DIALOG");
    reveal_strlit("TEXTAREA");
    reveal_strlit("HR");
    reveal_strlit("RECT");
    reveal_strlit("rect");
    reveal_strlit("TRACK");
    reveal_strlit("VIDEO");
    reveal_strlit("TR");
    reveal_strlit("CENTER");
    reveal_strlit("G");
    reveal_strlit("g");
    reveal_strlit("CIRCLE");
    reveal_strlit("circle");
    assert("#document"@.len() == 9);
    assert("#text"@.len() == 5);
    assert("TITLE"@.len() == 5);
    assert("A"@.len() == 1);
    assert("META"@.len() == 4);
    assert("P"@.len() == 1);
    assert("STYLE"@.len() == 5);
    assert("H1"@.len() == 2);
    assert("H2"@.len() == 2);
    assert("H3"@.len() == 2);
    assert("H4"@.len() == 2);
    assert("H5"@.len() == 2);
    assert("H6"@.len() == 2);
    assert("BR"@.len() == 2);
    assert("IMG"@.len() == 3);
    assert("DIV"@.len() == 3);
    assert("HTML"@.len() == 4);
    assert("html"@.len() == 4);
    assert("BODY"@.len() == 4);
    assert("HEAD"@.len() == 4);
    assert("SCRIPT"@.len() == 6);
    assert("LINK"@.len() == 4);
    assert("SVG"@.len() == 3);
    assert("svg"@.len() == 3);
    assert("ABBR"@.len() == 4);
    assert("AREA"@.len() == 4);
    assert("ARTICLE"@.len() == 7);
    assert("ASIDE"@.len() == 5);
    assert("AUDIO"@.len() == 5);
    assert("B"@.len() == 1);
    assert("BASE"@.len() == 4);
    assert("CODE"@.len() == 4);
    assert("COL"@.len() == 3);
    assert("DATA"@.len() == 4);
    assert("DATALIST"@.len() == 8);
    assert("FORM"@.len() == 4);
    assert("INPUT"@.len() == 5);
    assert("LABEL"@.len() == 5);
    assert("BUTTON"@.len() == 6);
    assert("IFRAME"@.len() == 6);
    assert("LI"@.len() == 2);
    assert("UL"@.len() == 2);
    assert("OL"@.len() == 2);
    assert("MAIN"@.len() == 4);
    assert("MENU"@.len() == 4);
    assert("HEADER"@.len() == 6);
    assert("PATH"@.len() == 4);
    assert("path"@.len() == 4);
    assert("NOSCRIPT"@.len() == 8);
    assert("IMAGE"@.len() == 5);
    assert("image"@.len() == 5);
    assert("NAV"@.len() == 3);
    assert("SELECT"@.len() == 6);
    assert("SEARCH"@.len() == 6);
    assert("SECTION"@.len() == 7);
    assert("SPAN"@.len() == 4);
    assert("TABLE"@.len() == 5);
    assert("DIALOG"@.len() == 6);
    assert("TEXTAREA"@.len() == 8);
    assert("HR"@.len() == 2);
    assert("RECT"@.len() == 4);
    assert("rect"@.len() == 4);
    assert("TRACK"@.len() == 5);
    assert("VIDEO"@.len() == 5);
    assert("TR"@.len() == 2);
    assert("CENTER"@.len() == 6);
    assert("G"@.len() == 1);
    assert("g"@.len() == 1);
    assert("CIRCLE"@.len() == 6);
    assert("circle"@.len() == 6);
    assert("#text"@[0] == '#');
    assert("TITLE"@[0] == 'T');
    assert("STYLE"@[0] == 'S');
    assert("ASIDE"@[0] == 'A');
    assert("AUDIO"@[0] == 'A');
    assert("INPUT"@[0] == 'I');
    assert("LABEL"@[0] == 'L');
    assert("IMAGE"@[0] == 'I');
    assert("image"@[0] == 'i');
    assert("TABLE"@[0] == 'T');
    assert("TRACK"@[0] == 'T');
    assert("VIDEO"@[0] == 'V');
    assert("TITLE"@[1] == 'I');
    assert("TABLE"@[1] == 'A');
    assert("TRACK"@[1] == 'R');
    assert("A"@[0] == 'A');
    assert("P"@[0] == 'P');
    assert("B"@[0] == 'B');
    assert("G"@[0] == 'G');
    assert("g"@[0] == 'g');
    assert("META"@[0] == 'M');
    assert("HTML"@[0] == 'H');
    assert("html"@[0] == 'h');
    assert("BODY"@[0] == 'B');
    assert("HEAD"@[0] == 'H');
    assert("LINK"@[0] == 'L');
    assert("ABBR"@[0] == 'A');
    assert("AREA"@[0] == 'A');
    assert("BASE"@[0] == 'B');
    assert("CODE"@[0] == 'C');
    assert("DATA"@[0] == 'D');
    assert("FORM"@[0] == 'F');
    assert("META"@[1] == 'E');
    assert("MAIN"@[1] == 'A');
    assert("META"@[2] == 'T');
    assert("MENU"@[2] == 'N');
    assert("PATH"@[0] == 'P');
    assert("path"@[0] == 'p');
    assert("SPAN"@[0] == 'S');
    assert("RECT"@[0] == 'R');
    assert("rect"@[0] == 'r');
    assert("H1"@[1] == '1');
    assert("H2"@[1] == '2');
    assert("H3"@[1] == '3');
    assert("H4"@[1] == '4');
    assert("H5"@[1] == '5');
    assert("H6"@[1] == '6');
    assert("H1"@[0] == 'H');
    assert("BR"@[0] == 'B');
    assert("LI"@[0] == 'L');
    assert("UL"@[0] == 'U');
    assert("OL"@[0] == 'O');
    assert("HR"@[1] == 'R');
    assert("TR"@[0] == 'T');
    assert("H2"@[0] == 'H');
    assert("H3"@[0] == 'H');
    assert("H4"@[0] == 'H');
    assert("H5"@[0] == 'H');
    assert("H6"@[0] == 'H');
    assert("HR"@[0] == 'H');
    assert("IMG"@[0] == 'I');
    assert("DIV"@[0] == 'D');
    assert("SVG"@[0] == 'S');
    assert("svg"@[0] == 's');
    assert("COL"@[0] == 'C');
    assert("NAV"@[0] == 'N');
    assert("HTML"@[1] == 'T');
    assert("HEAD"@[1] == 'E');
    assert("MAIN"@[0] == 'M');
    assert("MENU"@[0] == 'M');
    assert("BODY"@[1] == 'O');
    assert("BASE"@[1] == 'A');
    assert("SCRIPT"@[0] == 'S');
    assert("BUTTON"@[0] == 'B');
    assert("IFRAME"@[0] == 'I');
    assert("HEADER"@[0] == 'H');
    assert("SCRIPT"@[1] == 'C');
    assert("SELECT"@[1] == 'E');
    assert("SEARCH"@[1] == 'E');
    assert("DIALOG"@[0] == 'D');
    assert("CENTER"@[0] == 'C');
    assert("CIRCLE"@[0] == 'C');
    assert("circle"@[0] == 'c');
    assert("ABBR"@[1] == 'B');
    assert("AREA"@[1] == 'R');
    assert("ARTICLE"@[0] == 'A');
    assert("SECTION"@[0] == 'S');
    assert("ASIDE"@[1] == 'S');
    assert("AUDIO"@[1] == 'U');
    assert("DATALIST"@[0] == 'D');
    assert("NOSCRIPT"@[0] == 'N');
    assert("TEXTAREA"@[0] == 'T');
    assert("INPUT"@[1] == 'N');
    assert("IMAGE"@[1] == 'M');
    assert("SELECT"@[0] == 'S');
    assert("SEARCH"@[0] == 'S');
    assert("MENU"@[1] == 'E');
    assert("SELECT"@[2] == 'L');
    assert("SEARCH"@[2] == 'A');
    assert("CENTER"@[1] == 'E');
    assert("CIRCLE"@[1] == 'I');
}


/// A node is read from `nodeId`, `nodeValue`, `localName`, `documentUrl`,
/// `nodeName` and `parentId`, each into its own field; `attributes` holds
/// its attribute strings in order (none when absent) and `children` its
/// child nodes, each read as a node, in order (none when absent).
pub proof fn lemma_dom_node_members(j: JsonV)
    ensures
        dom_node_from_json(j) matches Some(n) ==> {
            &&& i32_member(j, "nodeId"@) == Some(n.node_id)
            &&& str_member(j, "nodeValue"@) == Some(n.node_value)
            &&& str_member(j, "localName"@) == Some(n.local_name)
            &&& opt_str_member(j, "documentUrl"@) == Some(n.document_url)
            &&& str_member(j, "nodeName"@) matches Some(t) && n.node_name == node_name_from_text(t)
            &&& opt_i32_member(j, "parentId"@) == Some(n.parent_id)
            &&& match j.get("attributes"@) {
                None => n.attributes.len() == 0,
                Some(a) => spec_array_from_json::<String>(a) == Some(n.attributes),
            }
            &&& match j.get("children"@) {
                None => n.children.len() == 0,
                Some(JsonV::Array(items)) => nodes_from_json(items) == Some(n.children),
                Some(_) => false,
            }
        },
        (i32_member(j, "nodeId"@) is Some && str_member(j, "nodeValue"@) is Some && str_member(
            j,
            "localName"@,
        ) is Some && opt_str_member(j, "documentUrl"@) is Some && str_member(j, "nodeName"@) is Some
            && opt_i32_member(j, "parentId"@) is Some && (match j.get("attributes"@) {
            None => true,
            Some(a) => spec_array_from_json::<String>(a) is Some,
        }) && (match j.get("children"@) {
            None => true,
            Some(JsonV::Array(items)) => forall|i: int|
                0 <= i < items.len() ==> (#[trigger] dom_node_from_json(items[i])) is Some,
            Some(_) => false,
        })) ==> dom_node_from_json(j) is Some,
{
    if let Some(JsonV::Array(items)) = j.get("children"@) {
        lemma_nodes_members(items);
    }
    if let Some(n) = dom_node_from_json(j) {
        if let Some(JsonV::Array(items)) = j.get("children"@) {
            if items.len() == 0 {
                assert(nodes_from_json(items) == Some(Seq::<DomNodeV>::empty()));
            }
        }
    }
}

/// Reading a sequence of nodes reads each of them, in order.
pub proof fn lemma_nodes_members(items: Seq<JsonV>)
    ensures
        nodes_from_json(items) matches Some(ns) ==> ns.len() == items.len() && forall|i: int|
            0 <= i < items.len() ==> dom_node_from_json(#[trigger] items[i]) == Some(ns[i]),
        (forall|i: int| 0 <= i < items.len() ==> (#[trigger] dom_node_from_json(items[i])) is Some)
            ==> nodes_from_json(items) is Some,
    decreases items.len(),
{
    if items.len() > 0 {
        lemma_nodes_members(items.drop_last());
        let ns = nodes_from_json(items);
        if ns is Some {
            let first = nodes_from_json(items.drop_last())->Some_0;
            assert forall|i: int| 0 <= i < items.len() implies dom_node_from_json(#[trigger] items[i]) == Some(ns->Some_0[i]) by {
                if i < items.len() - 1 {
                    assert(items.drop_last()[i] == items[i]);
                }
            }
        }
        if forall|i: int| 0 <= i < items.len() ==> (#[trigger] dom_node_from_json(items[i])) is Some {
            assert forall|i: int| 0 <= i < items.drop_last().len() implies (#[trigger] dom_node_from_json(items.drop_last()[i])) is Some by {
                assert(items.drop_last()[i] == items[i]);
            }
            assert(dom_node_from_json(items[items.len() - 1]) is Some);
        }
    }
}

} // verus!
