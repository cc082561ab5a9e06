//! Typed view of the host's JSON parser output.
//!
//! The parser itself runs in the host; it hands back a status integer and a
//! flat array of raw node records over the original text. This module decodes
//! that raw representation into typed nodes and a typed parse outcome.

use vstd::prelude::*;

verus! {

/// Why a parse failed.
#[derive(Clone, Copy, Debug, PartialEq, Eq, Structural)]
pub enum Error {
    SyntaxError,
    Incomplete,
    Unknown,
}

/// What a JSON node holds.
#[derive(Clone, Copy, Debug, PartialEq, Eq, Structural)]
pub enum Kind {
    Primitive,
    Object,
    Array,
    String,
}

/// The node kind that a host kind code stands for: `0` through `3` name the
/// four kinds; anything else falls back to a primitive.
pub open spec fn kind_from_code(code: u32) -> Kind {
    if code == 1 {
        Kind::Object
    } else if code == 2 {
        Kind::Array
    } else if code == 3 {
        Kind::String
    } else {
        Kind::Primitive
    }
}

impl Kind {
    /// Decodes a host node-kind code.
    pub fn from_code(code: u32) -> (k: Kind)
        ensures
            k == kind_from_code(code),
    {
        match code {
            1 => Kind::Object,
            2 => Kind::Array,
            3 => Kind::String,
            _ => Kind::Primitive,
        }
    }
}

/// One node record exactly as the host's parser lays it out: a kind code,
/// a byte range into the parsed text, a child count, and the index of the
/// next sibling, with `-1` for none.
#[derive(Clone, Copy, Debug, PartialEq, Eq, Structural)]
pub struct RawNode {
    pub kind: u32,
    pub start: i32,
    pub end: i32,
    pub size: i32,
    pub sibling: i32,
}

/// One parsed JSON node, with the host's sentinel sibling index decoded into
/// an option.
#[derive(Clone, Copy, Debug, PartialEq, Eq, Structural)]
pub struct Node {
    /// What the node holds.
    pub kind: Kind,
    /// Byte offset where the node's text begins.
    pub start: i32,
    /// Byte offset just past the node's text.
    pub end: i32,
    /// Number of child nodes.
    pub size: i32,
    /// Index of the next sibling node, if there is one.
    pub sibling: Option<i32>,
}

/// The typed node that a raw host record stands for.
pub open spec fn node_from_raw(raw: RawNode) -> Node {
    Node {
        kind: kind_from_code(raw.kind),
        start: raw.start,
        end: raw.end,
        size: raw.size,
        sibling: if raw.sibling == -1 {
            None
        } else {
            Some(raw.sibling)
        },
    }
}

impl Node {
    /// Decodes one raw node record.
    pub fn from_raw(raw: RawNode) -> (n: Node)
        ensures
            n == node_from_raw(raw),
    {
        let sibling = if raw.sibling == -1 {
            None
        } else {
            Some(raw.sibling)
        };
        Node { kind: Kind::from_code(raw.kind), start: raw.start, end: raw.end, size: raw.size, sibling }
    }
}

/// A fully decoded parse: the typed nodes and the text they index into.
pub struct Document {
    /// The parsed nodes, in the host's order.
    pub nodes: Vec<Node>,
    /// The text that was parsed.
    pub json: String,
}

/// The parse error that a nonzero host status stands for: `-1` is a syntax
/// error, `-2` an incomplete document, anything else is unknown.
pub open spec fn error_from_status(status: i32) -> Error {
    if status == -1 {
        Error::SyntaxError
    } else if status == -2 {
        Error::Incomplete
    } else {
        Error::Unknown
    }
}

/// Decodes one parser run: the host's status integer, its raw node records,
/// and the parsed text. A zero status yields the decoded document; any other
/// status yields the error it stands for.
pub fn decode_document(status: i32, raw_nodes: &Vec<RawNode>, json: String) -> (r: Result<
    Document,
    Error,
>)
    ensures
        status == 0 ==> (r matches Ok(doc) && doc.json == json && doc.nodes@.len()
            == raw_nodes@.len() && forall|i: int|
            0 <= i < raw_nodes@.len() ==> doc.nodes@[i] == node_from_raw(#[trigger] raw_nodes@[i])),
        status != 0 ==> r == Result::<Document, Error>::Err(error_from_status(status)),
{
    if status == 0 {
        let n = raw_nodes.len();
        let mut nodes: Vec<Node> = Vec::new();
        let mut i: usize = 0;
        while i < n
            invariant
                n == raw_nodes@.len(),
                0 <= i <= n,
                nodes@.len() == i,
                forall|j: int|
                    0 <= j < i ==> nodes@[j] == node_from_raw(#[trigger] raw_nodes@[j]),
            decreases n - i,
        {
            nodes.push(Node::from_raw(raw_nodes[i]));
            i += 1;
        }
        Ok(Document { nodes, json })
    } else if status == -1 {
        Err(Error::SyntaxError)
    } else if status == -2 {
        Err(Error::Incomplete)
    } else {
        Err(Error::Unknown)
    }
}

} // verus!
