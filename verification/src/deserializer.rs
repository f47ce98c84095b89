//! Access to a structured document, and a plain document tree.

use vstd::prelude::*;
use crate::text::str_equal;

verus! {

/// Read access to one node of a structured document: by key, as a sequence, as
/// a mapping, as a string, and to the tag that names the node's type.
pub trait Deserializer: Sized {
    /// The node under `key`, where this node is a mapping that has the key.
    spec fn field_of(&self, key: Seq<char>) -> Option<Self>;

    /// The tag that names the node's type, where it has one.
    spec fn type_tag(&self) -> Option<Seq<char>>;

    /// Whether the node is a mapping.
    spec fn is_mapping(&self) -> bool;

    /// The node's items, where it is a sequence.
    spec fn items(&self) -> Option<Seq<Self>>;

    /// The node's characters, where it is a string.
    spec fn text(&self) -> Option<Seq<char>>;

    /// The node under `key`.
    fn get_field(&self, key: &str) -> (r: Option<&Self>)
        ensures
            match r {
                Some(d) => self.field_of(key@) == Some(*d),
                None => self.field_of(key@) is None,
            },
    ;

    /// The node's type tag.
    fn get_type(&self) -> (r: Option<String>)
        ensures
            match r {
                Some(t) => self.type_tag() == Some(t@),
                None => self.type_tag() is None,
            },
    ;

    /// The node itself, where it is a mapping.
    fn as_map(&self) -> (r: Option<&Self>)
        ensures
            match r {
                Some(d) => self.is_mapping() && *d == *self,
                None => !self.is_mapping(),
            },
    ;

    /// The node's items in order, where it is a sequence.
    fn as_set(&self) -> (r: Option<Vec<&Self>>)
        ensures
            match r {
                Some(v) => self.items() matches Some(s) && s.len() == v.len() && forall|i: int|
                    0 <= i < v.len() ==> *v[i] == s[i],
                None => self.items() is None,
            },
    ;

    /// The node's characters, where it is a string.
    fn as_str(&self) -> (r: Option<&str>)
        ensures
            match r {
                Some(s) => self.text() == Some(s@),
                None => self.text() is None,
            },
    ;
}

/// What a document node holds.
#[derive(Debug)]
pub enum Content {
    /// Nothing.
    Empty,
    /// A string.
    Text(String),
    /// A sequence of nodes.
    Sequence(Vec<Document>),
    /// A mapping from keys to nodes, in the order of the document.
    Mapping(Vec<(String, Document)>),
}

/// A node of a document tree: its content, and the type tag it may carry.
#[derive(Debug)]
pub struct Document {
    pub tag: Option<String>,
    pub content: Content,
}

/// The node under the first entry whose key is `key`.
pub open spec fn lookup(entries: Seq<(String, Document)>, key: Seq<char>) -> Option<Document>
    decreases entries.len(),
{
    if entries.len() == 0 {
        None
    } else if entries[0].0@ == key {
        Some(entries[0].1)
    } else {
        lookup(entries.drop_first(), key)
    }
}

impl Document {
    /// A node without content or tag.
    pub fn empty() -> (r: Self)
        ensures
            r == (Document { tag: None, content: Content::Empty }),
    {
        Document { tag: None, content: Content::Empty }
    }

    /// A string node.
    pub fn text(s: &str) -> (r: Self)
        ensures
            r.tag is None,
            r.content matches Content::Text(t) && t@ == s@,
    {
        Document { tag: None, content: Content::Text(s.to_string()) }
    }

    /// A sequence node.
    pub fn list(items: Vec<Document>) -> (r: Self)
        ensures
            r == (Document { tag: None, content: Content::Sequence(items) }),
    {
        Document { tag: None, content: Content::Sequence(items) }
    }

    /// A mapping node.
    pub fn map(entries: Vec<(String, Document)>) -> (r: Self)
        ensures
            r == (Document { tag: None, content: Content::Mapping(entries) }),
    {
        Document { tag: None, content: Content::Mapping(entries) }
    }

    /// The same node under the type tag `tag`.
    pub fn tagged(self, tag: &str) -> (r: Self)
        ensures
            r.content == self.content,
            r.tag matches Some(t) && t@ == tag@,
    {
        Document { tag: Some(tag.to_string()), content: self.content }
    }
}

impl Deserializer for Document {
    open spec fn field_of(&self, key: Seq<char>) -> Option<Self> {
        match self.content {
            Content::Mapping(entries) => lookup(entries@, key),
            _ => None,
        }
    }

    open spec fn type_tag(&self) -> Option<Seq<char>> {
        match self.tag {
            Some(t) => Some(t@),
            None => None,
        }
    }

    open spec fn is_mapping(&self) -> bool {
        self.content is Mapping
    }

    open spec fn items(&self) -> Option<Seq<Self>> {
        match self.content {
            Content::Sequence(items) => Some(items@),
            _ => None,
        }
    }

    open spec fn text(&self) -> Option<Seq<char>> {
        match self.content {
            Content::Text(s) => Some(s@),
            _ => None,
        }
    }

    fn get_field(&self, key: &str) -> (r: Option<&Self>) {
        match &self.content {
            Content::Mapping(entries) => {
                let mut i: usize = 0;
                assert(entries@.subrange(0, entries.len() as int) =~= entries@);
                while i < entries.len()
                    invariant
                        i <= entries.len(),
                        self.field_of(key@) == lookup(entries@, key@),
                        lookup(entries@, key@) == lookup(
                            entries@.subrange(i as int, entries.len() as int),
                            key@,
                        ),
                    decreases entries.len() - i,
                {
                    let ghost rest = entries@.subrange(i as int, entries.len() as int);
                    assert(rest.drop_first() =~= entries@.subrange(i + 1, entries.len() as int));
                    if str_equal(entries[i].0.as_str(), key) {
                        return Some(&entries[i].1);
                    }
                    i += 1;
                }
                None
            },
            _ => None,
        }
    }

    fn get_type(&self) -> (r: Option<String>) {
        match &self.tag {
            Some(t) => Some(t.clone()),
            None => None,
        }
    }

    fn as_map(&self) -> (r: Option<&Self>) {
        match &self.content {
            Content::Mapping(_) => Some(self),
            _ => None,
        }
    }

    fn as_set(&self) -> (r: Option<Vec<&Self>>) {
        match &self.content {
            Content::Sequence(items) => {
                let mut out: Vec<&Document> = Vec::new();
                let mut i: usize = 0;
                while i < items.len()
                    invariant
                        i <= items.len(),
                        out.len() == i,
                        forall|j: int| 0 <= j < i ==> *out[j] == items[j],
                    decreases items.len() - i,
                {
                    out.push(&items[i]);
                    i += 1;
                }
                Some(out)
            },
            _ => None,
        }
    }

    fn as_str(&self) -> (r: Option<&str>) {
        match &self.content {
            Content::Text(s) => Some(s.as_str()),
            _ => None,
        }
    }
}

} // verus!
