//! Attribute sets: ordered key/value collections attached to tree nodes.
//!
//! A value can hold a date-time, a nested attribute set, or a content
//! accessor; an attribute may also carry no value at all, which is how
//! the `"file"` and `"directory"` markers are written.

use vstd::prelude::*;

use crate::metadata::FsMetadata;
use crate::metadata::Timestamp;
use crate::vfile::LocalVFileBuilder;

verus! {

/// A typed attribute value.
pub enum Value {
    /// A point in time.
    DateTime(Timestamp),
    /// A nested attribute set.
    Attributes(Attributes),
    /// A deferred-open content accessor.
    VFileBuilder(LocalVFileBuilder),
}

/// One attribute: a key with an optional value (`None` for a marker).
pub struct Attribute {
    pub name: String,
    pub value: Option<Value>,
}

/// An ordered attribute set; keys keep their insertion order.
pub struct Attributes {
    pub entries: Vec<Attribute>,
}

impl View for Attributes {
    type V = Seq<(Seq<char>, Option<Value>)>;

    open spec fn view(&self) -> Seq<(Seq<char>, Option<Value>)> {
        self.entries@.map_values(|a: Attribute| (a.name@, a.value))
    }
}

impl Attributes {
    /// Creates an empty attribute set.
    pub fn new() -> (r: Attributes)
        ensures
            r@ == Seq::<(Seq<char>, Option<Value>)>::empty(),
    {
        let r = Attributes { entries: Vec::new() };
        proof {
            assert(r@ =~= Seq::<(Seq<char>, Option<Value>)>::empty());
        }
        r
    }

    /// Appends one attribute at the end of the set.
    pub fn add_attribute(&mut self, name: &str, value: Option<Value>) -> (r: ())
        ensures
            final(self)@ == old(self)@.push((name@, value)),
    {
        let attr = Attribute { name: name.to_owned(), value };
        self.entries.push(attr);
        proof {
            assert(self@ =~= old(self)@.push((name@, value)));
        }
    }
}

/// The attribute set that one metadata query maps to: each of
/// `accessed`, `created` and `modified` is present exactly when the
/// platform reported it, in that order, and nothing else is.
pub open spec fn time_attrs(m: FsMetadata) -> Seq<(Seq<char>, Option<Value>)> {
    let s0 = Seq::<(Seq<char>, Option<Value>)>::empty();
    let s1 = if m.accessed is Some {
        s0.push(("accessed"@, Some(Value::DateTime(m.accessed->0))))
    } else {
        s0
    };
    let s2 = if m.created is Some {
        s1.push(("created"@, Some(Value::DateTime(m.created->0))))
    } else {
        s1
    };
    if m.modified is Some {
        s2.push(("modified"@, Some(Value::DateTime(m.modified->0))))
    } else {
        s2
    }
}

} // verus!
