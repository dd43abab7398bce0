//! Decorations that arrive before the item they belong to, kept until that
//! item is defined.

use crate::ir::Binding;
use crate::words::{BuiltIn, Word};
use vstd::prelude::*;

verus! {

/// What has been said so far of an id, or of a member of a struct, that is not
/// defined yet.
#[derive(Debug, PartialEq, Eq)]
pub struct Decoration {
    pub name: Option<String>,
    pub built_in: Option<BuiltIn>,
    pub location: Option<Word>,
    pub desc_set: Option<Word>,
    pub desc_index: Option<Word>,
}

/// The model of a `Decoration`.
pub struct DecorationView {
    pub name: Option<Seq<char>>,
    pub built_in: Option<BuiltIn>,
    pub location: Option<Word>,
    pub desc_set: Option<Word>,
    pub desc_index: Option<Word>,
}

impl DeepView for Decoration {
    type V = DecorationView;

    open spec fn deep_view(&self) -> DecorationView {
        DecorationView {
            name: self.name.deep_view(),
            built_in: self.built_in,
            location: self.location,
            desc_set: self.desc_set,
            desc_index: self.desc_index,
        }
    }
}

impl DecorationView {
    /// The record of an id of which nothing has been said.
    pub open spec fn empty() -> DecorationView {
        DecorationView {
            name: None,
            built_in: None,
            location: None,
            desc_set: None,
            desc_index: None,
        }
    }

    /// The binding that the record asks for. There is one only if the record
    /// holds a built-in alone, a location alone, or a descriptor set together
    /// with an index and nothing else.
    pub open spec fn binding(self) -> Option<Binding> {
        match (self.built_in, self.location, self.desc_set, self.desc_index) {
            (Some(built_in), None, None, None) => Some(Binding::BuiltIn(built_in)),
            (None, Some(location), None, None) => Some(Binding::Location(location)),
            (None, None, Some(set), Some(binding)) => Some(Binding::Descriptor { set, binding }),
            _ => None,
        }
    }
}

impl Default for Decoration {
    fn default() -> (r: Decoration)
        ensures
            r.deep_view() == DecorationView::empty(),
    {
        Decoration { name: None, built_in: None, location: None, desc_set: None, desc_index: None }
    }
}

impl Decoration {
    /// The binding that the record asks for, if it asks for one and no more.
    pub fn get_binding(&self) -> (r: Option<Binding>)
        ensures
            r == self.deep_view().binding(),
    {
        match (self.built_in, self.location, self.desc_set, self.desc_index) {
            (Some(built_in), None, None, None) => Some(Binding::BuiltIn(built_in)),
            (None, Some(location), None, None) => Some(Binding::Location(location)),
            (None, None, Some(set), Some(binding)) => Some(Binding::Descriptor { set, binding }),
            _ => None,
        }
    }
}

/// The name that a record holds, where there is a record.
pub open spec fn name_of(decoration: Option<DecorationView>) -> Option<Seq<char>> {
    match decoration {
        Some(d) => d.name,
        None => None,
    }
}

/// The record itself, or the empty one where there is none.
pub open spec fn or_empty(decoration: Option<DecorationView>) -> DecorationView {
    match decoration {
        Some(d) => d,
        None => DecorationView::empty(),
    }
}

/// The name that was kept for an item, handed over to that item.
pub fn into_name(decoration: Option<Decoration>) -> (name: Option<String>)
    ensures
        name.deep_view() == name_of(decoration.deep_view()),
{
    match decoration {
        Some(d) => d.name,
        None => None,
    }
}

/// The record that was kept, or an empty one where none was.
pub fn unwrap_or_default(decoration: Option<Decoration>) -> (r: Decoration)
    ensures
        r.deep_view() == or_empty(decoration.deep_view()),
{
    match decoration {
        Some(d) => d,
        None => Decoration::default(),
    }
}

} // verus!
