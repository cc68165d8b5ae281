//! The template import surface: the two kinds of backend templates, and
//! the context under which each is provisioned. Reading the template
//! files and merging their configuration is the surrounding
//! application's work.

use vstd::prelude::*;

verus! {

/// The kind of one backend template.
#[derive(Debug, Clone, Copy, PartialEq, Eq, Structural)]
pub enum Template {
    Index,
    Component,
}

impl Template {
    /// The context string under which the backend is asked to install a
    /// template of this kind.
    pub fn configure_context(&self) -> (r: &'static str)
        ensures
            *self is Index ==> r@ == "create index template"@,
            *self is Component ==> r@ == "create component template"@,
    {
        match self {
            Template::Index => "create index template",
            Template::Component => "create component template",
        }
    }
}

} // verus!
