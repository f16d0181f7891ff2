//! Saved-view descriptors: server-defined filters the user can open as tabs.

use vstd::prelude::*;

verus! {

/// A saved view as the server describes it: a stable id, a display name,
/// and optional decoration (color, icon, slug).
#[derive(Debug)]
pub struct ViewFragment {
    pub id: String,
    pub name: String,
    pub color: Option<String>,
    pub icon: Option<String>,
    pub slug_id: Option<String>,
}

/// Two descriptors denote the same saved view exactly when their ids match.
impl PartialEq for ViewFragment {
    fn eq(&self, other: &Self) -> (r: bool) {
        self.id == other.id
    }
}

impl vstd::std_specs::cmp::PartialEqSpecImpl for ViewFragment {
    open spec fn obeys_eq_spec() -> bool {
        true
    }

    open spec fn eq_spec(&self, other: &ViewFragment) -> bool {
        self.id@ == other.id@
    }
}

pub fn clone_opt_string(o: &Option<String>) -> (r: Option<String>)
    ensures
        r == *o,
{
    match o {
        Some(s) => Some(s.clone()),
        None => None,
    }
}

impl Clone for ViewFragment {
    fn clone(&self) -> (r: Self)
        ensures
            r == *self,
    {
        ViewFragment {
            id: self.id.clone(),
            name: self.name.clone(),
            color: clone_opt_string(&self.color),
            icon: clone_opt_string(&self.icon),
            slug_id: clone_opt_string(&self.slug_id),
        }
    }
}

} // verus!
