//! Values that the parts of the program share.

use vstd::prelude::*;

verus! {

/// The name that a plugin goes by in the configuration.
#[derive(Debug, Eq, Hash, PartialOrd, Ord)]
pub struct PluginTag(pub String);

impl View for PluginTag {
    type V = Seq<char>;

    open spec fn view(&self) -> Seq<char> {
        self.0@
    }
}

impl PluginTag {
    /// Makes a tag of a name.
    pub fn new(name: String) -> (tag: Self)
        ensures
            tag@ == name@,
    {
        PluginTag(name)
    }
}

impl Clone for PluginTag {
    fn clone(&self) -> (same: Self)
        ensures
            same == *self,
    {
        PluginTag(self.0.clone())
    }
}

impl PartialEq for PluginTag {
    fn eq(&self, other: &Self) -> (same: bool) {
        self.0 == other.0
    }
}

impl vstd::std_specs::cmp::PartialEqSpecImpl for PluginTag {
    open spec fn obeys_eq_spec() -> bool {
        true
    }

    open spec fn eq_spec(&self, other: &Self) -> bool {
        self@ == other@
    }
}

impl From<PluginTag> for String {
    fn from(tag: PluginTag) -> (name: String) {
        tag.0
    }
}

impl vstd::std_specs::convert::FromSpecImpl<PluginTag> for String {
    open spec fn obeys_from_spec() -> bool {
        true
    }

    open spec fn from_spec(tag: PluginTag) -> String {
        tag.0
    }
}

/// A tag that is made of a name has that name, and gives it back.
pub proof fn law_tag_keeps_its_name(name: String, tag: PluginTag)
    requires
        call_ensures(PluginTag::new, (name,), tag),
    ensures
        tag.0@ == name@,
        tag@ == name@,
{
}

/// Tags are told apart by their names alone.
pub proof fn law_tags_are_told_apart_by_name(one: PluginTag, other: PluginTag)
    ensures
        one@ == other@ <==> one.0@ == other.0@,
{
}

} // verus!
