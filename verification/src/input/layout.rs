//! What a layout says of the plugins that it runs.

use crate::data::PluginTag;
use crate::outside::{agree, same_path};
use std::path::PathBuf;
use vstd::prelude::*;

verus! {

/// Where a plugin is to be found.
#[derive(Debug)]
pub enum RunPluginLocation {
    /// In a file.
    File(PathBuf),
    /// Under its name in the configuration.
    Zellij(PluginTag),
}

/// A plugin that a layout runs.
#[derive(Debug)]
pub struct RunPlugin {
    /// Allow command execution from plugin
    pub _allow_exec_host_cmd: bool,
    /// Where the plugin is to be found.
    pub location: RunPluginLocation,
}

impl RunPluginLocation {
    /// Whether two locations are the same: equal paths, or equal names.
    pub open spec fn same_as(self, other: Self) -> bool {
        match (self, other) {
            (RunPluginLocation::File(left), RunPluginLocation::File(right)) => agree(
                left,
                right,
            ),
            (RunPluginLocation::Zellij(left), RunPluginLocation::Zellij(right)) => left@ == right@,
            _ => false,
        }
    }
}

impl Clone for RunPluginLocation {
    fn clone(&self) -> (same: Self)
        ensures
            same == *self,
    {
        match self {
            RunPluginLocation::File(path) => RunPluginLocation::File(path.clone()),
            RunPluginLocation::Zellij(tag) => RunPluginLocation::Zellij(tag.clone()),
        }
    }
}

impl PartialEq for RunPluginLocation {
    fn eq(&self, other: &Self) -> (same: bool) {
        match (self, other) {
            (RunPluginLocation::File(left), RunPluginLocation::File(right)) => same_path(
                left,
                right,
            ),
            (RunPluginLocation::Zellij(left), RunPluginLocation::Zellij(right)) => left == right,
            _ => false,
        }
    }
}

impl vstd::std_specs::cmp::PartialEqSpecImpl for RunPluginLocation {
    open spec fn obeys_eq_spec() -> bool {
        true
    }

    open spec fn eq_spec(&self, other: &Self) -> bool {
        self.same_as(*other)
    }
}

/// Locations are the same only where both are files whose paths agree, or both are names that are
/// equal.
pub proof fn law_same_locations_agree(one: RunPluginLocation, other: RunPluginLocation)
    ensures
        one.same_as(other) ==> (one is File <==> other is File),
        one is File && other is File ==> (one.same_as(other) <==> agree(one->File_0, other->File_0)),
        one is Zellij && other is Zellij ==> (one.same_as(other) <==> one->Zellij_0.0@
            == other->Zellij_0.0@),
{
}

} // verus!
