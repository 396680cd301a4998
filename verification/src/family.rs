//! The benchmark families and the labels under which results are reported.

use vstd::prelude::*;
use crate::codec::Backend;

verus! {

/// A benchmark family: a named workload with one record type.
#[derive(Clone, Copy, Debug, PartialEq, Eq, Structural)]
pub enum Family {
    Log,
    Mesh,
    MinecraftSavedata,
    Mk48,
}

impl Family {
    /// The family's name in labels.
    pub open spec fn name_spec(self) -> Seq<char> {
        match self {
            Family::Log => "log"@,
            Family::Mesh => "mesh"@,
            Family::MinecraftSavedata => "minecraft_savedata"@,
            Family::Mk48 => "mk48"@,
        }
    }

    /// The family's name in labels.
    pub fn name(self) -> (name: &'static str)
        ensures
            name@ == self.name_spec(),
    {
        match self {
            Family::Log => "log",
            Family::Mesh => "mesh",
            Family::MinecraftSavedata => "minecraft_savedata",
            Family::Mk48 => "mk48",
        }
    }
}

/// The label of the group that holds a backend's timings for a family:
/// the family's name, a slash, the backend's name.
pub open spec fn group_label_spec(family: Family, backend: Backend) -> Seq<char> {
    family.name_spec() + "/"@ + backend.name_spec()
}

/// The label of the group that holds a backend's timings for a family.
pub fn group_label(family: Family, backend: Backend) -> (label: String)
    ensures
        label@ == group_label_spec(family, backend),
{
    let mut label = String::from_str(family.name());
    label.append("/");
    label.append(backend.name());
    label
}

/// No two pairs of family and backend share a group label.
pub proof fn lemma_group_labels_are_distinct(
    family: Family,
    backend: Backend,
    other_family: Family,
    other_backend: Backend,
)
    requires
        group_label_spec(family, backend) == group_label_spec(other_family, other_backend),
    ensures
        family == other_family,
        backend == other_backend,
{
    reveal_strlit("log");
    reveal_strlit("mesh");
    reveal_strlit("minecraft_savedata");
    reveal_strlit("mk48");
    reveal_strlit("/");
    reveal_strlit("bitcode");
    reveal_strlit("bitcode + rkyv");
    let label = group_label_spec(family, backend);
    let other = group_label_spec(other_family, other_backend);
    assert(label.len() == family.name_spec().len() + 1 + backend.name_spec().len());
    assert(other.len() == other_family.name_spec().len() + 1 + other_backend.name_spec().len());
    assert(label[1] == family.name_spec()[1]);
    assert(other[1] == other_family.name_spec()[1]);
}

} // verus!
