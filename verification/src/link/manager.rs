//! Per-instance link manager: where links go and what existing entries mean.
use vstd::prelude::*;

use super::error::LinkError;
use super::path::{
    components, is_absolute, join, parent_comp, path_components, path_is_absolute, path_join,
    root_comp, starts_with, vviews,
};
use crate::config::{InstanceConfig, InstanceKind, LinkStrategy};

verus! {

/// Outcome of a link operation: `Created` when the library gained a link,
/// `AlreadyPresent` when an equivalent link existed already.
#[derive(Debug, Clone, Copy, PartialEq, Eq, Structural)]
pub enum LinkAction {
    Created,
    AlreadyPresent,
}

/// A relative path the link manager refuses: absolute, or holding a `..`
/// or root component.
pub open spec fn unsafe_relative(p: Seq<char>) -> bool {
    ||| is_absolute(p)
    ||| exists|i: int| 0 <= i < components(p).len()
        && (#[trigger] components(p)[i] == parent_comp() || components(p)[i] == root_comp())
}

/// Reject absolute paths and `..` traversal.
pub fn reject_unsafe_relative(p: &str) -> (r: Result<(), LinkError>)
    ensures
        r is Ok <==> !unsafe_relative(p@),
        r matches Err(e) ==> (e matches LinkError::InvalidRelativePath(q) && q@ == p@),
{
    if path_is_absolute(p) {
        return Err(LinkError::InvalidRelativePath(p.to_string()));
    }
    let comps = path_components(p);
    let mut i: usize = 0;
    while i < comps.len()
        invariant
            vviews(comps@) == components(p@),
            i <= comps@.len(),
            forall|j: int| 0 <= j < i ==> !(#[trigger] components(p@)[j] == parent_comp() || components(p@)[j] == root_comp()),
        decreases comps@.len() - i,
    {
        let c = &comps[i];
        proof {
            assert(components(p@)[i as int] == c@);
        }
        let is_parent = c.len() == 2 && c[0] == '.' && c[1] == '.';
        let is_root = c.len() == 1 && c[0] == '/';
        proof {
            assert(is_parent == (c@ == parent_comp())) by {
                if c@ == parent_comp() {
                    assert(c@[0] == '.' && c@[1] == '.');
                }
                if is_parent {
                    assert(c@ =~= parent_comp());
                }
            }
            assert(is_root == (c@ == root_comp())) by {
                if c@ == root_comp() {
                    assert(c@[0] == '/');
                }
                if is_root {
                    assert(c@ =~= root_comp());
                }
            }
        }
        if is_parent || is_root {
            return Err(LinkError::InvalidRelativePath(p.to_string()));
        }
        i = i + 1;
    }
    proof {
        assert(components(p@).len() == comps@.len());
    }
    Ok(())
}

/// Per-instance link manager.
#[derive(Debug, Clone)]
pub struct LinkManager {
    instance_name: String,
    instance_kind: InstanceKind,
    storage_root: String,
    library_root: String,
    strategy: LinkStrategy,
}

impl LinkManager {
    pub closed spec fn spec_name(&self) -> Seq<char> {
        self.instance_name@
    }

    pub closed spec fn spec_kind(&self) -> InstanceKind {
        self.instance_kind
    }

    pub closed spec fn spec_storage_root(&self) -> Seq<char> {
        self.storage_root@
    }

    pub closed spec fn spec_library_root(&self) -> Seq<char> {
        self.library_root@
    }

    pub closed spec fn spec_strategy(&self) -> LinkStrategy {
        self.strategy
    }

    /// Build a `LinkManager` for a configured instance.
    pub fn from_instance(instance: &InstanceConfig) -> (r: Self)
        ensures
            r.spec_name() == instance.name@,
            r.spec_kind() == instance.kind,
            r.spec_storage_root() == instance.storage_path@,
            r.spec_library_root() == instance.library_path@,
            r.spec_strategy() == instance.link_strategy,
    {
        LinkManager {
            instance_name: instance.name.clone(),
            instance_kind: instance.kind,
            storage_root: instance.storage_path.clone(),
            library_root: instance.library_path.clone(),
            strategy: instance.link_strategy,
        }
    }

    pub fn instance_name(&self) -> (r: &str)
        ensures
            r@ == self.spec_name(),
    {
        self.instance_name.as_str()
    }

    pub fn strategy(&self) -> (r: LinkStrategy)
        ensures
            r == self.spec_strategy(),
    {
        self.strategy
    }

    pub fn kind(&self) -> (r: InstanceKind)
        ensures
            r == self.spec_kind(),
    {
        self.instance_kind
    }

    pub fn storage_root(&self) -> (r: &str)
        ensures
            r@ == self.spec_storage_root(),
    {
        self.storage_root.as_str()
    }

    pub fn library_root(&self) -> (r: &str)
        ensures
            r@ == self.spec_library_root(),
    {
        self.library_root.as_str()
    }

    /// Library path of a relative entry, after checking the entry is a
    /// safe relative path.
    pub fn library_target(&self, relative: &str) -> (r: Result<String, LinkError>)
        ensures
            r is Ok <==> !unsafe_relative(relative@),
            r matches Ok(t) ==> t@ == join(self.spec_library_root(), relative@),
            r matches Err(e) ==> (e matches LinkError::InvalidRelativePath(q) && q@ == relative@),
    {
        reject_unsafe_relative(relative)?;
        Ok(path_join(self.library_root.as_str(), relative))
    }

    /// Storage path of a relative entry in this instance's own storage.
    pub fn storage_source(&self, relative: &str) -> (r: String)
        ensures
            r@ == join(self.spec_storage_root(), relative@),
    {
        path_join(self.storage_root.as_str(), relative)
    }
}

/// Two paths that `Path` considers equal: same components.
pub open spec fn same_path(a: Seq<char>, b: Seq<char>) -> bool {
    components(a) == components(b)
}

/// Component-wise path equality.
pub fn paths_equal(a: &str, b: &str) -> (r: bool)
    ensures
        r == same_path(a@, b@),
{
    let r = super::path::path_starts_with(a, b) && super::path::path_starts_with(b, a);
    proof {
        let ca = components(a@);
        let cb = components(b@);
        if starts_with(a@, b@) && starts_with(b@, a@) {
            assert(ca.len() == cb.len());
            assert(ca.subrange(0, cb.len() as int) =~= ca);
            assert(ca =~= cb);
        }
        if ca == cb {
            assert(ca.subrange(0, cb.len() as int) =~= cb);
            assert(cb.subrange(0, ca.len() as int) =~= ca);
        }
    }
    r
}

/// What the library already holds at a link target.
#[derive(Debug, Clone)]
pub enum ExistingEntry {
    /// Nothing at the target.
    Missing,
    /// A symlink pointing at the given path.
    Symlink(String),
    /// A file or directory that is not a symlink.
    Other,
}

/// What to do before creating a symlink at `target` for `source`.
pub open spec fn spec_symlink_step(existing: ExistingEntry, source: Seq<char>) -> Option<LinkAction> {
    match existing {
        ExistingEntry::Missing => Some(LinkAction::Created),
        ExistingEntry::Symlink(t) => if same_path(t@, source) {
            Some(LinkAction::AlreadyPresent)
        } else {
            None
        },
        ExistingEntry::Other => None,
    }
}

/// Idempotent symlink creation: a missing target is created, a symlink to
/// the same source is already present, anything else is refused.
pub fn symlink_step(existing: &ExistingEntry, source: &str, target: &str) -> (r: Result<LinkAction, LinkError>)
    ensures
        match spec_symlink_step(*existing, source@) {
            Some(a) => r == Ok::<LinkAction, LinkError>(a),
            None => r matches Err(LinkError::AlreadyExists { from, target: t }) && from@ == source@ && t@ == target@,
        },
{
    match existing {
        ExistingEntry::Missing => Ok(LinkAction::Created),
        ExistingEntry::Symlink(t) => {
            if paths_equal(t.as_str(), source) {
                Ok(LinkAction::AlreadyPresent)
            } else {
                Err(LinkError::AlreadyExists { from: source.to_string(), target: target.to_string() })
            }
        },
        ExistingEntry::Other => Err(LinkError::AlreadyExists { from: source.to_string(), target: target.to_string() }),
    }
}

/// Idempotent hardlink creation: an existing target is accepted only when
/// it is the same inode as the source.
pub fn hardlink_step(target_exists: bool, same_inode: bool, source: &str, target: &str) -> (r: Result<LinkAction, LinkError>)
    ensures
        !target_exists ==> r == Ok::<LinkAction, LinkError>(LinkAction::Created),
        target_exists && same_inode ==> r == Ok::<LinkAction, LinkError>(LinkAction::AlreadyPresent),
        target_exists && !same_inode ==> (r matches Err(LinkError::AlreadyExists { from, target: t }) && from@ == source@ && t@ == target@),
{
    if target_exists {
        if same_inode {
            Ok(LinkAction::AlreadyPresent)
        } else {
            Err(LinkError::AlreadyExists { from: source.to_string(), target: target.to_string() })
        }
    } else {
        Ok(LinkAction::Created)
    }
}

/// Outcome of mirroring a tree: `Created` when any file link was created.
pub fn mirror_outcome(actions: &Vec<LinkAction>) -> (r: LinkAction)
    ensures
        r == LinkAction::Created <==> exists|i: int| 0 <= i < actions@.len() && actions@[i] == LinkAction::Created,
{
    let mut i: usize = 0;
    while i < actions.len()
        invariant
            i <= actions@.len(),
            forall|j: int| 0 <= j < i ==> actions@[j] != LinkAction::Created,
        decreases actions@.len() - i,
    {
        if actions[i] == LinkAction::Created {
            return LinkAction::Created;
        }
        i = i + 1;
    }
    LinkAction::AlreadyPresent
}

/// Empty-parent pruning continues at `cursor` only strictly inside `boundary`.
pub fn prune_may_remove(cursor: &str, boundary: &str) -> (r: bool)
    ensures
        r == (starts_with(cursor@, boundary@) && !same_path(cursor@, boundary@)),
{
    super::path::path_starts_with(cursor, boundary) && !paths_equal(cursor, boundary)
}

/// For a hardlink instance, the library file is the last link to its data
/// when its link count is at most one; symlink instances never own data.
pub fn is_last_hardlink_rule(strategy: LinkStrategy, exists: bool, nlink: u64) -> (r: bool)
    ensures
        r == (strategy == LinkStrategy::Hardlink && exists && nlink <= 1),
{
    match strategy {
        LinkStrategy::Hardlink => exists && nlink <= 1,
        LinkStrategy::Symlink => false,
    }
}

} // verus!

verus! {

/// Creating a symlink is idempotent: once the target is a symlink to the
/// source, asking again finds it already present and changes nothing; a
/// hardlink sharing the source's inode is likewise already present.
pub proof fn law_link_creation_is_idempotent(source: String)
    ensures
        spec_symlink_step(ExistingEntry::Symlink(source), source@) == Some(LinkAction::AlreadyPresent),
{
}

} // verus!
