//! The ten workspaces of the bar.

use crate::utils::{clsx, picked};
use vstd::prelude::*;

verus! {

/// Where a workspace stands in its run of neighbours that all exist or
/// all do not.
#[derive(Debug, Clone, Copy, PartialEq, Eq, Structural)]
pub enum WorkspacePosition {
    First,
    Between,
    Both,
    Last,
}

/// One workspace as the bar shows it.
#[derive(Debug, Clone, Copy, PartialEq, Eq, Structural)]
pub struct Workspace {
    pub id: usize,
    pub position: WorkspacePosition,
    pub exists: bool,
    pub active: bool,
}

/// The bar shows the workspaces 1 to 10.
pub const WORKSPACE_COUNT: usize = 10;

/// Whether the workspace with number `id` is among `existing`.
pub open spec fn exists_in(existing: Seq<i32>, id: int) -> bool {
    exists|k: int| 0 <= k < existing.len() && #[trigger] existing[k] == id
}

/// The position of workspace `id` among the ten: first of its run where
/// the one before differs in existence or there is none, last where the
/// one after does.
pub open spec fn position_of(existing: Seq<i32>, id: int) -> WorkspacePosition {
    let first = id == 1 || exists_in(existing, id - 1) != exists_in(existing, id);
    let last = id == WORKSPACE_COUNT || exists_in(existing, id + 1) != exists_in(existing, id);
    if first && last {
        WorkspacePosition::Both
    } else if first {
        WorkspacePosition::First
    } else if last {
        WorkspacePosition::Last
    } else {
        WorkspacePosition::Between
    }
}

/// The workspace with number `id`, given the numbers of those that exist
/// and of the active one.
pub open spec fn workspace_of(existing: Seq<i32>, active: Option<i32>, id: int) -> Workspace {
    Workspace {
        id: id as usize,
        position: position_of(existing, id),
        exists: exists_in(existing, id),
        active: active == Some(id as i32),
    }
}

fn is_among(existing: &Vec<i32>, id: i32) -> (r: bool)
    ensures
        r == exists_in(existing@, id as int),
{
    let mut k: usize = 0;
    while k < existing.len()
        invariant
            k <= existing.len(),
            forall|j: int| 0 <= j < k ==> existing[j] != id,
        decreases existing.len() - k,
    {
        if existing[k] == id {
            return true;
        }
        k = k + 1;
    }
    false
}

impl Workspace {
    /// The ten workspaces, given the numbers of those that exist and of
    /// the active one, if any.
    #[must_use]
    pub fn all(existing: &Vec<i32>, active: Option<i32>) -> (r: Vec<Workspace>)
        ensures
            r.len() == WORKSPACE_COUNT,
            forall|i: int|
                0 <= i < WORKSPACE_COUNT ==> #[trigger] r[i] == workspace_of(
                    existing@,
                    active,
                    i + 1,
                ),
    {
        let mut present: Vec<bool> = Vec::new();
        let mut id: usize = 1;
        while id <= WORKSPACE_COUNT
            invariant
                1 <= id <= WORKSPACE_COUNT + 1,
                present.len() == id - 1,
                forall|i: int| 0 <= i < present.len() ==> present[i] == exists_in(existing@, i + 1),
            decreases WORKSPACE_COUNT + 1 - id,
        {
            present.push(is_among(existing, id as i32));
            id = id + 1;
        }
        let mut all: Vec<Workspace> = Vec::new();
        let mut i: usize = 0;
        while i < WORKSPACE_COUNT
            invariant
                i <= WORKSPACE_COUNT,
                present.len() == WORKSPACE_COUNT,
                forall|j: int| 0 <= j < present.len() ==> present[j] == exists_in(existing@, j + 1),
                all.len() == i,
                forall|j: int| 0 <= j < i ==> #[trigger] all[j] == workspace_of(
                    existing@,
                    active,
                    j + 1,
                ),
            decreases WORKSPACE_COUNT - i,
        {
            let here = present[i];
            let first = i == 0 || present[i - 1] != here;
            let last = i + 1 == WORKSPACE_COUNT || present[i + 1] != here;
            let position = if first && last {
                WorkspacePosition::Both
            } else if first {
                WorkspacePosition::First
            } else if last {
                WorkspacePosition::Last
            } else {
                WorkspacePosition::Between
            };
            let number = (i + 1) as i32;
            let is_active = match active {
                Some(a) => a == number,
                None => false,
            };
            all.push(Workspace { id: i + 1, position, exists: here, active: is_active });
            i = i + 1;
        }
        all
    }

    /// The class names of the workspace's label, in the order `exists`,
    /// `active`, `first`, `last`, each only where it applies. A workspace
    /// that is both first and last of its run has both names.
    pub open spec fn class_flags(self) -> Seq<(bool, &'static str)> {
        seq![
            (self.exists, "exists"),
            (self.active, "active"),
            (
                self.position == WorkspacePosition::First || self.position
                    == WorkspacePosition::Both,
                "first",
            ),
            (
                self.position == WorkspacePosition::Last || self.position
                    == WorkspacePosition::Both,
                "last",
            ),
        ]
    }

    /// The class names of the workspace's label.
    pub fn css_classes(&self) -> (r: Vec<&'static str>)
        ensures
            r@ == picked(self.class_flags()),
    {
        let starts = match self.position {
            WorkspacePosition::First => true,
            WorkspacePosition::Both => true,
            _ => false,
        };
        let ends = match self.position {
            WorkspacePosition::Last => true,
            WorkspacePosition::Both => true,
            _ => false,
        };
        let mut flags: Vec<(bool, &'static str)> = Vec::new();
        flags.push((self.exists, "exists"));
        flags.push((self.active, "active"));
        flags.push((starts, "first"));
        flags.push((ends, "last"));
        assert(flags@ == self.class_flags());
        clsx(flags)
    }
}

} // verus!
