//! Folders nest at most a few levels deep.

use vstd::prelude::*;

verus! {

/// A folder as stored: its identifier, name and parent folder.
pub struct FolderModel {
    pub id: i32,
    pub name: String,
    pub parent_id: Option<i32>,
}

/// The deepest level a folder may have a child at: a root folder has
/// depth 1, its children depth 2, and so on.
pub const MAX_FOLDER_DEPTH: u32 = 3;

/// Why a folder cannot be placed.
#[derive(Clone, Copy, Debug, PartialEq, Eq, Structural)]
pub enum FolderError {
    /// The parent is already at the deepest level.
    TooDeep,
}

/// Whether a folder may be created in, or moved into, a parent folder at
/// depth `parent_depth`.
pub fn check_parent_depth(parent_depth: u32) -> (r: Result<(), FolderError>)
    ensures
        r is Ok <==> parent_depth < MAX_FOLDER_DEPTH,
{
    if parent_depth >= MAX_FOLDER_DEPTH {
        Err(FolderError::TooDeep)
    } else {
        Ok(())
    }
}

/// A walk up the parent chain of a folder that counts its depth: each
/// folder read from storage is handed to `step`.
pub struct DepthWalk {
    pub depth: u32,
    pub current_id: i32,
}

impl DepthWalk {
    /// Starts at `folder_id`, at depth 1.
    pub fn start(folder_id: i32) -> (r: Self)
        ensures
            r.depth == 1,
            r.current_id == folder_id,
    {
        DepthWalk { depth: 1, current_id: folder_id }
    }

    /// Takes the parent of the current folder. Returns whether the walk
    /// goes on: it does when there is a parent, which becomes the current
    /// folder one level deeper (the count stops at `u32::MAX`).
    pub fn step(&mut self, parent_id: Option<i32>) -> (more: bool)
        ensures
            more == parent_id is Some,
            parent_id matches Some(p) ==> final(self).current_id == p && final(self).depth == if old(
                self,
            ).depth < u32::MAX {
                old(self).depth + 1
            } else {
                old(self).depth as int
            },
            parent_id is None ==> *final(self) == *old(self),
    {
        match parent_id {
            Some(p) => {
                self.depth = self.depth.saturating_add(1);
                self.current_id = p;
                true
            },
            None => false,
        }
    }
}

} // verus!
