//! What is done with a file once its derived name is known.

use crate::filename::derived_name;
use crate::text::same_text;
use vstd::prelude::*;

verus! {

/// The decision taken for one file.
#[derive(Clone, Copy, Debug, PartialEq, Eq, Structural)]
pub enum RenameAction {
    /// The file already carries its derived name: nothing to do.
    Unchanged,
    /// Another file holds the derived name: the file is left as it is, and
    /// the collision is reported.
    Collision,
    /// A dry run: the rename is announced and not carried out.
    Simulate,
    /// The file is to be renamed.
    Rename,
}

impl RenameAction {
    /// Whether carrying out this decision changes the file system.
    pub open spec fn renames(self) -> bool {
        self == RenameAction::Rename
    }
}

/// The decision for a file named `current_name` whose derived name is
/// `new_name`. Whether a file exists under the derived name matters only
/// when the names differ, and the dry-run mode only when the name is free.
pub open spec fn action_for(
    current_name: Seq<char>,
    new_name: Seq<char>,
    destination_exists: bool,
    dry_run: bool,
) -> RenameAction {
    if current_name == new_name {
        RenameAction::Unchanged
    } else if destination_exists {
        RenameAction::Collision
    } else if dry_run {
        RenameAction::Simulate
    } else {
        RenameAction::Rename
    }
}

/// Decides what to do with a file. Both names are names in the file's own
/// directory, so the file would move exactly when they differ;
/// `destination_exists` says whether that directory holds an entry under
/// `new_name`.
///
/// A file is renamed only when its name differs from the derived one, the
/// derived name is free, and the run is not a dry run.
pub fn choose_action(
    current_name: &str,
    new_name: &str,
    destination_exists: bool,
    dry_run: bool,
) -> (action: RenameAction)
    ensures
        action == action_for(current_name@, new_name@, destination_exists, dry_run),
        destination_exists ==> !action.renames(),
        dry_run ==> !action.renames(),
        action.renames() <==> current_name@ != new_name@ && !destination_exists && !dry_run,
{
    if same_text(current_name, new_name) {
        RenameAction::Unchanged
    } else if destination_exists {
        RenameAction::Collision
    } else if dry_run {
        RenameAction::Simulate
    } else {
        RenameAction::Rename
    }
}

/// A file that carries the name derived from its tags stays as it is: once a
/// rename has been carried out, every further run over the same tags decides
/// `Unchanged`, whatever the directory holds and whatever the mode.
pub proof fn lemma_derived_name_is_settled(
    date_time: Seq<char>,
    subsec: Seq<char>,
    destination_exists: bool,
    dry_run: bool,
)
    ensures
        derived_name(date_time, subsec) matches Ok(name) ==> action_for(
            name,
            name,
            destination_exists,
            dry_run,
        ) == RenameAction::Unchanged,
{
}

} // verus!
