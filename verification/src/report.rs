//! The lines that tell the user what was found and what was decided.

use crate::error::RenameError;
use crate::policy::RenameAction;
use crate::text::texts_of;
use vstd::prelude::*;

verus! {

/// The line for a media file that was found in the directory.
pub open spec fn discovery_text(file_name: Seq<char>) -> Seq<char> {
    "Found CR3 file: "@ + file_name
}

/// The line that announces a rename.
pub open spec fn renaming_text(current_name: Seq<char>, new_name: Seq<char>) -> Seq<char> {
    "Renaming "@ + current_name + " to "@ + new_name
}

/// The line that reports a collision.
pub open spec fn collision_text(current_name: Seq<char>, new_name: Seq<char>) -> Seq<char> {
    "For file "@ + current_name + ", A file with the new name already exists: "@ + new_name
}

/// The line that says that a dry run left the file alone.
pub open spec fn skipped_text(new_name: Seq<char>) -> Seq<char> {
    "Skip rename "@ + new_name + " for --dry-run"@
}

/// The line that confirms a rename.
pub open spec fn completion_text(new_name: Seq<char>) -> Seq<char> {
    "Renamed to "@ + new_name
}

/// The line that reports a failure on one file.
pub open spec fn failure_text(file_name: Seq<char>, error: RenameError) -> Seq<char> {
    "Error renaming file "@ + file_name + ": "@ + error.message_text()
}

/// The lines that go with a decision, in the order in which they are
/// printed.
pub open spec fn decision_text(
    action: RenameAction,
    current_name: Seq<char>,
    new_name: Seq<char>,
) -> Seq<Seq<char>> {
    match action {
        RenameAction::Unchanged => seq!["The paths are the same."@],
        RenameAction::Collision => seq![collision_text(current_name, new_name)],
        RenameAction::Simulate => seq![
            renaming_text(current_name, new_name),
            skipped_text(new_name),
        ],
        RenameAction::Rename => seq![renaming_text(current_name, new_name)],
    }
}

/// Whether `name` stands somewhere in `line`.
pub open spec fn mentions(line: Seq<char>, name: Seq<char>) -> bool {
    exists|at: int|
        0 <= at && at + name.len() <= line.len() && #[trigger] line.subrange(
            at,
            at + name.len(),
        ) == name
}

/// The line to print for a media file that was found.
pub fn discovery_line(file_name: &str) -> (line: String)
    ensures
        line@ == discovery_text(file_name@),
{
    let mut line = String::from_str("Found CR3 file: ");
    line.append(file_name);
    line
}

/// The line to print once the file system has carried out a rename.
pub fn completion_line(new_name: &str) -> (line: String)
    ensures
        line@ == completion_text(new_name@),
{
    let mut line = String::from_str("Renamed to ");
    line.append(new_name);
    line
}

/// The line to print, on standard error, for a file that could not be
/// handled.
pub fn failure_line(file_name: &str, error: RenameError) -> (line: String)
    ensures
        line@ == failure_text(file_name@, error),
{
    let mut line = String::from_str("Error renaming file ");
    line.append(file_name);
    line.append(": ");
    let message = error.message();
    line.append(message.as_str());
    line
}

fn renaming_line(current_name: &str, new_name: &str) -> (line: String)
    ensures
        line@ == renaming_text(current_name@, new_name@),
{
    let mut line = String::from_str("Renaming ");
    line.append(current_name);
    line.append(" to ");
    line.append(new_name);
    line
}

/// The lines to print when `action` has been decided for the file
/// `current_name` with the derived name `new_name`, before anything is done
/// to the file.
pub fn decision_lines(action: RenameAction, current_name: &str, new_name: &str) -> (lines: Vec<
    String,
>)
    ensures
        texts_of(lines@) == decision_text(action, current_name@, new_name@),
{
    let mut lines: Vec<String> = Vec::new();
    match action {
        RenameAction::Unchanged => {
            lines.push(String::from_str("The paths are the same."));
        },
        RenameAction::Collision => {
            let mut line = String::from_str("For file ");
            line.append(current_name);
            line.append(", A file with the new name already exists: ");
            line.append(new_name);
            lines.push(line);
        },
        RenameAction::Simulate => {
            lines.push(renaming_line(current_name, new_name));
            let mut line = String::from_str("Skip rename ");
            line.append(new_name);
            line.append(" for --dry-run");
            lines.push(line);
        },
        RenameAction::Rename => {
            lines.push(renaming_line(current_name, new_name));
        },
    }
    lines
}

/// A dry run says what it would have done: its lines name the file and the
/// name that the file would have been given.
pub proof fn lemma_dry_run_states_the_rename(current_name: Seq<char>, new_name: Seq<char>)
    ensures
        decision_text(RenameAction::Simulate, current_name, new_name).len() == 2,
        mentions(
            decision_text(RenameAction::Simulate, current_name, new_name)[0],
            current_name,
        ),
        mentions(decision_text(RenameAction::Simulate, current_name, new_name)[0], new_name),
        mentions(decision_text(RenameAction::Simulate, current_name, new_name)[1], new_name),
{
    let first = renaming_text(current_name, new_name);
    let second = skipped_text(new_name);
    let lead = "Renaming "@.len() as int;
    let middle = lead + current_name.len() + " to "@.len();
    let skip = "Skip rename "@.len() as int;
    assert(first.subrange(lead, lead + current_name.len()) =~= current_name);
    assert(first.subrange(middle, middle + new_name.len()) =~= new_name);
    assert(second.subrange(skip, skip + new_name.len()) =~= new_name);
}

/// A collision names both the file and the name that is taken.
pub proof fn lemma_collision_names_both(current_name: Seq<char>, new_name: Seq<char>)
    ensures
        decision_text(RenameAction::Collision, current_name, new_name).len() == 1,
        mentions(
            decision_text(RenameAction::Collision, current_name, new_name)[0],
            current_name,
        ),
        mentions(decision_text(RenameAction::Collision, current_name, new_name)[0], new_name),
{
    let line = collision_text(current_name, new_name);
    let lead = "For file "@.len() as int;
    let middle = lead + current_name.len() + ", A file with the new name already exists: "@.len();
    assert(line.subrange(lead, lead + current_name.len()) =~= current_name);
    assert(line.subrange(middle, middle + new_name.len()) =~= new_name);
}

} // verus!
