//! The command line: a directory and a dry-run flag.

use crate::text::{same_text, texts_of};
use vstd::prelude::*;

verus! {

/// What a command line asks for.
#[derive(Debug, PartialEq, Eq)]
pub struct Invocation {
    /// The directory whose media files are renamed.
    pub directory: String,
    /// Whether renames are announced without being carried out.
    pub dry_run: bool,
}

/// Whether `argument` is the dry-run flag.
pub open spec fn is_dry_run_flag(argument: Seq<char>) -> bool {
    argument == "--dry-run"@
}

/// Whether the dry-run flag stands anywhere among `arguments`.
pub open spec fn wants_dry_run(arguments: Seq<Seq<char>>) -> bool {
    exists|i: int| 0 <= i < arguments.len() && is_dry_run_flag(#[trigger] arguments[i])
}

/// The directory that `arguments` name: the first of them that is not the
/// dry-run flag, or the current directory, `.`, where there is none.
pub open spec fn directory_text(arguments: Seq<Seq<char>>) -> Seq<char>
    decreases arguments.len(),
{
    if arguments.len() == 0 {
        "."@
    } else if is_dry_run_flag(arguments[0]) {
        directory_text(arguments.drop_first())
    } else {
        arguments[0]
    }
}

/// Reads the arguments that follow the program's name.
pub fn parse_arguments(arguments: &Vec<String>) -> (invocation: Invocation)
    ensures
        invocation.directory@ == directory_text(texts_of(arguments@)),
        invocation.dry_run == wants_dry_run(texts_of(arguments@)),
{
    let ghost texts = texts_of(arguments@);
    let mut directory: Option<String> = None;
    let mut dry_run = false;
    let mut i: usize = 0;
    proof {
        assert(texts.skip(0) =~= texts);
    }
    while i < arguments.len()
        invariant
            i <= arguments.len(),
            texts == texts_of(arguments@),
            dry_run == (exists|k: int| 0 <= k < i && is_dry_run_flag(#[trigger] texts[k])),
            directory_text(texts) == match directory {
                Some(text) => text@,
                None => directory_text(texts.skip(i as int)),
            },
        decreases arguments.len() - i,
    {
        let is_flag = same_text(arguments[i].as_str(), "--dry-run");
        proof {
            assert(is_flag == is_dry_run_flag(texts[i as int]));
            assert(texts.skip(i as int).drop_first() =~= texts.skip(i + 1));
        }
        if is_flag {
            dry_run = true;
        } else if directory.is_none() {
            directory = Some(arguments[i].clone());
        }
        i += 1;
    }
    let directory = match directory {
        Some(text) => text,
        None => String::from_str("."),
    };
    Invocation { directory, dry_run }
}

} // verus!
