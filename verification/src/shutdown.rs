//! What is done when the user interrupts the program: the temporary files
//! and directories that the program made are removed, the cursor of the
//! terminal is shown again, and the program ends as failed.
//!
//! The interrupt may come at any moment. What is decided here looks at the
//! names in the temporary directory alone, never at what the program is
//! doing, so it needs no agreement with the running command.

use crate::text::starts_with;
use vstd::prelude::*;

verus! {

/// What the name of every temporary file and directory of the program
/// begins with.
pub open spec fn temp_prefix() -> Seq<char> {
    ".crunchy-cli_"@
}

/// An entry of the temporary directory of the system.
#[derive(Clone, Debug, PartialEq, Eq)]
pub struct TempEntry {
    /// The name of the entry, empty where it is no text.
    pub name: String,
    /// Whether the entry is a plain file; `None` where that is not known.
    pub is_file: Option<bool>,
}

/// What becomes of an entry of the temporary directory.
#[derive(Clone, Copy, Debug, PartialEq, Eq, Structural)]
pub enum Removal {
    /// The entry is not the program's: it is left as it is.
    Keep,
    /// The entry is removed as one file.
    RemoveFile,
    /// The entry is removed with all that is in it.
    RemoveDirectory,
}

/// Whether an entry of this name was made by the program.
pub open spec fn is_own_entry(name: Seq<char>) -> bool {
    temp_prefix().is_prefix_of(name)
}

/// What becomes of an entry: one of the program's is removed, as a directory
/// where it is known not to be a plain file and as a file otherwise; any
/// other entry is kept.
pub open spec fn removal_of(name: Seq<char>, is_file: Option<bool>) -> Removal {
    if !is_own_entry(name) {
        Removal::Keep
    } else if is_file == Some(false) {
        Removal::RemoveDirectory
    } else {
        Removal::RemoveFile
    }
}

/// What becomes of each entry of the temporary directory.
pub open spec fn removals_of(entries: Seq<TempEntry>) -> Seq<Removal> {
    Seq::new(entries.len(), |i: int| removal_of(entries[i].name@, entries[i].is_file))
}

/// What becomes of `entry` when the program is interrupted.
pub fn removal(entry: &TempEntry) -> (r: Removal)
    ensures
        r == removal_of(entry.name@, entry.is_file),
{
    if !starts_with(entry.name.as_str(), ".crunchy-cli_") {
        Removal::Keep
    } else {
        match entry.is_file {
            Some(false) => Removal::RemoveDirectory,
            _ => Removal::RemoveFile,
        }
    }
}

/// What is done on an interrupt.
#[derive(Clone, Debug, PartialEq, Eq)]
pub struct Shutdown {
    /// What becomes of each entry of the temporary directory, in the order
    /// in which the entries were given. A removal that fails does not stop
    /// the others.
    pub removals: Vec<Removal>,
    /// Whether the cursor of the terminal is shown again.
    pub show_cursor: bool,
    /// The status that the program ends with.
    pub exit_code: i32,
}

/// Decides what is done on an interrupt, from the entries of the temporary
/// directory; `None` where the directory could not be read, and then
/// nothing is removed. Every entry of the program is removed and every other
/// kept; the cursor is shown again and the program ends with status 1,
/// whatever the entries are.
pub fn on_interrupt(entries: Option<&Vec<TempEntry>>) -> (r: Shutdown)
    ensures
        r.show_cursor,
        r.exit_code == 1,
        r.removals@ == match entries {
            Some(entries) => removals_of(entries@),
            None => Seq::empty(),
        },
{
    let mut removals: Vec<Removal> = Vec::new();
    match entries {
        Some(entries) => {
            let mut i: usize = 0;
            while i < entries.len()
                invariant
                    i <= entries.len(),
                    removals@.len() == i,
                    forall|j: int| 0 <= j < i ==> removals@[j] == removals_of(entries@)[j],
                decreases entries.len() - i,
            {
                removals.push(removal(&entries[i]));
                i += 1;
            }
            assert(removals@ =~= removals_of(entries@));
        },
        None => {
            assert(removals@ =~= Seq::<Removal>::empty());
        },
    }
    Shutdown { removals, show_cursor: true, exit_code: 1 }
}

/// On an interrupt exactly the entries whose names begin with the program's
/// prefix are removed; every other entry is kept.
pub proof fn law_only_own_entries_removed(entries: Seq<TempEntry>, i: int)
    requires
        0 <= i < entries.len(),
    ensures
        removals_of(entries).len() == entries.len(),
        removals_of(entries)[i] != Removal::Keep <==> is_own_entry(entries[i].name@),
{
}

} // verus!
