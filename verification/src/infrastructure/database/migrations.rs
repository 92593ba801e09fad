//! The decisions of a schema upgrade, taken from the columns that the
//! repositories table has.
use vstd::prelude::*;

use crate::text::string_views;

verus! {

/// Whether the table has a column of this name.
pub fn has_column(columns: &Vec<String>, name: &str) -> (b: bool)
    ensures
        b == string_views(columns@).contains(name@),
{
    let n = name.to_owned();
    let mut i: usize = 0;
    while i < columns.len()
        invariant
            i <= columns@.len(),
            n@ == name@,
            forall|j: int| 0 <= j < i ==> (#[trigger] columns@[j])@ != name@,
        decreases columns.len() - i,
    {
        if columns[i] == n {
            assert(string_views(columns@)[i as int] == name@);
            return true;
        }
        i = i + 1;
    }
    assert(!string_views(columns@).contains(name@)) by {
        if string_views(columns@).contains(name@) {
            let k = choose|k: int|
                0 <= k < string_views(columns@).len() && string_views(columns@)[k] == name@;
            assert(columns@[k]@ == name@);
        }
    }
    false
}

/// The upgrade that an existing repositories table needs.
#[derive(Debug, Clone, Copy, PartialEq, Eq, Structural)]
pub enum LegacyUpgrade {
    /// The table still links each repository to one root: the links move to
    /// their own table and the table is rebuilt without that column.
    RebuildWithoutRootId,
    /// The table lacks the enabled flag: the column is added.
    AddEnabledColumn,
    /// Nothing to change.
    NoChange,
}

/// The upgrade for a table with these columns; a table without columns does
/// not exist yet and needs none.
pub open spec fn legacy_upgrade_for(columns: Seq<Seq<char>>) -> LegacyUpgrade {
    if columns.contains("root_id"@) {
        LegacyUpgrade::RebuildWithoutRootId
    } else if columns.len() > 0 && !columns.contains("is_enabled"@) {
        LegacyUpgrade::AddEnabledColumn
    } else {
        LegacyUpgrade::NoChange
    }
}

/// Decides the upgrade of the repositories table from its columns.
pub fn legacy_upgrade(columns: &Vec<String>) -> (u: LegacyUpgrade)
    ensures
        u == legacy_upgrade_for(string_views(columns@)),
{
    if has_column(columns, "root_id") {
        LegacyUpgrade::RebuildWithoutRootId
    } else if columns.len() > 0 && !has_column(columns, "is_enabled") {
        LegacyUpgrade::AddEnabledColumn
    } else {
        LegacyUpgrade::NoChange
    }
}

/// Which of the starring columns are missing and must be added.
#[derive(Debug, Clone, Copy, PartialEq, Eq, Structural)]
pub struct StarredColumns {
    pub add_is_starred: bool,
    pub add_starred_at: bool,
}

/// Finds the starring columns that the table lacks.
pub fn missing_starred_columns(columns: &Vec<String>) -> (m: StarredColumns)
    ensures
        m.add_is_starred == !string_views(columns@).contains("is_starred"@),
        m.add_starred_at == !string_views(columns@).contains("starred_at"@),
{
    StarredColumns {
        add_is_starred: !has_column(columns, "is_starred"),
        add_starred_at: !has_column(columns, "starred_at"),
    }
}

/// The index on the starring columns is created when both columns are
/// there: present before, or added successfully.
pub fn starred_index_wanted(columns: &Vec<String>, is_starred_added: bool, starred_at_added: bool) -> (b:
    bool)
    ensures
        b == ((string_views(columns@).contains("is_starred"@) || is_starred_added) && (
        string_views(columns@).contains("starred_at"@) || starred_at_added)),
{
    (has_column(columns, "is_starred") || is_starred_added) && (has_column(columns, "starred_at")
        || starred_at_added)
}

} // verus!
