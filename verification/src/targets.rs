//! The categories that a document can be filed under: the directories below
//! the inbox root, without the year folders and what lies in them.

use crate::command::texts;
use vstd::prelude::*;

verus! {

/// Whether a directory name denotes a year folder: exactly four characters,
/// the first two being `2` and `0`. The test is deliberately narrow: it
/// knows the years 2000 to 2099 written with four characters and nothing
/// else, and it does not ask that the last two characters be digits.
pub open spec fn year_name(name: Seq<char>) -> bool {
    name.len() == 4 && name[0] == '2' && name[1] == '0'
}

/// Decides whether `name` is the name of a year folder.
pub fn is_year_directory(name: &str) -> (r: bool)
    ensures
        r == year_name(name@),
{
    name.unicode_len() == 4 && name.get_char(0) == '2' && name.get_char(1) == '0'
}

/// One entry of the directory tree below the inbox root, as it was read from
/// the file store.
#[derive(Debug, PartialEq, Eq)]
pub struct TreeEntry {
    /// Whether the entry is a directory.
    pub is_dir: bool,
    /// The entry's own name, the last segment of its path.
    pub name: String,
    /// The entry's path relative to the inbox root.
    pub relative: String,
    /// What the directory holds, in the order in which the file store lists
    /// it. The children of a year folder are never looked at and need not
    /// be read.
    pub children: Vec<TreeEntry>,
}

/// Whether a visit stops at an entry without listing it or looking into it:
/// at anything that is no directory and, with `add`, at a year folder.
pub open spec fn stops(add: bool, is_dir: bool, name: Seq<char>) -> bool {
    !is_dir || (add && year_name(name))
}

/// Decides whether a visit stops at an entry. A caller that reads the tree
/// from the file store asks this before it reads what a directory holds.
pub fn stops_at(add: bool, is_dir: bool, name: &str) -> (r: bool)
    ensures
        r == stops(add, is_dir, name@),
{
    !is_dir || (add && is_year_directory(name))
}

/// The categories that visiting `entry` adds, in order. An entry that is no
/// directory adds nothing. With `add`, a year folder adds nothing either,
/// and any other directory adds its own path before what its children add.
/// Without `add`, the way the root is visited, the entry's name is not
/// tested and its own path is left out.
pub open spec fn visited(add: bool, entry: TreeEntry) -> Seq<Seq<char>>
    decreases entry, entry.children@.len() + 1,
{
    if stops(add, entry.is_dir, entry.name@) {
        Seq::empty()
    } else if add {
        seq![entry.relative@] + listed(entry, entry.children@.len())
    } else {
        listed(entry, entry.children@.len())
    }
}

/// The categories that the first `count` children of `entry` add, in order.
pub open spec fn listed(entry: TreeEntry, count: nat) -> Seq<Seq<char>>
    decreases entry, count,
{
    if count == 0 || count > entry.children@.len() {
        Seq::empty()
    } else {
        listed(entry, (count - 1) as nat) + visited(true, entry.children@[count - 1])
    }
}

/// A year folder adds no category, whatever lies in it, and neither does an
/// entry that is no directory.
pub proof fn lemma_pruned(entry: TreeEntry)
    requires
        !entry.is_dir || year_name(entry.name@),
    ensures
        visited(true, entry) == Seq::<Seq<char>>::empty(),
{
}

/// The root adds what its children add and never itself, whatever its name.
pub proof fn lemma_root_left_out(root: TreeEntry, twin: TreeEntry)
    requires
        root.is_dir,
        twin.is_dir,
        twin.children == root.children,
    ensures
        visited(false, root) == listed(root, root.children@.len()),
        visited(false, root) == visited(false, twin),
{
    lemma_listed_by_children(root, twin, root.children@.len());
}

/// What the children of a directory add depends on the children alone.
pub proof fn lemma_listed_by_children(entry: TreeEntry, twin: TreeEntry, count: nat)
    requires
        twin.children == entry.children,
    ensures
        listed(entry, count) == listed(twin, count),
    decreases count,
{
    if count > 0 && count <= entry.children@.len() {
        lemma_listed_by_children(entry, twin, (count - 1) as nat);
    }
}

/// Visits `directory` and appends the categories that it adds to `result`.
/// The root is visited with `add` false, every other entry with `add` true.
pub fn visit_target(add: bool, directory: &TreeEntry, result: &mut Vec<String>)
    ensures
        texts(final(result)@) == texts(old(result)@) + visited(add, *directory),
    decreases directory,
{
    if stops_at(add, directory.is_dir, directory.name.as_str()) {
        assert(texts(result@) + Seq::<Seq<char>>::empty() =~= texts(result@));
        return ;
    }
    if add {
        result.push(directory.relative.clone());
    }
    let ghost start = texts(result@);
    assert(start =~= texts(old(result)@) + if add {
        seq![directory.relative@]
    } else {
        Seq::<Seq<char>>::empty()
    });
    let mut i: usize = 0;
    while i < directory.children.len()
        invariant
            i <= directory.children.len(),
            texts(result@) == start + listed(*directory, i as nat),
        decreases directory.children.len() - i,
    {
        let ghost before = texts(result@);
        visit_target(true, &directory.children[i], result);
        i = i + 1;
        assert(texts(result@) =~= start + listed(*directory, i as nat));
    }
    assert(texts(result@) =~= texts(old(result)@) + visited(add, *directory));
}

/// The categories below the inbox root `root`, depth first, each directory
/// before what it holds, in the order in which the file store lists them.
pub fn read_targets(root: &TreeEntry) -> (r: Vec<String>)
    ensures
        texts(r@) == visited(false, *root),
{
    let mut result: Vec<String> = Vec::new();
    visit_target(false, root, &mut result);
    assert(texts(result@) =~= visited(false, *root));
    result
}

} // verus!
