//! The project tree shown beside the editor.
use vstd::prelude::*;

use crate::text::same_text;

verus! {

/// A file or directory of the project, with what the tree shows of it.
#[derive(Debug)]
pub struct FileTreeNode {
    pub path: String,
    pub is_directory: bool,
    pub children: Vec<FileTreeNode>,
    pub expanded: bool,
}

/// The project tree, the file selected in it, and a file the user asked to
/// open that the editor has not loaded yet.
#[derive(Debug)]
pub struct FileExplorer {
    pub root: Option<FileTreeNode>,
    pub selected_file: Option<String>,
    pub pending_file_load: Option<String>,
}

impl Default for FileExplorer {
    /// No project, nothing selected, nothing to open.
    fn default() -> (r: Self)
        ensures
            r.root is None,
            r.selected_file is None,
            r.pending_file_load is None,
    {
        FileExplorer { root: None, selected_file: None, pending_file_load: None }
    }
}

impl FileExplorer {
    /// Shows `tree` as the project.
    pub fn open_project(&mut self, tree: FileTreeNode)
        ensures
            final(self).root == Some(tree),
            final(self).selected_file == old(self).selected_file,
            final(self).pending_file_load == old(self).pending_file_load,
    {
        self.root = Some(tree);
    }

    /// The user picked the file at `path`: it becomes the selection and is
    /// waiting to be opened.
    pub fn select_file(&mut self, path: String)
        ensures
            final(self).root == old(self).root,
            final(self).selected_file == Some(path),
            final(self).pending_file_load == Some(path),
    {
        self.selected_file = Some(path.clone());
        self.pending_file_load = Some(path);
    }

    /// Hands out the file waiting to be opened, at most once.
    pub fn take_pending_file(&mut self) -> (r: Option<String>)
        ensures
            r == old(self).pending_file_load,
            final(self).pending_file_load is None,
            final(self).root == old(self).root,
            final(self).selected_file == old(self).selected_file,
    {
        self.pending_file_load.take()
    }
}

/// A directory entry as listed: its name, its full path, and whether it
/// is a directory.
#[derive(Debug)]
pub struct DirEntryInfo {
    pub name: String,
    pub path: String,
    pub is_directory: bool,
}

/// Entries the tree leaves out: hidden ones, whose name starts with a dot,
/// and build output, named `target`.
pub open spec fn is_left_out(name: Seq<char>) -> bool {
    (name.len() > 0 && name[0] == '.') || name == "target"@
}

/// The entries the tree shows, in the order listed.
pub open spec fn shown_entries(entries: Seq<DirEntryInfo>) -> Seq<DirEntryInfo>
    decreases entries.len(),
{
    if entries.len() == 0 {
        Seq::empty()
    } else {
        let rest = shown_entries(entries.drop_last());
        if is_left_out(entries.last().name@) {
            rest
        } else {
            rest.push(entries.last())
        }
    }
}

/// Names in order, character by character, a prefix first.
pub open spec fn name_le(a: Seq<char>, b: Seq<char>) -> bool
    decreases a.len(),
{
    if a.len() == 0 {
        true
    } else if b.len() == 0 {
        false
    } else if a[0] as u32 != b[0] as u32 {
        (a[0] as u32) < (b[0] as u32)
    } else {
        name_le(a.drop_first(), b.drop_first())
    }
}

/// The order of the tree: directories before files, each group by name.
pub open spec fn listed_before(a: DirEntryInfo, b: DirEntryInfo) -> bool {
    if a.is_directory != b.is_directory {
        a.is_directory
    } else {
        name_le(a.name@, b.name@)
    }
}

/// Whether each entry comes no later than the next one in the tree's order.
pub open spec fn in_tree_order(entries: Seq<DirEntryInfo>) -> bool {
    forall|i: int| 0 <= i < entries.len() - 1 ==> #[trigger] listed_before(entries[i], entries[i + 1])
}

proof fn lemma_name_le_total(a: Seq<char>, b: Seq<char>)
    ensures
        name_le(a, b) || name_le(b, a),
    decreases a.len(),
{
    if a.len() > 0 && b.len() > 0 && a[0] as u32 == b[0] as u32 {
        lemma_name_le_total(a.drop_first(), b.drop_first());
    }
}

fn name_before(a: &str, b: &str) -> (r: bool)
    ensures
        r == name_le(a@, b@),
{
    let n = a.unicode_len();
    let m = b.unicode_len();
    let mut i: usize = 0;
    assert(a@.skip(0) =~= a@);
    assert(b@.skip(0) =~= b@);
    while i < n && i < m && a.get_char(i) as u32 == b.get_char(i) as u32
        invariant
            n == a@.len(),
            m == b@.len(),
            i <= n,
            i <= m,
            name_le(a@, b@) == name_le(a@.skip(i as int), b@.skip(i as int)),
        decreases n - i,
    {
        assert(a@.skip(i as int).drop_first() =~= a@.skip(i + 1));
        assert(b@.skip(i as int).drop_first() =~= b@.skip(i + 1));
        i = i + 1;
    }
    if i == n {
        true
    } else if i == m {
        false
    } else {
        (a.get_char(i) as u32) < (b.get_char(i) as u32)
    }
}

fn entry_before(a: &DirEntryInfo, b: &DirEntryInfo) -> (r: bool)
    ensures
        r == listed_before(*a, *b),
{
    if a.is_directory != b.is_directory {
        a.is_directory
    } else {
        name_before(a.name.as_str(), b.name.as_str())
    }
}

fn left_out(name: &str) -> (r: bool)
    ensures
        r == is_left_out(name@),
{
    (!name.is_empty() && name.get_char(0) == '.') || same_text(name, "target")
}

/// The entries of a directory as the tree shows them: hidden entries and
/// `target` left out, directories first, each group ordered by name.  The
/// result holds exactly the shown entries, each as often as listed.
pub fn arrange_entries(entries: Vec<DirEntryInfo>) -> (r: Vec<DirEntryInfo>)
    ensures
        r@.to_multiset() == shown_entries(entries@).to_multiset(),
        in_tree_order(r@),
{
    let mut r: Vec<DirEntryInfo> = Vec::new();
    let ghost all = entries@;
    proof {
        assert(r@.to_multiset() =~= shown_entries(all.take(0)).to_multiset());
    }
    for e in it: entries
        invariant
            it.seq() == all,
            r@.to_multiset() == shown_entries(all.take(it.index() as int)).to_multiset(),
            in_tree_order(r@),
    {
        let ghost k = it.index();
        assert(e == all[k as int]);
        assert(all.take(k + 1).drop_last() =~= all.take(k as int));
        if !left_out(e.name.as_str()) {
            let mut p: usize = 0;
            while p < r.len() && entry_before(&r[p], &e)
                invariant
                    p <= r@.len(),
                    forall|j: int| 0 <= j < p ==> #[trigger] listed_before(r@[j], e),
                decreases r@.len() - p,
            {
                p = p + 1;
            }
            proof {
                if p < r@.len() {
                    lemma_name_le_total(r@[p as int].name@, e.name@);
                }
            }
            let ghost before = r@;
            r.insert(p, e);
            assert(r@ == before.insert(p as int, e));
            assert forall|i: int| 0 <= i < r@.len() - 1 implies #[trigger] listed_before(r@[i], r@[i + 1]) by {
                if i + 1 < p {
                    assert(listed_before(before[i], before[i + 1]));
                } else if i + 1 == p {
                    assert(listed_before(before[i], e));
                } else if i == p {
                } else {
                    let j = i - 1;
                    assert(listed_before(before[j], before[j + 1]));
                }
            }
            assert(shown_entries(all.take(k + 1)) == shown_entries(all.take(k as int)).push(e));
            proof {
                vstd::seq_lib::to_multiset_insert(before, p as int, e);
                vstd::seq_lib::to_multiset_build(shown_entries(all.take(k as int)), e);
            }
        } else {
            assert(shown_entries(all.take(k + 1)) == shown_entries(all.take(k as int)));
        }
    }
    assert(all.take(all.len() as int) =~= all);
    r
}

impl FileTreeNode {
    /// Opens a closed directory, or closes an open one.
    pub fn toggle_expanded(&mut self)
        ensures
            final(self).expanded == !old(self).expanded,
            final(self).path == old(self).path,
            final(self).is_directory == old(self).is_directory,
            final(self).children == old(self).children,
    {
        self.expanded = !self.expanded;
    }
}

} // verus!
