//! The in-memory model of a directory tree. The surrounding program
//! reads a real directory into this model and writes the model back;
//! every rule of the engine is stated and checked over it.

use vstd::prelude::*;

verus! {

/// A directory's contents: its entries in the order they were listed.
#[derive(Debug, PartialEq, Eq)]
pub struct DirTree {
    pub entries: Vec<DirEntry>,
}

/// One entry of a directory: a name and what it holds.
#[derive(Debug, PartialEq, Eq)]
pub struct DirEntry {
    pub name: String,
    pub node: FsNode,
}

/// What a directory entry holds: a regular file's bytes, or a
/// subdirectory.
#[derive(Debug, PartialEq, Eq)]
pub enum FsNode {
    File(Vec<u8>),
    Dir(DirTree),
}

/// The mathematical value of a directory's contents.
#[verifier::ext_equal]
pub struct EntryView {
    pub name: Seq<char>,
    pub node: NodeView,
}

/// The mathematical value of an entry's contents.
#[verifier::ext_equal]
pub enum NodeView {
    File(Seq<u8>),
    Dir(Seq<EntryView>),
}

/// The mathematical value of a sequence of entries.
pub open spec fn entries_view_seq(s: Seq<DirEntry>) -> Seq<EntryView>
    decreases s,
{
    if s.len() == 0 {
        Seq::<EntryView>::empty()
    } else {
        entries_view_seq(s.drop_last()).push(s.last().entry_view())
    }
}

/// The value of a sequence of entries is the entrywise value.
pub proof fn lemma_entries_view_seq(s: Seq<DirEntry>)
    ensures
        entries_view_seq(s).len() == s.len(),
        forall|i: int| 0 <= i < s.len() ==> entries_view_seq(s)[i] == s[i].entry_view(),
    decreases s.len(),
{
    if s.len() > 0 {
        lemma_entries_view_seq(s.drop_last());
        assert(forall|i: int| 0 <= i < s.len() - 1 ==> s.drop_last()[i] == s[i]);
    }
}

impl DirTree {
    /// The directory's contents as a mathematical value.
    pub open spec fn entries_view(self) -> Seq<EntryView> {
        entries_view_seq(self.entries@)
    }

    /// Whether the directory holds no entries.
    pub fn is_empty(&self) -> (r: bool)
        ensures
            r == (self.entries_view().len() == 0),
    {
        proof {
            lemma_entries_view_seq(self.entries@);
        }
        self.entries.len() == 0
    }
}

impl DirEntry {
    /// The entry's contents as a mathematical value.
    pub open spec fn entry_view(self) -> EntryView
        decreases self,
    {
        EntryView { name: self.name@, node: self.node.node_view() }
    }
}

impl FsNode {
    /// The node's contents as a mathematical value.
    pub open spec fn node_view(self) -> NodeView
        decreases self,
    {
        match self {
            FsNode::File(content) => NodeView::File(content@),
            FsNode::Dir(tree) => NodeView::Dir(entries_view_seq(tree.entries@)),
        }
    }
}

/// The node under the first entry called `name`, if any.
pub open spec fn lookup_entry(entries: Seq<EntryView>, name: Seq<char>) -> Option<NodeView>
    decreases entries.len(),
{
    if entries.len() == 0 {
        None
    } else if entries[0].name == name {
        Some(entries[0].node)
    } else {
        lookup_entry(entries.drop_first(), name)
    }
}

fn find_from<'a>(entries: &'a Vec<DirEntry>, name: &String, i: usize) -> (r: Option<&'a FsNode>)
    requires
        i <= entries@.len(),
    ensures
        ({
            let looked = lookup_entry(entries_view_seq(entries@).skip(i as int), name@);
            &&& (r is Some) == (looked is Some)
            &&& (r matches Some(n) ==> (looked matches Some(v) && n.node_view() == v))
        }),
    decreases entries@.len() - i,
{
    proof {
        lemma_entries_view_seq(entries@);
    }
    let ghost views = entries_view_seq(entries@);
    if i == entries.len() {
        proof {
            assert(views.skip(i as int) =~= Seq::<EntryView>::empty());
        }
        None
    } else {
        proof {
            assert(views.skip(i as int)[0] == entries@[i as int].entry_view());
            assert(views.skip(i as int).drop_first() =~= views.skip(i + 1));
        }
        if entries[i].name == *name {
            Some(&entries[i].node)
        } else {
            find_from(entries, name, i + 1)
        }
    }
}

/// The node under the first entry of `tree` called `name`, if any.
pub fn find_entry<'a>(tree: &'a DirTree, name: &String) -> (r: Option<&'a FsNode>)
    ensures
        (r is Some) == (lookup_entry(tree.entries_view(), name@) is Some),
        r matches Some(n) ==> (lookup_entry(tree.entries_view(), name@) matches Some(v)
            && n.node_view() == v),
{
    let r = find_from(&tree.entries, name, 0);
    proof {
        assert(entries_view_seq(tree.entries@).skip(0) =~= tree.entries_view());
    }
    r
}

} // verus!
