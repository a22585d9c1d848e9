//! The tree copier, the per-file digest verification and the
//! structural comparator, all over the in-memory directory model.

use vstd::prelude::*;
use crate::error::AppError;
use crate::error::AppResult;
use crate::fs_model::DirEntry;
use crate::fs_model::DirTree;
use crate::fs_model::EntryView;
use crate::fs_model::FsNode;
use crate::fs_model::NodeView;
use crate::fs_model::entries_view_seq;
use crate::fs_model::lemma_entries_view_seq;
use crate::fs_model::lookup_entry;
use crate::fs_model::find_entry;
use crate::hashing::sha256_hex;
use crate::hashing::sha256_hex_of;
use crate::text::lemma_lex_le_total;
use crate::text::lemma_lex_le_trans;
use crate::text::lemma_lex_total_ordering;
use crate::text::lex_le;
use crate::text::lex_leq_order;
use crate::text::string_lex_le;

verus! {

/// Whether every entry under `src` has a counterpart under `dst`: the
/// same name, the same kind, digest-equal bytes for files, and the
/// same recursively for directories. Extra entries under `dst` are not
/// its concern.
pub open spec fn tree_verified(src: Seq<EntryView>, dst: Seq<EntryView>) -> bool
    decreases src,
{
    if src.len() == 0 {
        true
    } else {
        entry_verified(src[0], dst) && tree_verified(src.drop_first(), dst)
    }
}

/// Whether one entry of the source has its verified counterpart.
pub open spec fn entry_verified(e: EntryView, dst: Seq<EntryView>) -> bool
    decreases e,
{
    match lookup_entry(dst, e.name) {
        Option::None => false,
        Option::Some(found) => match found {
            NodeView::File(dst_content) => (e.node matches NodeView::File(src_content)
                && sha256_hex_of(src_content) == sha256_hex_of(dst_content)),
            NodeView::Dir(dst_entries) => (e.node matches NodeView::Dir(src_entries)
                && tree_verified(src_entries, dst_entries)),
        },
    }
}

/// A tree is verified exactly when each of its entries is.
pub proof fn lemma_tree_verified_index(src: Seq<EntryView>, dst: Seq<EntryView>)
    ensures
        tree_verified(src, dst) <==> (forall|i: int|
            0 <= i < src.len() ==> #[trigger] entry_verified(src[i], dst)),
    decreases src,
{
    if src.len() > 0 {
        lemma_tree_verified_index(src.drop_first(), dst);
        if entry_verified(src[0], dst) && (forall|i: int|
            0 <= i < src.drop_first().len() ==> #[trigger] entry_verified(
                src.drop_first()[i],
                dst,
            )) {
            assert forall|i: int| 0 <= i < src.len() implies #[trigger] entry_verified(
                src[i],
                dst,
            ) by {
                if i > 0 {
                    assert(src.drop_first()[i - 1] == src[i]);
                    assert(entry_verified(src.drop_first()[i - 1], dst));
                }
            }
        }
        if forall|i: int| 0 <= i < src.len() ==> #[trigger] entry_verified(src[i], dst) {
            assert forall|i: int| 0 <= i < src.drop_first().len() implies #[trigger]
                entry_verified(src.drop_first()[i], dst) by {
                assert(src.drop_first()[i] == src[i + 1]);
                assert(entry_verified(src[i + 1], dst));
            }
        }
    }
}

/// Whether entry names are unique at every level of a tree, as a real
/// directory guarantees of its listing.
pub open spec fn tree_wf(entries: Seq<EntryView>) -> bool
    decreases entries,
{
    if entries.len() == 0 {
        true
    } else {
        &&& (forall|k: int|
            1 <= k < entries.len() ==> entries[0].name != #[trigger] entries[k].name)
        &&& node_wf(entries[0].node)
        &&& tree_wf(entries.drop_first())
    }
}

/// In a well-formed tree, every entry's subtree is well formed.
pub proof fn lemma_tree_wf_node(entries: Seq<EntryView>, i: int)
    requires
        tree_wf(entries),
        0 <= i < entries.len(),
    ensures
        node_wf(entries[i].node),
    decreases entries,
{
    if i > 0 {
        assert(entries.drop_first()[i - 1] == entries[i]);
        lemma_tree_wf_node(entries.drop_first(), i - 1);
    }
}

/// Whether a node's subtree has unique entry names at every level.
pub open spec fn node_wf(n: NodeView) -> bool
    decreases n,
{
    match n {
        NodeView::File(_) => true,
        NodeView::Dir(entries) => tree_wf(entries),
    }
}

/// In a well-formed tree, looking an entry's own name up finds that
/// entry.
pub proof fn lemma_lookup_own_name(entries: Seq<EntryView>, i: int)
    requires
        tree_wf(entries),
        0 <= i < entries.len(),
    ensures
        lookup_entry(entries, entries[i].name) == Option::Some(entries[i].node),
    decreases entries,
{
    if i > 0 {
        assert(entries[0].name != entries[i].name);
        assert(entries.drop_first()[i - 1] == entries[i]);
        lemma_lookup_own_name(entries.drop_first(), i - 1);
    }
}

/// A well-formed tree verifies against itself: the copy the engine
/// produces, written and read back unaltered, passes every digest
/// comparison.
pub proof fn lemma_tree_verifies_against_itself(entries: Seq<EntryView>)
    requires
        tree_wf(entries),
    ensures
        tree_verified(entries, entries),
    decreases entries,
{
    lemma_tree_verified_index(entries, entries);
    assert forall|i: int| 0 <= i < entries.len() implies #[trigger] entry_verified(
        entries[i],
        entries,
    ) by {
        lemma_lookup_own_name(entries, i);
        lemma_tree_wf_node(entries, i);
        match entries[i].node {
            NodeView::File(_) => {},
            NodeView::Dir(sub) => {
                lemma_tree_verifies_against_itself(sub);
            },
        }
    }
}

/// The first thing the verification walk finds wrong, if anything.
pub enum VerifyFailure {
    /// An entry of this name is missing under the destination, or is
    /// there with the wrong kind.
    Missing(Seq<char>),
    /// A file's destination digest differs from its source digest;
    /// carries the source digest and the destination digest.
    DigestMismatch(Seq<char>, Seq<char>),
}

/// What the verification walk reports: the first failure in entry
/// order, depth first, or nothing when every entry verifies.
pub open spec fn verify_walk(src: Seq<EntryView>, dst: Seq<EntryView>) -> Option<VerifyFailure>
    decreases src,
{
    if src.len() == 0 {
        Option::None
    } else {
        let head = verify_entry(src[0], dst);
        if head is Some {
            head
        } else {
            verify_walk(src.drop_first(), dst)
        }
    }
}

/// What the verification of a single entry reports.
pub open spec fn verify_entry(e: EntryView, dst: Seq<EntryView>) -> Option<VerifyFailure>
    decreases e,
{
    match lookup_entry(dst, e.name) {
        Option::None => Option::Some(VerifyFailure::Missing(e.name)),
        Option::Some(found) => match found {
            NodeView::File(dst_content) => match e.node {
                NodeView::File(src_content) => if sha256_hex_of(src_content) == sha256_hex_of(
                    dst_content,
                ) {
                    Option::None
                } else {
                    Option::Some(
                        VerifyFailure::DigestMismatch(
                            sha256_hex_of(src_content),
                            sha256_hex_of(dst_content),
                        ),
                    )
                },
                NodeView::Dir(_) => Option::Some(VerifyFailure::Missing(e.name)),
            },
            NodeView::Dir(dst_entries) => match e.node {
                NodeView::Dir(src_entries) => verify_walk(src_entries, dst_entries),
                NodeView::File(_) => Option::Some(VerifyFailure::Missing(e.name)),
            },
        },
    }
}

/// The walk finds nothing wrong exactly when every entry verifies.
pub proof fn lemma_verify_walk_none(src: Seq<EntryView>, dst: Seq<EntryView>)
    ensures
        (verify_walk(src, dst) is None) <==> tree_verified(src, dst),
    decreases src,
{
    if src.len() > 0 {
        lemma_verify_entry_none(src[0], dst);
        lemma_verify_walk_none(src.drop_first(), dst);
    }
}

/// A single entry's verification finds nothing wrong exactly when the
/// entry verifies.
pub proof fn lemma_verify_entry_none(e: EntryView, dst: Seq<EntryView>)
    ensures
        (verify_entry(e, dst) is None) <==> entry_verified(e, dst),
    decreases e,
{
    match lookup_entry(dst, e.name) {
        Option::None => {},
        Option::Some(found) => match found {
            NodeView::File(_) => {},
            NodeView::Dir(dst_entries) => match e.node {
                NodeView::Dir(src_entries) => {
                    lemma_verify_walk_none(src_entries, dst_entries);
                },
                NodeView::File(_) => {},
            },
        },
    }
}

/// A destination that holds exactly the engine's copy of a
/// well-formed source, unaltered, passes both checks of the transfer:
/// the verification walk finds nothing wrong and the immediate entry
/// names match. With the transfer verdict's contract this says that a
/// run nothing interfered with commits.
pub proof fn lemma_unaltered_copy_passes(entries: Seq<EntryView>)
    requires
        tree_wf(entries),
    ensures
        verify_walk(entries, entries) is None,
        same_entry_names(entries, entries),
{
    lemma_tree_verifies_against_itself(entries);
    lemma_verify_walk_none(entries, entries);
}

/// Whether every entry under `src` is present under `dst` with its
/// name and kind, contents aside: what holds of a destination right
/// after a completed copy, however its file bytes may since have been
/// altered.
pub open spec fn shape_matches(src: Seq<EntryView>, dst: Seq<EntryView>) -> bool
    decreases src,
{
    if src.len() == 0 {
        true
    } else {
        entry_shape_matches(src[0], dst) && shape_matches(src.drop_first(), dst)
    }
}

/// Whether one entry is present under `dst` with its name and kind.
pub open spec fn entry_shape_matches(e: EntryView, dst: Seq<EntryView>) -> bool
    decreases e,
{
    match lookup_entry(dst, e.name) {
        Option::None => false,
        Option::Some(found) => match found {
            NodeView::File(_) => e.node is File,
            NodeView::Dir(dst_entries) => (e.node matches NodeView::Dir(src_entries)
                && shape_matches(src_entries, dst_entries)),
        },
    }
}

/// When the destination still has every entry of the source in shape
/// but some file's bytes no longer digest to the source's digest, the
/// verification walk reports a digest mismatch, with two digests that
/// really differ.
pub proof fn lemma_digest_mismatch_is_integrity_error(src: Seq<EntryView>, dst: Seq<EntryView>)
    requires
        shape_matches(src, dst),
        !tree_verified(src, dst),
    ensures
        verify_walk(src, dst) matches Some(f) && f matches VerifyFailure::DigestMismatch(x, y)
            && x != y,
    decreases src,
{
    if src.len() > 0 {
        assert(entry_shape_matches(src[0], dst));
        lemma_verify_entry_none(src[0], dst);
        if verify_entry(src[0], dst) is Some {
            match lookup_entry(dst, src[0].name) {
                Option::None => {},
                Option::Some(found) => match found {
                    NodeView::File(_) => {},
                    NodeView::Dir(dst_entries) => match src[0].node {
                        NodeView::Dir(src_entries) => {
                            lemma_verify_walk_none(src_entries, dst_entries);
                            lemma_digest_mismatch_is_integrity_error(src_entries, dst_entries);
                        },
                        NodeView::File(_) => {},
                    },
                },
            }
        } else {
            assert(!tree_verified(src.drop_first(), dst));
            lemma_digest_mismatch_is_integrity_error(src.drop_first(), dst);
        }
    }
}

/// Filesystem-shaped operations of the engine, stated over the
/// in-memory model of a directory tree.
pub struct FileSystem;

impl FileSystem {
    /// The digest that stands for a file's content: the lowercase
    /// hexadecimal SHA-256 of its bytes.
    pub fn calculate_hash_from_file_content(content: &Vec<u8>) -> (r: String)
        ensures
            r@ == sha256_hex_of(content@),
    {
        sha256_hex(content.as_slice())
    }

    /// Checks that everything under `from` landed under `to`: walks
    /// the entries of `from` in order, compares each file's digest
    /// with its counterpart's, and recurses into directories. The
    /// byte copy itself is filesystem work done by the caller before
    /// this; an entry the copy should have produced but that is not
    /// there (or not of its kind) is reported as not found, and the
    /// first differing digest aborts the walk as an integrity error.
    pub fn copy_all_data_under_the_directory_with_hash_verification(
        from: &DirTree,
        to: &DirTree,
    ) -> (r: AppResult<()>)
        ensures
            (r is Ok) == tree_verified(from.entries_view(), to.entries_view()),
            ({
                let failure = verify_walk(from.entries_view(), to.entries_view());
                &&& (failure matches Some(VerifyFailure::Missing(n)) ==> (r matches Err(e)
                    && e matches AppError::NotFound(p) && p@ == n))
                &&& (failure matches Some(VerifyFailure::DigestMismatch(x, y)) ==> (r matches Err(
                    e,
                ) && e matches AppError::IntegrityMismatch(a, b) && a@ == x && b@ == y))
            }),
    {
        let r = Self::verify_directory_recursively(from, to);
        proof {
            lemma_verify_walk_none(from.entries_view(), to.entries_view());
        }
        r
    }

    fn verify_directory_recursively(from: &DirTree, to: &DirTree) -> (r: AppResult<()>)
        ensures
            ({
                let failure = verify_walk(from.entries_view(), to.entries_view());
                &&& (r is Ok) == (failure is None)
                &&& (failure matches Some(VerifyFailure::Missing(n)) ==> (r matches Err(e)
                    && e matches AppError::NotFound(p) && p@ == n))
                &&& (failure matches Some(VerifyFailure::DigestMismatch(x, y)) ==> (r matches Err(
                    e,
                ) && e matches AppError::IntegrityMismatch(a, b) && a@ == x && b@ == y))
            }),
        decreases *from,
    {
        let ghost src_views = from.entries_view();
        let ghost dst_views = to.entries_view();
        proof {
            lemma_entries_view_seq(from.entries@);
            assert(src_views.skip(0) =~= src_views);
        }
        let mut i: usize = 0;
        while i < from.entries.len()
            invariant
                i <= from.entries@.len(),
                src_views == from.entries_view(),
                dst_views == to.entries_view(),
                src_views.len() == from.entries@.len(),
                forall|k: int| 0 <= k < from.entries@.len() ==> src_views[k] == from.entries@[
                    k].entry_view(),
                verify_walk(src_views, dst_views) == verify_walk(
                    src_views.skip(i as int),
                    dst_views,
                ),
            decreases from.entries@.len() - i,
        {
            let ghost rest = src_views.skip(i as int);
            let ghost e_view = src_views[i as int];
            proof {
                assert(rest[0] == e_view);
                assert(rest.drop_first() =~= src_views.skip(i + 1));
                assert(e_view == from.entries@[i as int].entry_view());
            }
            let entry = &from.entries[i];
            let found = find_entry(to, &entry.name);
            match found {
                Option::None => {
                    proof {
                        assert(lookup_entry(dst_views, e_view.name) is None);
                        assert(verify_entry(e_view, dst_views) == Option::Some(
                            VerifyFailure::Missing(e_view.name),
                        ));
                    }
                    return Err(AppError::NotFound(entry.name.clone()));
                },
                Option::Some(node) => {
                    let ghost found_view = node.node_view();
                    proof {
                        assert(lookup_entry(dst_views, e_view.name) == Option::Some(found_view));
                    }
                    match &entry.node {
                        FsNode::File(src_content) => {
                            match node {
                                FsNode::File(dst_content) => {
                                    let src_hash = Self::calculate_hash_from_file_content(
                                        src_content,
                                    );
                                    let dst_hash = Self::calculate_hash_from_file_content(
                                        dst_content,
                                    );
                                    if !(src_hash == dst_hash) {
                                        proof {
                                            assert(verify_entry(e_view, dst_views)
                                                == Option::Some(
                                                VerifyFailure::DigestMismatch(
                                                    sha256_hex_of(src_content@),
                                                    sha256_hex_of(dst_content@),
                                                ),
                                            ));
                                        }
                                        return Err(
                                            AppError::IntegrityMismatch(src_hash, dst_hash),
                                        );
                                    }
                                    proof {
                                        assert(verify_entry(e_view, dst_views) is None);
                                    }
                                },
                                FsNode::Dir(_) => {
                                    proof {
                                        assert(e_view.node is File);
                                        assert(found_view is Dir);
                                        assert(verify_entry(e_view, dst_views) == Option::Some(
                                            VerifyFailure::Missing(e_view.name),
                                        ));
                                    }
                                    return Err(AppError::NotFound(entry.name.clone()));
                                },
                            }
                        },
                        FsNode::Dir(src_sub) => {
                            match node {
                                FsNode::Dir(dst_sub) => {
                                    proof {
                                        assert(e_view.node == NodeView::Dir(
                                            src_sub.entries_view(),
                                        ));
                                        assert(found_view == NodeView::Dir(
                                            dst_sub.entries_view(),
                                        ));
                                        assert(verify_entry(e_view, dst_views) == verify_walk(
                                            src_sub.entries_view(),
                                            dst_sub.entries_view(),
                                        ));
                                    }
                                    let sub = Self::verify_directory_recursively(
                                        src_sub,
                                        dst_sub,
                                    );
                                    match sub {
                                        Ok(()) => {
                                            proof {
                                                assert(verify_entry(e_view, dst_views) is None);
                                            }
                                        },
                                        Err(e) => {
                                            return Err(e);
                                        },
                                    }
                                },
                                FsNode::File(_) => {
                                    proof {
                                        assert(e_view.node is Dir);
                                        assert(found_view is File);
                                        assert(verify_entry(e_view, dst_views) == Option::Some(
                                            VerifyFailure::Missing(e_view.name),
                                        ));
                                    }
                                    return Err(AppError::NotFound(entry.name.clone()));
                                },
                            }
                        },
                    }
                },
            }
            i = i + 1;
        }
        proof {
            assert(src_views.skip(i as int) =~= Seq::<EntryView>::empty());
        }
        Ok(())
    }
}

/// The names of a directory's immediate entries, in entry order.
pub open spec fn names_of(entries: Seq<EntryView>) -> Seq<Seq<char>> {
    entries.map_values(|e: EntryView| e.name)
}

/// The character sequences of a sequence of strings.
pub open spec fn strings_view(v: Seq<String>) -> Seq<Seq<char>> {
    v.map_values(|s: String| s@)
}

/// Whether two directories hold the same immediate entry names,
/// regardless of listing order.
pub open spec fn same_entry_names(a: Seq<EntryView>, b: Seq<EntryView>) -> bool {
    names_of(a).to_multiset() == names_of(b).to_multiset()
}

/// Holding the same entry names is symmetric in the two directories.
pub proof fn lemma_same_entry_names_symmetric(a: Seq<EntryView>, b: Seq<EntryView>)
    ensures
        same_entry_names(a, b) == same_entry_names(b, a),
{
}

fn insert_sorted(out: &mut Vec<String>, s: String)
    requires
        vstd::relations::sorted_by(strings_view(old(out)@), lex_leq_order()),
    ensures
        vstd::relations::sorted_by(strings_view(final(out)@), lex_leq_order()),
        strings_view(final(out)@).to_multiset() == strings_view(old(out)@).to_multiset().insert(
            s@,
        ),
{
    proof {
        lemma_lex_total_ordering();
    }
    let ghost old_names = strings_view(out@);
    let mut idx: usize = 0;
    loop
        invariant
            idx <= out@.len(),
            old_names == strings_view(out@),
            old_names.len() == out@.len(),
            forall|k: int| 0 <= k < out@.len() ==> old_names[k] == out@[k]@,
            forall|k: int| 0 <= k < idx ==> !lex_le(s@, #[trigger] old_names[k]),
        ensures
            idx <= out@.len(),
            old_names == strings_view(out@),
            forall|k: int| 0 <= k < idx ==> !lex_le(s@, #[trigger] old_names[k]),
            idx < out@.len() ==> lex_le(s@, old_names[idx as int]),
        decreases out@.len() - idx,
    {
        if idx == out.len() {
            break;
        }
        if string_lex_le(&s, &out[idx]) {
            break;
        }
        idx = idx + 1;
    }
    let ghost pos = idx as int;
    out.insert(idx, s);
    proof {
        broadcast use vstd::seq_lib::group_to_multiset_ensures;

        let new_names = strings_view(out@);
        assert(out@ == old(out)@.insert(pos, s));
        old(out)@.insert_ensures(pos, s);
        assert(new_names =~= old_names.insert(pos, s@));
        vstd::seq_lib::to_multiset_insert(old_names, pos, s@);
        assert forall|i: int, j: int| 0 <= i < j < new_names.len() implies #[trigger]
            lex_leq_order()(new_names[i], new_names[j]) by {
            old_names.insert_ensures(pos, s@);
            if j < pos {
                assert(lex_leq_order()(old_names[i], old_names[j]));
            } else if i < pos && j == pos {
                lemma_lex_le_total(s@, old_names[i]);
                assert(lex_le(old_names[i], s@));
            } else if i < pos && j > pos {
                assert(lex_leq_order()(old_names[i], old_names[j - 1]));
            } else if i == pos && j > pos {
                if pos < old_names.len() {
                    if j - 1 > pos {
                        assert(lex_leq_order()(old_names[pos], old_names[j - 1]));
                        lemma_lex_le_trans(s@, old_names[pos], old_names[j - 1]);
                    } else {
                        assert(lex_le(s@, old_names[pos]));
                    }
                }
            } else {
                assert(lex_leq_order()(old_names[i - 1], old_names[j - 1]));
            }
        }
    }
}

fn string_vecs_equal(a: &Vec<String>, b: &Vec<String>) -> (r: bool)
    ensures
        r == (strings_view(a@) == strings_view(b@)),
{
    if a.len() != b.len() {
        proof {
            assert(strings_view(a@).len() != strings_view(b@).len());
        }
        return false;
    }
    let mut i: usize = 0;
    while i < a.len()
        invariant
            i <= a@.len(),
            a@.len() == b@.len(),
            forall|k: int| 0 <= k < i ==> strings_view(a@)[k] == strings_view(b@)[k],
        decreases a@.len() - i,
    {
        if !(a[i] == b[i]) {
            proof {
                assert(strings_view(a@)[i as int] != strings_view(b@)[i as int]);
            }
            return false;
        }
        i = i + 1;
    }
    proof {
        assert(strings_view(a@) =~= strings_view(b@));
    }
    true
}

impl FileSystem {
    /// The immediate entry names of a directory, sorted
    /// lexicographically.
    pub fn list_relative_paths(tree: &DirTree) -> (r: Vec<String>)
        ensures
            vstd::relations::sorted_by(strings_view(r@), lex_leq_order()),
            strings_view(r@).to_multiset() == names_of(tree.entries_view()).to_multiset(),
    {
        proof {
            lemma_entries_view_seq(tree.entries@);
        }
        let ghost all_names = names_of(tree.entries_view());
        let mut out: Vec<String> = Vec::new();
        let mut i: usize = 0;
        proof {
            broadcast use vstd::seq_lib::group_to_multiset_ensures;

            assert(strings_view(out@) =~= Seq::<Seq<char>>::empty());
            assert(all_names.subrange(0, 0) =~= Seq::<Seq<char>>::empty());
        }
        while i < tree.entries.len()
            invariant
                i <= tree.entries@.len(),
                all_names == names_of(tree.entries_view()),
                all_names.len() == tree.entries@.len(),
                forall|k: int| 0 <= k < tree.entries@.len() ==> all_names[k] == tree.entries@[
                    k].name@,
                vstd::relations::sorted_by(strings_view(out@), lex_leq_order()),
                strings_view(out@).to_multiset() == all_names.subrange(0, i as int).to_multiset(),
            decreases tree.entries@.len() - i,
        {
            let name = tree.entries[i].name.clone();
            insert_sorted(&mut out, name);
            proof {
                broadcast use vstd::seq_lib::group_to_multiset_ensures;

                assert(all_names.subrange(0, (i + 1) as int).drop_last() =~= all_names.subrange(
                    0,
                    i as int,
                ));
                assert(all_names.subrange(0, (i + 1) as int) =~= all_names.subrange(
                    0,
                    i as int,
                ).push(all_names[i as int]));
            }
            i = i + 1;
        }
        proof {
            assert(all_names.subrange(0, all_names.len() as int) =~= all_names);
        }
        out
    }

    /// Whether two directories hold the same immediate entry names:
    /// both listings are sorted and compared. This is the structural
    /// check of the transfer, independent of file contents.
    pub fn verify_directory_contents_match(a: &DirTree, b: &DirTree) -> (r: bool)
        ensures
            r == same_entry_names(a.entries_view(), b.entries_view()),
    {
        let list_a = Self::list_relative_paths(a);
        let list_b = Self::list_relative_paths(b);
        let r = string_vecs_equal(&list_a, &list_b);
        proof {
            lemma_lex_total_ordering();
            if !r && same_entry_names(a.entries_view(), b.entries_view()) {
                vstd::seq_lib::lemma_sorted_unique(
                    strings_view(list_a@),
                    strings_view(list_b@),
                    lex_leq_order(),
                );
            }
        }
        r
    }

    /// Empties a directory, as the rollback and the final clearing of
    /// the source do.
    pub fn clear_directory_contents(tree: &mut DirTree)
        ensures
            final(tree).entries_view().len() == 0,
    {
        tree.entries = Vec::new();
    }

    /// Whether a directory holds no entries.
    pub fn is_directory_empty(tree: &DirTree) -> (r: bool)
        ensures
            r == (tree.entries_view().len() == 0),
    {
        tree.is_empty()
    }
}

/// Produces the in-memory copy of a source tree: the value the caller
/// writes to the destination. Every file of the copy holds exactly the
/// bytes of its source.
pub fn copy_verified(source: &DirTree) -> (r: DirTree)
    ensures
        r.entries_view() == source.entries_view(),
{
    DirTree { entries: copy_entries(&source.entries) }
}

fn copy_bytes(content: &Vec<u8>) -> (r: Vec<u8>)
    ensures
        r@ == content@,
{
    let mut r: Vec<u8> = Vec::new();
    let mut i: usize = 0;
    while i < content.len()
        invariant
            i <= content@.len(),
            r@ == content@.subrange(0, i as int),
        decreases content@.len() - i,
    {
        let b = content[i];
        r.push(b);
        proof {
            assert(r@ =~= content@.subrange(0, (i + 1) as int));
        }
        i = i + 1;
    }
    proof {
        assert(r@ =~= content@);
    }
    r
}

fn copy_node(node: &FsNode) -> (r: FsNode)
    ensures
        r.node_view() == node.node_view(),
    decreases *node,
{
    match node {
        FsNode::File(content) => FsNode::File(copy_bytes(content)),
        FsNode::Dir(tree) => FsNode::Dir(DirTree { entries: copy_entries(&tree.entries) }),
    }
}

fn copy_entries(entries: &Vec<DirEntry>) -> (r: Vec<DirEntry>)
    ensures
        entries_view_seq(r@) == entries_view_seq(entries@),
    decreases *entries,
{
    let mut r: Vec<DirEntry> = Vec::new();
    let mut i: usize = 0;
    while i < entries.len()
        invariant
            i <= entries@.len(),
            entries_view_seq(r@) == entries_view_seq(entries@.subrange(0, i as int)),
        decreases entries@.len() - i,
    {
        let copied = DirEntry {
            name: entries[i].name.clone(),
            node: copy_node(&entries[i].node),
        };
        proof {
            assert(entries@.subrange(0, (i + 1) as int).drop_last() =~= entries@.subrange(
                0,
                i as int,
            ));
            assert(entries@.subrange(0, (i + 1) as int).last() == entries@[i as int]);
        }
        let ghost prev = r@;
        r.push(copied);
        proof {
            assert(r@.drop_last() =~= prev);
            assert(r@.last() == copied);
            assert(entries_view_seq(r@) == entries_view_seq(prev).push(copied.entry_view()));
            assert(copied.entry_view() =~= entries@[i as int].entry_view());
        }
        i = i + 1;
    }
    proof {
        assert(entries@.subrange(0, entries@.len() as int) =~= entries@);
    }
    r
}

} // verus!
