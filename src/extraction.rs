use vstd::prelude::*;

use crate::rewrite::{destination, lemma_unmatched_has_no_destination, regex_is_match};
use crate::rules::text_of;

verus! {

/// A tree of files: contents keyed by absolute path.
pub type FileTree = Map<Seq<char>, Seq<u8>>;

/// What one archive entry does to a tree: an entry that no rule places is
/// dropped, and a file already at its destination is kept as it is.
pub open spec fn extract_entry(
    tree: FileTree,
    rules: Seq<(Seq<char>, Seq<char>)>,
    entry: (Seq<char>, Seq<u8>),
) -> FileTree {
    match destination(rules, entry.0) {
        Some(d) => if tree.contains_key(d) {
            tree
        } else {
            tree.insert(d, entry.1)
        },
        None => tree,
    }
}

/// One extraction pass over the entries of an archive, in archive order.
pub open spec fn extract_entries(
    tree: FileTree,
    rules: Seq<(Seq<char>, Seq<char>)>,
    entries: Seq<(Seq<char>, Seq<u8>)>,
) -> FileTree
    decreases entries.len(),
{
    if entries.len() == 0 {
        tree
    } else {
        extract_entries(extract_entry(tree, rules, entries[0]), rules, entries.drop_first())
    }
}

/// Where an entry is written: nowhere when it has no destination or a file
/// already exists there (existing files win), else at its destination.
pub open spec fn write_target(dest: Option<Seq<char>>, exists: bool) -> Option<Seq<char>> {
    if exists {
        None
    } else {
        dest
    }
}

/// A tree after `bytes` are written at `target`, if any.
pub open spec fn written(tree: FileTree, target: Option<Seq<char>>, bytes: Seq<u8>) -> FileTree {
    match target {
        Some(d) => tree.insert(d, bytes),
        None => tree,
    }
}

/// Decides one step of an extraction pass: given an entry's destination and
/// whether a file exists there, the path to write the entry to, if any.
pub fn entry_target(dest: Option<String>, exists: bool) -> (r: Option<String>)
    ensures
        text_of(r) == write_target(text_of(dest), exists),
{
    if exists {
        None
    } else {
        dest
    }
}

/// One step taken with `write_target`, where `exists` is read from the tree
/// at the entry's destination, is what the entry does in an extraction pass.
pub proof fn lemma_step_is_extract_entry(
    tree: FileTree,
    rules: Seq<(Seq<char>, Seq<char>)>,
    entry: (Seq<char>, Seq<u8>),
    exists: bool,
)
    requires
        destination(rules, entry.0) matches Some(d) ==> exists == tree.contains_key(d),
    ensures
        written(tree, write_target(destination(rules, entry.0), exists), entry.1)
            == extract_entry(tree, rules, entry),
{
}

/// Taking the steps entry by entry, in archive order, builds the pass: after
/// a prefix of the entries and one more step, the tree is the pass over the
/// longer prefix.
pub proof fn lemma_steps_build_pass(
    tree: FileTree,
    rules: Seq<(Seq<char>, Seq<char>)>,
    entries: Seq<(Seq<char>, Seq<u8>)>,
    entry: (Seq<char>, Seq<u8>),
)
    ensures
        extract_entries(tree, rules, entries.push(entry)) == extract_entry(
            extract_entries(tree, rules, entries),
            rules,
            entry,
        ),
    decreases entries.len(),
{
    if entries.len() > 0 {
        let next = extract_entry(tree, rules, entries[0]);
        assert(entries.push(entry)[0] == entries[0]);
        assert(entries.push(entry).drop_first() =~= entries.drop_first().push(entry));
        lemma_steps_build_pass(next, rules, entries.drop_first(), entry);
    } else {
        let after = extract_entry(tree, rules, entry);
        assert(entries.push(entry)[0] == entry);
        assert(entries.push(entry).drop_first() =~= entries);
        assert(extract_entries(after, rules, entries) == after);
    }
}

/// A pass keeps every file that was already in the tree, untouched.
pub proof fn lemma_extraction_keeps_existing(
    tree: FileTree,
    rules: Seq<(Seq<char>, Seq<char>)>,
    entries: Seq<(Seq<char>, Seq<u8>)>,
)
    ensures
        forall|k: Seq<char>| #[trigger]
            tree.contains_key(k) ==> extract_entries(tree, rules, entries).contains_key(k)
                && extract_entries(tree, rules, entries)[k] == tree[k],
    decreases entries.len(),
{
    if entries.len() > 0 {
        let next = extract_entry(tree, rules, entries[0]);
        lemma_extraction_keeps_existing(next, rules, entries.drop_first());
        assert forall|k: Seq<char>| #[trigger] tree.contains_key(k) implies next.contains_key(k)
            && next[k] == tree[k] by {}
    }
}

/// After a pass, every entry that a rule places has a file at its destination.
pub proof fn lemma_extraction_places_matched(
    tree: FileTree,
    rules: Seq<(Seq<char>, Seq<char>)>,
    entries: Seq<(Seq<char>, Seq<u8>)>,
)
    ensures
        forall|i: int|
            0 <= i < entries.len() && (#[trigger] destination(rules, entries[i].0)) is Some
                ==> extract_entries(tree, rules, entries).contains_key(
                destination(rules, entries[i].0)->Some_0,
            ),
    decreases entries.len(),
{
    if entries.len() > 0 {
        let next = extract_entry(tree, rules, entries[0]);
        let rest = entries.drop_first();
        lemma_extraction_places_matched(next, rules, rest);
        lemma_extraction_keeps_existing(next, rules, rest);
        assert forall|i: int|
            0 <= i < entries.len() && (#[trigger] destination(rules, entries[i].0)) is Some
                implies extract_entries(tree, rules, entries).contains_key(
            destination(rules, entries[i].0)->Some_0,
        ) by {
            if i > 0 {
                assert(entries[i] == rest[i - 1]);
            } else {
                assert(next.contains_key(destination(rules, entries[0].0)->Some_0));
            }
        }
    }
}

/// A pass over a tree that already holds every destination changes nothing.
pub proof fn lemma_extraction_complete_tree_unchanged(
    tree: FileTree,
    rules: Seq<(Seq<char>, Seq<char>)>,
    entries: Seq<(Seq<char>, Seq<u8>)>,
)
    requires
        forall|i: int|
            0 <= i < entries.len() && (#[trigger] destination(rules, entries[i].0)) is Some
                ==> tree.contains_key(destination(rules, entries[i].0)->Some_0),
    ensures
        extract_entries(tree, rules, entries) == tree,
    decreases entries.len(),
{
    if entries.len() > 0 {
        let rest = entries.drop_first();
        assert(extract_entry(tree, rules, entries[0]) == tree) by {
            if destination(rules, entries[0].0) is Some {
                assert(tree.contains_key(destination(rules, entries[0].0)->Some_0));
            }
        }
        assert forall|i: int|
            0 <= i < rest.len() && (#[trigger] destination(rules, rest[i].0)) is Some
                implies tree.contains_key(destination(rules, rest[i].0)->Some_0) by {
            assert(rest[i] == entries[i + 1]);
        }
        lemma_extraction_complete_tree_unchanged(tree, rules, rest);
    }
}

/// Extracting the same archive with the same rules a second time leaves the
/// tree exactly as the first pass left it.
pub proof fn lemma_extraction_idempotent(
    tree: FileTree,
    rules: Seq<(Seq<char>, Seq<char>)>,
    entries: Seq<(Seq<char>, Seq<u8>)>,
)
    ensures
        extract_entries(extract_entries(tree, rules, entries), rules, entries) == extract_entries(
            tree,
            rules,
            entries,
        ),
{
    let once = extract_entries(tree, rules, entries);
    lemma_extraction_places_matched(tree, rules, entries);
    lemma_extraction_complete_tree_unchanged(once, rules, entries);
}

/// An entry that no rule places leaves the tree as it is.
pub proof fn lemma_unmatched_entry_writes_nothing(
    tree: FileTree,
    rules: Seq<(Seq<char>, Seq<char>)>,
    entry: (Seq<char>, Seq<u8>),
)
    requires
        forall|j: int| 0 <= j < rules.len() ==> !regex_is_match(#[trigger] rules[j].0, entry.0),
    ensures
        extract_entry(tree, rules, entry) == tree,
{
    lemma_unmatched_has_no_destination(rules, entry.0);
}

/// Every file that a pass adds sits at the destination of an entry that a
/// rule matched: entries that match no rule produce no file anywhere.
pub proof fn lemma_new_files_come_from_matched_entries(
    tree: FileTree,
    rules: Seq<(Seq<char>, Seq<char>)>,
    entries: Seq<(Seq<char>, Seq<u8>)>,
)
    ensures
        forall|k: Seq<char>| #[trigger]
            extract_entries(tree, rules, entries).contains_key(k) && !tree.contains_key(k)
                ==> exists|i: int|
                0 <= i < entries.len() && #[trigger] destination(rules, entries[i].0) == Some(k),
    decreases entries.len(),
{
    if entries.len() > 0 {
        let next = extract_entry(tree, rules, entries[0]);
        let rest = entries.drop_first();
        lemma_new_files_come_from_matched_entries(next, rules, rest);
        assert forall|k: Seq<char>| #[trigger]
            extract_entries(tree, rules, entries).contains_key(k) && !tree.contains_key(k)
                implies exists|i: int|
            0 <= i < entries.len() && #[trigger] destination(rules, entries[i].0) == Some(k) by {
            if next.contains_key(k) {
                assert(destination(rules, entries[0].0) == Some(k));
            } else {
                assert(extract_entries(tree, rules, entries) == extract_entries(next, rules, rest));
                assert(extract_entries(next, rules, rest).contains_key(k));
                let i = choose|i: int|
                    0 <= i < rest.len() && #[trigger] destination(rules, rest[i].0) == Some(k);
                assert(entries[i + 1] == rest[i]);
                assert(destination(rules, entries[i + 1].0) == Some(k));
            }
        }
    }
}

} // verus!
