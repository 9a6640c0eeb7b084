//! Discovery of candidate data files: the pure bookkeeping of a
//! recursive directory walk.
//!
//! The walk itself needs the filesystem, so the caller drives it: it
//! asks [`Discovery::next_dir`] which directory to list, lists it, and
//! hands the entries back through [`Discovery::record_entries`]. The
//! decisions — which entries to descend into, which to keep as
//! candidates — live here and are verified. A candidate is a file whose
//! name ends in the fixed lowercase marker `.json` with a non-empty
//! stem before the dot.

use vstd::prelude::*;
use vstd::string::StrSliceExecFns;

verus! {

/// What kind of filesystem object a directory entry is: a directory to
/// descend into, a regular file, or anything else (which is skipped).
#[derive(Clone, Copy, Debug, PartialEq, Eq, Structural)]
pub enum EntryKind {
    Directory,
    File,
    Other,
}

/// One entry of a listed directory, as plain values: its bare name, its
/// full path, and what it is.
#[derive(Debug, Clone)]
pub struct Entry {
    pub name: String,
    pub path: String,
    pub kind: EntryKind,
}

/// A file name selects a candidate when it ends in `.json` and has a
/// non-empty stem, so the final dot is not its first character.
pub open spec fn is_json_name(n: Seq<char>) -> bool {
    n.len() >= 6 && n.subrange(n.len() - 5, n.len() as int) == ".json"@
}

/// A directory entry is a candidate when it is a regular file with a
/// matching name.
pub open spec fn is_candidate(e: Entry) -> bool {
    e.kind is File && is_json_name(e.name@)
}

/// Decides whether a file name selects a candidate.
pub fn has_json_name(name: &str) -> (b: bool)
    ensures
        b == is_json_name(name@),
{
    proof {
        reveal_strlit(".json");
    }
    let len = name.unicode_len();
    if len < 6 {
        return false;
    }
    let b = name.get_char(len - 5) == '.' && name.get_char(len - 4) == 'j' && name.get_char(len - 3)
        == 's' && name.get_char(len - 2) == 'o' && name.get_char(len - 1) == 'n';
    proof {
        let tail = name@.subrange(name@.len() - 5, name@.len() as int);
        if b {
            assert(tail =~= ".json"@);
        } else {
            assert(tail.len() == 5);
            assert(tail[0] == name@[name@.len() - 5]);
            assert(tail[1] == name@[name@.len() - 4]);
            assert(tail[2] == name@[name@.len() - 3]);
            assert(tail[3] == name@[name@.len() - 2]);
            assert(tail[4] == name@[name@.len() - 1]);
        }
    }
    b
}

/// The full paths of the directories among the entries, in order.
pub open spec fn dir_paths(es: Seq<Entry>) -> Seq<String>
    decreases es.len(),
{
    if es.len() == 0 {
        Seq::empty()
    } else if es.last().kind is Directory {
        dir_paths(es.drop_last()).push(es.last().path)
    } else {
        dir_paths(es.drop_last())
    }
}

/// The full paths of the candidate files among the entries, in order.
pub open spec fn candidate_paths(es: Seq<Entry>) -> Seq<String>
    decreases es.len(),
{
    if es.len() == 0 {
        Seq::empty()
    } else if is_candidate(es.last()) {
        candidate_paths(es.drop_last()).push(es.last().path)
    } else {
        candidate_paths(es.drop_last())
    }
}

/// The state of one directory walk: the directories still to be listed,
/// and the candidate files found so far, in discovery order.
pub struct Discovery {
    pub pending: Vec<String>,
    pub found: Vec<String>,
}

impl Discovery {
    /// Starts a walk at the given root directory.
    pub fn new(root: String) -> (d: Discovery)
        ensures
            d.pending@ =~= seq![root],
            d.found@ =~= Seq::<String>::empty(),
    {
        let mut pending: Vec<String> = Vec::new();
        pending.push(root);
        Discovery { pending, found: Vec::new() }
    }

    /// The next directory whose entries should be listed and recorded,
    /// or `None` when the walk is complete.
    pub fn next_dir(&mut self) -> (r: Option<String>)
        ensures
            old(self).pending@.len() == 0 ==> r is None && final(self).pending@ == old(
                self,
            ).pending@ && final(self).found == old(self).found,
            old(self).pending@.len() > 0 ==> r == Some(old(self).pending@.last())
                && final(self).pending@ == old(self).pending@.drop_last()
                && final(self).found == old(self).found,
    {
        match self.pending.pop() {
            Some(d) => Some(d),
            None => None,
        }
    }

    /// Records the listed entries of one directory: directories join the
    /// pending work, candidate files join the result, everything else is
    /// skipped.
    #[verifier::loop_isolation(false)]
    pub fn record_entries(&mut self, entries: Vec<Entry>)
        ensures
            final(self).pending@ == old(self).pending@ + dir_paths(entries@),
            final(self).found@ == old(self).found@ + candidate_paths(entries@),
    {
        let n = entries.len();
        for i in 0..n
            invariant
                n == entries.len(),
                self.pending@ == old(self).pending@ + dir_paths(entries@.take(i as int)),
                self.found@ == old(self).found@ + candidate_paths(entries@.take(i as int)),
        {
            proof {
                assert(entries@.take(i as int + 1).drop_last() =~= entries@.take(i as int));
                assert(entries@.take(i as int + 1).last() == entries@[i as int]);
            }
            let e = &entries[i];
            match e.kind {
                EntryKind::Directory => {
                    self.pending.push(e.path.clone());
                    proof {
                        assert(self.pending@ =~= old(self).pending@ + dir_paths(
                            entries@.take(i as int + 1),
                        ));
                        assert(self.found@ =~= old(self).found@ + candidate_paths(
                            entries@.take(i as int + 1),
                        ));
                    }
                },
                EntryKind::File => {
                    if has_json_name(e.name.as_str()) {
                        self.found.push(e.path.clone());
                        proof {
                            assert(is_candidate(entries@[i as int]));
                            assert(self.found@ =~= old(self).found@ + candidate_paths(
                                entries@.take(i as int + 1),
                            ));
                        }
                    } else {
                        proof {
                            assert(self.found@ =~= old(self).found@ + candidate_paths(
                                entries@.take(i as int + 1),
                            ));
                        }
                    }
                    proof {
                        assert(self.pending@ =~= old(self).pending@ + dir_paths(
                            entries@.take(i as int + 1),
                        ));
                    }
                },
                EntryKind::Other => {
                    proof {
                        assert(self.pending@ =~= old(self).pending@ + dir_paths(
                            entries@.take(i as int + 1),
                        ));
                        assert(self.found@ =~= old(self).found@ + candidate_paths(
                            entries@.take(i as int + 1),
                        ));
                    }
                },
            }
        }
        proof {
            assert(entries@.take(n as int) =~= entries@);
        }
    }

    /// Hands out the candidate paths, ending the walk.
    pub fn into_found(self) -> (r: Vec<String>)
        ensures
            r == self.found,
    {
        self.found
    }
}

/// Every recorded candidate path comes from a candidate entry: recording
/// a directory's entries invents no paths.
pub proof fn lemma_candidates_sound(es: Seq<Entry>, k: int)
    requires
        0 <= k < candidate_paths(es).len(),
    ensures
        exists|i: int|
            0 <= i < es.len() && is_candidate(#[trigger] es[i]) && es[i].path == candidate_paths(
                es,
            )[k],
    decreases es.len(),
{
    let prefix = candidate_paths(es.drop_last());
    if k < prefix.len() {
        lemma_candidates_sound(es.drop_last(), k);
        let i = choose|i: int|
            0 <= i < es.drop_last().len() && is_candidate(#[trigger] es.drop_last()[i])
                && es.drop_last()[i].path == prefix[k];
        assert(es.drop_last()[i] == es[i]);
        assert(is_candidate(es[i]) && es[i].path == candidate_paths(es)[k]);
    } else {
        assert(is_candidate(es.last()));
        assert(es[es.len() - 1].path == candidate_paths(es)[k]);
    }
}

/// Every candidate entry contributes its path to the recorded result:
/// recording a directory's entries loses no candidate.
pub proof fn lemma_candidates_complete(es: Seq<Entry>, i: int)
    requires
        0 <= i < es.len(),
        is_candidate(es[i]),
    ensures
        exists|k: int|
            0 <= k < candidate_paths(es).len() && #[trigger] candidate_paths(es)[k] == es[i].path,
    decreases es.len(),
{
    if i < es.len() - 1 {
        lemma_candidates_complete(es.drop_last(), i);
        let k = choose|k: int|
            0 <= k < candidate_paths(es.drop_last()).len() && #[trigger] candidate_paths(
                es.drop_last(),
            )[k] == es.drop_last()[i].path;
        assert(candidate_paths(es)[k] == es[i].path);
    } else {
        assert(es.last() == es[i]);
        let k = candidate_paths(es).len() - 1;
        assert(candidate_paths(es)[k] == es[i].path);
    }
}

/// When the entries' paths are pairwise distinct — as they are for one
/// directory tree, where every file has one path — each candidate path
/// is recorded exactly once.
pub proof fn lemma_candidates_distinct(es: Seq<Entry>)
    requires
        forall|i: int, j: int|
            0 <= i < j < es.len() ==> #[trigger] es[i].path@ != #[trigger] es[j].path@,
    ensures
        forall|k: int, l: int|
            0 <= k < l < candidate_paths(es).len() ==> #[trigger] candidate_paths(es)[k]@
                != #[trigger] candidate_paths(es)[l]@,
    decreases es.len(),
{
    if es.len() > 0 {
        lemma_candidates_distinct(es.drop_last());
        let prefix = candidate_paths(es.drop_last());
        assert forall|k: int, l: int|
            0 <= k < l < candidate_paths(es).len() implies #[trigger] candidate_paths(es)[k]@
            != #[trigger] candidate_paths(es)[l]@ by {
            if l < prefix.len() {
                assert(candidate_paths(es)[k] == prefix[k]);
                assert(candidate_paths(es)[l] == prefix[l]);
            } else {
                assert(is_candidate(es.last()));
                assert(candidate_paths(es)[l] == es[es.len() - 1].path);
                assert(candidate_paths(es)[k] == prefix[k]);
                lemma_candidates_sound(es.drop_last(), k);
                let i = choose|i: int|
                    0 <= i < es.drop_last().len() && is_candidate(#[trigger] es.drop_last()[i])
                        && es.drop_last()[i].path == prefix[k];
                assert(es[i].path@ != es[es.len() - 1].path@);
            }
        }
    }
}

/// Appending freshly recorded candidates to an already duplicate-free
/// result keeps it duplicate-free, provided the new paths are distinct
/// from the old ones — as they are when no directory is listed twice.
pub proof fn lemma_found_extend_distinct(a: Seq<String>, b: Seq<String>)
    requires
        forall|i: int, j: int| 0 <= i < j < a.len() ==> #[trigger] a[i]@ != #[trigger] a[j]@,
        forall|k: int, l: int| 0 <= k < l < b.len() ==> #[trigger] b[k]@ != #[trigger] b[l]@,
        forall|i: int, k: int|
            0 <= i < a.len() && 0 <= k < b.len() ==> #[trigger] a[i]@ != #[trigger] b[k]@,
    ensures
        forall|i: int, j: int|
            0 <= i < j < (a + b).len() ==> #[trigger] (a + b)[i]@ != #[trigger] (a + b)[j]@,
{
}

} // verus!
