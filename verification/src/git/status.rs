//! What `git status` and the listings of git print: records that end in zero bytes.

use vstd::prelude::*;

use crate::git::{ChangeScope, FileChange};
use crate::text::{
    keeps_utf8, lemma_split_recorded, lossy_text, owned_all, read_lossy, record_end, recorded,
    split, texts,
};

verus! {

broadcast use crate::text::lemma_texts_push;

/// The records of an output. What is cut off is none: every record ends in a zero byte.
pub open spec fn records_of(output: Seq<u8>) -> Option<Seq<Seq<u8>>> {
    let pieces = split(output, 0u8);
    if pieces.last().len() == 0 {
        Some(pieces.drop_last())
    } else {
        None
    }
}

/// The contents of several records.
pub open spec fn record_views(records: Seq<&[u8]>) -> Seq<Seq<u8>> {
    records.map_values(|record: &[u8]| record@)
}

/// Divides an output into its records.
fn records(output: &[u8]) -> (records: Option<Vec<&[u8]>>)
    ensures
        match records {
            Some(records) => records_of(output@) == Some(record_views(records@)),
            None => records_of(output@) is None,
        },
{
    let ghost pieces = split(output@, 0u8);
    let mut records: Vec<&[u8]> = Vec::new();
    let mut start: usize = 0;
    proof {
        assert(output@.skip(0) =~= output@);
        assert(record_views(records@) + split(output@.skip(0), 0u8) =~= pieces);
    }
    loop
        invariant
            start <= output@.len(),
            pieces == split(output@, 0u8),
            record_views(records@) + split(output@.skip(start as int), 0u8) == pieces,
        decreases output@.len() - start,
    {
        let end: usize = record_end(output, start);
        let ghost rest = output@.skip(start as int);
        if end == output.len() {
            proof {
                assert(split(rest, 0u8) == seq![rest]);
                assert(pieces.drop_last() =~= record_views(records@));
                assert(pieces.last() == rest);
            }
            return if end == start {
                Some(records)
            } else {
                None
            };
        }
        let record: &[u8] = vstd::slice::slice_subrange(output, start, end);
        let ghost before = record_views(records@);
        records.push(record);
        start = end + 1;
        proof {
            let after = output@.skip(start as int);
            assert(rest.take(record@.len() as int) =~= record@);
            assert(rest.skip(record@.len() as int + 1) =~= after);
            assert(split(rest, 0u8) =~= seq![record@] + split(after, 0u8));
            assert(record_views(records@) =~= before.push(record@));
            assert(record_views(records@) + split(after, 0u8) =~= before + split(rest, 0u8));
        }
    }
}

/// The paths that a listing names.
pub open spec fn paths_in(output: Seq<u8>) -> Option<Seq<Seq<char>>> {
    match records_of(output) {
        Some(records) => Some(records.map_values(|record: Seq<u8>| lossy_text(record))),
        None => None,
    }
}

/// Reads a listing of paths. There is none where the output is cut off.
pub fn parse_paths(output: &[u8]) -> (paths: Option<Vec<String>>)
    ensures
        match paths {
            Some(paths) => paths_in(output@) == Some(texts(paths@)),
            None => paths_in(output@) is None,
        },
        records_of(output@) matches Some(records) ==> forall|i: int|
            0 <= i < records.len() ==> keeps_utf8(#[trigger] records[i]),
{
    let records = match records(output) {
        Some(records) => records,
        None => {
            return None;
        },
    };
    let ghost wanted = record_views(records@).map_values(|record: Seq<u8>| lossy_text(record));
    let mut paths: Vec<String> = Vec::new();
    let mut i: usize = 0;
    while i < records.len()
        invariant
            i <= records@.len(),
            wanted == record_views(records@).map_values(|record: Seq<u8>| lossy_text(record)),
            texts(paths@) == wanted.take(i as int),
            forall|k: int| 0 <= k < i ==> keeps_utf8(#[trigger] record_views(records@)[k]),
        decreases records@.len() - i,
    {
        paths.push(read_lossy(records[i]));
        i += 1;
        assert(texts(paths@) =~= wanted.take(i as int));
    }
    assert(wanted.take(i as int) =~= wanted);
    Some(paths)
}

/// The contents of a [`FileChange`].
#[verifier::ext_equal]
pub struct StatusEntry {
    pub path: Seq<char>,
    pub original_path: Option<Seq<char>>,
    pub index_status: char,
    pub worktree_status: char,
}

impl View for FileChange {
    type V = StatusEntry;

    open spec fn view(&self) -> StatusEntry {
        StatusEntry {
            path: self.path@,
            original_path: match self.original_path {
                Some(path) => Some(path@),
                None => None,
            },
            index_status: self.index_status,
            worktree_status: self.worktree_status,
        }
    }
}

/// The contents of several changes.
pub open spec fn change_views(changes: Seq<FileChange>) -> Seq<StatusEntry> {
    changes.map_values(|change: FileChange| change@)
}

/// Whether a letter is that of a file with an origin: renamed, or copied.
pub open spec fn has_origin(letter: u8) -> bool {
    letter == LETTER_RENAMED || letter == LETTER_COPIED
}

/// `R`.
pub const LETTER_RENAMED: u8 = 82;

/// `C`.
pub const LETTER_COPIED: u8 = 67;

/// What stands between the letters and the path.
pub const SPACE: u8 = 32;

/// The changes that records name: two letters, a space and a path each. The path from which a
/// file was renamed or copied follows in a record of its own.
pub open spec fn entries_of(records: Seq<Seq<u8>>) -> Option<Seq<StatusEntry>>
    decreases records.len(),
{
    if records.len() == 0 {
        Some(Seq::empty())
    } else {
        let record = records[0];
        let moved = has_origin(record[0]) || has_origin(record[1]);
        if record.len() < 4 || record[2] != SPACE || (moved && records.len() < 2) {
            None
        } else {
            let entry = StatusEntry {
                path: lossy_text(record.skip(3)),
                original_path: if moved {
                    Some(lossy_text(records[1]))
                } else {
                    None
                },
                index_status: record[0] as char,
                worktree_status: record[1] as char,
            };
            match entries_of(records.skip(if moved { 2 } else { 1 })) {
                Some(rest) => Some(seq![entry] + rest),
                None => None,
            }
        }
    }
}

/// Whether every path that records name is read as it is, where it is UTF-8.
pub open spec fn keeps_paths(records: Seq<Seq<u8>>) -> bool
    decreases records.len(),
{
    if records.len() == 0 {
        true
    } else {
        let record = records[0];
        let moved = has_origin(record[0]) || has_origin(record[1]);
        let used: int = if moved {
            2
        } else {
            1
        };
        &&& keeps_utf8(record.skip(3))
        &&& moved ==> keeps_utf8(records[1])
        &&& used <= records.len() ==> keeps_paths(records.skip(used))
    }
}

impl ChangeScope {
    /// Whether a change is listed.
    pub open spec fn lists(self, entry: StatusEntry) -> bool {
        let index = entry.index_status;
        let worktree = entry.worktree_status;
        match self {
            ChangeScope::Worktree => worktree != ' ' && worktree != '?',
            ChangeScope::Staged => index != ' ' && index != '?',
            ChangeScope::Stageable => worktree != ' ',
            ChangeScope::TrackedOrUntracked => true,
            ChangeScope::Unmerged => index == 'U' || worktree == 'U' || (index == worktree && (
            index == 'A' || index == 'D')),
        }
    }

    /// Says whether a change is listed.
    pub fn covers(self, change: &FileChange) -> (covered: bool)
        ensures
            covered == self.lists(change@),
    {
        let index = change.index_status;
        let worktree = change.worktree_status;
        match self {
            ChangeScope::Worktree => worktree != ' ' && worktree != '?',
            ChangeScope::Staged => change.has_staged_change(),
            ChangeScope::Stageable => worktree != ' ',
            ChangeScope::TrackedOrUntracked => true,
            ChangeScope::Unmerged => index == 'U' || worktree == 'U' || (index == worktree && (
            index == 'A' || index == 'D')),
        }
    }

    /// The changes that an output of `git status` names, as far as they are listed.
    pub open spec fn changes_in(self, output: Seq<u8>) -> Option<Seq<StatusEntry>> {
        match records_of(output) {
            Some(records) => match entries_of(records) {
                Some(entries) => Some(entries.filter(|entry: StatusEntry| self.lists(entry))),
                None => None,
            },
            None => None,
        }
    }

    /// Reads what `git status` prints for [`status_args`]. There is nothing where it is not
    /// understood.
    pub fn parse_status(self, output: &[u8]) -> (changes: Option<Vec<FileChange>>)
        ensures
            match changes {
                Some(changes) => {
                    &&& self.changes_in(output@) == Some(change_views(changes@))
                    &&& keeps_paths(records_of(output@)->0)
                },
                None => self.changes_in(output@) is None,
            },
    {
        let records = match records(output) {
            Some(records) => records,
            None => {
                return None;
            },
        };
        let ghost all = record_views(records@);
        let ghost listed = |entry: StatusEntry| self.lists(entry);
        let total: usize = records.len();
        let mut changes: Vec<FileChange> = Vec::new();
        let mut i: usize = 0;
        proof {
            assert(all.skip(0) =~= all);
            if let Some(entries) = entries_of(all) {
                assert(change_views(changes@) + entries.filter(listed) =~= entries.filter(listed));
            }
        }
        while i < total
            invariant
                i <= total,
                total == records@.len(),
                all == record_views(records@),
                records_of(output@) == Some(all),
                listed == (|entry: StatusEntry| self.lists(entry)),
                match entries_of(all) {
                    Some(entries) => entries_of(all.skip(i as int)) matches Some(rest)
                        && change_views(changes@) + rest.filter(listed) == entries.filter(listed),
                    None => entries_of(all.skip(i as int)) is None,
                },
                keeps_paths(all.skip(i as int)) ==> keeps_paths(all),
            decreases total - i,
        {
            let ghost left = all.skip(i as int);
            let record: &[u8] = records[i];
            assert(left[0] == record@);
            assert(left.len() == total - i);
            if record.len() < 4 || record[2] != SPACE {
                return None;
            }
            let moved = record[0] == LETTER_RENAMED || record[0] == LETTER_COPIED || record[1]
                == LETTER_RENAMED || record[1] == LETTER_COPIED;
            let original_path = if moved {
                if total - i < 2 {
                    return None;
                }
                assert(left[1] == records@[i + 1]@);
                Some(read_lossy(records[i + 1]))
            } else {
                None
            };
            let path = read_lossy(vstd::slice::slice_subrange(record, 3, record.len()));
            let change = FileChange {
                path,
                original_path,
                index_status: record[0] as char,
                worktree_status: record[1] as char,
            };
            let step: usize = if moved {
                2
            } else {
                1
            };
            let ghost entry = change@;
            let ghost before = change_views(changes@);
            proof {
                assert(record@.subrange(3, record@.len() as int) =~= record@.skip(3));
                assert(left.skip(step as int) =~= all.skip(i + step));
                lemma_filter_first(entry, entries_of(all.skip(i + step)), listed);
            }
            if self.covers(&change) {
                changes.push(change);
                assert(change_views(changes@) =~= before.push(entry));
            }
            i += step;
            proof {
                if let Some(entries) = entries_of(all) {
                    let rest = entries_of(all.skip(i as int)).unwrap();
                    assert(change_views(changes@) + rest.filter(listed) =~= before + (seq![entry]
                        + rest).filter(listed));
                }
            }
        }
        proof {
            assert(all.skip(i as int) =~= Seq::empty());
            assert(Seq::<StatusEntry>::empty().filter(listed) =~= Seq::empty()) by {
                reveal(Seq::filter);
            }
            if let Some(entries) = entries_of(all) {
                assert(change_views(changes@) =~= entries.filter(listed));
            }
        }
        Some(changes)
    }
}

/// A filter keeps the first element or leaves it out.
proof fn lemma_filter_first(
    entry: StatusEntry,
    rest: Option<Seq<StatusEntry>>,
    pred: spec_fn(StatusEntry) -> bool,
)
    ensures
        rest matches Some(rest) ==> (seq![entry] + rest).filter(pred) == (if pred(entry) {
            seq![entry]
        } else {
            Seq::empty()
        }) + rest.filter(pred),
{
    if let Some(rest) = rest {
        Seq::filter_distributes_over_add(seq![entry], rest, pred);
        reveal(Seq::filter);
        assert(seq![entry].drop_last() =~= Seq::empty());
        assert(seq![entry].drop_last().filter(pred) =~= Seq::empty());
        assert(seq![entry].filter(pred) =~= (if pred(entry) {
            seq![entry]
        } else {
            Seq::empty()
        }));
    }
}

/// What makes `git status` list the changes in records.
pub open spec fn status_arguments() -> Seq<Seq<char>> {
    seq!["status"@, "--porcelain=v1"@, "-z"@, "--untracked-files=all"@]
}

/// Makes `git status` list the changes in records.
pub fn status_args() -> (args: Vec<String>)
    ensures
        texts(args@) == status_arguments(),
{
    let args = owned_all(&["status", "--porcelain=v1", "-z", "--untracked-files=all"]);
    assert(texts(args@) =~= status_arguments());
    args
}

/// Records that were written one after the other, a zero byte behind each, are read back.
pub proof fn law_records_are_read_back(records: Seq<Seq<u8>>)
    requires
        forall|i: int| 0 <= i < records.len() ==> !(#[trigger] records[i]).contains(0u8),
    ensures
        records_of(recorded(records)) == Some(records),
{
    let nothing = Seq::<u8>::empty();
    lemma_split_recorded(records, nothing);
    assert(recorded(records) + nothing =~= recorded(records));
    nothing.index_of_first_ensures(0u8);
    assert(split(nothing, 0u8) == seq![nothing]);
    let pieces = records + seq![nothing];
    assert(pieces.last() == nothing);
    assert(pieces.drop_last() =~= records);
}

/// The record of a change: two letters, a space and the path.
pub open spec fn status_record(index: u8, worktree: u8, path: Seq<u8>) -> Seq<u8> {
    seq![index, worktree, SPACE] + path
}

/// A change that `git status` prints is listed with its letters and its path.
pub proof fn law_a_change_is_listed(index: u8, worktree: u8, path: Seq<u8>, rest: Seq<Seq<u8>>)
    requires
        path.len() > 0,
        !has_origin(index),
        !has_origin(worktree),
        entries_of(rest) is Some,
    ensures
        entries_of(seq![status_record(index, worktree, path)] + rest) == Some(
            seq![
                StatusEntry {
                    path: lossy_text(path),
                    original_path: None,
                    index_status: index as char,
                    worktree_status: worktree as char,
                },
            ] + entries_of(rest).unwrap(),
        ),
{
    let record = status_record(index, worktree, path);
    let records = seq![record] + rest;
    assert(record.skip(3) =~= path);
    assert(records.skip(1) =~= rest);
}

/// The list for staging leaves out exactly what has nothing left to stage: whatever its letters
/// are, a change is listed if and only if the work tree differs from the index.
pub proof fn law_whatever_is_not_staged_can_be_staged(change: &FileChange, covered: bool)
    requires
        call_ensures(ChangeScope::covers, (ChangeScope::Stageable, change), covered),
    ensures
        covered <==> change.worktree_status != ' ',
{
}

/// A change is staged if and only if the index differs from `HEAD`: a blank says that it does
/// not, and a question mark that git does not know the file.
pub proof fn law_staged_changes_are_those_of_the_index(change: &FileChange, covered: bool)
    requires
        call_ensures(ChangeScope::covers, (ChangeScope::Staged, change), covered),
    ensures
        covered <==> !(change.index_status == ' ' || change.index_status == '?'),
{
}

/// What can be taken back in the work tree is what can be staged, but for the files that git
/// does not know: of those there is nothing to go back to.
pub proof fn law_a_new_file_cannot_be_taken_back(change: &FileChange, restorable: bool, stageable: bool)
    requires
        call_ensures(ChangeScope::covers, (ChangeScope::Worktree, change), restorable),
        call_ensures(ChangeScope::covers, (ChangeScope::Stageable, change), stageable),
    ensures
        restorable ==> stageable,
        stageable && !restorable <==> change.worktree_status == '?',
{
}

/// No change falls between the lists: one that is neither staged nor can be staged is none, and
/// the list for a commit holds all of them.
pub proof fn law_no_change_is_left_out(change: &FileChange, staged: bool, stageable: bool, any: bool)
    requires
        call_ensures(ChangeScope::covers, (ChangeScope::Staged, change), staged),
        call_ensures(ChangeScope::covers, (ChangeScope::Stageable, change), stageable),
        call_ensures(ChangeScope::covers, (ChangeScope::TrackedOrUntracked, change), any),
    ensures
        any,
        !staged && !stageable ==> change.worktree_status == ' ' && (change.index_status == ' '
            || change.index_status == '?'),
{
}

/// The codes that git has for a conflict are those that are listed as one: both sides deleted or
/// added the file, or one side left it unmerged.
pub proof fn law_conflicts_are_the_codes_of_git(change: &FileChange, covered: bool)
    requires
        call_ensures(ChangeScope::covers, (ChangeScope::Unmerged, change), covered),
    ensures
        ({
            let code = (change.index_status, change.worktree_status);
            &&& (code == ('D', 'D') || code == ('A', 'U') || code == ('U', 'D') || code == (
                'U',
                'A',
            ) || code == ('D', 'U') || code == ('A', 'A') || code == ('U', 'U')) ==> covered
            &&& covered ==> code.0 == 'U' || code.1 == 'U' || code == ('D', 'D') || code == (
                'A',
                'A',
            )
            &&& covered ==> code.0 != ' ' && code.0 != '?' || code.1 == 'U'
        }),
{
}

/// Two readings of one output: a list holds exactly those of all the changes that belong to it,
/// with the same letters and paths. Of those for staging that are the ones whose work tree
/// letter is no blank, and of the staged ones those whose index letter is neither a blank nor a
/// question mark.
pub proof fn law_a_list_is_a_part_of_all_changes(
    output: &[u8],
    all: Option<Vec<FileChange>>,
    stageable: Option<Vec<FileChange>>,
    staged: Option<Vec<FileChange>>,
)
    requires
        call_ensures(ChangeScope::parse_status, (ChangeScope::TrackedOrUntracked, output), all),
        call_ensures(ChangeScope::parse_status, (ChangeScope::Stageable, output), stageable),
        call_ensures(ChangeScope::parse_status, (ChangeScope::Staged, output), staged),
    ensures
        all is Some <==> stageable is Some,
        all is Some <==> staged is Some,
        all is Some ==> forall|entry: StatusEntry|
            #![trigger change_views(all->0@).contains(entry)]
            #![trigger change_views(stageable->0@).contains(entry)]
            #![trigger change_views(staged->0@).contains(entry)]
            {
                &&& change_views(stageable->0@).contains(entry) <==> change_views(all->0@).contains(
                    entry,
                ) && entry.worktree_status != ' '
                &&& change_views(staged->0@).contains(entry) <==> change_views(all->0@).contains(
                    entry,
                ) && entry.index_status != ' ' && entry.index_status != '?'
            },
{
    if all is Some {
        let entries = entries_of(records_of(output@)->0)->0;
        assert forall|entry: StatusEntry|
            #![trigger change_views(all->0@).contains(entry)]
            #![trigger change_views(stageable->0@).contains(entry)]
            #![trigger change_views(staged->0@).contains(entry)]
            {
                &&& change_views(stageable->0@).contains(entry) <==> change_views(all->0@).contains(
                    entry,
                ) && entry.worktree_status != ' '
                &&& change_views(staged->0@).contains(entry) <==> change_views(all->0@).contains(
                    entry,
                ) && entry.index_status != ' ' && entry.index_status != '?'
            } by {
            lemma_filter_contains(entries, ChangeScope::TrackedOrUntracked, entry);
            lemma_filter_contains(entries, ChangeScope::Stageable, entry);
            lemma_filter_contains(entries, ChangeScope::Staged, entry);
        }
    }
}

proof fn lemma_filter_contains(entries: Seq<StatusEntry>, scope: ChangeScope, entry: StatusEntry)
    ensures
        entries.filter(|entry: StatusEntry| scope.lists(entry)).contains(entry)
            <==> entries.contains(entry) && scope.lists(entry),
{
    broadcast use vstd::seq_lib::group_filter_ensures;

    let listed = |entry: StatusEntry| scope.lists(entry);
    if entries.contains(entry) && listed(entry) {
        let i = choose|i: int| 0 <= i < entries.len() && entries[i] == entry;
        assert(entries.filter(listed).contains(entries[i]));
    }
    if entries.filter(listed).contains(entry) {
        let i = choose|i: int| 0 <= i < entries.filter(listed).len() && entries.filter(listed)[i]
            == entry;
        assert(listed(entries.filter(listed)[i]));
        entries.lemma_filter_contains_rev(listed, entry);
    }
}

/// A file that was renamed or copied is listed at its new path, together with the path that it
/// came from, which the next record names: that record is no change of its own.
pub proof fn law_a_rename_is_listed_with_its_origin(
    index: u8,
    worktree: u8,
    path: Seq<u8>,
    origin: Seq<u8>,
    rest: Seq<Seq<u8>>,
)
    requires
        path.len() > 0,
        index == 0x52 || index == 0x43 || worktree == 0x52 || worktree == 0x43,
        entries_of(rest) is Some,
    ensures
        entries_of(seq![seq![index, worktree, 0x20u8] + path, origin] + rest) == Some(
            seq![
                StatusEntry {
                    path: lossy_text(path),
                    original_path: Some(lossy_text(origin)),
                    index_status: index as char,
                    worktree_status: worktree as char,
                },
            ] + entries_of(rest).unwrap(),
        ),
{
    let record = seq![index, worktree, 0x20u8] + path;
    let records = seq![record, origin] + rest;
    assert(record.skip(3) =~= path);
    assert(records[0] == record);
    assert(records.skip(2) =~= rest);
}

/// What is asked of git is all changes, file by file, in records that no name can break.
pub proof fn law_all_changes_are_asked_for(args: Vec<String>)
    requires
        call_ensures(status_args, (), args),
    ensures
        texts(args@)[0] == "status"@,
        texts(args@).contains("--porcelain=v1"@),
        texts(args@).contains("-z"@),
        texts(args@).contains("--untracked-files=all"@),
{
    assert(texts(args@)[1] == "--porcelain=v1"@);
    assert(texts(args@)[2] == "-z"@);
    assert(texts(args@)[3] == "--untracked-files=all"@);
}

/// A listing gives every path that was written, in order and as it was.
pub proof fn law_a_listing_is_read_back(
    records: Seq<Seq<u8>>,
    output: &[u8],
    paths: Option<Vec<String>>,
)
    requires
        forall|i: int| 0 <= i < records.len() ==> !(#[trigger] records[i]).contains(0u8),
        output@ == recorded(records),
        call_ensures(parse_paths, (output,), paths),
    ensures
        paths matches Some(paths) && texts(paths@) == records.map_values(
            |record: Seq<u8>| lossy_text(record),
        ),
{
    law_records_are_read_back(records);
}

} // verus!
