//! What is known of a repository, as plain values.

pub mod status;

use vstd::prelude::*;
use vstd::utf8::encode_utf8;

use crate::selection::{lemma_filter_empty, lemma_filter_step};
use crate::text::{
    concat2, concat3, concat4, decimal, decimal_text, owned_all, string_of, strip_prefix, texts,
};

verus! {

broadcast use crate::text::lemma_texts_push;

/// A commit as candidate lists show it.
#[derive(Debug, PartialEq, Eq)]
pub struct CommitInfo {
    pub id: String,
    pub short_id: String,
    pub summary: String,
    pub author: String,
    /// The day of the commit, `YYYY-MM-DD`.
    pub time: String,
}

/// A branch as candidate lists show it.
#[derive(Debug, PartialEq, Eq)]
pub struct BranchInfo {
    pub name: String,
    pub is_current: bool,
    pub is_remote: bool,
}

/// Leaves the current branch out: it can be neither merged into itself nor rebased onto itself.
pub fn other_branches(branches: Vec<BranchInfo>) -> (others: Vec<BranchInfo>)
    ensures
        others@ == branches@.filter(|branch: BranchInfo| !branch.is_current),
{
    let ghost all = branches@;
    let ghost other = |branch: BranchInfo| !branch.is_current;
    let mut others: Vec<BranchInfo> = Vec::new();
    proof {
        lemma_filter_empty(all, other);
    }
    for branch in iter: branches
        invariant
            iter.seq() == all,
            other == (|branch: BranchInfo| !branch.is_current),
            others@ == all.take(iter.index()).filter(other),
    {
        proof {
            lemma_filter_step(all, other, iter.index());
        }
        if !branch.is_current {
            others.push(branch);
        }
    }
    assert(all.take(all.len() as int) =~= all);
    others
}

/// What is known of a branch besides its name.
#[derive(Debug, PartialEq, Eq)]
pub struct BranchDetail {
    pub upstream: Option<String>,
    /// Commits that the branch has and its upstream has not.
    pub ahead: usize,
    /// Commits that the upstream has and the branch has not.
    pub behind: usize,
    /// When it was last committed to; empty where unknown.
    pub committed: String,
    /// Who last committed to it; empty where unknown.
    pub author: String,
}

/// A changed file, with the two letters that `git status` shows for it.
#[derive(Debug, PartialEq, Eq)]
pub struct FileChange {
    pub path: String,
    /// Where a renamed or copied file came from.
    pub original_path: Option<String>,
    pub index_status: char,
    pub worktree_status: char,
}

impl FileChange {
    /// The two letters of `git status`.
    pub open spec fn code(self) -> Seq<char> {
        seq![self.index_status, self.worktree_status]
    }

    /// Whether git does not know the file.
    pub open spec fn untracked(self) -> bool {
        self.index_status == '?' && self.worktree_status == '?'
    }

    /// Whether the index holds a change of the file.
    pub open spec fn staged(self) -> bool {
        self.index_status != ' ' && self.index_status != '?'
    }

    pub fn status_code(&self) -> (code: String)
        ensures
            code@ == self.code(),
    {
        let mut code = String::new();
        code.push(self.index_status);
        code.push(self.worktree_status);
        assert(code@ =~= self.code());
        code
    }

    pub fn is_untracked(&self) -> (untracked: bool)
        ensures
            untracked == self.untracked(),
    {
        self.index_status == '?' && self.worktree_status == '?'
    }

    pub fn has_staged_change(&self) -> (staged: bool)
        ensures
            staged == self.staged(),
    {
        self.index_status != ' ' && self.index_status != '?'
    }
}

/// Which changed files are listed.
#[derive(Debug, Clone, Copy, PartialEq, Eq, Structural)]
pub enum ChangeScope {
    /// Those that differ from the index.
    Worktree,
    /// Those whose index differs from `HEAD`.
    Staged,
    /// Those that can be staged: not staged, or not known to git.
    Stageable,
    /// All of them.
    TrackedOrUntracked,
    /// Those in conflict.
    Unmerged,
}

/// Where a branch is followed, as it is configured.
#[derive(Debug, PartialEq, Eq)]
pub struct Upstream {
    pub remote: String,
    /// The reference on the remote.
    pub merge_ref: String,
}

impl Upstream {
    /// The local reference that follows the upstream: there is one for a branch only.
    pub open spec fn tracking_text(self) -> Option<Seq<char>> {
        let prefix = "refs/heads/"@;
        if prefix.is_prefix_of(self.merge_ref@) {
            Some(
                "refs/remotes/"@ + self.remote@ + "/"@ + self.merge_ref@.skip(prefix.len() as int),
            )
        } else {
            None
        }
    }

    pub fn tracking_ref(&self) -> (reference: Option<String>)
        ensures
            string_of(reference) == self.tracking_text(),
    {
        match strip_prefix(self.merge_ref.as_str(), "refs/heads/") {
            Some(branch) => Some(
                concat4("refs/remotes/", self.remote.as_str(), "/", branch.as_str()),
            ),
            None => None,
        }
    }
}

/// A place to push the current branch to.
#[derive(Debug, PartialEq, Eq)]
pub struct PushTarget {
    pub remote: String,
    pub branch: String,
    /// Whether it is the upstream of the branch.
    pub is_upstream: bool,
    /// How far the branch is ahead of and behind its local reference, where there is one.
    pub ahead_behind: Option<(usize, usize)>,
}

impl PushTarget {
    pub open spec fn name_text(self) -> Seq<char> {
        self.remote@ + "/"@ + self.branch@
    }

    pub open spec fn ref_text(self) -> Seq<char> {
        "refs/remotes/"@ + self.remote@ + "/"@ + self.branch@
    }

    /// The short name, `origin/main`.
    pub fn tracking_name(&self) -> (name: String)
        ensures
            name@ == self.name_text(),
    {
        concat3(self.remote.as_str(), "/", self.branch.as_str())
    }

    /// The full name of the local reference.
    pub fn tracking_ref(&self) -> (reference: String)
        ensures
            reference@ == self.ref_text(),
    {
        concat4("refs/remotes/", self.remote.as_str(), "/", self.branch.as_str())
    }
}

/// A branch that can follow its upstream.
#[derive(Debug, PartialEq, Eq)]
pub struct PullTarget {
    pub branch: String,
    pub remote: String,
    /// The local reference that follows the upstream.
    pub tracking_ref: String,
    pub is_current: bool,
}

/// The branches that can follow their upstream, and how many cannot.
#[derive(Debug, PartialEq, Eq)]
pub struct PullScan {
    pub targets: Vec<PullTarget>,
    pub excluded: usize,
}

/// What is under way in a repository.
#[derive(Debug, Clone, Copy, PartialEq, Eq, Structural)]
pub enum Operation {
    Merge,
    Rebase,
}

/// An entry of the reflog of `HEAD`.
#[derive(Debug, PartialEq, Eq)]
pub struct ReflogEntry {
    /// How many moves of `HEAD` came after it.
    pub index: usize,
    pub id: String,
    pub message: String,
}

impl ReflogEntry {
    /// How git names the entry.
    pub open spec fn selector_text(self) -> Seq<char> {
        "HEAD@{"@ + decimal(self.index as nat) + "}"@
    }

    pub fn selector(&self) -> (selector: String)
        ensures
            selector@ == self.selector_text(),
    {
        concat3("HEAD@{", decimal_text(self.index).as_str(), "}")
    }
}

/// Whether a byte is a hexadecimal digit, in either case.
pub open spec fn is_hex_digit(byte: u8) -> bool {
    0x30 <= byte <= 0x39 || 0x61 <= byte <= 0x66 || 0x41 <= byte <= 0x46
}

/// Whether a text is the full hash of an object: forty hexadecimal digits.
pub open spec fn is_full_hash(text: Seq<char>) -> bool {
    let bytes = encode_utf8(text);
    bytes.len() == 40 && forall|i: int| 0 <= i < bytes.len() ==> is_hex_digit(#[trigger] bytes[i])
}

/// Tries to read a full hash with `gix`'s `ObjectId::from_hex`.
///
/// Claimed of it: it takes forty hexadecimal digits, in either case, and nothing else.
#[verifier::external_body]
pub(crate) fn parses_as_hash(text: &str) -> (valid: bool)
    ensures
        valid == is_full_hash(text@),
{
    gix::ObjectId::from_hex(text.as_bytes()).is_ok()
}

/// A path as git takes it: from the top of the work tree, and without patterns.
pub open spec fn pathspec_text(path: Seq<char>) -> Seq<char> {
    ":(top,literal)"@ + path
}

/// Several paths as git takes them.
pub open spec fn pathspec_texts(paths: Seq<Seq<char>>) -> Seq<Seq<char>> {
    paths.map_values(|path: Seq<char>| pathspec_text(path))
}

/// Writes a path as git takes it.
pub fn pathspec(path: &str) -> (spec_text: String)
    ensures
        spec_text@ == pathspec_text(path@),
{
    concat2(":(top,literal)", path)
}

/// Adds paths, as git takes them, to arguments.
pub fn push_pathspecs(args: &mut Vec<String>, paths: &Vec<String>)
    ensures
        texts(final(args)@) == texts(old(args)@) + pathspec_texts(texts(paths@)),
{
    let mut i: usize = 0;
    assert(texts(args@) =~= texts(old(args)@) + pathspec_texts(texts(paths@)).take(0));
    while i < paths.len()
        invariant
            i <= paths@.len(),
            texts(args@) == texts(old(args)@) + pathspec_texts(texts(paths@)).take(i as int),
        decreases paths@.len() - i,
    {
        let path = pathspec(paths[i].as_str());
        args.push(path);
        i += 1;
        assert(texts(args@) =~= texts(old(args)@) + pathspec_texts(texts(paths@)).take(i as int));
    }
    assert(pathspec_texts(texts(paths@)).take(i as int) =~= pathspec_texts(texts(paths@)));
}

/// No path can be taken for an option: what git gets for it starts with a colon.
pub proof fn law_a_path_is_no_option(path: Seq<char>)
    ensures
        pathspec_text(path).len() > 0,
        pathspec_text(path)[0] == ':',
        pathspec_text(path)[0] != '-',
{
    reveal_strlit(":(top,literal)");
}

/// Different paths stay different.
pub proof fn law_pathspecs_keep_paths_apart(a: Seq<char>, b: Seq<char>)
    requires
        pathspec_text(a) == pathspec_text(b),
    ensures
        a == b,
{
    let n = ":(top,literal)"@.len() as int;
    assert(pathspec_text(a).skip(n) =~= a);
    assert(pathspec_text(b).skip(n) =~= b);
}

/// A git command to run, and what to say when it fails.
#[derive(Debug, PartialEq, Eq)]
pub struct GitRun {
    pub args: Vec<String>,
    pub failure: String,
}

impl GitRun {
    /// Whether this runs `args` and says `failure` when that fails.
    pub open spec fn is(self, args: Seq<Seq<char>>, failure: Seq<char>) -> bool {
        texts(self.args@) == args && self.failure@ == failure
    }
}

/// The arguments that show where a remote is. They read the configuration only.
pub open spec fn url_arguments(remote: Seq<char>) -> Seq<Seq<char>> {
    seq!["remote"@, "get-url"@, "--all"@, remote]
}

/// Writes the arguments that show where a remote is.
pub fn remote_url_args(remote: &str) -> (args: Vec<String>)
    ensures
        texts(args@) == url_arguments(remote@),
{
    let args = owned_all(&["remote", "get-url", "--all", remote]);
    assert(texts(args@) =~= url_arguments(remote@));
    args
}

/// The arguments that show what is known of a remote. They read stored references only.
pub open spec fn remote_refs_arguments(remote: Seq<char>) -> Seq<Seq<char>> {
    seq![
        "for-each-ref"@,
        "--color=always"@,
        "--sort=-committerdate"@,
        "--format=%(color:yellow)%(objectname:short)%(color:reset) %(refname:short) %(subject)"@,
        "refs/remotes/"@ + remote + "/"@,
    ]
}

/// Writes the arguments that show what is known of a remote.
pub fn remote_tracking_refs_args(remote: &str) -> (args: Vec<String>)
    ensures
        texts(args@) == remote_refs_arguments(remote@),
{
    let pattern = concat3("refs/remotes/", remote, "/");
    let args = owned_all(
        &[
            "for-each-ref",
            "--color=always",
            "--sort=-committerdate",
            "--format=%(color:yellow)%(objectname:short)%(color:reset) %(refname:short) %(subject)",
            pattern.as_str(),
        ],
    );
    assert(texts(args@) =~= remote_refs_arguments(remote@));
    args
}

/// The arguments that show how branches follow their upstreams. They read stored references
/// only, and leave the work tree alone.
pub open spec fn tracking_arguments() -> Seq<Seq<char>> {
    seq![
        "for-each-ref"@,
        "--color=always"@,
        "--format=%(HEAD) %(refname:short) %(color:blue)%(upstream:short)%(color:reset) %(upstream:track)"@,
        "refs/heads/"@,
    ]
}

/// Writes the arguments that show how branches follow their upstreams.
pub fn branch_tracking_args() -> (args: Vec<String>)
    ensures
        texts(args@) == tracking_arguments(),
{
    let args = owned_all(
        &[
            "for-each-ref",
            "--color=always",
            "--format=%(HEAD) %(refname:short) %(color:blue)%(upstream:short)%(color:reset) %(upstream:track)",
            "refs/heads/",
        ],
    );
    assert(texts(args@) =~= tracking_arguments());
    args
}

/// Where a work tree is, or goes: a POSIX path.
#[derive(Debug, PartialEq, Eq)]
pub enum WorkPath {
    /// A path that is text.
    Text(String),
    /// A path that is not: its bytes, and what is shown for it.
    Other { bytes: Vec<u8>, shown: String },
}

/// The contents of a [`WorkPath`].
#[verifier::ext_equal]
pub enum Place {
    Text(Seq<char>),
    Other { bytes: Seq<u8>, shown: Seq<char> },
}

impl View for WorkPath {
    type V = Place;

    open spec fn view(&self) -> Place {
        match self {
            WorkPath::Text(path) => Place::Text(path@),
            WorkPath::Other { bytes, shown } => Place::Other { bytes: bytes@, shown: shown@ },
        }
    }
}

impl WorkPath {
    /// The path as it is shown.
    pub open spec fn shown_text(self) -> Seq<char> {
        match self {
            WorkPath::Text(path) => path@,
            WorkPath::Other { shown, .. } => shown@,
        }
    }

    /// Shows the path.
    pub fn shown(&self) -> (text: &str)
        ensures
            text@ == self.shown_text(),
    {
        match self {
            WorkPath::Text(path) => path.as_str(),
            WorkPath::Other { shown, .. } => shown.as_str(),
        }
    }

    /// The same path once more.
    pub fn duplicate(&self) -> (path: WorkPath)
        ensures
            path@ == self@,
    {
        match self {
            WorkPath::Text(path) => WorkPath::Text(path.clone()),
            WorkPath::Other { bytes, shown } => {
                let same = bytes.clone();
                assert(same@ =~= bytes@);
                WorkPath::Other { bytes: same, shown: shown.clone() }
            },
        }
    }
}

/// A repository beside the current one, or that one itself.
#[derive(Debug, PartialEq, Eq)]
pub struct SiblingRepository {
    /// Its work tree, normalised.
    pub workdir: WorkPath,
    /// The name of its directory.
    pub name: String,
    /// What `HEAD` points to, where that is a branch.
    pub current_branch: Option<String>,
    pub remotes: Vec<String>,
    pub is_current: bool,
}

/// The repositories that can be fetched, and how many cannot.
#[derive(Debug, PartialEq, Eq)]
pub struct SiblingScan {
    pub candidates: Vec<SiblingRepository>,
    pub excluded: usize,
}

/// What is left is every branch but the current one, in order.
pub proof fn law_only_the_current_branch_is_left_out(
    branches: Vec<BranchInfo>,
    others: Vec<BranchInfo>,
    branch: BranchInfo,
)
    requires
        branches@.contains(branch),
        call_ensures(other_branches, (branches,), others),
    ensures
        others@.contains(branch) <==> !branch.is_current,
        exists|at: Seq<int>| crate::selection::in_order(others@, branches@, at),
{
    broadcast use vstd::seq_lib::group_filter_ensures;

    let other = |branch: BranchInfo| !branch.is_current;
    if !branch.is_current {
        let i = choose|i: int| 0 <= i < branches@.len() && branches@[i] == branch;
        assert(other(branches@[i]));
        assert(branches@.filter(other).contains(branches@[i]));
    }
    if others@.contains(branch) {
        let i = choose|i: int| 0 <= i < others@.len() && others@[i] == branch;
        assert(other(branches@.filter(other)[i]));
    }
    let at = crate::selection::lemma_filter_in_order(branches@, other);
    assert(crate::selection::in_order(others@, branches@, at));
}

/// A branch of a remote is followed by the local reference of that remote and that branch, and
/// anything else by none.
pub proof fn law_a_branch_is_followed_by_its_reference(
    upstream: &Upstream,
    followed: Seq<char>,
    reference: Option<String>,
)
    requires
        call_ensures(Upstream::tracking_ref, (upstream,), reference),
    ensures
        upstream.merge_ref@ == "refs/heads/"@ + followed ==> string_of(reference) == Some(
            "refs/remotes/"@ + upstream.remote@ + "/"@ + followed,
        ),
        reference is Some ==> "refs/heads/"@.is_prefix_of(upstream.merge_ref@),
{
    let prefix = "refs/heads/"@;
    if upstream.merge_ref@ == prefix + followed {
        assert(prefix.is_prefix_of(upstream.merge_ref@));
        assert(upstream.merge_ref@.skip(prefix.len() as int) =~= followed);
    }
}

/// A path reaches git as it is, from the top of the work tree and without patterns.
pub proof fn law_a_path_reaches_git_as_it_is(path: &str, word: String)
    requires
        call_ensures(pathspec, (path,), word),
    ensures
        word@ == ":(top,literal)"@ + path@,
{
}

/// The two letters are those of the index and of the work tree, in that order; a file that git
/// does not know has a question mark for both.
pub proof fn law_the_index_comes_first(
    change: &FileChange,
    code: String,
    untracked: bool,
    staged: bool,
)
    requires
        call_ensures(FileChange::status_code, (change,), code),
        call_ensures(FileChange::is_untracked, (change,), untracked),
        call_ensures(FileChange::has_staged_change, (change,), staged),
    ensures
        code@.len() == 2,
        code@[0] == change.index_status,
        code@[1] == change.worktree_status,
        untracked <==> code@ == "??"@,
        untracked ==> !staged,
        staged <==> code@[0] != ' ' && code@[0] != '?',
{
    reveal_strlit("??");
    if untracked {
        assert(code@ =~= "??"@);
    }
}

/// A destination is named by its remote and its branch, and its reference ends in that name.
pub proof fn law_a_destination_is_named_by_remote_and_branch(
    target: &PushTarget,
    name: String,
    reference: String,
)
    requires
        call_ensures(PushTarget::tracking_name, (target,), name),
        call_ensures(PushTarget::tracking_ref, (target,), reference),
    ensures
        name@ == target.remote@ + "/"@ + target.branch@,
        reference@ == "refs/remotes/"@ + name@,
{
    assert(reference@ =~= "refs/remotes/"@ + name@);
}

/// Previews of remotes and of branches read what is stored, and contact nobody.
pub proof fn law_previews_stay_at_home(
    remote: &str,
    url: Vec<String>,
    known: Vec<String>,
    followed: Vec<String>,
)
    requires
        call_ensures(remote_url_args, (remote,), url),
        call_ensures(remote_tracking_refs_args, (remote,), known),
        call_ensures(branch_tracking_args, (), followed),
    ensures
        texts(url@)[0] == "remote"@,
        texts(url@)[1] == "get-url"@,
        texts(url@).last() == remote@,
        texts(known@)[0] == "for-each-ref"@,
        texts(known@).last() == "refs/remotes/"@ + remote@ + "/"@,
        texts(followed@)[0] == "for-each-ref"@,
        texts(followed@).last() == "refs/heads/"@,
{
}

} // verus!
