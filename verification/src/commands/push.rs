//! `gz push`: push the current branch to a picked remote. Nothing is ever forced.

use vstd::prelude::*;

use crate::error::Error;
use crate::finder::{
    item_views, items_of, plain, Candidate, FinderItem, FinderOptions, ListOptions, Picker, Preview,
    PreviewSource, SelectionMode,
};
use crate::git::{GitRun, PushTarget};
use crate::i18n::Messages;
use crate::text::{concat2, concat3, concat4, decimal, decimal_text, owned_all, same_text, texts};

verus! {

broadcast use crate::text::lemma_texts_push;

/// The option that sets the upstream.
pub const SET_UPSTREAM_OPTION: &'static str = "--set-upstream";

/// What marks the upstream, in words that can be searched for.
pub const UPSTREAM_NOTE: &'static str = "  (upstream)";

/// How many commits a preview shows.
pub const PREVIEW_COMMIT_COUNT: &'static str = "50";

/// Whether the destination becomes the upstream.
#[derive(Debug, Clone, Copy, PartialEq, Eq, Structural)]
pub enum UpstreamUpdate {
    /// The setting stays as it is.
    Keep,
    /// It becomes the upstream.
    Configure,
}

impl UpstreamUpdate {
    pub open spec fn option_text(self) -> Option<Seq<char>> {
        match self {
            UpstreamUpdate::Keep => None,
            UpstreamUpdate::Configure => Some(SET_UPSTREAM_OPTION@),
        }
    }

    /// The option of `git push`, where there is one.
    pub fn option(self) -> (option: Option<&'static str>)
        ensures
            crate::text::text_of(option) == self.option_text(),
    {
        match self {
            UpstreamUpdate::Keep => None,
            UpstreamUpdate::Configure => Some(SET_UPSTREAM_OPTION),
        }
    }
}

/// How far a destination is ahead and behind, or that nothing is known of it.
pub open spec fn counts_of(messages: Messages, target: PushTarget) -> Seq<char> {
    match target.ahead_behind {
        Some((ahead, behind)) => "ahead "@ + decimal(ahead as nat) + " / behind "@ + decimal(
            behind as nat,
        ),
        None => messages.push().no_tracking_ref_text(),
    }
}

/// The line of a destination.
pub open spec fn line_of(messages: Messages, target: PushTarget) -> Seq<char> {
    let line = target.name_text() + "  "@ + counts_of(messages, target);
    if target.is_upstream {
        line + UPSTREAM_NOTE@
    } else {
        line
    }
}

/// The commits that a push brings: all of `HEAD` where there is no reference yet.
pub open spec fn range_of(target: PushTarget) -> Seq<char> {
    match target.ahead_behind {
        Some(_) => target.ref_text() + "..HEAD"@,
        None => "HEAD"@,
    }
}

/// The arguments that show the commits that a push brings.
pub open spec fn log_arguments(target: PushTarget) -> Seq<Seq<char>> {
    seq![
        "log"@,
        "--color=always"@,
        "--oneline"@,
        "--decorate"@,
        "-n"@,
        PREVIEW_COMMIT_COUNT@,
        range_of(target),
        "--"@,
    ]
}

/// A destination in the list.
pub open spec fn candidate_of(messages: Messages, target: PushTarget) -> Candidate {
    plain(line_of(messages, target), target.name_text(), Preview::Git(log_arguments(target)))
}

/// Builds the candidate list. There being no remote is said before anything is picked.
pub fn picker(messages: Messages, candidates: &[PushTarget]) -> (picker: Result<Picker, Error>)
    ensures
        match picker {
            Ok(picker) => {
                &&& candidates@.len() > 0
                &&& item_views(picker.items@) == candidates@.map_values(
                    |target: PushTarget| candidate_of(messages, target),
                )
                &&& picker.options@ == (ListOptions {
                    mode: SelectionMode::Single,
                    header: None,
                    preselect: Seq::empty(),
                })
            },
            Err(error) => candidates@.len() == 0 && error.says(messages.push().no_remotes_text()),
        },
{
    if candidates.len() == 0 {
        return Err(Error::Explained(messages.push().no_remotes().to_owned()));
    }
    let ghost all = candidates@.map_values(|target: PushTarget| candidate_of(messages, target));
    let item = |target: &PushTarget| -> (item: FinderItem)
        ensures
            item@ == candidate_of(messages, *target),
        { to_item(messages, target) };
    let items = items_of(candidates, item);
    assert(item_views(items@) =~= all);
    Ok(Picker { items, options: FinderOptions::new(SelectionMode::Single) })
}

/// The names of destinations.
pub open spec fn names(targets: Seq<PushTarget>) -> Seq<Seq<char>> {
    targets.map_values(|target: PushTarget| target.name_text())
}

/// The run that pushes to the picked destination. A name that was not offered is an error.
pub fn run_on_selection(
    messages: Messages,
    candidates: &[PushTarget],
    selected: &str,
    upstream: UpstreamUpdate,
) -> (run: Result<GitRun, Error>)
    ensures
        match names(candidates@).index_of_first(selected@) {
            Some(i) => run matches Ok(run) && run.is(
                push_arguments(candidates@[i], upstream),
                messages.push().push_failed_text(selected@),
            ),
            None => run matches Err(error) && error.says(
                messages.push().selection_not_found_text(selected@),
            ),
        },
{
    let mut i: usize = 0;
    while i < candidates.len()
        invariant
            i <= candidates@.len(),
            forall|k: int| 0 <= k < i ==> names(candidates@)[k] != selected@,
        decreases candidates@.len() - i,
    {
        let name = candidates[i].tracking_name();
        assert(names(candidates@)[i as int] == name@);
        if same_text(name.as_str(), selected) {
            proof {
                names(candidates@).index_of_first_ensures(selected@);
                assert(names(candidates@).contains(selected@));
            }
            return Ok(
                GitRun {
                    args: push_args(&candidates[i], upstream),
                    failure: messages.push().push_failed(name.as_str()),
                },
            );
        }
        i += 1;
    }
    proof {
        names(candidates@).index_of_first_ensures(selected@);
    }
    Err(Error::Explained(messages.push().selection_not_found(selected)))
}

/// Writes the line of a destination.
pub fn display_line(messages: Messages, target: &PushTarget) -> (line: String)
    ensures
        line@ == line_of(messages, *target),
{
    let mut line = concat3(
        target.tracking_name().as_str(),
        "  ",
        counts(messages, target).as_str(),
    );
    if target.is_upstream {
        line.append(UPSTREAM_NOTE);
    }
    line
}

/// Writes how far a destination is ahead and behind.
pub fn counts(messages: Messages, target: &PushTarget) -> (text: String)
    ensures
        text@ == counts_of(messages, *target),
{
    match target.ahead_behind {
        Some((ahead, behind)) => concat4(
            "ahead ",
            decimal_text(ahead).as_str(),
            " / behind ",
            decimal_text(behind).as_str(),
        ),
        None => messages.push().no_tracking_ref().to_owned(),
    }
}

/// Writes the arguments that show the commits that a push brings.
pub fn preview_args(target: &PushTarget) -> (args: Vec<String>)
    ensures
        texts(args@) == log_arguments(*target),
{
    let range = match target.ahead_behind {
        Some(_) => concat2(target.tracking_ref().as_str(), "..HEAD"),
        None => "HEAD".to_owned(),
    };
    let args = owned_all(
        &[
            "log",
            "--color=always",
            "--oneline",
            "--decorate",
            "-n",
            PREVIEW_COMMIT_COUNT,
            range.as_str(),
            "--",
        ],
    );
    assert(texts(args@) =~= log_arguments(*target));
    args
}

/// A destination as the list shows it.
pub fn to_item(messages: Messages, target: &PushTarget) -> (item: FinderItem)
    ensures
        item@ == candidate_of(messages, *target),
{
    FinderItem::new(
        display_line(messages, target),
        target.tracking_name(),
        PreviewSource::Git(preview_args(target)),
    )
}

/// The arguments of a push.
pub open spec fn push_arguments(target: PushTarget, upstream: UpstreamUpdate) -> Seq<Seq<char>> {
    match upstream.option_text() {
        Some(option) => seq!["push"@, option, target.remote@, target.branch@],
        None => seq!["push"@, target.remote@, target.branch@],
    }
}

/// Writes the arguments of a push.
pub fn push_args(target: &PushTarget, upstream: UpstreamUpdate) -> (args: Vec<String>)
    ensures
        texts(args@) == push_arguments(*target, upstream),
{
    let mut args: Vec<String> = Vec::new();
    args.push("push".to_owned());
    if let Some(option) = upstream.option() {
        args.push(option.to_owned());
    }
    args.push(target.remote.clone());
    args.push(target.branch.clone());
    assert(texts(args@) =~= push_arguments(*target, upstream));
    args
}

/// Nothing is forced, whatever is pushed: the only option there can be sets the upstream.
pub proof fn law_nothing_is_forced(target: PushTarget, upstream: UpstreamUpdate)
    ensures
        push_arguments(target, upstream).len() == 3 || push_arguments(target, upstream)[1]
            == SET_UPSTREAM_OPTION@,
{
}

/// Git gets the remote and then the branch, last of all, and the option for the upstream if and
/// only if that was asked for.
pub proof fn law_a_push_goes_to_its_destination(
    target: &PushTarget,
    upstream: UpstreamUpdate,
    args: Vec<String>,
)
    requires
        call_ensures(push_args, (target, upstream), args),
    ensures
        texts(args@)[0] == "push"@,
        texts(args@)[texts(args@).len() - 2] == target.remote@,
        texts(args@).last() == target.branch@,
        texts(args@).len() == 4 <==> upstream == UpstreamUpdate::Configure,
        texts(args@).len() == 3 <==> upstream == UpstreamUpdate::Keep,
        upstream == UpstreamUpdate::Configure ==> texts(args@)[1] == "--set-upstream"@,
{
}

/// The line of a destination names it, says how far the branch is ahead of it and behind it, in
/// that order, and marks the upstream.
pub proof fn law_a_line_tells_ahead_before_behind(
    messages: Messages,
    target: &PushTarget,
    ahead: usize,
    behind: usize,
    line: String,
)
    requires
        target.ahead_behind == Some((ahead, behind)),
        call_ensures(display_line, (messages, target), line),
    ensures
        ({
            let text = target.remote@ + "/"@ + target.branch@ + "  "@ + ("ahead "@ + decimal(
                ahead as nat,
            ) + " / behind "@ + decimal(behind as nat));
            line@ == (if target.is_upstream {
                text + "  (upstream)"@
            } else {
                text
            })
        }),
{
}

/// The preview shows what the destination does not have: from its reference on where there is
/// one, and all of `HEAD` where there is none.
pub proof fn law_a_preview_shows_what_is_pushed(target: &PushTarget, args: Vec<String>)
    requires
        call_ensures(preview_args, (target,), args),
    ensures
        texts(args@)[0] == "log"@,
        texts(args@).last() == "--"@,
        texts(args@)[texts(args@).len() - 2] == (if target.ahead_behind is Some {
            "refs/remotes/"@ + target.remote@ + "/"@ + target.branch@ + "..HEAD"@
        } else {
            "HEAD"@
        }),
{
}

/// A destination of which nothing is known yet is said to be one.
pub proof fn law_an_unknown_destination_is_told(
    messages: Messages,
    target: &PushTarget,
    text: String,
)
    requires
        target.ahead_behind is None,
        call_ensures(counts, (messages, target), text),
    ensures
        text@ == messages.push().no_tracking_ref_text(),
{
}

/// What is picked is what is pushed to: git gets the remote and the branch of that name.
pub proof fn law_the_picked_destination_is_pushed_to(
    messages: Messages,
    candidates: &[PushTarget],
    selected: &str,
    upstream: UpstreamUpdate,
    run: Result<GitRun, Error>,
)
    requires
        call_ensures(run_on_selection, (messages, candidates, selected, upstream), run),
    ensures
        run is Ok <==> names(candidates@).contains(selected@),
        run matches Ok(run) ==> {
            let args = texts(run.args@);
            &&& args[0] == "push"@
            &&& args[args.len() - 2] + "/"@ + args.last() == selected@
        },
{
    let all = names(candidates@);
    all.index_of_first_ensures(selected@);
    if let Some(i) = all.index_of_first(selected@) {
        assert(all[i] == candidates@[i].name_text());
    }
}

} // verus!
