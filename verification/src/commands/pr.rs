//! `gz pr`: check a pull request out.
//!
//! The list is read over the network, once, and the texts of the requests with it. A preview
//! shows what was read then.

use vstd::prelude::*;

use crate::commands::{
    aligned_by, aligned_candidates, aligned_lines, row_texts, selection_header, COLUMN_SEPARATOR,
    DECIDE_KEY, HEADER_SEPARATOR,
};
use crate::error::Error;
use crate::finder::{
    headed, item_views, items_of, plain, Candidate, FinderItem, FinderOptions, Highlight,
    HighlightColor, Panel, Picker, Preview, PreviewPanel, PreviewSource, SelectionMode,
};
use crate::gh::{
    fields_of, law_a_record_stays_on_one_line, law_a_record_survives, record_of, split_tsv,
};
use crate::i18n::Messages;
use crate::selection::{lemma_filter_empty, lemma_filter_step};
use crate::text::{
    byte_len, byte_length, concat2, concat3, concat5, decimal, decimal_text, join, join_texts,
    keeps_utf8, lemma_join_without, lemma_split_join, lines, lines_of, long_decimal_text, lossy_text, number_of, owned, owned_all,
    parse_number, pieces_of, read_lossy, same_text, split, string_of, strs, texts, without_return,
};

verus! {

broadcast use crate::text::lemma_texts_push;

/// How many pull requests are read.
pub const DEFAULT_LIMIT: usize = 100;

/// What is read of each of them.
pub const FIELDS: &'static str = "number,headRefName,baseRefName,author,isDraft,url,title,body";

/// What is read where the checks were asked for.
pub const FIELDS_WITH_CHECKS: &'static str =
    "number,headRefName,baseRefName,author,isDraft,url,title,body,reviewDecision,statusCheckRollup";

/// How many fields a record has.
pub const FIELD_COUNT: usize = 8;

/// How many fields a record has where the checks were asked for.
pub const FIELD_COUNT_WITH_CHECKS: usize = 12;

/// The expressions that write the fields of a record. The author may be gone.
pub const JQ_BASE: [&'static str; 8] = [
    "(.number|tostring)",
    ".headRefName",
    ".baseRefName",
    r#"(.author.login // "-")"#,
    "(.isDraft|tostring)",
    ".url",
    ".title",
    ".body",
];

/// The expression that writes how a pull request was reviewed.
pub const JQ_REVIEW: &'static str = r#"(.reviewDecision // "")"#;

/// What stands before the condition in an expression that counts checks. There may be none.
pub const JQ_COUNT_START: &'static str = "([.statusCheckRollup[]? | select(";

/// What stands behind the condition in an expression that counts checks.
pub const JQ_COUNT_END: &'static str = ")] | length | tostring)";

/// Which checks passed. A check is told by its conclusion or by its state.
pub const JQ_PASSED: &'static str =
    r#"(.conclusion // "") as $c | $c=="SUCCESS" or $c=="SKIPPED" or $c=="NEUTRAL" or (.state=="SUCCESS")"#;

/// Which checks failed.
pub const JQ_FAILED: &'static str =
    r#"(.conclusion // "") as $c | $c=="FAILURE" or $c=="TIMED_OUT" or $c=="CANCELLED" or $c=="ACTION_REQUIRED" or $c=="STARTUP_FAILURE" or (.state=="FAILURE") or (.state=="ERROR")"#;

/// Which checks are pending.
pub const JQ_PENDING: &'static str =
    r#"((.status // "") != "COMPLETED" and (.state // "") == "") or (.state=="PENDING")"#;

/// How the checks of a pull request fared.
#[derive(Debug, Clone, Copy, PartialEq, Eq, Structural)]
pub struct Checks {
    pub passed: usize,
    pub failed: usize,
    pub pending: usize,
}

/// A pull request.
#[derive(Debug, PartialEq, Eq)]
pub struct PrCandidate {
    pub number: u64,
    /// The branch that it brings.
    pub head_ref: String,
    /// The branch that it is for.
    pub base_ref: String,
    pub author: String,
    pub is_draft: bool,
    pub url: String,
    pub title: String,
    /// Its text, which the preview shows.
    pub body: String,
    /// How it was reviewed, where that was asked for: empty where it was not reviewed.
    pub review_decision: Option<String>,
    /// How its checks fared, where that was asked for.
    pub checks: Option<Checks>,
}

/// The contents of a [`PrCandidate`].
#[verifier::ext_equal]
pub struct PullRequest {
    pub number: u64,
    pub head_ref: Seq<char>,
    pub base_ref: Seq<char>,
    pub author: Seq<char>,
    pub is_draft: bool,
    pub url: Seq<char>,
    pub title: Seq<char>,
    pub body: Seq<char>,
    pub review_decision: Option<Seq<char>>,
    pub checks: Option<Checks>,
}

impl View for PrCandidate {
    type V = PullRequest;

    open spec fn view(&self) -> PullRequest {
        PullRequest {
            number: self.number,
            head_ref: self.head_ref@,
            base_ref: self.base_ref@,
            author: self.author@,
            is_draft: self.is_draft,
            url: self.url@,
            title: self.title@,
            body: self.body@,
            review_decision: string_of(self.review_decision),
            checks: self.checks,
        }
    }
}

impl PrCandidate {
    /// The key of a pull request, the same in every language: its number.
    pub fn key(&self) -> (key: String)
        ensures
            key@ == decimal(self.number as nat),
    {
        long_decimal_text(self.number)
    }
}

/// The contents of several pull requests.
pub open spec fn requests_of(candidates: Seq<PrCandidate>) -> Seq<PullRequest> {
    candidates.map_values(|candidate: PrCandidate| candidate@)
}

/// The expression that counts the checks that meet a condition.
pub open spec fn count_column(condition: Seq<char>) -> Seq<char> {
    JQ_COUNT_START@ + condition + JQ_COUNT_END@
}

/// The expressions that write a record, one for each field.
pub open spec fn columns_of(checks: bool) -> Seq<Seq<char>> {
    let base = strs(JQ_BASE@);
    if checks {
        base + seq![
            JQ_REVIEW@,
            count_column(JQ_PASSED@),
            count_column(JQ_FAILED@),
            count_column(JQ_PENDING@),
        ]
    } else {
        base
    }
}

/// Writes the expressions of a record.
pub fn columns(checks: bool) -> (columns: Vec<String>)
    ensures
        texts(columns@) == columns_of(checks),
{
    let base: [&'static str; 8] = JQ_BASE;
    let mut columns = owned_all(&base);
    if checks {
        columns.push(owned(JQ_REVIEW));
        columns.push(concat3(JQ_COUNT_START, JQ_PASSED, JQ_COUNT_END));
        columns.push(concat3(JQ_COUNT_START, JQ_FAILED, JQ_COUNT_END));
        columns.push(concat3(JQ_COUNT_START, JQ_PENDING, JQ_COUNT_END));
    }
    assert(texts(columns@) =~= columns_of(checks));
    columns
}

/// The arguments that list pull requests: one call, whatever is asked for.
pub open spec fn list_arguments(checks: bool) -> Seq<Seq<char>> {
    seq![
        "pr"@,
        "list"@,
        "--limit"@,
        decimal(DEFAULT_LIMIT as nat),
        "--json"@,
        if checks {
            FIELDS_WITH_CHECKS@
        } else {
            FIELDS@
        },
        "--jq"@,
        ".[] | ["@ + join(columns_of(checks), ", "@) + "] | @tsv"@,
    ]
}

/// Writes the arguments that list pull requests.
pub fn list_args(checks: bool) -> (args: Vec<String>)
    ensures
        texts(args@) == list_arguments(checks),
{
    let fields = if checks {
        FIELDS_WITH_CHECKS
    } else {
        FIELDS
    };
    let row = join_texts(&columns(checks), ", ");
    let jq = concat3(".[] | [", row.as_str(), "] | @tsv");
    let limit = decimal_text(DEFAULT_LIMIT);
    let args = owned_all(
        &["pr", "list", "--limit", limit.as_str(), "--json", fields, "--jq", jq.as_str()],
    );
    assert(texts(args@) =~= list_arguments(checks));
    args
}

/// How many fields a record has.
pub open spec fn expected_fields(checks: bool) -> usize {
    if checks {
        FIELD_COUNT_WITH_CHECKS
    } else {
        FIELD_COUNT
    }
}

/// How many fields a record has.
pub fn field_count(checks: bool) -> (count: usize)
    ensures
        count == expected_fields(checks),
{
    if checks {
        FIELD_COUNT_WITH_CHECKS
    } else {
        FIELD_COUNT
    }
}

/// The number that a field holds, and zero where it holds none.
pub open spec fn count_of(field: Seq<char>) -> usize {
    match number_of(field) {
        Some(number) => number,
        None => 0,
    }
}

/// Reads the number that a field holds.
pub fn parse_count(field: &str) -> (count: usize)
    ensures
        count == count_of(field@),
{
    match parse_number(field) {
        Some(number) => number,
        None => 0,
    }
}

/// The pull request of a record.
pub open spec fn request_of(fields: Seq<Seq<char>>, checks: bool) -> PullRequest {
    PullRequest {
        number: count_of(fields[0]) as u64,
        head_ref: fields[1],
        base_ref: fields[2],
        author: fields[3],
        is_draft: fields[4] == "true"@,
        url: fields[5],
        title: fields[6],
        body: fields[7],
        review_decision: if checks {
            Some(fields[8])
        } else {
            None
        },
        checks: if checks {
            Some(
                Checks {
                    passed: count_of(fields[9]),
                    failed: count_of(fields[10]),
                    pending: count_of(fields[11]),
                },
            )
        } else {
            None
        },
    }
}

/// Builds the pull request of a record.
pub fn to_candidate(fields: &Vec<String>, checks: bool) -> (candidate: PrCandidate)
    requires
        fields@.len() == expected_fields(checks),
    ensures
        candidate@ == request_of(texts(fields@), checks),
{
    let (review_decision, counts) = if checks {
        (
            Some(fields[8].clone()),
            Some(
                Checks {
                    passed: parse_count(fields[9].as_str()),
                    failed: parse_count(fields[10].as_str()),
                    pending: parse_count(fields[11].as_str()),
                },
            ),
        )
    } else {
        (None, None)
    };
    PrCandidate {
        number: parse_count(fields[0].as_str()) as u64,
        head_ref: fields[1].clone(),
        base_ref: fields[2].clone(),
        author: fields[3].clone(),
        is_draft: same_text(fields[4].as_str(), "true"),
        url: fields[5].clone(),
        title: fields[6].clone(),
        body: fields[7].clone(),
        review_decision,
        checks: counts,
    }
}

/// The records of an output: its lines, without empty ones.
pub open spec fn records_of(text: Seq<char>) -> Seq<Seq<char>> {
    lines_of(text).filter(|line: Seq<char>| line.len() > 0)
}

/// The first record that has another number of fields.
pub open spec fn first_malformed(records: Seq<Seq<char>>, expected: nat) -> Option<int>
    decreases records.len(),
{
    if records.len() == 0 {
        None
    } else {
        match first_malformed(records.drop_last(), expected) {
            Some(i) => Some(i),
            None => if split(records.last(), '\t').len() == expected {
                None
            } else {
                Some(records.len() - 1)
            },
        }
    }
}

/// Whether pull requests, or an error, are what the records of an output come to. A record
/// with another number of fields stops the reading.
pub open spec fn read_from(
    result: Result<Vec<PrCandidate>, Error>,
    records: Seq<Seq<char>>,
    checks: bool,
) -> bool {
    match first_malformed(records, expected_fields(checks) as nat) {
        None => result matches Ok(candidates) && requests_of(candidates@) == records.map_values(
            |record: Seq<char>| request_of(fields_of(record), checks),
        ),
        Some(i) => result matches Err(error) && (error matches Error::GhOutputMalformed {
            expected,
            found,
        } && expected == expected_fields(checks) && found == split(records[i], '\t').len()),
    }
}

proof fn lemma_first_malformed(records: Seq<Seq<char>>, expected: nat, i: int)
    requires
        0 <= i < records.len(),
        first_malformed(records.take(i + 1), expected) is Some,
    ensures
        first_malformed(records, expected) == first_malformed(records.take(i + 1), expected),
    decreases records.len(),
{
    if i + 1 < records.len() {
        assert(records.drop_last().take(i + 1) =~= records.take(i + 1));
        lemma_first_malformed(records.drop_last(), expected, i);
    } else {
        assert(records.take(i + 1) =~= records);
    }
}

/// Reads pull requests from the output of `gh`.
pub fn parse(stdout: &[u8], checks: bool) -> (result: Result<Vec<PrCandidate>, Error>)
    ensures
        read_from(result, records_of(lossy_text(stdout@)), checks),
        keeps_utf8(stdout@),
{
    let text = read_lossy(stdout);
    parse_text(text.as_str(), checks)
}

/// Keeps the lines that are not empty.
fn records(text: &str) -> (found: Vec<Vec<char>>)
    ensures
        pieces_of(found@) == records_of(text@),
{
    let all = lines(text);
    let ghost views = lines_of(text@);
    let ghost kept = |line: Seq<char>| line.len() > 0;
    let mut found: Vec<Vec<char>> = Vec::new();
    let mut i: usize = 0;
    proof {
        lemma_filter_empty(views, kept);
        assert(pieces_of(found@) =~= Seq::empty());
    }
    while i < all.len()
        invariant
            i <= all@.len(),
            pieces_of(all@) == views,
            views == lines_of(text@),
            kept == (|line: Seq<char>| line.len() > 0),
            pieces_of(found@) == views.take(i as int).filter(kept),
        decreases all@.len() - i,
    {
        proof {
            lemma_filter_step(views, kept, i as int);
            assert(views[i as int] == all@[i as int]@);
        }
        let ghost before = found@;
        if all[i].len() > 0 {
            let line = all[i].clone();
            assert(line@ =~= all@[i as int]@);
            found.push(line);
            assert(pieces_of(found@) =~= pieces_of(before).push(line@));
        }
        i += 1;
    }
    assert(views.take(i as int) =~= views);
    found
}

/// Reads pull requests from a text.
pub fn parse_text(text: &str, checks: bool) -> (result: Result<Vec<PrCandidate>, Error>)
    ensures
        read_from(result, records_of(text@), checks),
{
    let expected = field_count(checks);
    let found = records(text);
    let ghost all = records_of(text@);
    let ghost views = all.map_values(|record: Seq<char>| request_of(fields_of(record), checks));
    let mut candidates: Vec<PrCandidate> = Vec::new();
    let mut i: usize = 0;
    assert(requests_of(candidates@) =~= views.take(0));
    while i < found.len()
        invariant
            i <= found@.len(),
            expected == expected_fields(checks),
            pieces_of(found@) == all,
            all == records_of(text@),
            views == all.map_values(|record: Seq<char>| request_of(fields_of(record), checks)),
            first_malformed(all.take(i as int), expected as nat) is None,
            requests_of(candidates@) == views.take(i as int),
        decreases found@.len() - i,
    {
        let ghost record = all[i as int];
        proof {
            assert(record == found@[i as int]@);
            assert(all.take(i + 1).drop_last() =~= all.take(i as int));
            assert(all.take(i + 1).last() == record);
            if split(record, '\t').len() != expected {
                lemma_first_malformed(all, expected as nat, i as int);
            }
        }
        let fields = match split_tsv(found[i].as_slice(), expected) {
            Ok(fields) => fields,
            Err(error) => {
                return Err(error);
            },
        };
        assert(texts(fields@).len() == fields@.len());
        let candidate = to_candidate(&fields, checks);
        let ghost before = candidates@;
        candidates.push(candidate);
        assert(requests_of(candidates@) =~= requests_of(before).push(candidate@));
        i += 1;
        assert(requests_of(candidates@) =~= views.take(i as int));
    }
    assert(all.take(i as int) =~= all);
    assert(views.take(i as int) =~= views);
    Ok(candidates)
}

/// What was written of a pull request is read back, whatever its fields hold.
pub proof fn law_a_written_request_is_read_back(fields: Seq<Seq<char>>, checks: bool)
    requires
        fields.len() == expected_fields(checks),
    ensures
        split(record_of(fields), '\t').len() == fields.len(),
        request_of(fields_of(record_of(fields)), checks) == request_of(fields, checks),
{
    law_a_record_survives(fields);
    let record = record_of(fields);
    assert(fields_of(record).len() == split(record, '\t').len());
}

/// An output as it is written: one record per line, each with its line end.
pub open spec fn output_of(requests: Seq<Seq<Seq<char>>>) -> Seq<char> {
    join(
        requests.map_values(|fields: Seq<Seq<char>>| record_of(fields)).push(Seq::empty()),
        "\n"@,
    )
}

/// What was written of several pull requests is read back, in order and whatever their
/// fields hold.
pub proof fn law_a_written_list_is_read_back(
    requests: Seq<Seq<Seq<char>>>,
    checks: bool,
    result: Result<Vec<PrCandidate>, Error>,
)
    requires
        forall|i: int|
            0 <= i < requests.len() ==> (#[trigger] requests[i]).len() == expected_fields(checks),
        read_from(result, records_of(output_of(requests)), checks),
    ensures
        result matches Ok(candidates) && requests_of(candidates@) == requests.map_values(
            |fields: Seq<Seq<char>>| request_of(fields, checks),
        ),
{
    let written = requests.map_values(|fields: Seq<Seq<char>>| record_of(fields));
    let parts = written.push(Seq::empty());
    assert forall|i: int| 0 <= i < parts.len() implies !(#[trigger] parts[i]).contains('\n') by {
        if i < requests.len() {
            law_a_record_stays_on_one_line(requests[i]);
        }
    }
    reveal_strlit("\n");
    assert("\n"@ =~= seq!['\n']);
    lemma_split_join(parts, '\n');
    let ended = parts.drop_last().map_values(|line: Seq<char>| without_return(line));
    assert forall|i: int| 0 <= i < written.len() implies without_return(#[trigger] written[i])
        == written[i] && written[i].len() > 0 by {
        law_a_record_stays_on_one_line(requests[i]);
        law_a_record_survives(requests[i]);
        if written[i].len() == 0 {
            written[i].index_of_first_ensures('\t');
            assert(fields_of(written[i]).len() == 1);
        } else {
            assert(written[i].contains(written[i].last()));
        }
    }
    assert(ended =~= written);
    let kept = |line: Seq<char>| line.len() > 0;
    lemma_filter_all(written, kept);
    assert(records_of(output_of(requests)) == written);
    assert forall|i: int| 0 <= i < written.len() implies split(#[trigger] written[i], '\t').len()
        == expected_fields(checks) && request_of(fields_of(written[i]), checks) == request_of(
        requests[i],
        checks,
    ) by {
        law_a_written_request_is_read_back(requests[i], checks);
    }
    lemma_none_malformed(written, expected_fields(checks) as nat);
    assert(written.map_values(|record: Seq<char>| request_of(fields_of(record), checks))
        =~= requests.map_values(|fields: Seq<Seq<char>>| request_of(fields, checks)));
}

/// Whether a text holds a word.
pub open spec fn mentions(text: Seq<char>, word: Seq<char>) -> bool {
    exists|i: int|
        0 <= i <= text.len() - word.len() && #[trigger] text.subrange(i, i + word.len()) == word
}

/// Whether a character is not among the first `count` of a text.
spec fn avoids(text: Seq<char>, c: char, count: nat) -> bool
    decreases count,
{
    count == 0 || (avoids(text, c, (count - 1) as nat) && text[count - 1] != c)
}

proof fn lemma_avoids(text: Seq<char>, c: char, count: nat)
    requires
        avoids(text, c, count),
    ensures
        forall|i: int| 0 <= i < count ==> text[i] != c,
    decreases count,
{
    if count > 0 {
        lemma_avoids(text, c, (count - 1) as nat);
    }
}

proof fn lemma_without(text: Seq<char>, c: char)
    requires
        avoids(text, c, text.len()),
    ensures
        !text.contains(c),
{
    lemma_avoids(text, c, text.len());
}

/// A word is not held where one of its characters is not.
proof fn lemma_mentions_none(text: Seq<char>, word: Seq<char>, at: int)
    requires
        0 <= at < word.len(),
        !text.contains(word[at]),
    ensures
        !mentions(text, word),
{
    if mentions(text, word) {
        let i = choose|i: int|
            0 <= i <= text.len() - word.len() && #[trigger] text.subrange(i, i + word.len())
                == word;
        assert(text.subrange(i, i + word.len())[at] == text[i + at]);
        assert(text.contains(text[i + at]));
    }
}

/// A word is held where it stands.
proof fn lemma_mentions_at(text: Seq<char>, word: Seq<char>, at: int)
    requires
        0 <= at <= text.len() - word.len(),
        forall|i: int| 0 <= i < word.len() ==> text[at + i] == #[trigger] word[i],
    ensures
        mentions(text, word),
{
    assert(text.subrange(at, at + word.len()) =~= word);
}

/// What a part of a text holds, the text holds.
proof fn lemma_mentions_part(before: Seq<char>, part: Seq<char>, after: Seq<char>, word: Seq<char>)
    requires
        mentions(part, word),
    ensures
        mentions(before + part + after, word),
{
    let i = choose|i: int|
        0 <= i <= part.len() - word.len() && #[trigger] part.subrange(i, i + word.len()) == word;
    let whole = before + part + after;
    let at = before.len() + i;
    assert(whole.subrange(at, at + word.len()) =~= part.subrange(i, i + word.len()));
}

/// What one of several texts holds, all of them together hold.
proof fn lemma_mentions_join(
    parts: Seq<Seq<char>>,
    separator: Seq<char>,
    at: int,
    word: Seq<char>,
)
    requires
        0 <= at < parts.len(),
        mentions(parts[at], word),
    ensures
        mentions(join(parts, separator), word),
    decreases parts.len(),
{
    if parts.len() > 1 {
        let earlier = join(parts.drop_last(), separator);
        if at == parts.len() - 1 {
            lemma_mentions_part(earlier + separator, parts.last(), Seq::empty(), word);
            assert(earlier + separator + parts.last() + Seq::empty() =~= join(parts, separator));
        } else {
            lemma_mentions_join(parts.drop_last(), separator, at, word);
            lemma_mentions_part(Seq::empty(), earlier, separator + parts.last(), word);
            assert(Seq::empty() + earlier + (separator + parts.last()) =~= join(parts, separator));
        }
    }
}

proof fn lemma_surrounded_without(start: Seq<char>, middle: Seq<char>, end: Seq<char>, c: char)
    requires
        !start.contains(c),
        !middle.contains(c),
        !end.contains(c),
    ensures
        !(start + middle + end).contains(c),
{
    let whole = start + middle + end;
    if whole.contains(c) {
        let k = choose|k: int| 0 <= k < whole.len() && whole[k] == c;
        if k < start.len() {
            assert(start.contains(start[k]));
        } else if k < start.len() + middle.len() {
            assert(middle.contains(middle[k - start.len()]));
        } else {
            assert(end.contains(end[k - start.len() - middle.len()]));
        }
    }
}

/// The pieces between the commas of a list whose commas have a space behind them.
pub open spec fn spaced(parts: Seq<Seq<char>>) -> Seq<Seq<char>> {
    Seq::new(
        parts.len(),
        |i: int|
            if i == 0 {
                parts[i]
            } else {
                seq![' '] + parts[i]
            },
    )
}

proof fn lemma_spaced(parts: Seq<Seq<char>>)
    ensures
        join(parts, ", "@) == join(spaced(parts), seq![',']),
    decreases parts.len(),
{
    reveal_strlit(", ");
    assert(", "@ =~= seq![',', ' ']);
    if parts.len() > 1 {
        lemma_spaced(parts.drop_last());
        assert(spaced(parts).drop_last() =~= spaced(parts.drop_last()));
        assert(join(parts, ", "@) =~= join(spaced(parts), seq![',']));
    }
}

/// The expressions that every record has hold no comma, and none of the words that stand for
/// the checks.
proof fn lemma_base_columns(i: int)
    requires
        0 <= i < columns_of(false).len(),
    ensures
        !columns_of(false)[i].contains(','),
        !columns_of(false)[i].contains('w'),
        !columns_of(false)[i].contains('k'),
{
    reveal_strlit("(.number|tostring)");
    reveal_strlit(".headRefName");
    reveal_strlit(".baseRefName");
    reveal_strlit(r#"(.author.login // "-")"#);
    reveal_strlit("(.isDraft|tostring)");
    reveal_strlit(".url");
    reveal_strlit(".title");
    reveal_strlit(".body");
    reveal_with_fuel(avoids, 24);
    let column = columns_of(false)[i];
    assert(column == JQ_BASE@[i]@);
    assert(avoids(column, ',', column.len()));
    assert(avoids(column, 'w', column.len()));
    assert(avoids(column, 'k', column.len()));
    lemma_without(column, ',');
    lemma_without(column, 'w');
    lemma_without(column, 'k');
}

/// The expressions that write the checks hold no comma.
proof fn lemma_check_columns(i: int)
    requires
        8 <= i < columns_of(true).len(),
    ensures
        !columns_of(true)[i].contains(','),
{
    assert(!JQ_REVIEW@.contains(',')) by {
        reveal_strlit(r#"(.reviewDecision // "")"#);
        reveal_with_fuel(avoids, 26);
        lemma_without(JQ_REVIEW@, ',');
    }
    assert(!JQ_COUNT_START@.contains(',')) by {
        reveal_strlit("([.statusCheckRollup[]? | select(");
        reveal_with_fuel(avoids, 26);
        assert(avoids(JQ_COUNT_START@, ',', 25));
        lemma_without(JQ_COUNT_START@, ',');
    }
    assert(!JQ_COUNT_END@.contains(',')) by {
        reveal_strlit(")] | length | tostring)");
        reveal_with_fuel(avoids, 26);
        lemma_without(JQ_COUNT_END@, ',');
    }
    assert(!JQ_PASSED@.contains(',')) by {
        reveal_strlit(r#"(.conclusion // "") as $c | $c=="SUCCESS" or $c=="SKIPPED" or $c=="NEUTRAL" or (.state=="SUCCESS")"#);
        reveal_with_fuel(avoids, 26);
        assert(avoids(JQ_PASSED@, ',', 25));
        assert(avoids(JQ_PASSED@, ',', 50));
        assert(avoids(JQ_PASSED@, ',', 75));
        lemma_without(JQ_PASSED@, ',');
    }
    assert(!JQ_FAILED@.contains(',')) by {
        reveal_strlit(r#"(.conclusion // "") as $c | $c=="FAILURE" or $c=="TIMED_OUT" or $c=="CANCELLED" or $c=="ACTION_REQUIRED" or $c=="STARTUP_FAILURE" or (.state=="FAILURE") or (.state=="ERROR")"#);
        reveal_with_fuel(avoids, 26);
        assert(avoids(JQ_FAILED@, ',', 25));
        assert(avoids(JQ_FAILED@, ',', 50));
        assert(avoids(JQ_FAILED@, ',', 75));
        assert(avoids(JQ_FAILED@, ',', 100));
        assert(avoids(JQ_FAILED@, ',', 125));
        assert(avoids(JQ_FAILED@, ',', 150));
        lemma_without(JQ_FAILED@, ',');
    }
    assert(!JQ_PENDING@.contains(',')) by {
        reveal_strlit(r#"((.status // "") != "COMPLETED" and (.state // "") == "") or (.state=="PENDING")"#);
        reveal_with_fuel(avoids, 26);
        assert(avoids(JQ_PENDING@, ',', 25));
        assert(avoids(JQ_PENDING@, ',', 50));
        assert(avoids(JQ_PENDING@, ',', 75));
        lemma_without(JQ_PENDING@, ',');
    }
    lemma_surrounded_without(JQ_COUNT_START@, JQ_PASSED@, JQ_COUNT_END@, ',');
    lemma_surrounded_without(JQ_COUNT_START@, JQ_FAILED@, JQ_COUNT_END@, ',');
    lemma_surrounded_without(JQ_COUNT_START@, JQ_PENDING@, JQ_COUNT_END@, ',');
}

/// The list is asked for what is read: the expression writes one column for each field that a
/// record must have. In the text of the expression the columns are what stands between the
/// commas, and there are no others.
pub proof fn law_the_list_writes_what_is_read(checks: bool)
    ensures
        ({
            let args = list_arguments(checks);
            let row = join(columns_of(checks), ", "@);
            &&& args.len() == 8
            &&& args[7] == ".[] | ["@ + row + "] | @tsv"@
            &&& columns_of(checks).len() == expected_fields(checks)
            &&& split(row, ',') == spaced(columns_of(checks))
            &&& split(row, ',').len() == expected_fields(checks)
        }),
{
    let columns = columns_of(checks);
    assert forall|i: int| 0 <= i < columns.len() implies !(#[trigger] spaced(columns)[i]).contains(
        ',',
    ) by {
        if i < 8 {
            lemma_base_columns(i);
            assert(columns[i] == columns_of(false)[i]);
        } else {
            lemma_check_columns(i);
        }
        let piece = spaced(columns)[i];
        if piece.contains(',') {
            let k = choose|k: int| 0 <= k < piece.len() && piece[k] == ',';
            if i > 0 {
                assert(columns[i].contains(columns[i][k - 1]));
            }
        }
    }
    lemma_spaced(columns);
    lemma_split_join(spaced(columns), ',');
}

/// The text of a request is always asked for, since the preview shows it. The review and the
/// checks are asked for where they are wanted and nowhere else: they take long to read.
pub proof fn law_checks_are_asked_for_where_wanted(checks: bool)
    ensures
        ({
            let args = list_arguments(checks);
            &&& mentions(args[5], "body"@) && mentions(args[7], "body"@)
            &&& mentions(args[5], "reviewDecision"@) <==> checks
            &&& mentions(args[7], "reviewDecision"@) <==> checks
            &&& mentions(args[5], "statusCheckRollup"@) <==> checks
            &&& mentions(args[7], "statusCheckRollup"@) <==> checks
        }),
{
    let args = list_arguments(checks);
    let columns = columns_of(checks);
    let row = join(columns, ", "@);
    let (start, end) = (".[] | ["@, "] | @tsv"@);
    reveal_strlit("body");
    reveal_strlit("reviewDecision");
    reveal_strlit("statusCheckRollup");
    reveal_strlit(".body");
    reveal_strlit(".[] | [");
    reveal_strlit("] | @tsv");
    reveal_strlit(", ");
    assert(columns[7] == JQ_BASE@[7]@);
    lemma_mentions_at(columns[7], "body"@, 1);
    lemma_mentions_join(columns, ", "@, 7, "body"@);
    lemma_mentions_part(start, row, end, "body"@);
    if checks {
        reveal_strlit("number,headRefName,baseRefName,author,isDraft,url,title,body,reviewDecision,statusCheckRollup");
        reveal_strlit(r#"(.reviewDecision // "")"#);
        reveal_strlit("([.statusCheckRollup[]? | select(");
        lemma_mentions_at(args[5], "body"@, 56);
        lemma_mentions_at(args[5], "reviewDecision"@, 61);
        lemma_mentions_at(args[5], "statusCheckRollup"@, 76);
        lemma_mentions_at(JQ_REVIEW@, "reviewDecision"@, 2);
        lemma_mentions_join(columns, ", "@, 8, "reviewDecision"@);
        lemma_mentions_part(start, row, end, "reviewDecision"@);
        lemma_mentions_at(JQ_COUNT_START@, "statusCheckRollup"@, 3);
        lemma_mentions_part(
            Seq::empty(),
            JQ_COUNT_START@,
            JQ_PASSED@ + JQ_COUNT_END@,
            "statusCheckRollup"@,
        );
        assert(Seq::empty() + JQ_COUNT_START@ + (JQ_PASSED@ + JQ_COUNT_END@) =~= columns[9]);
        lemma_mentions_join(columns, ", "@, 9, "statusCheckRollup"@);
        lemma_mentions_part(start, row, end, "statusCheckRollup"@);
    } else {
        reveal_strlit("number,headRefName,baseRefName,author,isDraft,url,title,body");
        lemma_mentions_at(args[5], "body"@, 56);
        reveal_with_fuel(avoids, 62);
        lemma_without(args[5], 'w');
        lemma_without(args[5], 'k');
        lemma_without(start, 'w');
        lemma_without(start, 'k');
        lemma_without(end, 'w');
        lemma_without(end, 'k');
        lemma_without(", "@, 'w');
        lemma_without(", "@, 'k');
        assert forall|i: int| 0 <= i < columns.len() implies !(#[trigger] columns[i]).contains('w')
            && !columns[i].contains('k') by {
            lemma_base_columns(i);
        }
        lemma_join_without(columns, ", "@, 'w');
        lemma_join_without(columns, ", "@, 'k');
        lemma_surrounded_without(start, row, end, 'w');
        lemma_surrounded_without(start, row, end, 'k');
        lemma_mentions_none(args[5], "reviewDecision"@, 5);
        lemma_mentions_none(args[7], "reviewDecision"@, 5);
        lemma_mentions_none(args[5], "statusCheckRollup"@, 10);
        lemma_mentions_none(args[7], "statusCheckRollup"@, 10);
    }
}

/// What is listed is read back: where each pull request is written by the columns of the
/// listing, the reading gives what they hold, in order.
pub proof fn law_what_is_listed_is_read_back(
    requests: Seq<Seq<Seq<char>>>,
    checks: bool,
    result: Result<Vec<PrCandidate>, Error>,
)
    requires
        forall|i: int|
            0 <= i < requests.len() ==> (#[trigger] requests[i]).len() == columns_of(checks).len(),
        read_from(result, records_of(output_of(requests)), checks),
    ensures
        result matches Ok(candidates) && requests_of(candidates@) == requests.map_values(
            |fields: Seq<Seq<char>>| request_of(fields, checks),
        ),
{
    law_the_list_writes_what_is_read(checks);
    law_a_written_list_is_read_back(requests, checks, result);
}

proof fn lemma_filter_all(items: Seq<Seq<char>>, pred: spec_fn(Seq<char>) -> bool)
    requires
        forall|i: int| 0 <= i < items.len() ==> pred(#[trigger] items[i]),
    ensures
        items.filter(pred) == items,
    decreases items.len(),
{
    reveal(Seq::filter);
    if items.len() > 0 {
        lemma_filter_all(items.drop_last(), pred);
        assert(items =~= items.drop_last().push(items.last()));
    } else {
        assert(items.filter(pred) =~= items);
    }
}

proof fn lemma_none_malformed(records: Seq<Seq<char>>, expected: nat)
    requires
        forall|i: int|
            0 <= i < records.len() ==> split(#[trigger] records[i], '\t').len() == expected,
    ensures
        first_malformed(records, expected) is None,
    decreases records.len(),
{
    if records.len() > 0 {
        lemma_none_malformed(records.drop_last(), expected);
    }
}

/// What is done with a pull request.
#[derive(Debug, Clone, Copy, PartialEq, Eq, Structural)]
pub enum MenuAction {
    Checkout,
    View,
    Diff,
    PrintNumber,
    PrintUrl,
}

/// What the menu offers, the same for every pull request.
pub const MENU_ACTIONS: [MenuAction; 5] = [
    MenuAction::Checkout,
    MenuAction::View,
    MenuAction::Diff,
    MenuAction::PrintNumber,
    MenuAction::PrintUrl,
];

/// The key of an action.
pub open spec fn menu_key_of(action: MenuAction) -> Seq<char> {
    match action {
        MenuAction::Checkout => "checkout"@,
        MenuAction::View => "view"@,
        MenuAction::Diff => "diff"@,
        MenuAction::PrintNumber => "print-number"@,
        MenuAction::PrintUrl => "print-url"@,
    }
}

/// The key of an action, the same in every language.
pub fn menu_key(action: MenuAction) -> (key: &'static str)
    ensures
        key@ == menu_key_of(action),
{
    match action {
        MenuAction::Checkout => "checkout",
        MenuAction::View => "view",
        MenuAction::Diff => "diff",
        MenuAction::PrintNumber => "print-number",
        MenuAction::PrintUrl => "print-url",
    }
}

/// The line of an action.
pub open spec fn menu_display_of(messages: Messages, action: MenuAction) -> Seq<char> {
    match action {
        MenuAction::Checkout => messages.pr().action_checkout_text(),
        MenuAction::View => messages.pr().action_view_text(),
        MenuAction::Diff => messages.pr().action_diff_text(),
        MenuAction::PrintNumber => messages.pr().action_print_number_text(),
        MenuAction::PrintUrl => messages.pr().action_print_url_text(),
    }
}

/// The line of an action.
pub fn menu_display(messages: Messages, action: MenuAction) -> (line: &'static str)
    ensures
        line@ == menu_display_of(messages, action),
{
    let pr = messages.pr();
    match action {
        MenuAction::Checkout => pr.action_checkout(),
        MenuAction::View => pr.action_view(),
        MenuAction::Diff => pr.action_diff(),
        MenuAction::PrintNumber => pr.action_print_number(),
        MenuAction::PrintUrl => pr.action_print_url(),
    }
}

/// Keys name one action each.
pub proof fn law_keys_name_one_action(a: MenuAction, b: MenuAction)
    ensures
        menu_key_of(a) == menu_key_of(b) ==> a == b,
{
    reveal_strlit("checkout");
    reveal_strlit("view");
    reveal_strlit("diff");
    reveal_strlit("print-number");
    reveal_strlit("print-url");
    assert("checkout"@.len() == 8);
    assert("view"@.len() == 4);
    assert("view"@[0] == 'v');
    assert("diff"@.len() == 4);
    assert("diff"@[0] == 'd');
    assert("print-number"@.len() == 12);
    assert("print-url"@.len() == 9);
}

/// Whether dependencies are installed in a new work tree.
#[derive(Debug, Clone, Copy, PartialEq, Eq, Structural)]
pub enum InstallMode {
    Run,
    Skip,
}

/// Where a pull request is checked out, as it was asked for.
#[derive(Debug, PartialEq, Eq)]
pub enum Destination {
    /// In the current work tree.
    Worktree,
    /// In a new one of the given name.
    NewWorktree { name: String, install: InstallMode },
}

/// Where a pull request is checked out.
#[derive(Debug, PartialEq, Eq)]
pub enum Target {
    /// In the current work tree.
    Current,
    /// In a new one at the given path.
    NewWorktree { path: String, install: InstallMode },
}

impl Destination {
    /// Where a pull request is checked out, `path` being where a new work tree goes.
    pub fn target(&self, path: &str) -> (target: Target)
        ensures
            match *self {
                Destination::Worktree => target is Current,
                Destination::NewWorktree { name: _, install } => target matches Target::NewWorktree {
                    path: at,
                    install: mode,
                } && at@ == path@ && mode == install,
            },
    {
        match self {
            Destination::Worktree => Target::Current,
            Destination::NewWorktree { name: _, install } => Target::NewWorktree {
                path: owned(path),
                install: *install,
            },
        }
    }
}

/// A call of `gh`, and the new work tree that is set up after it, where there is one.
#[derive(Debug, PartialEq, Eq)]
pub struct GhRun {
    pub args: Vec<String>,
    pub created: Option<(String, InstallMode)>,
}

/// Whether a call checks a pull request out where it was asked for.
pub open spec fn checks_out(run: GhRun, number: nat, target: Target) -> bool {
    match target {
        Target::Current => {
            &&& texts(run.args@) == seq!["pr"@, "checkout"@, decimal(number)]
            &&& run.created is None
        },
        Target::NewWorktree { path, install } => {
            &&& texts(run.args@) == seq!["pr"@, "checkout"@, decimal(number), "--worktree"@, path@]
            &&& run.created matches Some((at, mode))
            &&& at@ == path@
            &&& mode == install
        },
    }
}

/// The call that checks a pull request out.
pub fn checkout(candidate: &PrCandidate, target: &Target) -> (run: GhRun)
    ensures
        checks_out(run, candidate.number as nat, *target),
{
    let number = candidate.key();
    match target {
        Target::Current => {
            let args = owned_all(&["pr", "checkout", number.as_str()]);
            assert(texts(args@) =~= seq!["pr"@, "checkout"@, number@]);
            GhRun { args, created: None }
        },
        Target::NewWorktree { path, install } => {
            let args = owned_all(
                &["pr", "checkout", number.as_str(), "--worktree", path.as_str()],
            );
            assert(texts(args@) =~= seq!["pr"@, "checkout"@, number@, "--worktree"@, path@]);
            GhRun { args, created: Some((path.clone(), *install)) }
        },
    }
}

/// What an action comes to.
#[derive(Debug, PartialEq, Eq)]
pub enum ActionPlan {
    /// Call `gh`.
    Run(GhRun),
    /// Print a text.
    Print(String),
}

/// Whether a plan does what an action says.
pub open spec fn plans(
    plan: ActionPlan,
    candidate: PullRequest,
    target: Target,
    action: MenuAction,
) -> bool {
    let number = decimal(candidate.number as nat);
    match action {
        MenuAction::Checkout => plan matches ActionPlan::Run(run) && checks_out(
            run,
            candidate.number as nat,
            target,
        ),
        MenuAction::View => plan matches ActionPlan::Run(run) && texts(run.args@) == seq![
            "pr"@,
            "view"@,
            number,
        ] && run.created is None,
        MenuAction::Diff => plan matches ActionPlan::Run(run) && texts(run.args@) == seq![
            "pr"@,
            "diff"@,
            number,
        ] && run.created is None,
        MenuAction::PrintNumber => plan matches ActionPlan::Print(line) && line@ == number + "\n"@,
        MenuAction::PrintUrl => plan matches ActionPlan::Print(line) && line@ == candidate.url
            + "\n"@,
    }
}

/// Plans an action on a pull request.
pub fn perform(candidate: &PrCandidate, target: &Target, action: MenuAction) -> (plan: ActionPlan)
    ensures
        plans(plan, candidate@, *target, action),
{
    let number = candidate.key();
    match action {
        MenuAction::Checkout => ActionPlan::Run(checkout(candidate, target)),
        MenuAction::View => {
            let args = owned_all(&["pr", "view", number.as_str()]);
            assert(texts(args@) =~= seq!["pr"@, "view"@, number@]);
            ActionPlan::Run(GhRun { args, created: None })
        },
        MenuAction::Diff => {
            let args = owned_all(&["pr", "diff", number.as_str()]);
            assert(texts(args@) =~= seq!["pr"@, "diff"@, number@]);
            ActionPlan::Run(GhRun { args, created: None })
        },
        MenuAction::PrintNumber => ActionPlan::Print(print_line(number.as_str())),
        MenuAction::PrintUrl => ActionPlan::Print(print_line(candidate.url.as_str())),
    }
}

/// Plans an action on the picked pull request. A number that was not offered is an error, so
/// that no other reaches `gh`.
pub fn run_on_selection(
    messages: Messages,
    candidates: &Vec<PrCandidate>,
    selected: &str,
    target: &Target,
    action: MenuAction,
) -> (plan: Result<ActionPlan, Error>)
    ensures
        match request_keys(candidates@).index_of_first(selected@) {
            Some(i) => plan matches Ok(plan) && plans(plan, candidates@[i]@, *target, action),
            None => plan matches Err(error) && error.says(
                messages.pr().selection_not_found_text(selected@),
            ),
        },
{
    match select(messages, candidates, selected) {
        Ok(candidate) => Ok(perform(candidate, target, action)),
        Err(error) => Err(error),
    }
}

/// A line with its end.
pub fn print_line(line: &str) -> (text: String)
    ensures
        text@ == line@ + "\n"@,
{
    concat2(line, "\n")
}

/// The strip above the preview of a pull request: its number, coloured where it is a draft,
/// its author, where its changes go and its address.
pub open spec fn panel_of(messages: Messages, candidate: PullRequest) -> Panel {
    let metric = "#"@ + decimal(candidate.number as nat);
    Panel {
        metric,
        highlights: if candidate.is_draft {
            seq![
                Highlight {
                    start: 0,
                    end: byte_len(metric) as usize,
                    color: HighlightColor::Yellow,
                },
            ]
        } else {
            Seq::empty()
        },
        context: seq![
            candidate.author,
            messages.pr().branches_section_text() + ": "@ + candidate.base_ref + COLUMN_SEPARATOR@
                + "<- "@ + candidate.head_ref,
            candidate.url,
        ],
    }
}

/// Builds the strip above the preview of a pull request.
pub fn panel(messages: Messages, candidate: &PrCandidate) -> (panel: PreviewPanel)
    ensures
        panel@ == panel_of(messages, candidate@),
{
    let metric = concat2("#", candidate.key().as_str());
    let mut highlights: Vec<Highlight> = Vec::new();
    if candidate.is_draft {
        highlights.push(Highlight::new(0, byte_length(metric.as_str()), HighlightColor::Yellow));
    }
    assert(highlights@ =~= panel_of(messages, candidate@).highlights);
    let mut branches = concat5(
        messages.pr().branches_section(),
        ": ",
        candidate.base_ref.as_str(),
        COLUMN_SEPARATOR,
        "<- ",
    );
    branches.append(candidate.head_ref.as_str());
    let context = owned_all(
        &[candidate.author.as_str(), branches.as_str(), candidate.url.as_str()],
    );
    assert(texts(context@) =~= panel_of(messages, candidate@).context);
    PreviewPanel::new().with_metric(metric, highlights).with_context(context)
}

/// What is shown of a review.
pub open spec fn review_of(messages: Messages, candidate: PullRequest) -> Seq<char> {
    match candidate.review_decision {
        Some(decision) => if decision.len() == 0 {
            messages.pr().no_review_text()
        } else {
            decision
        },
        None => messages.pr().no_review_text(),
    }
}

/// Writes what is shown of a review.
pub fn review_text(messages: Messages, candidate: &PrCandidate) -> (text: String)
    ensures
        text@ == review_of(messages, candidate@),
{
    match &candidate.review_decision {
        Some(decision) => if decision.as_str().is_empty() {
            owned(messages.pr().no_review())
        } else {
            decision.clone()
        },
        None => owned(messages.pr().no_review()),
    }
}

/// What is shown of checks.
pub open spec fn checks_of(messages: Messages, candidate: PullRequest) -> Seq<char> {
    match candidate.checks {
        Some(checks) => messages.pr().checks_summary_text(
            checks.passed,
            checks.failed,
            checks.pending,
        ),
        None => Seq::empty(),
    }
}

/// Writes what is shown of checks.
pub fn checks_text(messages: Messages, candidate: &PrCandidate) -> (text: String)
    ensures
        text@ == checks_of(messages, candidate@),
{
    match candidate.checks {
        Some(checks) => messages.pr().checks_summary(
            checks.passed,
            checks.failed,
            checks.pending,
        ),
        None => String::new(),
    }
}

/// The columns of a pull request. Titles are of any length, so the title comes last.
pub open spec fn cells_of(messages: Messages, candidate: PullRequest, checks: bool) -> Seq<
    Seq<char>,
> {
    seq![
        "#"@ + decimal(candidate.number as nat),
        candidate.head_ref,
        candidate.author,
        if candidate.is_draft {
            messages.pr().draft_label_text()
        } else {
            messages.pr().draft_placeholder_text()
        },
    ] + (if checks {
        seq![review_of(messages, candidate), checks_of(messages, candidate)]
    } else {
        Seq::empty()
    }) + seq![candidate.title]
}

/// Writes the columns of a pull request.
pub fn cells(messages: Messages, candidate: &PrCandidate, checks: bool) -> (row: Vec<String>)
    ensures
        texts(row@) == cells_of(messages, candidate@, checks),
{
    let mut row: Vec<String> = Vec::new();
    row.push(concat2("#", candidate.key().as_str()));
    row.push(candidate.head_ref.clone());
    row.push(candidate.author.clone());
    if candidate.is_draft {
        row.push(owned(messages.pr().draft_label()));
    } else {
        row.push(owned(messages.pr().draft_placeholder()));
    }
    if checks {
        row.push(review_text(messages, candidate));
        row.push(checks_text(messages, candidate));
    }
    row.push(candidate.title.clone());
    assert(texts(row@) =~= cells_of(messages, candidate@, checks));
    row
}

/// A pull request in the list.
pub open spec fn candidate_of(messages: Messages, candidate: PullRequest, line: Seq<char>) -> Candidate {
    Candidate {
        panel: Some(panel_of(messages, candidate)),
        ..plain(line, decimal(candidate.number as nat), Preview::Text(candidate.body))
    }
}

/// A pull request as the list shows it. Its preview shows what was read with it.
pub fn to_item(messages: Messages, candidate: &PrCandidate, display: &str) -> (item: FinderItem)
    ensures
        item@ == candidate_of(messages, candidate@, display@),
{
    FinderItem::new(
        owned(display),
        candidate.key(),
        PreviewSource::Text(candidate.body.clone()),
    ).with_panel(panel(messages, candidate))
}

/// The lines of pull requests, in line with each other.
pub open spec fn request_lines(
    messages: Messages,
    candidates: Seq<PullRequest>,
    checks: bool,
) -> Seq<Seq<char>> {
    aligned_lines(
        candidates.map_values(|candidate: PullRequest| cells_of(messages, candidate, checks)),
    )
}

/// The list of pull requests.
pub open spec fn candidates_of(
    messages: Messages,
    candidates: Seq<PullRequest>,
    checks: bool,
) -> Seq<Candidate> {
    Seq::new(
        candidates.len(),
        |i: int|
            candidate_of(
                messages,
                candidates[i],
                request_lines(messages, candidates, checks)[i],
            ),
    )
}

/// Builds the list of pull requests. There being none is an error.
pub fn picker(messages: Messages, candidates: &Vec<PrCandidate>, checks: bool) -> (picker: Result<
    Picker,
    Error,
>)
    ensures
        match picker {
            Ok(picker) => {
                &&& candidates@.len() > 0
                &&& item_views(picker.items@) == candidates_of(
                    messages,
                    requests_of(candidates@),
                    checks,
                )
                &&& picker.options@ == headed(
                    SelectionMode::Single,
                    messages.pr().header_subject_text() + HEADER_SEPARATOR@ + DECIDE_KEY@
                        + messages.pr().header_outcome_text(),
                )
            },
            Err(error) => candidates@.len() == 0 && error.says(messages.pr().no_candidates_text()),
        },
{
    if candidates.len() == 0 {
        return Err(Error::Explained(owned(messages.pr().no_candidates())));
    }
    let ghost requests = requests_of(candidates@);
    let ghost all = candidates_of(messages, requests, checks);
    let row = |candidate: &PrCandidate| -> (row: Vec<String>)
        ensures
            texts(row@) == cells_of(messages, candidate@, checks),
        { cells(messages, candidate, checks) };
    let aligned = aligned_candidates(candidates.as_slice(), row);
    proof {
        let rows = choose|rows: Seq<Vec<String>>| #[trigger]
            aligned_by(candidates@, row, rows, aligned@);
        assert(row_texts(rows) =~= requests.map_values(
            |candidate: PullRequest| cells_of(messages, candidate, checks),
        ));
    }
    let item = |line: &(&PrCandidate, String)| -> (item: FinderItem)
        ensures
            item@ == candidate_of(messages, line.0@, line.1@),
        { to_item(messages, line.0, line.1.as_str()) };
    let items = items_of(aligned.as_slice(), item);
    assert(item_views(items@) =~= all);
    let header = selection_header(messages.pr().header_subject(), messages.pr().header_outcome());
    Ok(Picker { items, options: FinderOptions::new(SelectionMode::Single).with_header(header) })
}

/// The keys of pull requests.
pub open spec fn request_keys(candidates: Seq<PrCandidate>) -> Seq<Seq<char>> {
    candidates.map_values(|candidate: PrCandidate| decimal(candidate.number as nat))
}

/// Finds the picked pull request. A number that was not offered is an error: it cannot be
/// protected by a separator.
pub fn select<'a>(messages: Messages, candidates: &'a Vec<PrCandidate>, selected: &str) -> (found: Result<
    &'a PrCandidate,
    Error,
>)
    ensures
        match request_keys(candidates@).index_of_first(selected@) {
            Some(i) => found matches Ok(candidate) && *candidate == candidates@[i],
            None => found matches Err(error) && error.says(
                messages.pr().selection_not_found_text(selected@),
            ),
        },
{
    let mut i: usize = 0;
    while i < candidates.len()
        invariant
            i <= candidates@.len(),
            forall|k: int| 0 <= k < i ==> request_keys(candidates@)[k] != selected@,
        decreases candidates@.len() - i,
    {
        let key = candidates[i].key();
        assert(request_keys(candidates@)[i as int] == key@);
        if same_text(key.as_str(), selected) {
            proof {
                request_keys(candidates@).index_of_first_ensures(selected@);
                assert(request_keys(candidates@).contains(selected@));
            }
            return Ok(&candidates[i]);
        }
        i += 1;
    }
    proof {
        request_keys(candidates@).index_of_first_ensures(selected@);
    }
    Err(Error::Explained(messages.pr().selection_not_found(selected)))
}

/// An action in the menu of a pull request. Whatever the action, the preview shows the request.
pub open spec fn menu_candidate(messages: Messages, candidate: PullRequest, action: MenuAction) -> Candidate {
    Candidate {
        panel: Some(panel_of(messages, candidate)),
        ..plain(
            menu_display_of(messages, action),
            menu_key_of(action),
            Preview::Text(candidate.body),
        )
    }
}

/// Builds the menu of a pull request.
pub fn menu(messages: Messages, candidate: &PrCandidate) -> (picker: Picker)
    ensures
        item_views(picker.items@) == MENU_ACTIONS@.map_values(
            |action: MenuAction| menu_candidate(messages, candidate@, action),
        ),
        picker.options@ == headed(
            SelectionMode::Single,
            messages.pr().action_header_subject_text(decimal(candidate.number as nat))
                + HEADER_SEPARATOR@ + DECIDE_KEY@ + messages.pr().action_header_outcome_text(),
        ),
{
    let actions: [MenuAction; 5] = MENU_ACTIONS;
    let ghost all = actions@.map_values(
        |action: MenuAction| menu_candidate(messages, candidate@, action),
    );
    let item = |action: &MenuAction| -> (item: FinderItem)
        ensures
            item@ == menu_candidate(messages, candidate@, *action),
        {
            FinderItem::new(
                owned(menu_display(messages, *action)),
                owned(menu_key(*action)),
                PreviewSource::Text(candidate.body.clone()),
            ).with_panel(panel(messages, candidate))
        };
    let items = items_of(&actions, item);
    assert(item_views(items@) =~= all);
    let subject = messages.pr().action_header_subject(candidate.key().as_str());
    let header = selection_header(subject.as_str(), messages.pr().action_header_outcome());
    Picker { items, options: FinderOptions::new(SelectionMode::Single).with_header(header) }
}

/// Whether an action is in the menu under a key.
pub open spec fn menu_offers(key: Seq<char>) -> bool {
    exists|i: int| 0 <= i < MENU_ACTIONS@.len() && menu_key_of(#[trigger] MENU_ACTIONS@[i]) == key
}

/// Finds the action of a picked key. A key that is not in the menu is an error.
pub fn resolve_action(messages: Messages, selected: &str) -> (action: Result<MenuAction, Error>)
    ensures
        match action {
            Ok(action) => MENU_ACTIONS@.contains(action) && menu_key_of(action) == selected@,
            Err(error) => !menu_offers(selected@) && error.says(
                messages.pr().selection_not_found_text(selected@),
            ),
        },
{
    let actions: [MenuAction; 5] = MENU_ACTIONS;
    let mut i: usize = 0;
    while i < 5
        invariant
            i <= 5,
            actions == MENU_ACTIONS,
            actions@.len() == 5,
            forall|k: int| 0 <= k < i ==> menu_key_of(#[trigger] actions@[k]) != selected@,
        decreases 5 - i,
    {
        let action: MenuAction = actions[i];
        if same_text(menu_key(action), selected) {
            return Ok(action);
        }
        i += 1;
    }
    Err(Error::Explained(messages.pr().selection_not_found(selected)))
}

/// What is picked by its key is what `gh` is told: the second word that it gets is the key of
/// the action, and the third the number of the request.
pub proof fn law_the_key_is_the_command_of_gh(
    candidate: &PrCandidate,
    target: &Target,
    action: MenuAction,
    name: &'static str,
    plan: ActionPlan,
)
    requires
        call_ensures(menu_key, (action,), name),
        call_ensures(perform, (candidate, target, action), plan),
    ensures
        name@ == "checkout"@ || name@ == "view"@ || name@ == "diff"@ <==> plan is Run,
        plan matches ActionPlan::Run(run) ==> {
            &&& texts(run.args@).len() >= 3
            &&& texts(run.args@)[0] == "pr"@
            &&& texts(run.args@)[1] == name@
            &&& texts(run.args@)[2] == decimal(candidate.number as nat)
        },
        name@ == "print-number"@ ==> (plan matches ActionPlan::Print(line) && line@ == decimal(
            candidate.number as nat,
        ) + "\n"@),
        name@ == "print-url"@ ==> (plan matches ActionPlan::Print(line) && line@ == candidate.url@
            + "\n"@),
{
    reveal_strlit("checkout");
    reveal_strlit("view");
    reveal_strlit("diff");
    reveal_strlit("print-number");
    reveal_strlit("print-url");
    assert("checkout"@.len() == 8);
    assert("view"@.len() == 4 && "view"@[0] == 'v');
    assert("diff"@.len() == 4 && "diff"@[0] == 'd');
    assert("print-number"@.len() == 12);
    assert("print-url"@.len() == 9);
}

/// Where a request is checked out changes nothing but the place: a new work tree adds two words
/// behind the same three, the second of them its path, and only a checkout creates one.
pub proof fn law_a_new_work_tree_adds_its_place(
    candidate: &PrCandidate,
    path: String,
    install: InstallMode,
    action: MenuAction,
    here: ActionPlan,
    there: ActionPlan,
)
    requires
        call_ensures(perform, (candidate, &Target::Current, action), here),
        call_ensures(perform, (candidate, &Target::NewWorktree { path, install }, action), there),
    ensures
        here matches ActionPlan::Run(run) ==> run.created is None,
        action == MenuAction::Checkout ==> (here matches ActionPlan::Run(plain)
            && there matches ActionPlan::Run(beside) && {
            &&& texts(beside.args@) == texts(plain.args@) + seq!["--worktree"@, path@]
            &&& beside.created matches Some((at, mode))
            &&& at@ == path@
            &&& mode == install
        }),
        action != MenuAction::Checkout ==> (there matches ActionPlan::Run(run) ==> run.created is None),
{
    if action == MenuAction::Checkout {
        let number = decimal(candidate.number as nat);
        assert(seq!["pr"@, "checkout"@, number, "--worktree"@, path@] =~= seq![
            "pr"@,
            "checkout"@,
            number,
        ] + seq!["--worktree"@, path@]);
    }
}

/// Each field is read from the column that writes it: where a column of the listing is the
/// expression for a field, that field of the request is what stands in that column.
pub proof fn law_a_field_is_read_from_its_column(
    fields: &Vec<String>,
    checks: bool,
    candidate: PrCandidate,
    i: int,
)
    requires
        0 <= i < columns_of(checks).len(),
        fields@.len() == columns_of(checks).len(),
        call_ensures(to_candidate, (fields, checks), candidate),
    ensures
        columns_of(checks)[i] == "(.number|tostring)"@ ==> candidate.number == count_of(
            fields@[i]@,
        ),
        columns_of(checks)[i] == ".headRefName"@ ==> candidate.head_ref@ == fields@[i]@,
        columns_of(checks)[i] == ".baseRefName"@ ==> candidate.base_ref@ == fields@[i]@,
        columns_of(checks)[i] == r#"(.author.login // "-")"#@ ==> candidate.author@ == fields@[i]@,
        columns_of(checks)[i] == "(.isDraft|tostring)"@ ==> (candidate.is_draft <==> fields@[i]@
            == "true"@),
        columns_of(checks)[i] == ".url"@ ==> candidate.url@ == fields@[i]@,
        columns_of(checks)[i] == ".title"@ ==> candidate.title@ == fields@[i]@,
        columns_of(checks)[i] == ".body"@ ==> candidate.body@ == fields@[i]@,
        columns_of(checks)[i] == r#"(.reviewDecision // "")"#@ ==> string_of(
            candidate.review_decision,
        ) == Some(fields@[i]@),
        !checks ==> candidate.review_decision is None && candidate.checks is None,
        checks ==> candidate.review_decision is Some && candidate.checks is Some,
{
    reveal_strlit("(.number|tostring)");
    reveal_strlit(".headRefName");
    reveal_strlit(".baseRefName");
    reveal_strlit(r#"(.author.login // "-")"#);
    reveal_strlit("(.isDraft|tostring)");
    reveal_strlit(".url");
    reveal_strlit(".title");
    reveal_strlit(".body");
    reveal_strlit(r#"(.reviewDecision // "")"#);
    reveal_strlit("([.statusCheckRollup[]? | select(");
    reveal_strlit(")] | length | tostring)");
    let column = columns_of(checks)[i];
    assert("(.number|tostring)"@.len() == 18);
    assert(".headRefName"@.len() == 12 && ".headRefName"@[1] == 'h');
    assert(".baseRefName"@.len() == 12 && ".baseRefName"@[1] == 'b');
    assert(r#"(.author.login // "-")"#@.len() == 22);
    assert("(.isDraft|tostring)"@.len() == 19);
    assert(".url"@.len() == 4);
    assert(".title"@.len() == 6);
    assert(".body"@.len() == 5);
    assert(r#"(.reviewDecision // "")"#@.len() == 23);
    if i < 8 {
        assert(column == JQ_BASE@[i]@);
    } else if i > 8 {
        assert(column.len() >= 56);
    }
    assert(texts(fields@)[i] == fields@[i]@);
}

/// The figures of the checks are read from the columns that count them.
pub proof fn law_the_figures_of_checks_are_read_from_their_columns(
    fields: &Vec<String>,
    candidate: PrCandidate,
    i: int,
)
    requires
        0 <= i < columns_of(true).len(),
        fields@.len() == columns_of(true).len(),
        call_ensures(to_candidate, (fields, true), candidate),
    ensures
        candidate.checks matches Some(checks) && {
            &&& columns_of(true)[i] == count_column(JQ_PASSED@) ==> checks.passed == count_of(
                fields@[i]@,
            )
            &&& columns_of(true)[i] == count_column(JQ_FAILED@) ==> checks.failed == count_of(
                fields@[i]@,
            )
            &&& columns_of(true)[i] == count_column(JQ_PENDING@) ==> checks.pending == count_of(
                fields@[i]@,
            )
        },
{
    reveal_strlit("(.number|tostring)");
    reveal_strlit(".headRefName");
    reveal_strlit(".baseRefName");
    reveal_strlit(r#"(.author.login // "-")"#);
    reveal_strlit("(.isDraft|tostring)");
    reveal_strlit(".url");
    reveal_strlit(".title");
    reveal_strlit(".body");
    reveal_strlit(r#"(.reviewDecision // "")"#);
    reveal_strlit("([.statusCheckRollup[]? | select(");
    reveal_strlit(")] | length | tostring)");
    reveal_strlit(r#"(.conclusion // "") as $c | $c=="SUCCESS" or $c=="SKIPPED" or $c=="NEUTRAL" or (.state=="SUCCESS")"#);
    reveal_strlit(r#"(.conclusion // "") as $c | $c=="FAILURE" or $c=="TIMED_OUT" or $c=="CANCELLED" or $c=="ACTION_REQUIRED" or $c=="STARTUP_FAILURE" or (.state=="FAILURE") or (.state=="ERROR")"#);
    reveal_strlit(r#"((.status // "") != "COMPLETED" and (.state // "") == "") or (.state=="PENDING")"#);
    assert(JQ_PASSED@.len() == 98);
    assert(JQ_FAILED@.len() == 173);
    assert(JQ_PENDING@.len() == 80);
    let column = columns_of(true)[i];
    let passed = count_column(JQ_PASSED@);
    let failed = count_column(JQ_FAILED@);
    let pending = count_column(JQ_PENDING@);
    assert(passed.len() < failed.len() && pending.len() < passed.len() && pending.len() > 23);
    let all = texts(fields@);
    assert(all[i] == fields@[i]@);
    if i < 8 {
        assert(column == JQ_BASE@[i]@);
        assert(column.len() <= 22);
    } else if i == 8 {
        assert(column.len() == 23);
    } else if i == 9 {
        assert(column == passed);
    } else if i == 10 {
        assert(column == failed);
    } else {
        assert(column == pending);
    }
    let checks = candidate.checks.unwrap();
    assert(candidate@ == request_of(all, true));
    assert(candidate@.checks == candidate.checks);
    assert(checks.passed == count_of(all[9]));
    assert(checks.failed == count_of(all[10]));
    assert(checks.pending == count_of(all[11]));
}

/// What counts as passed, failed and pending is told by the words of GitHub for it.
pub proof fn law_checks_are_told_by_their_own_words()
    ensures
        mentions(JQ_PASSED@, "SUCCESS"@),
        mentions(JQ_FAILED@, "FAILURE"@),
        mentions(JQ_FAILED@, "ERROR"@),
        mentions(JQ_PENDING@, "PENDING"@),
{
    reveal_strlit("SUCCESS");
    reveal_strlit("FAILURE");
    reveal_strlit("ERROR");
    reveal_strlit("PENDING");
    assert(mentions(JQ_PASSED@, "SUCCESS"@)) by {
        reveal_strlit(r#"(.conclusion // "") as $c | $c=="SUCCESS" or $c=="SKIPPED" or $c=="NEUTRAL" or (.state=="SUCCESS")"#);
        lemma_mentions_at(JQ_PASSED@, "SUCCESS"@, 33);
    }
    assert(mentions(JQ_FAILED@, "FAILURE"@) && mentions(JQ_FAILED@, "ERROR"@)) by {
        reveal_strlit(r#"(.conclusion // "") as $c | $c=="FAILURE" or $c=="TIMED_OUT" or $c=="CANCELLED" or $c=="ACTION_REQUIRED" or $c=="STARTUP_FAILURE" or (.state=="FAILURE") or (.state=="ERROR")"#);
        lemma_mentions_at(JQ_FAILED@, "FAILURE"@, 33);
        lemma_mentions_at(JQ_FAILED@, "ERROR"@, 166);
    }
    assert(mentions(JQ_PENDING@, "PENDING"@)) by {
        reveal_strlit(r#"((.status // "") != "COMPLETED" and (.state // "") == "") or (.state=="PENDING")"#);
        lemma_mentions_at(JQ_PENDING@, "PENDING"@, 71);
    }
}

/// The columns of a request begin with its number and end with its title, which may be of any
/// length; a draft is marked, and the checks add two columns where they were asked for.
pub proof fn law_the_columns_of_a_request(
    messages: Messages,
    candidate: &PrCandidate,
    checks: bool,
    row: Vec<String>,
)
    requires
        call_ensures(cells, (messages, candidate, checks), row),
    ensures
        texts(row@).len() == (if checks {
            7int
        } else {
            5
        }),
        texts(row@)[0] == "#"@ + decimal(candidate.number as nat),
        texts(row@)[1] == candidate.head_ref@,
        texts(row@)[2] == candidate.author@,
        texts(row@)[3] == (if candidate.is_draft {
            messages.pr().draft_label_text()
        } else {
            messages.pr().draft_placeholder_text()
        }),
        texts(row@).last() == candidate.title@,
{
}

/// The strip above a preview colours the number of a draft, and of nothing else, and tells which
/// branch goes where.
pub proof fn law_a_draft_is_told_by_its_color(
    messages: Messages,
    candidate: &PrCandidate,
    panel: PreviewPanel,
    item: FinderItem,
    display: &str,
)
    requires
        call_ensures(self::panel, (messages, candidate), panel),
        call_ensures(to_item, (messages, candidate, display), item),
    ensures
        panel.metric@ == "#"@ + decimal(candidate.number as nat),
        panel.highlights@.len() > 0 <==> candidate.is_draft,
        texts(panel.context@)[0] == candidate.author@,
        texts(panel.context@).last() == candidate.url@,
        item.key@ == decimal(candidate.number as nat),
        item@.preview == Preview::Text(candidate.body@),
{
    assert(panel@.metric == panel.metric@);
    assert(item@.key == item.key@);
}

/// A number that was not listed is no request, and one that was is the request of that number.
pub proof fn law_the_picked_request_is_found<'a>(
    messages: Messages,
    candidates: &'a Vec<PrCandidate>,
    selected: &str,
    found: Result<&'a PrCandidate, Error>,
)
    requires
        call_ensures(select, (messages, candidates, selected), found),
    ensures
        found is Ok <==> request_keys(candidates@).contains(selected@),
        found matches Ok(candidate) ==> decimal(candidate.number as nat) == selected@,
{
    let keys = request_keys(candidates@);
    keys.index_of_first_ensures(selected@);
    if let Some(i) = keys.index_of_first(selected@) {
        assert(keys[i] == decimal(candidates@[i].number as nat));
    }
}

/// The line of an action says what the action does.
pub proof fn law_a_line_says_what_its_action_does(
    messages: Messages,
    action: MenuAction,
    line: &'static str,
)
    requires
        call_ensures(menu_display, (messages, action), line),
    ensures
        action == MenuAction::Checkout ==> line@ == messages.pr().action_checkout_text(),
        action == MenuAction::View ==> line@ == messages.pr().action_view_text(),
        action == MenuAction::Diff ==> line@ == messages.pr().action_diff_text(),
        action == MenuAction::PrintNumber ==> line@ == messages.pr().action_print_number_text(),
        action == MenuAction::PrintUrl ==> line@ == messages.pr().action_print_url_text(),
{
}

/// How a request was reviewed and how its checks fared is told as it was read.
pub proof fn law_reviews_and_checks_are_told_as_they_are(
    messages: Messages,
    candidate: &PrCandidate,
    review: String,
    checks: String,
)
    requires
        call_ensures(review_text, (messages, candidate), review),
        call_ensures(checks_text, (messages, candidate), checks),
    ensures
        candidate.review_decision is None ==> review@ == messages.pr().no_review_text(),
        candidate.review_decision matches Some(decision) ==> (decision@.len() > 0 ==> review@
            == decision@) && (decision@.len() == 0 ==> review@ == messages.pr().no_review_text()),
        candidate.checks is None ==> checks@.len() == 0,
        candidate.checks matches Some(figures) ==> checks@ == messages.pr().checks_summary_text(
            figures.passed,
            figures.failed,
            figures.pending,
        ),
{
}

/// The picked key decides what is done, and what was not offered is done nothing about.
pub proof fn law_the_picked_action_is_found(
    messages: Messages,
    selected: &str,
    action: MenuAction,
    name: &'static str,
)
    requires
        call_ensures(resolve_action, (messages, selected), Ok(action)),
        call_ensures(menu_key, (action,), name),
    ensures
        name@ == selected@,
{
}

proof fn lemma_first_malformed_is_first(records: Seq<Seq<char>>, expected: nat)
    ensures
        match first_malformed(records, expected) {
            Some(i) => {
                &&& 0 <= i < records.len()
                &&& split(records[i], '\t').len() != expected
                &&& forall|k: int| 0 <= k < i ==> split(#[trigger] records[k], '\t').len() == expected
            },
            None => forall|k: int|
                0 <= k < records.len() ==> split(#[trigger] records[k], '\t').len() == expected,
        },
    decreases records.len(),
{
    if records.len() > 0 {
        let rest = records.drop_last();
        lemma_first_malformed_is_first(rest, expected);
        match first_malformed(rest, expected) {
            Some(i) => {
                assert(rest[i] == records[i]);
                assert forall|k: int| 0 <= k < i implies split(#[trigger] records[k], '\t').len()
                    == expected by {
                    assert(rest[k] == records[k]);
                }
            },
            None => {
                assert forall|k: int| 0 <= k < rest.len() implies split(
                    #[trigger] records[k],
                    '\t',
                ).len() == expected by {
                    assert(rest[k] == records[k]);
                }
            },
        }
    }
}

/// A list is read if and only if every line of it has the fields that were asked for, and then
/// there is a request for each; the first line that has others is the one that is told.
pub proof fn law_a_list_is_read_whole_or_not_at_all(
    text: &str,
    checks: bool,
    result: Result<Vec<PrCandidate>, Error>,
)
    requires
        call_ensures(parse_text, (text, checks), result),
    ensures
        ({
            let records = records_of(text@);
            let expected: nat = if checks {
                12
            } else {
                8
            };
            &&& result is Ok <==> forall|k: int|
                0 <= k < records.len() ==> split(#[trigger] records[k], '\t').len() == expected
            &&& result matches Ok(candidates) ==> candidates@.len() == records.len()
            &&& result matches Err(error) ==> exists|i: int|
                {
                    &&& 0 <= i < records.len()
                    &&& error == (Error::GhOutputMalformed {
                        expected: expected as usize,
                        found: split(#[trigger] records[i], '\t').len() as usize,
                    })
                    &&& forall|k: int|
                        0 <= k < i ==> split(#[trigger] records[k], '\t').len() == expected
                }
        }),
{
    let records = records_of(text@);
    lemma_first_malformed_is_first(records, expected_fields(checks) as nat);
    match first_malformed(records, expected_fields(checks) as nat) {
        Some(i) => {
            assert(split(records[i], '\t').len() != expected_fields(checks));
        },
        None => {
            assert(requests_of(result->Ok_0@).len() == result->Ok_0@.len());
        },
    }
}

/// The strip above a preview says which branch the changes go to, and then which they come from.
pub proof fn law_changes_go_from_head_to_base(
    messages: Messages,
    candidate: &PrCandidate,
    panel: PreviewPanel,
)
    requires
        call_ensures(self::panel, (messages, candidate), panel),
    ensures
        panel.context@.len() == 3,
        texts(panel.context@)[1] == messages.pr().branches_section_text() + ": "@
            + candidate.base_ref@ + "  "@ + "<- "@ + candidate.head_ref@,
        panel.highlights@.len() > 0 ==> panel.highlights@[0].color == HighlightColor::Yellow,
{
    assert(panel@.context == texts(panel.context@));
    assert(texts(panel.context@).len() == panel.context@.len());
}

/// A new work tree lies where it was asked for, and is set up as it was asked for.
pub proof fn law_a_work_tree_lies_where_it_was_asked_for(
    destination: &Destination,
    path: &str,
    target: Target,
)
    requires
        call_ensures(Destination::target, (destination, path), target),
    ensures
        destination is Worktree <==> target is Current,
        destination matches Destination::NewWorktree { install, .. } ==> (
        target matches Target::NewWorktree { path: at, install: mode } && at@ == path@ && mode
            == install),
{
}

/// The menu offers every action, each under its key and in one order for all requests.
pub proof fn law_the_menu_offers_every_action(
    messages: Messages,
    candidate: &PrCandidate,
    picker: Picker,
    action: MenuAction,
)
    requires
        call_ensures(menu, (messages, candidate), picker),
    ensures
        MENU_ACTIONS@.contains(action),
        picker.items@.len() == 5,
        picker.options.mode == SelectionMode::Single,
        forall|i: int|
            0 <= i < 5 ==> (#[trigger] picker.items@[i]).key@ == menu_key_of(MENU_ACTIONS@[i]),
{
    assert(MENU_ACTIONS@[0] == MenuAction::Checkout);
    assert(MENU_ACTIONS@[1] == MenuAction::View);
    assert(MENU_ACTIONS@[2] == MenuAction::Diff);
    assert(MENU_ACTIONS@[3] == MenuAction::PrintNumber);
    assert(MENU_ACTIONS@[4] == MenuAction::PrintUrl);
    assert(item_views(picker.items@).len() == picker.items@.len());
    assert forall|i: int| 0 <= i < 5 implies (#[trigger] picker.items@[i]).key@ == menu_key_of(
        MENU_ACTIONS@[i],
    ) by {
        assert(item_views(picker.items@)[i] == picker.items@[i]@);
    }
}

} // verus!
