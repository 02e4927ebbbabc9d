use fuzgit::commands::{
    align_columns, align_measured, aligned_candidates, commit_highlights, commit_line,
    selection_header, HEADER_SEPARATOR,
};
use fuzgit::finder::{Highlight, HighlightColor};
use fuzgit::git::CommitInfo;

fn row(cells: &[&str]) -> Vec<String> {
    cells.iter().map(|cell| (*cell).to_owned()).collect()
}

#[test]
fn a_single_selection_header_states_the_subject_and_what_enter_does() {
    let header = selection_header("切り替えるブランチを選択", "切り替え");

    assert_eq!(header, "切り替えるブランチを選択  |  Enter: 切り替え");
}

#[test]
fn a_single_selection_header_stays_on_one_line() {
    let header = selection_header("Pick a stash", "drop it after a confirmation");

    assert_eq!(header.lines().count(), 1, "1 行に収める: {header}");
    assert!(
        header.contains(HEADER_SEPARATOR),
        "the sections should be separated: {header}"
    );
}

#[test]
fn a_column_is_padded_to_the_widest_value_in_the_list() {
    let lines = align_columns(&vec![
        row(&["fuzgit", "origin/main"]),
        row(&["advent-calendar", "origin/master"]),
        row(&["book-viewer", "hatohato25/main"]),
    ]);

    assert_eq!(
        lines,
        [
            "fuzgit           origin/main",
            "advent-calendar  origin/master",
            "book-viewer      hatohato25/main",
        ]
    );
}

#[test]
fn a_full_width_value_is_measured_by_how_wide_it_looks_not_by_how_many_characters_it_has() {
    let lines = align_columns(&vec![row(&["リリース", "v1.0"]), row(&["release", "v2.0"])]);

    assert_eq!(lines, ["リリース  v1.0", "release   v2.0"]);
}

#[test]
fn the_last_column_is_never_padded() {
    let lines = align_columns(&vec![row(&["a", "short"]), row(&["b", "much longer value"])]);

    for line in &lines {
        assert_eq!(line.trim_end(), line, "行末に空白を残さない: {line:?}");
    }
}

#[test]
fn a_row_that_ends_early_does_not_widen_the_column_it_ends_in() {
    let lines = align_columns(&vec![row(&["v1.0", "リリース v1.0"]), row(&["v2.0-lightweight"])]);

    assert_eq!(lines, ["v1.0  リリース v1.0", "v2.0-lightweight"]);
}

#[test]
fn a_row_with_more_columns_than_the_others_is_aligned_up_to_its_last_column() {
    let lines = align_columns(&vec![
        row(&["alpha", "origin/main"]),
        row(&["bravo", "origin, upstream", "detached HEAD"]),
        row(&["charlie", "origin", "detached HEAD"]),
    ]);

    assert_eq!(
        lines,
        [
            "alpha    origin/main",
            "bravo    origin, upstream  detached HEAD",
            "charlie  origin            detached HEAD",
        ]
    );
}

#[test]
fn a_single_candidate_is_left_as_it_is() {
    assert_eq!(
        align_columns(&vec![row(&["only", "origin/main"])]),
        ["only  origin/main"]
    );
}

#[test]
fn an_empty_list_produces_no_line() {
    assert!(align_columns(&vec![]).is_empty());
}

#[test]
fn a_candidate_without_any_column_produces_an_empty_line() {
    assert_eq!(align_columns(&vec![Vec::new()]), [""]);
}

#[test]
fn every_candidate_keeps_its_own_line() {
    let candidates = ["mike", "advent-calendar"];

    let aligned = aligned_candidates(&candidates, |name| row(&[name, "origin/main"]));

    assert_eq!(
        aligned,
        [
            (&"mike", "mike             origin/main".to_owned()),
            (
                &"advent-calendar",
                "advent-calendar  origin/main".to_owned()
            ),
        ]
    );
}

fn commit(short_id: &str, time: &str, summary: &str) -> CommitInfo {
    CommitInfo {
        id: format!("{short_id}0000000000000000000000000000000"),
        short_id: short_id.to_owned(),
        summary: summary.to_owned(),
        author: "hatohato25".to_owned(),
        time: time.to_owned(),
    }
}

#[test]
fn a_commit_line_puts_the_hash_and_the_date_first() {
    assert_eq!(
        commit_line(&commit("1f0c9a4", "2026-08-20", "add the notify feature")),
        "1f0c9a4 2026-08-20 add the notify feature (hatohato25)"
    );
}

#[test]
fn the_hash_is_yellow_and_the_date_is_green() {
    let highlights = commit_highlights(&commit("1f0c9a4", "2026-08-20", "add the feature"));

    assert_eq!(
        highlights,
        [
            Highlight::new(0, 7, HighlightColor::Yellow),
            Highlight::new(8, 18, HighlightColor::Green),
        ]
    );
}

fn ranges_of(line: &str) -> (usize, usize, usize) {
    let hash_end = line.find(' ').expect("the hash is followed by a separator");
    let time_start = hash_end + 1;
    let time_end = time_start
        + line[time_start..]
            .find(' ')
            .expect("the date is followed by a separator");

    (hash_end, time_start, time_end)
}

#[test]
fn the_coloured_ranges_match_the_line_they_describe() {
    let commit = commit("9bde988", "2026-08-07", "fuzgit 基盤と P1 フェーズ実装");
    let (hash_end, time_start, time_end) = ranges_of(&commit_line(&commit));

    assert_eq!(
        commit_highlights(&commit),
        [
            Highlight::new(0, hash_end, HighlightColor::Yellow),
            Highlight::new(time_start, time_end, HighlightColor::Green),
        ]
    );
}

#[test]
fn a_shorter_hash_moves_the_date_range_with_it() {
    let commit = commit("1f0c9", "2026-08-20", "add the feature");
    let (hash_end, time_start, time_end) = ranges_of(&commit_line(&commit));

    assert_eq!(hash_end, 5, "the hash column follows the short id");
    assert_eq!(
        commit_highlights(&commit),
        [
            Highlight::new(0, hash_end, HighlightColor::Yellow),
            Highlight::new(time_start, time_end, HighlightColor::Green),
        ]
    );
}

#[test]
fn rows_are_filled_up_by_the_widths_that_are_given() {
    let rows = vec![row(&["ab", "x"]), row(&["c", "y", "z"]), row(&["long"])];
    let widths = vec![vec![5, 1], vec![2, 3, 1], vec![9]];

    assert_eq!(
        align_measured(&rows, &widths),
        ["ab  x", "c     y  z", "long"]
    );
}
