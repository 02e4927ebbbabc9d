use fuzgit::color::{fetch_range, switch_range, OutputKind, OutputStream, Painter};
use fuzgit::finder::{HighlightColor, ANSI_RESET};

const NEW_BRANCH: &[u8] = b" * [new branch]      newone     -> origin/newone\n";
const NEW_TAG: &[u8] = b" * [new tag]         t-new      -> t-new\n";
const DELETED: &[u8] = b" - [deleted]         (none)     -> origin/deleted\n";
const FAST_FORWARD: &[u8] = b"   ac909ca..00e1336  ff         -> origin/ff\n";
const FORCED: &[u8] = b" + b5df0a5...d152852 forced     -> origin/forced  (forced update)\n";
const REJECTED: &[u8] = b" ! [rejected] t-new      -> t-new  (would clobber existing tag)\n";
const UP_TO_DATE: &[u8] = b" = [up to date]      main       -> origin/main\n";
const HEADER: &[u8] = b"From github.com:cyg-dev-base/cyloc\n";

fn painted_part(painted: &[u8]) -> String {
    let escape = painted
        .iter()
        .position(|byte| *byte == b'\x1b')
        .expect("a colour must be applied");
    let body = &painted[escape..];
    let open = body
        .iter()
        .position(|byte| *byte == b'm')
        .expect("the colour opens")
        + 1;
    let close = open
        + body[open..]
            .iter()
            .position(|byte| *byte == b'\x1b')
            .expect("the colour closes");

    String::from_utf8(body[open..close].to_vec()).expect("the status code is ASCII")
}

#[test]
fn the_status_code_and_its_summary_are_the_coloured_part() {
    let painted = Painter::enabled().paint_output(OutputKind::FetchTable, NEW_BRANCH);

    assert_eq!(painted_part(&painted), "* [new branch]");
}

#[test]
fn a_range_of_commit_ids_is_a_summary_as_well() {
    let painted = Painter::enabled().paint_output(OutputKind::FetchTable, FORCED);

    assert_eq!(painted_part(&painted), "+ b5df0a5...d152852");
}

#[test]
fn every_status_code_takes_the_colour_of_what_it_tells_the_user() {
    for (line, expected) in [
        (NEW_BRANCH, Some(HighlightColor::Green)),
        (NEW_TAG, Some(HighlightColor::Yellow)),
        (DELETED, Some(HighlightColor::Red)),
        (FORCED, Some(HighlightColor::Red)),
        (REJECTED, Some(HighlightColor::Red)),
        (UP_TO_DATE, Some(HighlightColor::Dim)),
        (FAST_FORWARD, None),
    ] {
        assert_eq!(
            fetch_range(line).map(|(_, _, color)| color),
            expected,
            "{line:?}"
        );
    }
}

#[test]
fn a_line_that_is_not_part_of_the_update_table_is_left_alone() {
    for line in [
        HEADER,
        b"\n".as_slice(),
        b"fatal: could not read from remote repository\n".as_slice(),
        b" * [new branch] not-a-table-line\n".as_slice(),
    ] {
        assert_eq!(fetch_range(line), None, "{line:?}");
        assert_eq!(
            Painter::enabled().paint_output(OutputKind::FetchTable, line),
            line,
            "{line:?}"
        );
    }
}

#[test]
fn a_localised_new_tag_is_still_coloured_as_a_new_reference() {
    let line = b" * [%e6%96%b0]  v1 -> v1\n";

    assert_eq!(
        fetch_range(line).map(|(_, _, color)| color),
        Some(HighlightColor::Green)
    );
}

const CARRIED_MODIFIED: &[u8] = b"M\t.gitignore\n";
const CARRIED_DELETED: &[u8] = b"D\tCLAUDE.md\n";
const CARRIED_ADDED: &[u8] = b"A\tnew.txt\n";
const SWITCHED: &[u8] = b"Switched to branch 'master'\n";
const SWITCHED_NEW: &[u8] = b"Switched to a new branch 'feature-x'\n";
const ALREADY_ON: &[u8] = b"Already on 'master'\n";
const TRACKING: &[u8] = b"Your branch is up to date with 'origin/master'.\n";
const SET_UP: &[u8] = b"branch 'feature-x' set up to track 'origin/feature-x'.\n";
const HINT: &[u8] = b"  (use \"git push\" to publish your local commits)\n";

fn painted_report(line: &[u8]) -> Vec<u8> {
    Painter::enabled().paint_output(OutputKind::SwitchReport, line)
}

#[test]
fn only_the_status_code_of_a_carried_change_is_coloured() {
    assert_eq!(painted_part(&painted_report(CARRIED_MODIFIED)), "M");
    assert_eq!(painted_part(&painted_report(CARRIED_DELETED)), "D");
}

#[test]
fn a_carried_change_takes_the_colour_of_what_happened_to_the_file() {
    for (line, expected) in [
        (CARRIED_ADDED, HighlightColor::Green),
        (CARRIED_MODIFIED, HighlightColor::Yellow),
        (CARRIED_DELETED, HighlightColor::Red),
    ] {
        assert_eq!(
            switch_range(line).map(|(_, _, color)| color),
            Some(expected),
            "{line:?}"
        );
    }
}

#[test]
fn the_outcome_is_green_and_a_no_op_is_dimmed() {
    for line in [SWITCHED, SWITCHED_NEW] {
        assert_eq!(
            switch_range(line).map(|(_, _, color)| color),
            Some(HighlightColor::Green),
            "{line:?}"
        );
    }
    assert_eq!(
        switch_range(ALREADY_ON).map(|(_, _, color)| color),
        Some(HighlightColor::Dim)
    );
}

#[test]
fn information_that_comes_with_the_result_is_dimmed() {
    for line in [TRACKING, SET_UP, HINT] {
        assert_eq!(
            switch_range(line).map(|(_, _, color)| color),
            Some(HighlightColor::Dim),
            "{line:?}"
        );
    }
}

#[test]
fn the_newline_stays_outside_the_colour() {
    let out = painted_report(SWITCHED);

    assert!(out.ends_with(b"\n"), "{out:?}");
    assert!(
        out.ends_with(&[ANSI_RESET.as_bytes(), b"\n"].concat()),
        "the reset must come before the newline: {out:?}"
    );
}

#[test]
fn a_line_that_is_not_part_of_the_report_is_left_alone() {
    for line in [
        b"HEAD is now at 1f0c9a4 subject\n".as_slice(),
        b"error: Your local changes would be overwritten\n".as_slice(),
        b"\n".as_slice(),
        b"Merge branch 'x'\n".as_slice(),
        b"  git switch -c <new-branch-name>\n".as_slice(),
    ] {
        assert_eq!(switch_range(line), None, "{line:?}");
        assert_eq!(painted_report(line), line, "{line:?}");
    }
}

#[test]
fn a_path_that_is_not_utf8_is_passed_through_untouched() {
    let mut line = b"M\t".to_vec();
    line.extend_from_slice(&[0xff, 0xfe]);
    line.push(b'\n');

    let out = painted_report(&line);

    assert!(
        out.windows(2).any(|window| window == [0xff, 0xfe]),
        "the raw bytes must survive: {out:?}"
    );
    assert_eq!(painted_part(&out), "M");
}

#[test]
fn a_localised_report_loses_the_colour_but_not_the_line() {
    let line = "ブランチ 'master' に切り替えました\n".as_bytes();

    assert_eq!(switch_range(line), None);
    assert_eq!(painted_report(line), line);
}

#[test]
fn a_disabled_painter_changes_not_a_single_byte() {
    let block = [CARRIED_MODIFIED, CARRIED_DELETED, SWITCHED, TRACKING].concat();

    assert_eq!(
        Painter::disabled().paint_output(OutputKind::SwitchReport, &block),
        block
    );
}

#[test]
fn color_a_disabled_painter_changes_not_a_single_byte() {
    let table = [NEW_BRANCH, NEW_TAG, DELETED, FORCED, HEADER].concat();

    assert_eq!(
        Painter::disabled().paint_output(OutputKind::FetchTable, &table),
        table
    );
    assert_eq!(
        Painter::disabled().paint("[1/3] alpha", HighlightColor::Cyan),
        "[1/3] alpha"
    );
}

#[test]
fn a_whole_line_is_wrapped_by_one_colour() {
    assert_eq!(
        Painter::enabled().paint("[1/3] alpha", HighlightColor::Cyan),
        format!(
            "{start}[1/3] alpha{ANSI_RESET}",
            start = HighlightColor::Cyan.to_ansi()
        )
    );
}

#[test]
fn an_empty_line_is_not_wrapped() {
    assert_eq!(Painter::enabled().paint("", HighlightColor::Cyan), "");
}

#[test]
fn every_line_of_a_block_is_examined() {
    let block = [HEADER, NEW_BRANCH, FAST_FORWARD, NEW_TAG].concat();
    let painted = Painter::enabled().paint_output(OutputKind::FetchTable, &block);
    let text = String::from_utf8(painted).expect("the sample is ASCII");

    assert_eq!(
        text.matches(ANSI_RESET).count(),
        2,
        "only the new branch and the new tag carry a colour: {text:?}"
    );
}

#[test]
fn a_progress_fragment_is_passed_through_without_being_examined() {
    let mut painted = Vec::new();
    let mut stream = OutputStream::new(OutputKind::FetchTable);

    stream.push(b"Receiving objects:  42% (42/100)\r", &mut painted);
    assert_eq!(painted, b"Receiving objects:  42% (42/100)\r");

    stream.push(b"Receiving objects: 100% (100/100), done.\n", &mut painted);
    stream.flush(&mut painted);
    assert!(
        !painted.contains(&b'\x1b'),
        "a progress line carries no status code: {painted:?}"
    );
}

#[test]
fn a_line_split_across_reads_is_coloured_once_it_is_complete() {
    let mut painted = Vec::new();
    let mut stream = OutputStream::new(OutputKind::FetchTable);

    let (head, tail) = NEW_BRANCH.split_at(10);
    stream.push(head, &mut painted);
    assert!(painted.is_empty(), "an incomplete line is held back");

    stream.push(tail, &mut painted);
    stream.flush(&mut painted);
    assert_eq!(painted_part(&painted), "* [new branch]");
}

#[test]
fn a_final_line_without_a_newline_is_not_lost() {
    let mut painted = Vec::new();
    let mut stream = OutputStream::new(OutputKind::FetchTable);

    stream.push(b"no trailing newline", &mut painted);
    stream.flush(&mut painted);

    assert_eq!(painted, b"no trailing newline");
}

#[test]
fn a_reference_name_that_is_not_utf8_is_passed_through_untouched() {
    let mut line = b" * [new branch]      ".to_vec();
    line.extend_from_slice(&[0xff, 0xfe]);
    line.extend_from_slice(b" -> origin/x\n");

    let painted = Painter::enabled().paint_output(OutputKind::FetchTable, &line);

    assert!(
        painted.windows(2).any(|window| window == [0xff, 0xfe]),
        "the raw bytes must survive: {painted:?}"
    );
    assert_eq!(painted_part(&painted), "* [new branch]");
}
