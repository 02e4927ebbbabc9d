use fuzgit::commands::pr::{
    cells, list_args, menu_display, menu_key, panel, parse, print_line, to_item, Checks, MenuAction,
    PrCandidate, MENU_ACTIONS,
};
use fuzgit::finder::PreviewSource;
use fuzgit::i18n::{Language, Messages};

fn line(fields: &[&str]) -> String {
    fields.join("\t")
}

fn base_fields() -> Vec<&'static str> {
    vec![
        "12",
        "feature/login",
        "main",
        "octocat",
        "false",
        "https://github.com/o/r/pull/12",
        "Add login",
        "body text",
    ]
}

#[test]
fn the_default_run_does_not_ask_for_the_expensive_fields() {
    let args = list_args(false);
    let joined = args.join(" ");

    assert!(
        !joined.contains("reviewDecision"),
        "既定では reviewDecision を取得しない（+1.45 秒）: {joined}"
    );
    assert!(
        !joined.contains("statusCheckRollup"),
        "既定では statusCheckRollup を取得しない（+2.7 秒）: {joined}"
    );
    assert!(
        joined.contains("body"),
        "本文は候補取得に相乗りさせる（プレビューをローカルに閉じるため）: {joined}"
    );
}

#[test]
fn the_checks_run_adds_the_expensive_fields() {
    let joined = list_args(true).join(" ");

    assert!(joined.contains("reviewDecision"));
    assert!(joined.contains("statusCheckRollup"));
}

#[test]
fn the_arguments_stay_a_single_list_call() {
    let args = list_args(false);

    assert_eq!(&args[0..2], ["pr", "list"]);
    assert!(
        args.iter().any(|arg| arg == "--jq"),
        "パースは jq の @tsv に委ね、JSON クレートを足さない"
    );
}

#[test]
fn a_base_line_becomes_a_candidate() {
    let stdout = line(&base_fields());
    let candidates = parse(stdout.as_bytes(), false).expect("8 フィールドの行はパースできる");

    assert_eq!(candidates.len(), 1);
    let candidate = &candidates[0];
    assert_eq!(candidate.number, 12);
    assert_eq!(candidate.head_ref, "feature/login");
    assert_eq!(candidate.base_ref, "main");
    assert_eq!(candidate.author, "octocat");
    assert!(!candidate.is_draft);
    assert_eq!(candidate.title, "Add login");
    assert_eq!(candidate.body, "body text");
    assert_eq!(candidate.review_decision, None);
    assert_eq!(candidate.checks, None);
}

#[test]
fn a_body_with_newlines_and_tabs_survives_the_round_trip() {
    let mut fields = base_fields();
    fields[7] = r"first\nsecond\twith tab";
    let stdout = line(&fields);

    let candidates = parse(stdout.as_bytes(), false).expect("退避された本文もパースできる");

    assert_eq!(candidates[0].body, "first\nsecond\twith tab");
}

#[test]
fn several_records_are_split_on_real_newlines() {
    let mut second = base_fields();
    second[0] = "13";
    let stdout = format!("{}\n{}", line(&base_fields()), line(&second));

    let candidates = parse(stdout.as_bytes(), false).expect("複数行をパースできる");

    assert_eq!(
        candidates.iter().map(|c| c.number).collect::<Vec<_>>(),
        [12, 13]
    );
}

#[test]
fn a_checks_line_carries_the_review_and_the_counts() {
    let mut fields = base_fields();
    fields.extend(["REVIEW_REQUIRED", "7", "1", "2"]);
    let stdout = line(&fields);

    let candidates = parse(stdout.as_bytes(), true).expect("12 フィールドの行はパースできる");

    assert_eq!(
        candidates[0].review_decision.as_deref(),
        Some("REVIEW_REQUIRED")
    );
    assert_eq!(
        candidates[0].checks,
        Some(Checks {
            passed: 7,
            failed: 1,
            pending: 2
        })
    );
}

#[test]
fn a_line_with_the_wrong_field_count_stops_the_run() {
    let stdout = line(&base_fields()[0..5]);

    assert!(
        parse(stdout.as_bytes(), false).is_err(),
        "想定と違う行を黙って読み飛ばさない"
    );
}

#[test]
fn a_checks_expression_is_not_accepted_by_the_base_field_count() {
    let mut fields = base_fields();
    fields.extend(["REVIEW_REQUIRED", "7", "1", "2"]);

    assert!(parse(line(&fields).as_bytes(), false).is_err());
}

#[test]
fn an_empty_output_yields_no_candidates() {
    assert!(
        parse(b"", false)
            .expect("空の出力はエラーではない")
            .is_empty()
    );
    assert!(
        parse(b"\n", false)
            .expect("空行だけの出力も同じ")
            .is_empty()
    );
}

#[test]
fn a_draft_is_read_from_the_boolean_field() {
    let mut fields = base_fields();
    fields[4] = "true";

    let candidates = parse(line(&fields).as_bytes(), false).expect("パースできる");

    assert!(candidates[0].is_draft);
}

fn messages() -> Messages {
    Language::English.messages()
}

fn candidate(fields: &[&str], checks: bool) -> PrCandidate {
    parse(line(fields).as_bytes(), checks)
        .expect("テスト用の行はパースできること")
        .remove(0)
}

#[test]
fn the_title_is_always_the_last_column() {
    let plain = cells(messages(), &candidate(&base_fields(), false), false);
    assert_eq!(plain.last().map(String::as_str), Some("Add login"));

    let mut with_checks = base_fields();
    with_checks.extend(["APPROVED", "3", "0", "0"]);
    let checked = cells(messages(), &candidate(&with_checks, true), true);
    assert_eq!(checked.last().map(String::as_str), Some("Add login"));
}

#[test]
fn the_draft_marker_keeps_the_column_width_constant() {
    let mut draft_fields = base_fields();
    draft_fields[4] = "true";

    let draft = cells(messages(), &candidate(&draft_fields, false), false);
    let plain = cells(messages(), &candidate(&base_fields(), false), false);

    assert_eq!(draft[3].chars().count(), plain[3].chars().count());
    assert_eq!(draft[3], messages().pr().draft_label());
    assert!(plain[3].trim().is_empty());
}

#[test]
fn the_check_columns_appear_only_with_the_flag() {
    let plain = cells(messages(), &candidate(&base_fields(), false), false);

    let mut with_checks = base_fields();
    with_checks.extend(["APPROVED", "3", "1", "2"]);
    let checked = cells(messages(), &candidate(&with_checks, true), true);

    assert_eq!(
        checked.len(),
        plain.len() + 2,
        "レビューと CI の 2 列だけ増える"
    );
    assert_eq!(checked[4], "APPROVED");
    assert!(checked[5].contains('3') && checked[5].contains('1') && checked[5].contains('2'));
}

#[test]
fn a_pull_request_without_a_review_shows_a_placeholder() {
    let mut fields = base_fields();
    fields.extend(["", "0", "0", "0"]);

    let row = cells(messages(), &candidate(&fields, true), true);

    assert_eq!(row[4], messages().pr().no_review());
}

#[test]
fn the_preview_never_launches_gh() {
    let candidate = candidate(&base_fields(), false);
    let item = to_item(messages(), &candidate, "#12  feature");

    assert_eq!(
        item.preview_source(),
        &PreviewSource::Text("body text".to_owned()),
        "プレビューは取得済み本文の描画に閉じること"
    );
}

#[test]
fn the_panel_shows_where_the_pull_request_would_land() {
    let candidate = candidate(&base_fields(), false);
    let panel = panel(messages(), &candidate);
    let rendered = format!("{panel:?}");

    assert!(rendered.contains("#12"));
    assert!(rendered.contains("octocat"));
    assert!(
        rendered.contains("main"),
        "取り込み先が読めること: {rendered}"
    );
    assert!(rendered.contains("feature/login"), "取り込み元が読めること");
    assert!(rendered.contains("https://github.com/o/r/pull/12"));
}

#[test]
fn the_menu_keys_are_unique_and_independent_of_the_language() {
    let keys: Vec<&str> = MENU_ACTIONS.iter().map(|&a| menu_key(a)).collect();
    let mut sorted = keys.clone();
    sorted.sort_unstable();
    sorted.dedup();

    assert_eq!(
        sorted.len(),
        keys.len(),
        "キーが重複すると別の操作を実行し得る"
    );
    assert!(
        keys.iter().all(|key| key.is_ascii()),
        "照合キーは翻訳の対象にしない: {keys:?}"
    );
}

#[test]
fn every_menu_action_has_a_display_string_in_both_languages() {
    for language in [Language::English, Language::Japanese] {
        for &action in &MENU_ACTIONS {
            assert!(
                !menu_display(language.messages(), action).is_empty(),
                "{action:?} の表示文字列が {language:?} で空"
            );
        }
    }
}

#[test]
fn the_menu_order_does_not_depend_on_the_pull_request() {
    assert_eq!(MENU_ACTIONS[0], MenuAction::Checkout);
    assert_eq!(MENU_ACTIONS.len(), 5);
}

#[test]
fn the_fetching_notice_goes_to_the_writer_before_anything_else() {
    let written = print_line(messages().pr().fetching());

    assert_eq!(written.trim(), messages().pr().fetching());
}

#[test]
fn the_key_is_the_number_and_is_never_translated() {
    let candidates = parse(line(&base_fields()).as_bytes(), false).expect("パースできる");

    assert_eq!(candidates[0].key(), "12");
}
