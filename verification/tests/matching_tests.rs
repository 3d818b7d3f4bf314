use boxscores::coltype::{classify, ColumnKind};
use boxscores::errors::{BoxScoresError, StorageError, ValidationError};
use boxscores::fixed::Fixed;
use boxscores::matching::{contains_ci, filter_rows, matches_filters, paginate};
use boxscores::models::{assemble, BoxScore, CountResponse, QueryRequest, SqlRequest};
use boxscores::params::QueryParams;

fn row(player: &str, pts: Option<i32>, reb: Option<i32>) -> BoxScore {
    BoxScore {
        player_id: String::from("p1"),
        game_id: String::from("g1"),
        team_id: String::from("t1"),
        season: String::from("2024-25"),
        player: String::from(player),
        team: String::from("GSW"),
        match_up: String::from("GSW vs. LAL"),
        game_date: String::from("2025-01-01"),
        w_l: String::from("W"),
        min: Some(36),
        pts,
        fgm: None,
        fga: None,
        fg_percent: Some(Fixed::from_milli(45_500)),
        three_pm: None,
        three_pa: None,
        three_p_percent: None,
        ftm: None,
        fta: None,
        ft_percent: None,
        oreb: None,
        dreb: None,
        reb,
        ast: None,
        stl: None,
        blk: None,
        tov: None,
        pf: None,
        plus_minus: None,
        fp: None,
    }
}

#[test]
fn threshold_is_inclusive() {
    let mut p = QueryParams::empty();
    p.pts = Some(30);
    assert!(!matches_filters(&p, &row("A", Some(29), None)));
    assert!(matches_filters(&p, &row("B", Some(30), None)));
    assert!(matches_filters(&p, &row("C", Some(31), None)));
}

#[test]
fn unrecorded_stat_meets_no_threshold() {
    let mut p = QueryParams::empty();
    p.pts = Some(0);
    assert!(!matches_filters(&p, &row("A", None, None)));
}

#[test]
fn percent_threshold_is_exact() {
    let mut p = QueryParams::empty();
    p.fg_percent = Some(Fixed::from_milli(45_500));
    assert!(matches_filters(&p, &row("A", None, None)));
    p.fg_percent = Some(Fixed::from_milli(45_501));
    assert!(!matches_filters(&p, &row("A", None, None)));
}

#[test]
fn player_match_is_case_insensitive_substring() {
    let mut p = QueryParams::empty();
    p.player = Some(String::from("curry"));
    assert!(matches_filters(&p, &row("Stephen Curry", None, None)));
    p.player = Some(String::from("CURRY"));
    assert!(matches_filters(&p, &row("Stephen Curry", None, None)));
    p.player = Some(String::from("Durant"));
    assert!(!matches_filters(&p, &row("Stephen Curry", None, None)));
}

#[test]
fn hostile_player_value_is_a_literal_substring() {
    let mut p = QueryParams::empty();
    p.player = Some(String::from("O'Brien'); DROP TABLE x;--"));
    assert!(!matches_filters(&p, &row("Stephen Curry", None, None)));
    assert!(matches_filters(
        &p,
        &row("Pat O'Brien'); DROP TABLE x;-- Jr.", None, None)
    ));
}

#[test]
fn season_match_is_exact() {
    let mut p = QueryParams::empty();
    p.season = Some(String::from("2024-25"));
    assert!(matches_filters(&p, &row("A", None, None)));
    p.season = Some(String::from("2024"));
    assert!(!matches_filters(&p, &row("A", None, None)));
}

#[test]
fn contains_ci_finds_folded_needle() {
    assert!(contains_ci("Stephen Curry", "phen cur"));
    assert!(contains_ci("abc", ""));
    assert!(!contains_ci("ab", "abc"));
}

#[test]
fn filter_keeps_matching_rows_in_order() {
    let table = vec![
        row("A", Some(29), None),
        row("B", Some(30), None),
        row("C", Some(35), None),
        row("D", None, None),
    ];
    let mut p = QueryParams::empty();
    p.pts = Some(30);
    let kept = filter_rows(table, &p);
    let names: Vec<&str> = kept.iter().map(|r| r.player.as_str()).collect();
    assert_eq!(names, vec!["B", "C"]);
}

#[test]
fn total_is_independent_of_page() {
    let table = vec![
        row("A", Some(12), None),
        row("B", Some(30), None),
        row("C", Some(35), None),
        row("D", Some(40), None),
    ];
    let mut p = QueryParams::empty();
    p.pts = Some(30);
    let kept = filter_rows(table, &p);
    let total = kept.len();
    // A limit of 1 changes the page, never the total.
    let page = paginate(kept, 1, 0);
    assert_eq!(total, 3);
    assert_eq!(page.len(), 1);
    assert_eq!(page[0].player.as_str(), "B");
}

#[test]
fn offset_beyond_total_yields_empty_page() {
    let table = vec![row("A", Some(12), None), row("B", Some(30), None)];
    let p = QueryParams::empty();
    let kept = filter_rows(table, &p);
    let total = kept.len();
    let page = paginate(kept, 50, 10);
    assert_eq!(total, 2);
    assert!(page.is_empty());
}

#[test]
fn short_last_page_is_not_an_error() {
    let table = vec![
        row("A", Some(1), None),
        row("B", Some(2), None),
        row("C", Some(3), None),
    ];
    let p = QueryParams::empty();
    let kept = filter_rows(table, &p);
    let page = paginate(kept, 2, 2);
    assert_eq!(page.len(), 1);
    assert_eq!(page[0].player.as_str(), "C");
}

#[test]
fn assemble_carries_every_field() {
    let rows = vec![row("A", Some(10), Some(5))];
    let resp = assemble(rows, 37, 50, 10);
    assert_eq!(resp.data.len(), 1);
    assert_eq!(resp.total, 37);
    assert_eq!(resp.limit, 50);
    assert_eq!(resp.offset, 10);
}

#[test]
fn request_envelopes_carry_their_values() {
    let q = QueryRequest {
        query: String::from("top 5 games with 30+ points"),
    };
    assert_eq!(q.query, "top 5 games with 30+ points");
    let s = SqlRequest {
        query: String::from("triple doubles"),
    };
    assert_eq!(s.query, "triple doubles");
    let c = CountResponse { count: 12345 };
    assert_eq!(c.count, 12345);
}

#[test]
fn column_kinds_follow_store_type_names() {
    assert_eq!(classify("int4"), ColumnKind::Int4);
    assert_eq!(classify("int8"), ColumnKind::Int8);
    assert_eq!(classify("float4"), ColumnKind::Float);
    assert_eq!(classify("float8"), ColumnKind::Float);
    assert_eq!(classify("varchar"), ColumnKind::Text);
    assert_eq!(classify("text"), ColumnKind::Text);
    assert_eq!(classify("bool"), ColumnKind::Bool);
    assert_eq!(classify("timestamp"), ColumnKind::Timestamp);
    assert_eq!(classify("jsonb"), ColumnKind::Other);
}

#[test]
fn error_messages_are_descriptive() {
    assert_eq!(
        ValidationError::EmptySortSum.message(),
        "sort expression: empty sum"
    );
    assert_eq!(
        ValidationError::UnknownField.message(),
        "sort expression: unknown field"
    );
    assert_eq!(
        ValidationError::NegativeLimit.message(),
        "limit must not be negative"
    );
    assert_eq!(
        ValidationError::NegativeOffset.message(),
        "offset must not be negative"
    );
    let e = StorageError::Execution(String::from("connection refused"));
    assert_eq!(e.message(), "connection refused");
    let d = StorageError::Decode(String::from("column 13 was not a number"));
    assert_eq!(d.message(), "column 13 was not a number");
    let b = BoxScoresError(String::from("bad filter"));
    assert_eq!(b.0, "bad filter");
}
