use boxscores::builder::build;
use boxscores::errors::ValidationError;
use boxscores::fields::SortField;
use boxscores::fixed::Fixed;
use boxscores::params::QueryParams;
use boxscores::sort::SortExpression;
use boxscores::stmt::BindValue;

const SELECT_PREFIX: &str = "SELECT player_id, game_id, team_id, season, player, team, match_up, game_date, w_l, min, pts, fgm, fga, fg_percent, three_pm, three_pa, three_p_percent, ftm, fta, ft_percent, oreb, dreb, reb, ast, stl, blk, tov, pf, plus_minus, fp FROM player_box_scores WHERE true";
const COUNT_PREFIX: &str = "SELECT COUNT(*) FROM player_box_scores WHERE true";

#[test]
fn default_build_statements() {
    let p = QueryParams::empty();
    let (count, data) = build(&p).unwrap();
    assert_eq!(count.text.as_str(), COUNT_PREFIX);
    assert!(count.binds.is_empty());
    let expected = format!("{} ORDER BY game_date DESC LIMIT $1 OFFSET $2", SELECT_PREFIX);
    assert_eq!(data.text, expected);
    assert_eq!(data.binds, vec![BindValue::Big(50), BindValue::Big(0)]);
}

#[test]
fn filters_render_in_fixed_order() {
    let mut p = QueryParams::empty();
    p.pts = Some(30);
    p.player = Some(String::from("Curry"));
    p.limit = Some(5);
    let (count, data) = build(&p).unwrap();
    let expected_count = format!("{} AND pts >= $1 AND player ILIKE $2", COUNT_PREFIX);
    assert_eq!(count.text, expected_count);
    assert_eq!(
        count.binds,
        vec![
            BindValue::Int(30),
            BindValue::Text(String::from("%Curry%")),
        ]
    );
    let expected_data = format!(
        "{} AND pts >= $1 AND player ILIKE $2 ORDER BY game_date DESC LIMIT $3 OFFSET $4",
        SELECT_PREFIX
    );
    assert_eq!(data.text, expected_data);
    assert_eq!(
        data.binds,
        vec![
            BindValue::Int(30),
            BindValue::Text(String::from("%Curry%")),
            BindValue::Big(5),
            BindValue::Big(0),
        ]
    );
}

#[test]
fn percent_threshold_binds_decimal() {
    let mut p = QueryParams::empty();
    p.fg_percent = Some(Fixed::from_milli(45_500));
    let (count, _data) = build(&p).unwrap();
    let expected = format!("{} AND fg_percent >= $1", COUNT_PREFIX);
    assert_eq!(count.text, expected);
    assert_eq!(count.binds, vec![BindValue::Num(Fixed::from_milli(45_500))]);
}

#[test]
fn injection_text_is_inert() {
    let hostile = "O'Brien'); DROP TABLE x;--";
    let mut p1 = QueryParams::empty();
    p1.player = Some(String::from(hostile));
    let mut p2 = QueryParams::empty();
    p2.player = Some(String::from("x"));
    let (c1, d1) = build(&p1).unwrap();
    let (c2, d2) = build(&p2).unwrap();
    // Same statement text for any player value: the value never
    // reaches the text, only the bound parameter changes.
    assert_eq!(c1.text, c2.text);
    assert_eq!(d1.text, d2.text);
    assert_eq!(
        c1.binds,
        vec![BindValue::Text(format!("%{}%", hostile))]
    );
    assert!(!d1.text.contains(hostile));
    assert!(!d1.text.contains("DROP"));
}

#[test]
fn negative_limit_rejected() {
    let mut p = QueryParams::empty();
    p.limit = Some(-1);
    assert_eq!(build(&p).unwrap_err(), ValidationError::NegativeLimit);
}

#[test]
fn negative_offset_rejected() {
    let mut p = QueryParams::empty();
    p.offset = Some(-7);
    assert_eq!(build(&p).unwrap_err(), ValidationError::NegativeOffset);
}

#[test]
fn empty_sum_rejected() {
    let mut p = QueryParams::empty();
    p.sort.sort_by = Some(SortExpression::Sum { terms: vec![] });
    assert_eq!(build(&p).unwrap_err(), ValidationError::EmptySortSum);
}

#[test]
fn weighted_sort_becomes_bound_parameter() {
    let mut p = QueryParams::empty();
    p.sort.sort_by = Some(SortExpression::Weighted {
        field: SortField::Pts,
        weight: Fixed::from_milli(1_500),
    });
    let (_count, data) = build(&p).unwrap();
    let expected = format!(
        "{} ORDER BY ($1 * pts) DESC LIMIT $2 OFFSET $3",
        SELECT_PREFIX
    );
    assert_eq!(data.text, expected);
    assert_eq!(
        data.binds,
        vec![
            BindValue::Num(Fixed::from_milli(1_500)),
            BindValue::Big(50),
            BindValue::Big(0),
        ]
    );
}

#[test]
fn sum_sort_renders_terms_ascending() {
    let mut p = QueryParams::empty();
    p.pts = Some(10);
    p.sort.sort_by = Some(SortExpression::Sum {
        terms: vec![
            SortExpression::Field(SortField::Pts),
            SortExpression::Weighted {
                field: SortField::Reb,
                weight: Fixed::from_milli(2_000),
            },
        ],
    });
    p.sort.asc = Some(true);
    let (_count, data) = build(&p).unwrap();
    let expected = format!(
        "{} AND pts >= $1 ORDER BY (pts + ($2 * reb)) ASC LIMIT $3 OFFSET $4",
        SELECT_PREFIX
    );
    assert_eq!(data.text, expected);
    assert_eq!(
        data.binds,
        vec![
            BindValue::Int(10),
            BindValue::Num(Fixed::from_milli(2_000)),
            BindValue::Big(50),
            BindValue::Big(0),
        ]
    );
}

#[test]
fn count_statement_never_paginates() {
    let mut p = QueryParams::empty();
    p.pts = Some(30);
    p.limit = Some(1);
    p.offset = Some(99);
    let (count, data) = build(&p).unwrap();
    assert!(!count.text.contains("LIMIT"));
    assert!(!count.text.contains("OFFSET"));
    assert!(!count.text.contains("ORDER BY"));
    assert_eq!(count.binds, vec![BindValue::Int(30)]);
    assert_eq!(
        data.binds,
        vec![BindValue::Int(30), BindValue::Big(1), BindValue::Big(99)]
    );
}
