use boxscores::errors::ValidationError;
use boxscores::fields::SortField;
use boxscores::fixed::Fixed;
use boxscores::parse::{parse_asc, parse_sort, SortSpec};
use boxscores::sort::SortExpression;
use boxscores::stmt::BindValue;

#[test]
fn bare_name_decodes_to_field() {
    let s = SortSpec::Name(String::from("reb"));
    assert_eq!(
        parse_sort(&s).unwrap(),
        SortExpression::Field(SortField::Reb)
    );
}

#[test]
fn field_weight_decodes_to_weighted() {
    let s = SortSpec::FieldWeight {
        field: String::from("pts"),
        weight: Fixed::from_milli(1_500),
    };
    assert_eq!(
        parse_sort(&s).unwrap(),
        SortExpression::Weighted {
            field: SortField::Pts,
            weight: Fixed::from_milli(1_500),
        }
    );
}

#[test]
fn terms_decode_to_sum() {
    let s = SortSpec::Terms(vec![
        SortSpec::Name(String::from("pts")),
        SortSpec::FieldWeight {
            field: String::from("reb"),
            weight: Fixed::from_milli(2_000),
        },
    ]);
    assert_eq!(
        parse_sort(&s).unwrap(),
        SortExpression::Sum {
            terms: vec![
                SortExpression::Field(SortField::Pts),
                SortExpression::Weighted {
                    field: SortField::Reb,
                    weight: Fixed::from_milli(2_000),
                },
            ],
        }
    );
}

#[test]
fn unknown_name_is_rejected() {
    let s = SortSpec::Name(String::from("points; DROP TABLE x"));
    assert_eq!(parse_sort(&s).unwrap_err(), ValidationError::UnknownField);
}

#[test]
fn unknown_name_inside_terms_is_rejected() {
    let s = SortSpec::Terms(vec![
        SortSpec::Name(String::from("pts")),
        SortSpec::Name(String::from("salary")),
    ]);
    assert_eq!(parse_sort(&s).unwrap_err(), ValidationError::UnknownField);
}

#[test]
fn names_are_case_sensitive() {
    let s = SortSpec::Name(String::from("PTS"));
    assert_eq!(parse_sort(&s).unwrap_err(), ValidationError::UnknownField);
}

#[test]
fn weighted_round_trip_orders_by_product() {
    // Encode 1.5 * pts as the wire shape, decode it, compile it, and
    // check the ordering it asks for equals sorting by 1.5 * pts
    // computed per row.
    let s = SortSpec::FieldWeight {
        field: String::from("pts"),
        weight: Fixed::from_milli(1_500),
    };
    let e = parse_sort(&s).unwrap();
    let (text, binds) = e.as_sql().unwrap();
    assert_eq!(text.as_str(), "($1 * pts)");
    assert_eq!(binds, vec![BindValue::Num(Fixed::from_milli(1_500))]);
    let pts: Vec<i32> = vec![12, 40, 25, 33];
    let mut by_product: Vec<(f64, usize)> = pts
        .iter()
        .enumerate()
        .map(|(i, v)| (1.5 * (*v as f64), i))
        .collect();
    by_product.sort_by(|a, b| b.0.partial_cmp(&a.0).unwrap());
    let manual: Vec<usize> = by_product.iter().map(|x| x.1).collect();
    // The compiled key is the bound weight times the column, in
    // exact thousandths: order by it descending.
    let mut by_key: Vec<(i64, usize)> = pts
        .iter()
        .enumerate()
        .map(|(i, v)| (1_500i64 * (*v as i64), i))
        .collect();
    by_key.sort_by(|a, b| b.0.cmp(&a.0));
    let compiled: Vec<usize> = by_key.iter().map(|x| x.1).collect();
    assert_eq!(compiled, manual);
    assert_eq!(compiled, vec![1, 3, 2, 0]);
}

#[test]
fn asc_accepts_boolean_like_values() {
    assert_eq!(parse_asc("true"), Some(true));
    assert_eq!(parse_asc("1"), Some(true));
    assert_eq!(parse_asc("yes"), Some(true));
    assert_eq!(parse_asc("TRUE"), Some(true));
    assert_eq!(parse_asc("Yes"), Some(true));
    assert_eq!(parse_asc("false"), Some(false));
    assert_eq!(parse_asc("0"), Some(false));
    assert_eq!(parse_asc("no"), Some(false));
    assert_eq!(parse_asc("NO"), Some(false));
    assert_eq!(parse_asc(""), Some(false));
}

#[test]
fn asc_maps_unrecognized_to_no_preference() {
    assert_eq!(parse_asc("maybe"), None);
    assert_eq!(parse_asc("2"), None);
    assert_eq!(parse_asc("truthy"), None);
}
