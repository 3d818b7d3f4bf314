use boxscores::errors::ValidationError;
use boxscores::fields::SortField;
use boxscores::fixed::Fixed;
use boxscores::sort::SortExpression;
use boxscores::stmt::BindValue;

#[test]
fn field_compiles_to_column_name() {
    let e = SortExpression::Field(SortField::Pts);
    let (text, binds) = e.as_sql().unwrap();
    assert_eq!(text.as_str(), "pts");
    assert!(binds.is_empty());
}

#[test]
fn weighted_compiles_to_placeholder_product() {
    let e = SortExpression::Weighted {
        field: SortField::Pts,
        weight: Fixed::from_milli(1_500),
    };
    let (text, binds) = e.as_sql().unwrap();
    assert_eq!(text.as_str(), "($1 * pts)");
    assert_eq!(binds, vec![BindValue::Num(Fixed::from_milli(1_500))]);
}

#[test]
fn sum_of_single_is_parenthesized_term() {
    let inner = SortExpression::Weighted {
        field: SortField::Pts,
        weight: Fixed::from_milli(1_500),
    };
    let (inner_text, inner_binds) = inner.as_sql().unwrap();
    let wrapped = SortExpression::Sum {
        terms: vec![SortExpression::Weighted {
            field: SortField::Pts,
            weight: Fixed::from_milli(1_500),
        }],
    };
    let (text, binds) = wrapped.as_sql().unwrap();
    assert_eq!(text, format!("({})", inner_text));
    assert_eq!(binds, inner_binds);
}

#[test]
fn sum_of_single_orders_like_term_alone() {
    // Per-row points, in thousandths.
    let rows: Vec<i64> = vec![10_000, 30_000, 20_000];
    let weight: i64 = 1_500;
    // Key of the weighted term, and of a one-term sum of it: both
    // are weight * pts.
    let mut by_term: Vec<(i64, usize)> =
        rows.iter().enumerate().map(|(i, v)| (weight * v, i)).collect();
    let mut by_sum: Vec<(i64, usize)> =
        rows.iter().enumerate().map(|(i, v)| (weight * v, i)).collect();
    by_term.sort_by(|a, b| b.0.cmp(&a.0));
    by_sum.sort_by(|a, b| b.0.cmp(&a.0));
    let order_term: Vec<usize> = by_term.iter().map(|x| x.1).collect();
    let order_sum: Vec<usize> = by_sum.iter().map(|x| x.1).collect();
    assert_eq!(order_term, order_sum);
    assert_eq!(order_term, vec![1, 2, 0]);
}

#[test]
fn nested_sum_threads_placeholders() {
    let e = SortExpression::Sum {
        terms: vec![
            SortExpression::Weighted {
                field: SortField::Ast,
                weight: Fixed::from_milli(1_500),
            },
            SortExpression::Sum {
                terms: vec![
                    SortExpression::Field(SortField::Pts),
                    SortExpression::Weighted {
                        field: SortField::Oreb,
                        weight: Fixed::from_milli(2_000),
                    },
                ],
            },
        ],
    };
    let (text, binds) = e.as_sql().unwrap();
    assert_eq!(text.as_str(), "(($1 * ast) + (pts + ($2 * oreb)))");
    assert_eq!(
        binds,
        vec![
            BindValue::Num(Fixed::from_milli(1_500)),
            BindValue::Num(Fixed::from_milli(2_000)),
        ]
    );
}

#[test]
fn empty_sum_fails_validation() {
    let e = SortExpression::Sum { terms: vec![] };
    assert_eq!(e.as_sql().unwrap_err(), ValidationError::EmptySortSum);
}

#[test]
fn nested_empty_sum_fails_validation() {
    let e = SortExpression::Sum {
        terms: vec![
            SortExpression::Field(SortField::Pts),
            SortExpression::Sum { terms: vec![] },
        ],
    };
    assert_eq!(e.as_sql().unwrap_err(), ValidationError::EmptySortSum);
}
