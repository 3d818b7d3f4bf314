use vstd::prelude::*;
use vstd::string::StringExecFns;
use crate::errors::ValidationError;
use crate::fields::{col_name, SortField};
use crate::fixed::Fixed;
use crate::stmt::{binds_view, BindV, BindValue};
use crate::text::{dec_digits, push_dec};

verus! {

/// A composable specification of what to order results by: a single
/// field, a field scaled by a weight, or the sum of sub-expressions.
#[derive(Debug, PartialEq)]
pub enum SortExpression {
    /// Sort by the named statistical column.
    Field(SortField),
    /// Sort by `weight * column(field)`.
    Weighted { field: SortField, weight: Fixed },
    /// Sort by the arithmetic sum of the terms.
    Sum { terms: Vec<SortExpression> },
}

/// The shape of a sort expression: its structure and column names,
/// with the weight values erased.
///
/// Compiled statement text is a function of the shape alone; weights
/// reach the statement only as bound parameters.
pub enum SortShape {
    Field(SortField),
    Weighted(SortField),
    Sum(Seq<SortShape>),
}

/// The shape of an expression.
pub open spec fn shape_of(e: SortExpression) -> SortShape
    decreases e,
{
    match e {
        SortExpression::Field(f) => SortShape::Field(f),
        SortExpression::Weighted { field, weight } => SortShape::Weighted(field),
        SortExpression::Sum { terms } => SortShape::Sum(shapes_of(terms@)),
    }
}

/// The shapes of a run of terms.
pub open spec fn shapes_of(ts: Seq<SortExpression>) -> Seq<SortShape>
    decreases ts,
{
    if ts.len() == 0 {
        Seq::empty()
    } else {
        seq![shape_of(ts[0])] + shapes_of(ts.drop_first())
    }
}

/// A structurally valid sort expression: no sum is empty.
pub open spec fn valid_sort(e: SortExpression) -> bool
    decreases e,
{
    match e {
        SortExpression::Field(f) => true,
        SortExpression::Weighted { field, weight } => true,
        SortExpression::Sum { terms } => terms@.len() > 0 && valid_sorts(terms@),
    }
}

/// Validity of every term in a run.
pub open spec fn valid_sorts(ts: Seq<SortExpression>) -> bool
    decreases ts,
{
    if ts.len() == 0 {
        true
    } else {
        valid_sort(ts[0]) && valid_sorts(ts.drop_first())
    }
}

/// How many parameters a compiled expression of this shape binds: one
/// per weight.
pub open spec fn shape_binds(sk: SortShape) -> int
    decreases sk,
{
    match sk {
        SortShape::Field(f) => 0,
        SortShape::Weighted(f) => 1,
        SortShape::Sum(ts) => shapes_binds(ts),
    }
}

/// Bound-parameter count over a run of shapes.
pub open spec fn shapes_binds(ts: Seq<SortShape>) -> int
    decreases ts,
{
    if ts.len() == 0 {
        0int
    } else {
        shape_binds(ts[0]) + shapes_binds(ts.drop_first())
    }
}

/// The weight values a compiled expression binds, in placeholder
/// order.
pub open spec fn weight_binds(e: SortExpression) -> Seq<BindV>
    decreases e,
{
    match e {
        SortExpression::Field(f) => Seq::empty(),
        SortExpression::Weighted { field, weight } => seq![BindV::Num(weight)],
        SortExpression::Sum { terms } => weights_binds(terms@),
    }
}

/// Weight values over a run of terms.
pub open spec fn weights_binds(ts: Seq<SortExpression>) -> Seq<BindV>
    decreases ts,
{
    if ts.len() == 0 {
        Seq::empty()
    } else {
        weight_binds(ts[0]) + weights_binds(ts.drop_first())
    }
}

/// The ordering clause text of a shape, with its first placeholder
/// numbered `next`.
pub open spec fn shape_text(sk: SortShape, next: int) -> Seq<char>
    decreases sk,
{
    match sk {
        SortShape::Field(f) => col_name(f),
        SortShape::Weighted(f) => "($"@ + dec_digits(next) + " * "@ + col_name(f) + ")"@,
        SortShape::Sum(ts) => "("@ + shapes_text(ts, next) + ")"@,
    }
}

/// The text of a run of shapes joined by ` + `, threading the
/// placeholder number through the weights of earlier terms.
pub open spec fn shapes_text(ts: Seq<SortShape>, next: int) -> Seq<char>
    decreases ts,
{
    if ts.len() == 0 {
        Seq::empty()
    } else {
        shape_text(ts[0], next) + shapes_rest(ts.drop_first(), next + shape_binds(ts[0]))
    }
}

/// The text of the terms after the first, each preceded by ` + `.
pub open spec fn shapes_rest(ts: Seq<SortShape>, next: int) -> Seq<char>
    decreases ts,
{
    if ts.len() == 0 {
        Seq::empty()
    } else {
        " + "@ + shape_text(ts[0], next) + shapes_rest(ts.drop_first(), next + shape_binds(ts[0]))
    }
}

/// The number of nodes of an expression, the measure that the
/// compiler's recursion descends on.
pub open spec fn expr_size(e: SortExpression) -> nat
    decreases e,
{
    match e {
        SortExpression::Field(f) => 1,
        SortExpression::Weighted { field, weight } => 1,
        SortExpression::Sum { terms } => 1 + exprs_size(terms@),
    }
}

/// Total node count of a run of terms.
pub open spec fn exprs_size(ts: Seq<SortExpression>) -> nat
    decreases ts,
{
    if ts.len() == 0 {
        0nat
    } else {
        expr_size(ts[0]) + exprs_size(ts.drop_first())
    }
}

/// Each term is no larger than the whole run.
pub proof fn lemma_exprs_size_index(ts: Seq<SortExpression>, i: int)
    requires
        0 <= i < ts.len(),
    ensures
        expr_size(ts[i]) <= exprs_size(ts),
    decreases ts.len(),
{
    if i > 0 {
        lemma_exprs_size_index(ts.drop_first(), i - 1);
    }
}

/// Every term of a valid run is valid.
pub proof fn lemma_valid_sorts_index(ts: Seq<SortExpression>, i: int)
    requires
        valid_sorts(ts),
        0 <= i < ts.len(),
    ensures
        valid_sort(ts[i]),
    decreases ts.len(),
{
    if i > 0 {
        lemma_valid_sorts_index(ts.drop_first(), i - 1);
    }
}

/// Shapes of a run: same length, elementwise `shape_of`.
pub proof fn lemma_shapes_of_index(ts: Seq<SortExpression>)
    ensures
        shapes_of(ts).len() == ts.len(),
        forall|i: int| 0 <= i < ts.len() ==> shapes_of(ts)[i] == shape_of(ts[i]),
    decreases ts.len(),
{
    if ts.len() > 0 {
        lemma_shapes_of_index(ts.drop_first());
        assert forall|i: int| 0 <= i < ts.len() implies shapes_of(ts)[i] == shape_of(ts[i]) by {
            if i > 0 {
                assert(shapes_of(ts)[i] == shapes_of(ts.drop_first())[i - 1]);
            }
        }
    }
}

/// A compiled expression binds exactly as many parameters as its shape
/// counts.
pub proof fn lemma_weight_binds_len(e: SortExpression)
    ensures
        weight_binds(e).len() == shape_binds(shape_of(e)),
    decreases e,
{
    match e {
        SortExpression::Sum { terms } => {
            lemma_weights_binds_len(terms@);
        },
        _ => {},
    }
}

/// Bound-parameter counts agree over a run of terms.
pub proof fn lemma_weights_binds_len(ts: Seq<SortExpression>)
    ensures
        weights_binds(ts).len() == shapes_binds(shapes_of(ts)),
    decreases ts,
{
    if ts.len() > 0 {
        lemma_weight_binds_len(ts[0]);
        lemma_weights_binds_len(ts.drop_first());
        assert(shapes_of(ts).drop_first() =~= shapes_of(ts.drop_first()));
    }
}

/// Checks that no sum within `e` is empty.
#[verifier::loop_isolation(false)]
pub fn validate(e: &SortExpression) -> (b: bool)
    ensures
        b == valid_sort(*e),
    decreases expr_size(*e),
{
    match e {
        SortExpression::Field(f) => true,
        SortExpression::Weighted { field, weight } => true,
        SortExpression::Sum { terms } => {
            if terms.len() == 0 {
                return false;
            }
            proof {
                assert(terms@.skip(0) =~= terms@);
            }
            let mut i: usize = 0;
            while i < terms.len()
                invariant
                    0 <= i <= terms@.len(),
                    valid_sorts(terms@) <==> valid_sorts(terms@.skip(i as int)),
                decreases terms@.len() - i,
            {
                proof {
                    assert(terms@.skip(i as int)[0] == terms@[i as int]);
                    assert(terms@.skip(i as int).drop_first() =~= terms@.skip(i as int + 1));
                    lemma_exprs_size_index(terms@, i as int);
                }
                if !validate(&terms[i]) {
                    return false;
                }
                i += 1;
            }
            proof {
                assert(terms@.skip(terms@.len() as int) =~= Seq::<SortExpression>::empty());
            }
            true
        },
    }
}

/// Appends the compiled ordering text of `e` to `out`, with
/// placeholders numbered from just past the values already in
/// `binds`, and appends the weight values those placeholders bind.
#[verifier::loop_isolation(false)]
pub fn push_sort(e: &SortExpression, out: &mut String, binds: &mut Vec<BindValue>)
    requires
        valid_sort(*e),
    ensures
        final(out)@ == old(out)@ + shape_text(shape_of(*e), old(binds)@.len() as int + 1),
        binds_view(final(binds)@) == binds_view(old(binds)@) + weight_binds(*e),
    decreases expr_size(*e),
{
    match e {
        SortExpression::Field(f) => {
            out.append(f.as_sql());
            proof {
                assert(binds_view(binds@) =~= binds_view(old(binds)@) + weight_binds(*e));
            }
        },
        SortExpression::Weighted { field, weight } => {
            out.append("($");
            binds.push(BindValue::Num(*weight));
            push_dec(binds.len() as u64, out);
            out.append(" * ");
            out.append(field.as_sql());
            out.append(")");
            proof {
                assert(binds_view(binds@) =~= binds_view(old(binds)@) + weight_binds(*e));
            }
        },
        SortExpression::Sum { terms } => {
            let ghost n0: int = old(binds)@.len() as int + 1;
            let ghost shapes = shapes_of(terms@);
            let ghost target = old(out)@ + shape_text(shape_of(*e), n0);
            out.append("(");
            proof {
                lemma_shapes_of_index(terms@);
                lemma_exprs_size_index(terms@, 0);
                lemma_weight_binds_len(terms@[0]);
            }
            push_sort(&terms[0], out, binds);
            proof {
                assert(shapes.drop_first() =~= shapes.skip(1));
                assert(terms@.drop_first() =~= terms@.skip(1));
                assert(binds_view(binds@).len() == binds@.len());
                assert(binds_view(old(binds)@).len() == old(binds)@.len());
                assert(binds@.len() as int == n0 - 1 + weight_binds(terms@[0]).len());
                assert(binds@.len() as int + 1 == n0 + shape_binds(shapes[0]));
                assert(shapes_text(shapes, n0) == shape_text(shapes[0], n0) + shapes_rest(
                    shapes.skip(1),
                    n0 + shape_binds(shapes[0]),
                ));
                assert(target == old(out)@ + ("("@ + shapes_text(shapes, n0) + ")"@));
                assert(out@ =~= old(out)@ + "("@ + shape_text(shapes[0], n0));
                assert(out@ + shapes_rest(shapes.skip(1), binds@.len() as int + 1) + ")"@ =~= target);
                assert(weight_binds(*e) == weight_binds(terms@[0]) + weights_binds(terms@.skip(1)));
                assert(binds_view(old(binds)@) + weight_binds(*e) =~= binds_view(binds@)
                    + weights_binds(terms@.skip(1)));
            }
            let mut i: usize = 1;
            while i < terms.len()
                invariant
                    1 <= i <= terms@.len(),
                    out@ + shapes_rest(shapes.skip(i as int), binds@.len() as int + 1) + ")"@ == target,
                    binds_view(old(binds)@) + weight_binds(*e) == binds_view(binds@)
                        + weights_binds(terms@.skip(i as int)),
                decreases terms@.len() - i,
            {
                proof {
                    assert(shapes.skip(i as int)[0] == shapes[i as int]);
                    assert(shapes.skip(i as int).drop_first() =~= shapes.skip(i as int + 1));
                    assert(terms@.skip(i as int)[0] == terms@[i as int]);
                    assert(terms@.skip(i as int).drop_first() =~= terms@.skip(i as int + 1));
                    lemma_valid_sorts_index(terms@, i as int);
                    lemma_exprs_size_index(terms@, i as int);
                    lemma_weight_binds_len(terms@[i as int]);
                }
                let ghost i0 = i as int;
                let ghost lenb0 = binds@.len() as int;
                let ghost bv0 = binds_view(binds@);
                let ghost out0 = out@;
                out.append(" + ");
                push_sort(&terms[i], out, binds);
                i += 1;
                proof {
                    assert(bv0.len() == lenb0);
                    assert(binds_view(binds@).len() == binds@.len());
                    assert(binds_view(binds@) == bv0 + weight_binds(terms@[i0]));
                    assert(binds@.len() as int == lenb0 + weight_binds(terms@[i0]).len());
                    assert(out@ =~= out0 + (" + "@ + shape_text(shapes[i0], lenb0 + 1)));
                    assert(shapes_rest(shapes.skip(i0), lenb0 + 1) == " + "@ + shape_text(
                        shapes[i0],
                        lenb0 + 1,
                    ) + shapes_rest(shapes.skip(i0 + 1), lenb0 + 1 + shape_binds(shapes[i0])));
                    assert(out@ + shapes_rest(shapes.skip(i as int), binds@.len() as int + 1) + ")"@
                        =~= target);
                    assert(weights_binds(terms@.skip(i0)) == weight_binds(terms@[i0])
                        + weights_binds(terms@.skip(i0 + 1)));
                    assert(binds_view(old(binds)@) + weight_binds(*e) =~= binds_view(binds@)
                        + weights_binds(terms@.skip(i as int)));
                }
            }
            proof {
                assert(shapes.skip(terms@.len() as int) =~= Seq::<SortShape>::empty());
                assert(terms@.skip(terms@.len() as int) =~= Seq::<SortExpression>::empty());
            }
            out.append(")");
            proof {
                assert(out@ =~= target);
                assert(binds_view(old(binds)@) + weight_binds(*e) =~= binds_view(binds@));
            }
        },
    }
}

/// The sort key of an expression over one row.
///
/// `v` gives each column's value on the row, in thousandths; the key
/// comes back in millionths, so that weighted sums stay
/// integer-exact: `Field` counts its column once, `Weighted` scales
/// it by the weight, `Sum` adds its terms.
pub open spec fn eval(e: SortExpression, v: spec_fn(SortField) -> int) -> int
    decreases e,
{
    match e {
        SortExpression::Field(f) => 1000 * v(f),
        SortExpression::Weighted { field, weight } => weight.milli * v(field),
        SortExpression::Sum { terms } => eval_sum(terms@, v),
    }
}

/// The summed key of a run of terms.
pub open spec fn eval_sum(ts: Seq<SortExpression>, v: spec_fn(SortField) -> int) -> int
    decreases ts,
{
    if ts.len() == 0 {
        0int
    } else {
        eval(ts[0], v) + eval_sum(ts.drop_first(), v)
    }
}

/// A sum of one term orders rows exactly as the term alone: same
/// sort key on every row, same bound weights, same validity, and a
/// compiled text that differs only by one pair of enclosing
/// parentheses — an ordering the store treats identically.
pub proof fn lemma_sum_of_single(
    s: SortExpression,
    e: SortExpression,
    v: spec_fn(SortField) -> int,
    n: int,
)
    requires
        s matches SortExpression::Sum { terms } && terms@ == seq![e],
    ensures
        eval(s, v) == eval(e, v),
        shape_text(shape_of(s), n) == "("@ + shape_text(shape_of(e), n) + ")"@,
        weight_binds(s) == weight_binds(e),
        valid_sort(s) <==> valid_sort(e),
{
    match s {
        SortExpression::Sum { terms } => {
            assert(terms@[0] == e);
            assert(terms@.drop_first() =~= Seq::<SortExpression>::empty());
            assert(eval_sum(Seq::<SortExpression>::empty(), v) == 0);
            assert(eval_sum(terms@, v) == eval(e, v));
            lemma_shapes_of_index(terms@);
            assert(shapes_of(terms@) =~= seq![shape_of(e)]);
            assert(shapes_of(terms@).drop_first() =~= Seq::<SortShape>::empty());
            assert(shapes_rest(Seq::<SortShape>::empty(), n + shape_binds(shape_of(e)))
                == Seq::<char>::empty());
            assert(shapes_text(shapes_of(terms@), n) =~= shape_text(shape_of(e), n));
            assert(shape_text(shape_of(s), n) == "("@ + shapes_text(shapes_of(terms@), n)
                + ")"@);
            assert(weights_binds(Seq::<SortExpression>::empty()) == Seq::<BindV>::empty());
            assert(weights_binds(terms@) =~= weight_binds(e));
            assert(valid_sorts(Seq::<SortExpression>::empty()));
            assert(valid_sorts(terms@) == (valid_sort(e) && valid_sorts(
                Seq::<SortExpression>::empty(),
            )));
        },
        _ => {
            assert(false);
        },
    }
}

/// The key of a weighted field on a row is exactly the weight times
/// the column, and for a positive weight it rises and falls with the
/// column alone: sorting by the compiled expression descending is
/// sorting by the per-row product descending.
pub proof fn lemma_weighted_order(
    f: SortField,
    w: Fixed,
    v1: spec_fn(SortField) -> int,
    v2: spec_fn(SortField) -> int,
)
    ensures
        eval(SortExpression::Weighted { field: f, weight: w }, v1) == w.milli * v1(f),
        w.milli > 0 ==> (eval(SortExpression::Weighted { field: f, weight: w }, v1) <= eval(
            SortExpression::Weighted { field: f, weight: w },
            v2,
        ) <==> v1(f) <= v2(f)),
{
    if w.milli > 0 {
        let m = w.milli as int;
        let a = v1(f);
        let b = v2(f);
        assert((m * a <= m * b) <==> (a <= b)) by (nonlinear_arith)
            requires
                m > 0,
        ;
    }
}

impl SortExpression {
    /// Compiles the expression to an ordering clause whose
    /// placeholders are numbered from `$1`, together with the weight
    /// values those placeholders bind. Fails exactly on a
    /// structurally invalid expression: one holding an empty sum.
    pub fn as_sql(&self) -> (r: Result<(String, Vec<BindValue>), ValidationError>)
        ensures
            r is Ok <==> valid_sort(*self),
            r is Ok ==> r->Ok_0.0@ == shape_text(shape_of(*self), 1),
            r is Ok ==> binds_view(r->Ok_0.1@) == weight_binds(*self),
            r is Err ==> r->Err_0 == ValidationError::EmptySortSum,
    {
        if !validate(self) {
            return Err(ValidationError::EmptySortSum);
        }
        let mut text = String::new();
        let mut binds: Vec<BindValue> = Vec::new();
        proof {
            assert(binds_view(Seq::<BindValue>::empty()) =~= Seq::<BindV>::empty());
        }
        push_sort(self, &mut text, &mut binds);
        proof {
            assert(text@ =~= shape_text(shape_of(*self), 1));
            assert(binds_view(binds@) =~= weight_binds(*self));
        }
        Ok((text, binds))
    }
}

} // verus!
