use vstd::prelude::*;
use vstd::string::StrSliceExecFns;
use crate::errors::ValidationError;
use crate::fields::{field_for, SortField};
use crate::fixed::Fixed;
use crate::sort::SortExpression;
use crate::text::{lower, lower_char, lower_seq};

verus! {

/// The wire shape of a sort expression, exactly as callers send it:
/// a bare field name, a `{field, weight}` pair, or a `{terms}` list.
///
/// The variant is inferred from the shape at the boundary; decoding
/// into the tagged `SortExpression` happens here, immediately, so the
/// rest of the engine never reasons about shapes.
#[derive(Debug, PartialEq)]
pub enum SortSpec {
    /// A bare field name.
    Name(String),
    /// A field scaled by a weight.
    FieldWeight { field: String, weight: Fixed },
    /// A sum of sub-expressions.
    Terms(Vec<SortSpec>),
}

/// The number of nodes of a wire expression.
pub open spec fn spec_size(s: SortSpec) -> nat
    decreases s,
{
    match s {
        SortSpec::Name(n) => 1,
        SortSpec::FieldWeight { field, weight } => 1,
        SortSpec::Terms(ts) => 1 + spec_sizes(ts@),
    }
}

/// Total node count of a run of wire terms.
pub open spec fn spec_sizes(ts: Seq<SortSpec>) -> nat
    decreases ts,
{
    if ts.len() == 0 {
        0nat
    } else {
        spec_size(ts[0]) + spec_sizes(ts.drop_first())
    }
}

/// Each wire term is no larger than the whole run.
pub proof fn lemma_spec_sizes_index(ts: Seq<SortSpec>, i: int)
    requires
        0 <= i < ts.len(),
    ensures
        spec_size(ts[i]) <= spec_sizes(ts),
    decreases ts.len(),
{
    if i > 0 {
        lemma_spec_sizes_index(ts.drop_first(), i - 1);
    }
}

/// Whether every field name in a wire expression is in the closed
/// column set.
pub open spec fn spec_ok(s: SortSpec) -> bool
    decreases s,
{
    match s {
        SortSpec::Name(n) => field_for(n@) is Some,
        SortSpec::FieldWeight { field, weight } => field_for(field@) is Some,
        SortSpec::Terms(ts) => specs_ok(ts@),
    }
}

/// Whether every term of a run decodes.
pub open spec fn specs_ok(ts: Seq<SortSpec>) -> bool
    decreases ts,
{
    if ts.len() == 0 {
        true
    } else {
        spec_ok(ts[0]) && specs_ok(ts.drop_first())
    }
}

/// A run of terms decodes exactly when each of its terms does.
pub proof fn lemma_specs_ok_iff(ts: Seq<SortSpec>)
    ensures
        specs_ok(ts) <==> (forall|i: int| 0 <= i < ts.len() ==> spec_ok(ts[i])),
    decreases ts.len(),
{
    if ts.len() > 0 {
        lemma_specs_ok_iff(ts.drop_first());
        if specs_ok(ts) {
            assert forall|i: int| 0 <= i < ts.len() implies spec_ok(ts[i]) by {
                if i > 0 {
                    assert(ts[i] == ts.drop_first()[i - 1]);
                }
            }
        }
        if forall|i: int| 0 <= i < ts.len() ==> spec_ok(ts[i]) {
            assert forall|i: int| 0 <= i < ts.drop_first().len() implies spec_ok(
                ts.drop_first()[i],
            ) by {
                assert(ts.drop_first()[i] == ts[i + 1]);
            }
        }
    }
}

/// Whether a decoded expression is the meaning of a wire expression:
/// same structure, each name resolved through the closed column set,
/// each weight carried over exactly.
pub open spec fn represents(s: SortSpec, e: SortExpression) -> bool
    decreases s,
{
    match s {
        SortSpec::Name(n) => e matches SortExpression::Field(f) && field_for(n@) == Some(f),
        SortSpec::FieldWeight { field, weight } => e matches SortExpression::Weighted {
            field: f2,
            weight: w2,
        } && field_for(field@) == Some(f2) && w2 == weight,
        SortSpec::Terms(ts) => e matches SortExpression::Sum { terms } && represents_all(
            ts@,
            terms@,
        ),
    }
}

/// Elementwise correspondence of two runs.
pub open spec fn represents_all(ts: Seq<SortSpec>, es: Seq<SortExpression>) -> bool
    decreases ts,
{
    if ts.len() == 0 {
        es.len() == 0
    } else {
        es.len() == ts.len() && represents(ts[0], es[0]) && represents_all(
            ts.drop_first(),
            es.drop_first(),
        )
    }
}

/// Correspondence of runs follows from correspondence at each index.
pub proof fn lemma_represents_all_from_index(ts: Seq<SortSpec>, es: Seq<SortExpression>)
    requires
        es.len() == ts.len(),
        forall|i: int| 0 <= i < ts.len() ==> represents(ts[i], es[i]),
    ensures
        represents_all(ts, es),
    decreases ts.len(),
{
    if ts.len() > 0 {
        assert forall|i: int| 0 <= i < ts.drop_first().len() implies represents(
            ts.drop_first()[i],
            es.drop_first()[i],
        ) by {
            assert(ts.drop_first()[i] == ts[i + 1]);
            assert(es.drop_first()[i] == es[i + 1]);
        }
        lemma_represents_all_from_index(ts.drop_first(), es.drop_first());
    }
}

/// Decodes the wire shape of a sort expression into the tagged type,
/// resolving every field name through the closed column set and
/// rejecting any name outside it.
#[verifier::loop_isolation(false)]
pub fn parse_sort(s: &SortSpec) -> (r: Result<SortExpression, ValidationError>)
    ensures
        r is Ok <==> spec_ok(*s),
        r is Ok ==> represents(*s, r->Ok_0),
        r is Err ==> r->Err_0 == ValidationError::UnknownField,
    decreases spec_size(*s),
{
    match s {
        SortSpec::Name(n) => match SortField::from_name(n.as_str()) {
            Some(f) => Ok(SortExpression::Field(f)),
            None => Err(ValidationError::UnknownField),
        },
        SortSpec::FieldWeight { field, weight } => match SortField::from_name(field.as_str()) {
            Some(f) => Ok(SortExpression::Weighted { field: f, weight: *weight }),
            None => Err(ValidationError::UnknownField),
        },
        SortSpec::Terms(ts) => {
            let mut out: Vec<SortExpression> = Vec::new();
            let mut i: usize = 0;
            while i < ts.len()
                invariant
                    0 <= i <= ts@.len(),
                    out@.len() == i,
                    forall|j: int| 0 <= j < i ==> spec_ok(ts@[j]) && represents(ts@[j], out@[j]),
                decreases ts@.len() - i,
            {
                proof {
                    lemma_spec_sizes_index(ts@, i as int);
                }
                match parse_sort(&ts[i]) {
                    Ok(e) => {
                        out.push(e);
                    },
                    Err(_) => {
                        proof {
                            lemma_specs_ok_iff(ts@);
                        }
                        return Err(ValidationError::UnknownField);
                    },
                }
                i += 1;
            }
            proof {
                lemma_specs_ok_iff(ts@);
                lemma_represents_all_from_index(ts@, out@);
            }
            Ok(SortExpression::Sum { terms: out })
        },
    }
}

/// The meaning of a boolean-like direction value, after case
/// folding: `true`, `1` and `yes` ask for ascending; `false`, `0`,
/// `no` and the empty string for descending; anything else is no
/// preference at all, not an error.
pub open spec fn asc_of(s: Seq<char>) -> Option<bool> {
    if lower_seq(s) == "true"@ || lower_seq(s) == "1"@ || lower_seq(s) == "yes"@ {
        Some(true)
    } else if lower_seq(s) == "false"@ || lower_seq(s) == "0"@ || lower_seq(s) == "no"@
        || lower_seq(s) == ""@ {
        Some(false)
    } else {
        None
    }
}

/// Whether two strings agree after case folding.
fn eq_folded(a: &str, b: &str) -> (r: bool)
    ensures
        r == (lower_seq(a@) == lower_seq(b@)),
{
    let an = a.unicode_len();
    let bn = b.unicode_len();
    if an != bn {
        proof {
            assert(lower_seq(a@).len() == a@.len());
            assert(lower_seq(b@).len() == b@.len());
        }
        return false;
    }
    let mut i: usize = 0;
    while i < an
        invariant
            0 <= i <= an,
            an == a@.len(),
            bn == b@.len(),
            an == bn,
            forall|j: int| 0 <= j < i ==> lower_char(a@[j]) == lower_char(b@[j]),
        decreases an - i,
    {
        if lower(a.get_char(i)) != lower(b.get_char(i)) {
            proof {
                assert(lower_seq(a@)[i as int] == lower_char(a@[i as int]));
                assert(lower_seq(b@)[i as int] == lower_char(b@[i as int]));
            }
            return false;
        }
        i += 1;
    }
    proof {
        assert(lower_seq(a@) =~= lower_seq(b@));
    }
    true
}

/// Decodes a boolean-like direction string, silently yielding no
/// preference on anything unrecognized — kept as documented
/// behaviour, not hardened into an error.
pub fn parse_asc(s: &str) -> (r: Option<bool>)
    ensures
        r == asc_of(s@),
{
    proof {
        reveal_strlit("true");
        reveal_strlit("1");
        reveal_strlit("yes");
        reveal_strlit("false");
        reveal_strlit("0");
        reveal_strlit("no");
        reveal_strlit("");
        assert(lower_seq("true"@) =~= "true"@);
        assert(lower_seq("1"@) =~= "1"@);
        assert(lower_seq("yes"@) =~= "yes"@);
        assert(lower_seq("false"@) =~= "false"@);
        assert(lower_seq("0"@) =~= "0"@);
        assert(lower_seq("no"@) =~= "no"@);
        assert(lower_seq(""@) =~= ""@);
    }
    if eq_folded(s, "true") || eq_folded(s, "1") || eq_folded(s, "yes") {
        Some(true)
    } else if eq_folded(s, "false") || eq_folded(s, "0") || eq_folded(s, "no") || eq_folded(
        s,
        "",
    ) {
        Some(false)
    } else {
        None
    }
}

} // verus!
