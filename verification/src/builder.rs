use vstd::prelude::*;
use vstd::string::StringExecFns;
use crate::errors::ValidationError;
use crate::fields::{col_name, SortField};
use crate::fixed::Fixed;
use crate::params::{all_unset, eff_asc, eff_limit, eff_offset, eff_sort, QueryParams};
use crate::sort::{
    lemma_weight_binds_len, push_sort, shape_binds, shape_of, shape_text, valid_sort, validate,
    weight_binds, SortExpression,
};
use crate::stmt::{binds_view, BindV, BindValue, Statement};
use crate::text::{dec_digits, push_dec};

verus! {

/// The fixed head of the count statement: a count over the source
/// relation, behind the base predicate.
pub open spec fn count_prefix() -> Seq<char> {
    "SELECT COUNT(*) FROM player_box_scores WHERE true"@
}

/// The fixed head of the data statement: the full projection over the
/// source relation, behind the base predicate.
pub open spec fn select_prefix() -> Seq<char> {
    "SELECT player_id, game_id, team_id, season, player, team, match_up, game_date, w_l, min, pts, fgm, fga, fg_percent, three_pm, three_pa, three_p_percent, ftm, fta, ft_percent, oreb, dreb, reb, ast, stl, blk, tov, pf, plus_minus, fp FROM player_box_scores WHERE true"@
}

/// One appended predicate: its head text, then its placeholder.
pub open spec fn cond_text(head: Seq<char>, next: int) -> Seq<char> {
    head + "$"@ + dec_digits(next)
}

/// The appended predicates of a statement, one placeholder each,
/// numbered from `next`.
pub open spec fn where_text(heads: Seq<Seq<char>>, next: int) -> Seq<char>
    decreases heads,
{
    if heads.len() == 0 {
        Seq::empty()
    } else {
        cond_text(heads[0], next) + where_text(heads.drop_first(), next + 1)
    }
}

/// Heads selected by the first group of threshold filters, appended
/// to `h`.
pub open spec fn heads_a(p: QueryParams, h: Seq<Seq<char>>) -> Seq<Seq<char>> {
    let h = if p.pts is Some { h.push(" AND pts >= "@) } else { h };
    let h = if p.reb is Some { h.push(" AND reb >= "@) } else { h };
    let h = if p.ast is Some { h.push(" AND ast >= "@) } else { h };
    let h = if p.stl is Some { h.push(" AND stl >= "@) } else { h };
    let h = if p.blk is Some { h.push(" AND blk >= "@) } else { h };
    let h = if p.fgm is Some { h.push(" AND fgm >= "@) } else { h };
    let h = if p.fga is Some { h.push(" AND fga >= "@) } else { h };
    h
}

/// Heads selected by the shooting-percentage and free-throw group.
pub open spec fn heads_b(p: QueryParams, h: Seq<Seq<char>>) -> Seq<Seq<char>> {
    let h = if p.fg_percent is Some { h.push(" AND fg_percent >= "@) } else { h };
    let h = if p.three_pm is Some { h.push(" AND three_pm >= "@) } else { h };
    let h = if p.three_pa is Some { h.push(" AND three_pa >= "@) } else { h };
    let h = if p.three_p_percent is Some { h.push(" AND three_p_percent >= "@) } else { h };
    let h = if p.ftm is Some { h.push(" AND ftm >= "@) } else { h };
    let h = if p.fta is Some { h.push(" AND fta >= "@) } else { h };
    let h = if p.ft_percent is Some { h.push(" AND ft_percent >= "@) } else { h };
    h
}

/// Heads selected by the remaining threshold filters.
pub open spec fn heads_c(p: QueryParams, h: Seq<Seq<char>>) -> Seq<Seq<char>> {
    let h = if p.oreb is Some { h.push(" AND oreb >= "@) } else { h };
    let h = if p.dreb is Some { h.push(" AND dreb >= "@) } else { h };
    let h = if p.tov is Some { h.push(" AND tov >= "@) } else { h };
    let h = if p.pf is Some { h.push(" AND pf >= "@) } else { h };
    let h = if p.plus_minus is Some { h.push(" AND plus_minus >= "@) } else { h };
    let h = if p.fp is Some { h.push(" AND fp >= "@) } else { h };
    let h = if p.min is Some { h.push(" AND min >= "@) } else { h };
    h
}

/// Heads selected by the meta filters.
pub open spec fn heads_d(p: QueryParams, h: Seq<Seq<char>>) -> Seq<Seq<char>> {
    let h = if p.season is Some { h.push(" AND season = "@) } else { h };
    let h = if p.player is Some { h.push(" AND player ILIKE "@) } else { h };
    let h = if p.team is Some { h.push(" AND team = "@) } else { h };
    let h = if p.player_id is Some { h.push(" AND player_id = "@) } else { h };
    let h = if p.game_id is Some { h.push(" AND game_id = "@) } else { h };
    h
}

/// The predicate heads that a parameter set selects, in the fixed
/// order the builder appends them.
///
/// Only presence is consulted: the heads, and with them the whole
/// statement text, never depend on the values supplied.
pub open spec fn filter_heads(p: QueryParams) -> Seq<Seq<char>> {
    heads_d(p, heads_c(p, heads_b(p, heads_a(p, Seq::empty()))))
}

/// Values bound by the first group of threshold filters.
pub open spec fn vals_a(p: QueryParams, b: Seq<BindV>) -> Seq<BindV> {
    let b = if p.pts is Some { b.push(BindV::Int(p.pts->0)) } else { b };
    let b = if p.reb is Some { b.push(BindV::Int(p.reb->0)) } else { b };
    let b = if p.ast is Some { b.push(BindV::Int(p.ast->0)) } else { b };
    let b = if p.stl is Some { b.push(BindV::Int(p.stl->0)) } else { b };
    let b = if p.blk is Some { b.push(BindV::Int(p.blk->0)) } else { b };
    let b = if p.fgm is Some { b.push(BindV::Int(p.fgm->0)) } else { b };
    let b = if p.fga is Some { b.push(BindV::Int(p.fga->0)) } else { b };
    b
}

/// Values bound by the shooting-percentage and free-throw group.
pub open spec fn vals_b(p: QueryParams, b: Seq<BindV>) -> Seq<BindV> {
    let b = if p.fg_percent is Some { b.push(BindV::Num(p.fg_percent->0)) } else { b };
    let b = if p.three_pm is Some { b.push(BindV::Int(p.three_pm->0)) } else { b };
    let b = if p.three_pa is Some { b.push(BindV::Int(p.three_pa->0)) } else { b };
    let b = if p.three_p_percent is Some { b.push(BindV::Num(p.three_p_percent->0)) } else { b };
    let b = if p.ftm is Some { b.push(BindV::Int(p.ftm->0)) } else { b };
    let b = if p.fta is Some { b.push(BindV::Int(p.fta->0)) } else { b };
    let b = if p.ft_percent is Some { b.push(BindV::Num(p.ft_percent->0)) } else { b };
    b
}

/// Values bound by the remaining threshold filters.
pub open spec fn vals_c(p: QueryParams, b: Seq<BindV>) -> Seq<BindV> {
    let b = if p.oreb is Some { b.push(BindV::Int(p.oreb->0)) } else { b };
    let b = if p.dreb is Some { b.push(BindV::Int(p.dreb->0)) } else { b };
    let b = if p.tov is Some { b.push(BindV::Int(p.tov->0)) } else { b };
    let b = if p.pf is Some { b.push(BindV::Int(p.pf->0)) } else { b };
    let b = if p.plus_minus is Some { b.push(BindV::Int(p.plus_minus->0)) } else { b };
    let b = if p.fp is Some { b.push(BindV::Num(p.fp->0)) } else { b };
    let b = if p.min is Some { b.push(BindV::Int(p.min->0)) } else { b };
    b
}

/// Values bound by the meta filters. The fuzzy player match is bound
/// wrapped in wildcard markers; every other value is bound verbatim.
pub open spec fn vals_d(p: QueryParams, b: Seq<BindV>) -> Seq<BindV> {
    let b = if p.season is Some { b.push(BindV::Text(p.season->0@)) } else { b };
    let b = if p.player is Some { b.push(BindV::Text("%"@ + p.player->0@ + "%"@)) } else { b };
    let b = if p.team is Some { b.push(BindV::Text(p.team->0@)) } else { b };
    let b = if p.player_id is Some { b.push(BindV::Text(p.player_id->0@)) } else { b };
    let b = if p.game_id is Some { b.push(BindV::Text(p.game_id->0@)) } else { b };
    b
}

/// The values bound to the selected predicates, in the same order as
/// their heads.
pub open spec fn filter_binds(p: QueryParams) -> Seq<BindV> {
    vals_d(p, vals_c(p, vals_b(p, vals_a(p, Seq::empty()))))
}

/// The count statement's full text: the shared predicates behind the
/// count head, nothing else — no ordering, no pagination.
pub open spec fn count_statement_text(p: QueryParams) -> Seq<char> {
    count_prefix() + where_text(filter_heads(p), 1)
}

/// The data statement's full text: the same predicates behind the
/// projection head, then the compiled ordering clause, direction, and
/// a bound limit and offset.
pub open spec fn data_statement_text(p: QueryParams) -> Seq<char> {
    let nf = filter_heads(p).len() as int;
    let nb = shape_binds(shape_of(eff_sort(p)));
    select_prefix() + where_text(filter_heads(p), 1) + " ORDER BY "@ + shape_text(
        shape_of(eff_sort(p)),
        nf + 1,
    ) + (if eff_asc(p) {
        " ASC"@
    } else {
        " DESC"@
    }) + " LIMIT $"@ + dec_digits(nf + nb + 1) + " OFFSET $"@ + dec_digits(nf + nb + 2)
}

/// The data statement's bound values: the filter values, then the
/// sort weights, then the effective limit and offset.
pub open spec fn data_statement_binds(p: QueryParams) -> Seq<BindV> {
    filter_binds(p) + weight_binds(eff_sort(p)) + seq![
        BindV::Big(eff_limit(p)),
        BindV::Big(eff_offset(p)),
    ]
}

/// The parameter sets the builder accepts.
pub open spec fn build_accepts(p: QueryParams) -> bool {
    valid_sort(eff_sort(p)) && eff_limit(p) >= 0 && eff_offset(p) >= 0
}

/// The error reported for a rejected parameter set.
pub open spec fn build_rejection(p: QueryParams) -> ValidationError {
    if !valid_sort(eff_sort(p)) {
        ValidationError::EmptySortSum
    } else if eff_limit(p) < 0 {
        ValidationError::NegativeLimit
    } else {
        ValidationError::NegativeOffset
    }
}

/// Appending one predicate extends the rendered text at the end, with
/// the placeholder numbered past the earlier predicates.
proof fn lemma_where_snoc(heads: Seq<Seq<char>>, h: Seq<char>, next: int)
    ensures
        where_text(heads.push(h), next) == where_text(heads, next) + cond_text(
            h,
            next + heads.len(),
        ),
    decreases heads.len(),
{
    if heads.len() == 0 {
        assert(heads.push(h)[0] == h);
        assert(heads.push(h).drop_first() =~= Seq::<Seq<char>>::empty());
        assert(where_text(Seq::<Seq<char>>::empty(), next + 1) =~= Seq::<char>::empty());
        assert(where_text(heads.push(h), next) == cond_text(h, next) + where_text(
            Seq::<Seq<char>>::empty(),
            next + 1,
        ));
        assert(where_text(heads.push(h), next) =~= where_text(heads, next) + cond_text(h, next));
    } else {
        lemma_where_snoc(heads.drop_first(), h, next + 1);
        assert(heads.push(h)[0] == heads[0]);
        assert(heads.push(h).drop_first() =~= heads.drop_first().push(h));
        assert(where_text(heads.push(h), next) == cond_text(heads[0], next) + (where_text(
            heads.drop_first(),
            next + 1,
        ) + cond_text(h, next + 1 + heads.drop_first().len())));
        assert(where_text(heads.push(h), next) =~= where_text(heads, next) + cond_text(
            h,
            next + heads.len(),
        ));
    }
}

/// The predicate list built so far: its heads and its bound values.
pub struct BuildTrace {
    pub heads: Seq<Seq<char>>,
    pub vals: Seq<BindV>,
}

/// The relation between a partially built statement and its trace.
pub open spec fn trace_ok(g: BuildTrace, w: Seq<char>, binds: Seq<BindValue>) -> bool {
    &&& w == where_text(g.heads, 1)
    &&& binds_view(binds) == g.vals
    &&& g.heads.len() == g.vals.len()
}

/// Appends `<head>$n` and binds the supplied value, when present.
fn step_i32(
    opt: &Option<i32>,
    head: &str,
    w: &mut String,
    binds: &mut Vec<BindValue>,
    Ghost(g): Ghost<BuildTrace>,
) -> (g2: Ghost<BuildTrace>)
    requires
        trace_ok(g, old(w)@, old(binds)@),
    ensures
        trace_ok(g2@, final(w)@, final(binds)@),
        g2@.heads == (if (*opt) is Some {
            g.heads.push(head@)
        } else {
            g.heads
        }),
        g2@.vals == (if (*opt) is Some {
            g.vals.push(BindV::Int((*opt)->0))
        } else {
            g.vals
        }),
{
    if let Some(v) = opt {
        w.append(head);
        w.append("$");
        binds.push(BindValue::Int(*v));
        push_dec(binds.len() as u64, w);
        proof {
            lemma_where_snoc(g.heads, head@, 1);
            assert(binds_view(binds@) =~= g.vals.push(BindV::Int((*opt)->0)));
            assert(binds_view(binds@).len() == binds@.len());
            assert(w@ =~= where_text(g.heads.push(head@), 1));
        }
        Ghost(BuildTrace { heads: g.heads.push(head@), vals: g.vals.push(BindV::Int(*v)) })
    } else {
        Ghost(g)
    }
}

/// Appends `<head>$n` and binds the supplied decimal, when present.
fn step_fixed(
    opt: &Option<Fixed>,
    head: &str,
    w: &mut String,
    binds: &mut Vec<BindValue>,
    Ghost(g): Ghost<BuildTrace>,
) -> (g2: Ghost<BuildTrace>)
    requires
        trace_ok(g, old(w)@, old(binds)@),
    ensures
        trace_ok(g2@, final(w)@, final(binds)@),
        g2@.heads == (if (*opt) is Some {
            g.heads.push(head@)
        } else {
            g.heads
        }),
        g2@.vals == (if (*opt) is Some {
            g.vals.push(BindV::Num((*opt)->0))
        } else {
            g.vals
        }),
{
    if let Some(v) = opt {
        w.append(head);
        w.append("$");
        binds.push(BindValue::Num(*v));
        push_dec(binds.len() as u64, w);
        proof {
            lemma_where_snoc(g.heads, head@, 1);
            assert(binds_view(binds@) =~= g.vals.push(BindV::Num((*opt)->0)));
            assert(binds_view(binds@).len() == binds@.len());
            assert(w@ =~= where_text(g.heads.push(head@), 1));
        }
        Ghost(BuildTrace { heads: g.heads.push(head@), vals: g.vals.push(BindV::Num(*v)) })
    } else {
        Ghost(g)
    }
}

/// Appends `<head>$n` and binds the supplied text verbatim, when
/// present.
fn step_eq(
    opt: &Option<String>,
    head: &str,
    w: &mut String,
    binds: &mut Vec<BindValue>,
    Ghost(g): Ghost<BuildTrace>,
) -> (g2: Ghost<BuildTrace>)
    requires
        trace_ok(g, old(w)@, old(binds)@),
    ensures
        trace_ok(g2@, final(w)@, final(binds)@),
        g2@.heads == (if (*opt) is Some {
            g.heads.push(head@)
        } else {
            g.heads
        }),
        g2@.vals == (if (*opt) is Some {
            g.vals.push(BindV::Text((*opt)->0@))
        } else {
            g.vals
        }),
{
    if let Some(v) = opt {
        w.append(head);
        w.append("$");
        binds.push(BindValue::Text(v.clone()));
        push_dec(binds.len() as u64, w);
        proof {
            lemma_where_snoc(g.heads, head@, 1);
            assert(binds_view(binds@) =~= g.vals.push(BindV::Text((*opt)->0@)));
            assert(binds_view(binds@).len() == binds@.len());
            assert(w@ =~= where_text(g.heads.push(head@), 1));
        }
        Ghost(BuildTrace { heads: g.heads.push(head@), vals: g.vals.push(BindV::Text(v@)) })
    } else {
        Ghost(g)
    }
}

/// Appends `<head>$n` and binds the supplied text wrapped in wildcard
/// markers, when present: the bound value is `%value%`, for a
/// case-insensitive substring match.
fn step_like(
    opt: &Option<String>,
    head: &str,
    w: &mut String,
    binds: &mut Vec<BindValue>,
    Ghost(g): Ghost<BuildTrace>,
) -> (g2: Ghost<BuildTrace>)
    requires
        trace_ok(g, old(w)@, old(binds)@),
    ensures
        trace_ok(g2@, final(w)@, final(binds)@),
        g2@.heads == (if (*opt) is Some {
            g.heads.push(head@)
        } else {
            g.heads
        }),
        g2@.vals == (if (*opt) is Some {
            g.vals.push(BindV::Text("%"@ + (*opt)->0@ + "%"@))
        } else {
            g.vals
        }),
{
    if let Some(v) = opt {
        w.append(head);
        w.append("$");
        let mut wrapped = String::from_str("%");
        wrapped.append(v.as_str());
        wrapped.append("%");
        binds.push(BindValue::Text(wrapped));
        push_dec(binds.len() as u64, w);
        proof {
            lemma_where_snoc(g.heads, head@, 1);
            assert(binds_view(binds@) =~= g.vals.push(BindV::Text("%"@ + (*opt)->0@ + "%"@)));
            assert(binds_view(binds@).len() == binds@.len());
            assert(w@ =~= where_text(g.heads.push(head@), 1));
        }
        Ghost(
            BuildTrace {
                heads: g.heads.push(head@),
                vals: g.vals.push(BindV::Text("%"@ + v@ + "%"@)),
            },
        )
    } else {
        Ghost(g)
    }
}

/// Copies a run of bound values.
fn clone_binds(v: &Vec<BindValue>) -> (r: Vec<BindValue>)
    ensures
        binds_view(r@) == binds_view(v@),
{
    let mut r: Vec<BindValue> = Vec::new();
    let mut i: usize = 0;
    while i < v.len()
        invariant
            0 <= i <= v@.len(),
            r@.len() == i,
            forall|j: int| 0 <= j < i ==> r@[j]@ == v@[j]@,
        decreases v@.len() - i,
    {
        let b = match &v[i] {
            BindValue::Int(x) => BindValue::Int(*x),
            BindValue::Big(x) => BindValue::Big(*x),
            BindValue::Num(x) => BindValue::Num(*x),
            BindValue::Text(s) => BindValue::Text(s.clone()),
        };
        r.push(b);
        i += 1;
    }
    proof {
        assert(binds_view(r@) =~= binds_view(v@));
    }
    r
}

/// Renders the first group of threshold filters.
fn where_a(
    p: &QueryParams,
    w: &mut String,
    binds: &mut Vec<BindValue>,
    Ghost(g): Ghost<BuildTrace>,
) -> (g2: Ghost<BuildTrace>)
    requires
        trace_ok(g, old(w)@, old(binds)@),
    ensures
        trace_ok(g2@, final(w)@, final(binds)@),
        g2@.heads == heads_a(*p, g.heads),
        g2@.vals == vals_a(*p, g.vals),
{
    let mut g2: Ghost<BuildTrace> = Ghost(g);
    g2 = step_i32(&p.pts, " AND pts >= ", w, binds, g2);
    g2 = step_i32(&p.reb, " AND reb >= ", w, binds, g2);
    g2 = step_i32(&p.ast, " AND ast >= ", w, binds, g2);
    g2 = step_i32(&p.stl, " AND stl >= ", w, binds, g2);
    g2 = step_i32(&p.blk, " AND blk >= ", w, binds, g2);
    g2 = step_i32(&p.fgm, " AND fgm >= ", w, binds, g2);
    g2 = step_i32(&p.fga, " AND fga >= ", w, binds, g2);
    g2
}

/// Renders the shooting-percentage and free-throw group.
fn where_b(
    p: &QueryParams,
    w: &mut String,
    binds: &mut Vec<BindValue>,
    Ghost(g): Ghost<BuildTrace>,
) -> (g2: Ghost<BuildTrace>)
    requires
        trace_ok(g, old(w)@, old(binds)@),
    ensures
        trace_ok(g2@, final(w)@, final(binds)@),
        g2@.heads == heads_b(*p, g.heads),
        g2@.vals == vals_b(*p, g.vals),
{
    let mut g2: Ghost<BuildTrace> = Ghost(g);
    g2 = step_fixed(&p.fg_percent, " AND fg_percent >= ", w, binds, g2);
    g2 = step_i32(&p.three_pm, " AND three_pm >= ", w, binds, g2);
    g2 = step_i32(&p.three_pa, " AND three_pa >= ", w, binds, g2);
    g2 = step_fixed(&p.three_p_percent, " AND three_p_percent >= ", w, binds, g2);
    g2 = step_i32(&p.ftm, " AND ftm >= ", w, binds, g2);
    g2 = step_i32(&p.fta, " AND fta >= ", w, binds, g2);
    g2 = step_fixed(&p.ft_percent, " AND ft_percent >= ", w, binds, g2);
    g2
}

/// Renders the remaining threshold filters.
fn where_c(
    p: &QueryParams,
    w: &mut String,
    binds: &mut Vec<BindValue>,
    Ghost(g): Ghost<BuildTrace>,
) -> (g2: Ghost<BuildTrace>)
    requires
        trace_ok(g, old(w)@, old(binds)@),
    ensures
        trace_ok(g2@, final(w)@, final(binds)@),
        g2@.heads == heads_c(*p, g.heads),
        g2@.vals == vals_c(*p, g.vals),
{
    let mut g2: Ghost<BuildTrace> = Ghost(g);
    g2 = step_i32(&p.oreb, " AND oreb >= ", w, binds, g2);
    g2 = step_i32(&p.dreb, " AND dreb >= ", w, binds, g2);
    g2 = step_i32(&p.tov, " AND tov >= ", w, binds, g2);
    g2 = step_i32(&p.pf, " AND pf >= ", w, binds, g2);
    g2 = step_i32(&p.plus_minus, " AND plus_minus >= ", w, binds, g2);
    g2 = step_fixed(&p.fp, " AND fp >= ", w, binds, g2);
    g2 = step_i32(&p.min, " AND min >= ", w, binds, g2);
    g2
}

/// Renders the meta filters.
fn where_d(
    p: &QueryParams,
    w: &mut String,
    binds: &mut Vec<BindValue>,
    Ghost(g): Ghost<BuildTrace>,
) -> (g2: Ghost<BuildTrace>)
    requires
        trace_ok(g, old(w)@, old(binds)@),
    ensures
        trace_ok(g2@, final(w)@, final(binds)@),
        g2@.heads == heads_d(*p, g.heads),
        g2@.vals == vals_d(*p, g.vals),
{
    let mut g2: Ghost<BuildTrace> = Ghost(g);
    g2 = step_eq(&p.season, " AND season = ", w, binds, g2);
    g2 = step_like(&p.player, " AND player ILIKE ", w, binds, g2);
    g2 = step_eq(&p.team, " AND team = ", w, binds, g2);
    g2 = step_eq(&p.player_id, " AND player_id = ", w, binds, g2);
    g2 = step_eq(&p.game_id, " AND game_id = ", w, binds, g2);
    g2
}

/// The one shared predicate-building pass: renders every present
/// filter into `w` and its value into `binds`, in the fixed field
/// order.
fn build_where(p: &QueryParams, w: &mut String, binds: &mut Vec<BindValue>)
    requires
        old(w)@.len() == 0,
        old(binds)@.len() == 0,
    ensures
        final(w)@ == where_text(filter_heads(*p), 1),
        binds_view(final(binds)@) == filter_binds(*p),
        final(binds)@.len() == filter_heads(*p).len(),
{
    let mut g: Ghost<BuildTrace> = Ghost(BuildTrace { heads: Seq::empty(), vals: Seq::empty() });
    proof {
        assert(binds_view(binds@) =~= Seq::<BindV>::empty());
        assert(old(w)@ =~= Seq::<char>::empty());
    }
    g = where_a(p, w, binds, g);
    g = where_b(p, w, binds, g);
    g = where_c(p, w, binds, g);
    g = where_d(p, w, binds, g);
    proof {
        assert(g@.heads == filter_heads(*p));
        assert(g@.vals == filter_binds(*p));
        assert(binds_view(binds@).len() == binds@.len());
    }
}

/// Builds the count statement and the data statement for a parameter
/// set, both fully parameterized from one shared predicate-building
/// pass.
///
/// Succeeds on every parameter set whose sort expression holds no
/// empty sum and whose effective limit and offset are nonnegative;
/// missing fields never make it fail. No caller-supplied value is
/// ever placed into statement text: the text is a function of which
/// fields are present and of the sort expression's shape alone.
#[verifier::rlimit(100)]
pub fn build(p: &QueryParams) -> (r: Result<(Statement, Statement), ValidationError>)
    ensures
        r is Ok <==> build_accepts(*p),
        r is Ok ==> r->Ok_0.0.text@ == count_statement_text(*p),
        r is Ok ==> binds_view(r->Ok_0.0.binds@) == filter_binds(*p),
        r is Ok ==> r->Ok_0.1.text@ == data_statement_text(*p),
        r is Ok ==> binds_view(r->Ok_0.1.binds@) == data_statement_binds(*p),
        r is Err ==> r->Err_0 == build_rejection(*p),
{
    let default_sort = SortExpression::Field(SortField::GameDate);
    let sort_expr = match &p.sort.sort_by {
        Some(e) => e,
        None => &default_sort,
    };
    if !validate(sort_expr) {
        return Err(ValidationError::EmptySortSum);
    }
    let limit = match p.limit {
        Some(v) => v,
        None => 50,
    };
    if limit < 0 {
        return Err(ValidationError::NegativeLimit);
    }
    let offset = match p.offset {
        Some(v) => v,
        None => 0,
    };
    if offset < 0 {
        return Err(ValidationError::NegativeOffset);
    }
    let mut w = String::new();
    let mut binds: Vec<BindValue> = Vec::new();
    build_where(p, &mut w, &mut binds);
    let mut count_text = String::from_str("SELECT COUNT(*) FROM player_box_scores WHERE true");
    count_text.append(w.as_str());
    let count_binds = clone_binds(&binds);
    let mut data_text = String::from_str(
        "SELECT player_id, game_id, team_id, season, player, team, match_up, game_date, w_l, min, pts, fgm, fga, fg_percent, three_pm, three_pa, three_p_percent, ftm, fta, ft_percent, oreb, dreb, reb, ast, stl, blk, tov, pf, plus_minus, fp FROM player_box_scores WHERE true",
    );
    data_text.append(w.as_str());
    data_text.append(" ORDER BY ");
    proof {
        lemma_weight_binds_len(eff_sort(*p));
        assert(binds_view(binds@).len() == binds@.len());
    }
    push_sort(sort_expr, &mut data_text, &mut binds);
    let asc = match p.sort.asc {
        Some(b) => b,
        None => false,
    };
    if asc {
        data_text.append(" ASC");
    } else {
        data_text.append(" DESC");
    }
    data_text.append(" LIMIT $");
    binds.push(BindValue::Big(limit));
    push_dec(binds.len() as u64, &mut data_text);
    data_text.append(" OFFSET $");
    binds.push(BindValue::Big(offset));
    push_dec(binds.len() as u64, &mut data_text);
    proof {
        assert(count_text@ =~= count_statement_text(*p));
        assert(data_text@ =~= data_statement_text(*p));
        assert(binds_view(binds@) =~= data_statement_binds(*p));
    }
    Ok(
        (
            Statement { text: count_text, binds: count_binds },
            Statement { text: data_text, binds },
        ),
    )
}

/// With no field set at all, the built statements ask for every row,
/// ordered by `game_date` descending, with limit 50 and offset 0
/// bound: the count statement is the bare count, and the data
/// statement carries no predicate and binds only the two defaults.
pub proof fn lemma_default_statements(p: QueryParams)
    requires
        all_unset(p),
    ensures
        count_statement_text(p) == count_prefix(),
        filter_binds(p) == Seq::<BindV>::empty(),
        data_statement_text(p) == select_prefix() + " ORDER BY game_date DESC LIMIT $1 OFFSET $2"@,
        data_statement_binds(p) == seq![BindV::Big(50), BindV::Big(0)],
{
    assert(filter_heads(p) =~= Seq::<Seq<char>>::empty());
    assert(where_text(Seq::<Seq<char>>::empty(), 1) == Seq::<char>::empty());
    assert(count_statement_text(p) =~= count_prefix());
    assert(filter_binds(p) =~= Seq::<BindV>::empty());
    assert(eff_sort(p) == SortExpression::Field(SortField::GameDate));
    assert(shape_text(shape_of(eff_sort(p)), 1) == col_name(SortField::GameDate));
    reveal_strlit("game_date");
    reveal_strlit(" ORDER BY ");
    reveal_strlit(" DESC");
    reveal_strlit(" LIMIT $");
    reveal_strlit(" OFFSET $");
    reveal_strlit("$");
    reveal_strlit(" ORDER BY game_date DESC LIMIT $1 OFFSET $2");
    assert(dec_digits(1) == seq![crate::text::digit_char(1)]);
    assert(dec_digits(2) == seq![crate::text::digit_char(2)]);
    assert(data_statement_text(p) =~= select_prefix()
        + " ORDER BY game_date DESC LIMIT $1 OFFSET $2"@);
    assert(weight_binds(eff_sort(p)) == Seq::<BindV>::empty());
    assert(data_statement_binds(p) =~= seq![BindV::Big(50), BindV::Big(0)]);
}

/// The same shape: the same fields present, the same sort structure
/// (weights erased), the same direction.
pub open spec fn same_shape(p1: QueryParams, p2: QueryParams) -> bool {
    &&& (p1.pts is Some <==> p2.pts is Some)
    &&& (p1.reb is Some <==> p2.reb is Some)
    &&& (p1.ast is Some <==> p2.ast is Some)
    &&& (p1.stl is Some <==> p2.stl is Some)
    &&& (p1.blk is Some <==> p2.blk is Some)
    &&& (p1.fgm is Some <==> p2.fgm is Some)
    &&& (p1.fga is Some <==> p2.fga is Some)
    &&& (p1.fg_percent is Some <==> p2.fg_percent is Some)
    &&& (p1.three_pm is Some <==> p2.three_pm is Some)
    &&& (p1.three_pa is Some <==> p2.three_pa is Some)
    &&& (p1.three_p_percent is Some <==> p2.three_p_percent is Some)
    &&& (p1.ftm is Some <==> p2.ftm is Some)
    &&& (p1.fta is Some <==> p2.fta is Some)
    &&& (p1.ft_percent is Some <==> p2.ft_percent is Some)
    &&& (p1.oreb is Some <==> p2.oreb is Some)
    &&& (p1.dreb is Some <==> p2.dreb is Some)
    &&& (p1.tov is Some <==> p2.tov is Some)
    &&& (p1.pf is Some <==> p2.pf is Some)
    &&& (p1.plus_minus is Some <==> p2.plus_minus is Some)
    &&& (p1.fp is Some <==> p2.fp is Some)
    &&& (p1.min is Some <==> p2.min is Some)
    &&& (p1.season is Some <==> p2.season is Some)
    &&& (p1.player is Some <==> p2.player is Some)
    &&& (p1.team is Some <==> p2.team is Some)
    &&& (p1.player_id is Some <==> p2.player_id is Some)
    &&& (p1.game_id is Some <==> p2.game_id is Some)
    &&& shape_of(eff_sort(p1)) == shape_of(eff_sort(p2))
    &&& eff_asc(p1) == eff_asc(p2)
}

/// No supplied value changes the structure of a statement: two
/// parameter sets of the same shape — whatever thresholds, strings
/// (quotes, statement separators, keywords and all) or weights they
/// carry — compile to identical statement text, and differ only in
/// what the placeholders bind.
pub proof fn lemma_text_is_shape_alone(p1: QueryParams, p2: QueryParams)
    requires
        same_shape(p1, p2),
    ensures
        count_statement_text(p1) == count_statement_text(p2),
        data_statement_text(p1) == data_statement_text(p2),
{
    assert(heads_a(p1, Seq::empty()) == heads_a(p2, Seq::empty()));
    assert(heads_b(p1, heads_a(p1, Seq::empty())) == heads_b(p2, heads_a(p2, Seq::empty())));
    assert(heads_c(p1, heads_b(p1, heads_a(p1, Seq::empty()))) == heads_c(
        p2,
        heads_b(p2, heads_a(p2, Seq::empty())),
    ));
    assert(filter_heads(p1) == filter_heads(p2));
}

} // verus!
