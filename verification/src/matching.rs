use vstd::prelude::*;
use vstd::string::StrSliceExecFns;
use crate::fixed::Fixed;
use crate::models::BoxScore;
use crate::params::QueryParams;
use crate::text::{lower, lower_char, lower_seq, str_eq};

verus! {

/// Whether `needle` occurs inside `hay` when both are folded to
/// lower case: the meaning of the fuzzy player match.
pub open spec fn has_ci_substring(hay: Seq<char>, needle: Seq<char>) -> bool {
    exists|k: int|
        0 <= k && k + needle.len() <= hay.len() && #[trigger] lower_seq(
            hay.subrange(k, k + needle.len()),
        ) == lower_seq(needle)
}

/// Compares one window of `hay` against `needle`, case folded.
fn window_eq(hay: &str, needle: &str, k: usize, hn: usize, nn: usize) -> (b: bool)
    requires
        hn == hay@.len(),
        nn == needle@.len(),
        k + nn <= hn,
    ensures
        b == (lower_seq(hay@.subrange(k as int, k as int + needle@.len())) == lower_seq(
            needle@,
        )),
{
    let ghost sub = hay@.subrange(k as int, k as int + nn as int);
    let mut j: usize = 0;
    while j < nn
        invariant
            0 <= j <= nn,
            hn == hay@.len(),
            nn == needle@.len(),
            k + nn <= hn,
            sub == hay@.subrange(k as int, k as int + nn as int),
            forall|j2: int| 0 <= j2 < j ==> lower_char(hay@[k + j2]) == lower_char(needle@[j2]),
        decreases nn - j,
    {
        let hc = hay.get_char(k + j);
        let nc = needle.get_char(j);
        if lower(hc) != lower(nc) {
            proof {
                assert(lower_seq(sub)[j as int] == lower_char(sub[j as int]));
                assert(sub[j as int] == hay@[k + j]);
                assert(lower_seq(needle@)[j as int] == lower_char(needle@[j as int]));
            }
            return false;
        }
        j += 1;
    }
    proof {
        assert forall|j2: int| 0 <= j2 < nn implies lower_seq(sub)[j2] == lower_seq(needle@)[j2] by {
            assert(sub[j2] == hay@[k + j2]);
        }
        assert(lower_seq(sub) =~= lower_seq(needle@));
    }
    true
}

/// Whether `needle` occurs inside `hay` ignoring case.
pub fn contains_ci(hay: &str, needle: &str) -> (b: bool)
    ensures
        b == has_ci_substring(hay@, needle@),
{
    let hn = hay.unicode_len();
    let nn = needle.unicode_len();
    if nn > hn {
        return false;
    }
    if nn == 0 {
        proof {
            assert(needle@ =~= Seq::<char>::empty());
            assert(hay@.subrange(0, 0 + needle@.len() as int) =~= Seq::<char>::empty());
            assert(lower_seq(hay@.subrange(0, 0 + needle@.len() as int)) == lower_seq(needle@));
            assert(has_ci_substring(hay@, needle@));
        }
        return true;
    }
    let mut k: usize = 0;
    while k <= hn - nn
        invariant
            1 <= nn <= hn,
            hn == hay@.len(),
            nn == needle@.len(),
            0 <= k <= hn - nn + 1,
            forall|k2: int|
                0 <= k2 < k ==> #[trigger] lower_seq(hay@.subrange(k2, k2 + nn as int))
                    != lower_seq(needle@),
        decreases hn - nn + 1 - k,
    {
        if window_eq(hay, needle, k, hn, nn) {
            assert(has_ci_substring(hay@, needle@)) by {
                assert(0 <= k as int && k as int + needle@.len() <= hay@.len() && lower_seq(
                    hay@.subrange(k as int, k as int + needle@.len()),
                ) == lower_seq(needle@));
            }
            return true;
        }
        k += 1;
    }
    false
}

/// The filter predicate over one row: every present threshold is met
/// (an unrecorded statistic meets none), every present meta filter
/// matches, and the fuzzy player filter matches as a
/// case-insensitive substring.
pub open spec fn row_matches(p: QueryParams, r: BoxScore) -> bool {
    &&& (p.pts is Some ==> r.pts is Some && r.pts->0 >= p.pts->0)
    &&& (p.reb is Some ==> r.reb is Some && r.reb->0 >= p.reb->0)
    &&& (p.ast is Some ==> r.ast is Some && r.ast->0 >= p.ast->0)
    &&& (p.stl is Some ==> r.stl is Some && r.stl->0 >= p.stl->0)
    &&& (p.blk is Some ==> r.blk is Some && r.blk->0 >= p.blk->0)
    &&& (p.fgm is Some ==> r.fgm is Some && r.fgm->0 >= p.fgm->0)
    &&& (p.fga is Some ==> r.fga is Some && r.fga->0 >= p.fga->0)
    &&& (p.fg_percent is Some ==> r.fg_percent is Some && r.fg_percent->0.milli
        >= p.fg_percent->0.milli)
    &&& (p.three_pm is Some ==> r.three_pm is Some && r.three_pm->0 >= p.three_pm->0)
    &&& (p.three_pa is Some ==> r.three_pa is Some && r.three_pa->0 >= p.three_pa->0)
    &&& (p.three_p_percent is Some ==> r.three_p_percent is Some && r.three_p_percent->0.milli
        >= p.three_p_percent->0.milli)
    &&& (p.ftm is Some ==> r.ftm is Some && r.ftm->0 >= p.ftm->0)
    &&& (p.fta is Some ==> r.fta is Some && r.fta->0 >= p.fta->0)
    &&& (p.ft_percent is Some ==> r.ft_percent is Some && r.ft_percent->0.milli
        >= p.ft_percent->0.milli)
    &&& (p.oreb is Some ==> r.oreb is Some && r.oreb->0 >= p.oreb->0)
    &&& (p.dreb is Some ==> r.dreb is Some && r.dreb->0 >= p.dreb->0)
    &&& (p.tov is Some ==> r.tov is Some && r.tov->0 >= p.tov->0)
    &&& (p.pf is Some ==> r.pf is Some && r.pf->0 >= p.pf->0)
    &&& (p.plus_minus is Some ==> r.plus_minus is Some && r.plus_minus->0 >= p.plus_minus->0)
    &&& (p.fp is Some ==> r.fp is Some && r.fp->0.milli >= p.fp->0.milli)
    &&& (p.min is Some ==> r.min is Some && r.min->0 >= p.min->0)
    &&& (p.season is Some ==> r.season@ == p.season->0@)
    &&& (p.player is Some ==> has_ci_substring(r.player@, p.player->0@))
    &&& (p.team is Some ==> r.team@ == p.team->0@)
    &&& (p.player_id is Some ==> r.player_id@ == p.player_id->0@)
    &&& (p.game_id is Some ==> r.game_id@ == p.game_id->0@)
}

/// Whether a present threshold is met by a recorded value.
fn meets_i32(req: &Option<i32>, have: &Option<i32>) -> (b: bool)
    ensures
        b == ((*req) is Some ==> (*have) is Some && (*have)->0 >= (*req)->0),
{
    match req {
        None => true,
        Some(v) => match have {
            Some(x) => *x >= *v,
            None => false,
        },
    }
}

/// Whether a present decimal threshold is met by a recorded value.
fn meets_fixed(req: &Option<Fixed>, have: &Option<Fixed>) -> (b: bool)
    ensures
        b == ((*req) is Some ==> (*have) is Some && (*have)->0.milli >= (*req)->0.milli),
{
    match req {
        None => true,
        Some(v) => match have {
            Some(x) => x.milli >= v.milli,
            None => false,
        },
    }
}

/// Whether a present exact-match filter matches a value.
fn meets_eq(req: &Option<String>, have: &String) -> (b: bool)
    ensures
        b == ((*req) is Some ==> have@ == (*req)->0@),
{
    match req {
        None => true,
        Some(s) => str_eq(have.as_str(), s.as_str()),
    }
}

/// Whether a present fuzzy filter matches a value.
fn meets_like(req: &Option<String>, have: &String) -> (b: bool)
    ensures
        b == ((*req) is Some ==> has_ci_substring(have@, (*req)->0@)),
{
    match req {
        None => true,
        Some(s) => contains_ci(have.as_str(), s.as_str()),
    }
}

/// Evaluates the filter predicate over one row: exactly the meaning
/// the built statements give the store.
#[verifier::rlimit(30)]
pub fn matches_filters(p: &QueryParams, r: &BoxScore) -> (b: bool)
    ensures
        b == row_matches(*p, *r),
{
    meets_i32(&p.pts, &r.pts) && meets_i32(&p.reb, &r.reb) && meets_i32(&p.ast, &r.ast)
        && meets_i32(&p.stl, &r.stl) && meets_i32(&p.blk, &r.blk) && meets_i32(&p.fgm, &r.fgm)
        && meets_i32(&p.fga, &r.fga) && meets_fixed(&p.fg_percent, &r.fg_percent) && meets_i32(
        &p.three_pm,
        &r.three_pm,
    ) && meets_i32(&p.three_pa, &r.three_pa) && meets_fixed(
        &p.three_p_percent,
        &r.three_p_percent,
    ) && meets_i32(&p.ftm, &r.ftm) && meets_i32(&p.fta, &r.fta) && meets_fixed(
        &p.ft_percent,
        &r.ft_percent,
    ) && meets_i32(&p.oreb, &r.oreb) && meets_i32(&p.dreb, &r.dreb) && meets_i32(&p.tov, &r.tov)
        && meets_i32(&p.pf, &r.pf) && meets_i32(&p.plus_minus, &r.plus_minus) && meets_fixed(
        &p.fp,
        &r.fp,
    ) && meets_i32(&p.min, &r.min) && meets_eq(&p.season, &r.season) && meets_like(
        &p.player,
        &r.player,
    ) && meets_eq(&p.team, &r.team) && meets_eq(&p.player_id, &r.player_id) && meets_eq(
        &p.game_id,
        &r.game_id,
    )
}

/// The rows of a table that satisfy the filter predicate, in table
/// order.
pub open spec fn filtered(p: QueryParams, rows: Seq<BoxScore>) -> Seq<BoxScore>
    decreases rows,
{
    if rows.len() == 0 {
        Seq::empty()
    } else if row_matches(p, rows[0]) {
        seq![rows[0]] + filtered(p, rows.drop_first())
    } else {
        filtered(p, rows.drop_first())
    }
}

/// How many rows of a table satisfy the filter predicate — the value
/// the count statement reports, defined without any mention of
/// limit, offset, or ordering.
pub open spec fn count_matching(p: QueryParams, rows: Seq<BoxScore>) -> int {
    filtered(p, rows).len() as int
}

/// One page of an ordered run: at most `limit` items starting at
/// `offset`; an offset at or beyond the end yields nothing.
pub open spec fn page<A>(s: Seq<A>, limit: int, offset: int) -> Seq<A>
    recommends
        0 <= limit,
        0 <= offset,
{
    if offset >= s.len() {
        Seq::empty()
    } else if offset + limit <= s.len() {
        s.subrange(offset, offset + limit)
    } else {
        s.subrange(offset, s.len() as int)
    }
}

/// Keeps exactly the rows that satisfy the filter predicate, in
/// order.
pub fn filter_rows(table: Vec<BoxScore>, p: &QueryParams) -> (r: Vec<BoxScore>)
    ensures
        r@ == filtered(*p, table@),
{
    let ghost t0 = table@;
    let mut rest = table;
    let mut kept: Vec<BoxScore> = Vec::new();
    proof {
        assert(filtered(*p, t0) =~= kept@ + filtered(*p, rest@));
    }
    while rest.len() > 0
        invariant
            filtered(*p, t0) == kept@ + filtered(*p, rest@),
        decreases rest@.len(),
    {
        let ghost rest0 = rest@;
        let ghost kept0 = kept@;
        let x = rest.remove(0);
        proof {
            assert(rest0.remove(0) =~= rest0.drop_first());
        }
        if matches_filters(p, &x) {
            kept.push(x);
            proof {
                assert(filtered(*p, rest0) == seq![rest0[0]] + filtered(*p, rest0.drop_first()));
                assert(kept@ =~= kept0 + seq![rest0[0]]);
                assert(kept@ + filtered(*p, rest@) =~= kept0 + filtered(*p, rest0));
            }
        } else {
            proof {
                assert(filtered(*p, rest0) == filtered(*p, rest0.drop_first()));
            }
        }
    }
    proof {
        assert(filtered(*p, rest@) == Seq::<BoxScore>::empty());
        assert(kept@ =~= filtered(*p, t0));
    }
    kept
}

/// Cuts one page out of an ordered run of rows.
pub fn paginate(rows: Vec<BoxScore>, limit: usize, offset: usize) -> (r: Vec<BoxScore>)
    ensures
        r@ == page(rows@, limit as int, offset as int),
{
    let ghost r0 = rows@;
    if offset >= rows.len() {
        let out: Vec<BoxScore> = Vec::new();
        proof {
            assert(out@ =~= page(r0, limit as int, offset as int));
        }
        return out;
    }
    let avail = rows.len() - offset;
    let takec = if limit < avail {
        limit
    } else {
        avail
    };
    let mut rest = rows;
    let mut i: usize = 0;
    while i < offset
        invariant
            0 <= i <= offset,
            offset < r0.len(),
            rest@ == r0.skip(i as int),
        decreases offset - i,
    {
        let ghost rest0 = rest@;
        rest.remove(0);
        proof {
            assert(rest0.remove(0) =~= r0.skip(i as int + 1));
        }
        i += 1;
    }
    let mut out: Vec<BoxScore> = Vec::new();
    let mut j: usize = 0;
    while j < takec
        invariant
            0 <= j <= takec,
            offset < r0.len(),
            offset + takec <= r0.len(),
            rest@ == r0.skip(offset + j),
            out@ == r0.subrange(offset as int, offset as int + j as int),
        decreases takec - j,
    {
        let ghost rest0 = rest@;
        let x = rest.remove(0);
        proof {
            assert(rest0.remove(0) =~= r0.skip(offset + j + 1));
            assert(rest0[0] == r0[offset + j]);
        }
        out.push(x);
        proof {
            assert(out@ =~= r0.subrange(offset as int, offset as int + j as int + 1));
        }
        j += 1;
    }
    proof {
        assert(out@ =~= page(r0, limit as int, offset as int));
    }
    out
}

/// Every row kept by the filter meets each threshold it asked for:
/// the column is recorded and at least the supplied value.
pub proof fn lemma_filter_soundness(p: QueryParams, r: BoxScore)
    requires
        row_matches(p, r),
    ensures
        p.pts is Some ==> r.pts is Some && r.pts->0 >= p.pts->0,
        p.reb is Some ==> r.reb is Some && r.reb->0 >= p.reb->0,
        p.ast is Some ==> r.ast is Some && r.ast->0 >= p.ast->0,
        p.stl is Some ==> r.stl is Some && r.stl->0 >= p.stl->0,
        p.blk is Some ==> r.blk is Some && r.blk->0 >= p.blk->0,
        p.fgm is Some ==> r.fgm is Some && r.fgm->0 >= p.fgm->0,
        p.fga is Some ==> r.fga is Some && r.fga->0 >= p.fga->0,
        p.fg_percent is Some ==> r.fg_percent is Some && r.fg_percent->0.milli
            >= p.fg_percent->0.milli,
        p.three_pm is Some ==> r.three_pm is Some && r.three_pm->0 >= p.three_pm->0,
        p.three_pa is Some ==> r.three_pa is Some && r.three_pa->0 >= p.three_pa->0,
        p.three_p_percent is Some ==> r.three_p_percent is Some && r.three_p_percent->0.milli
            >= p.three_p_percent->0.milli,
        p.ftm is Some ==> r.ftm is Some && r.ftm->0 >= p.ftm->0,
        p.fta is Some ==> r.fta is Some && r.fta->0 >= p.fta->0,
        p.ft_percent is Some ==> r.ft_percent is Some && r.ft_percent->0.milli
            >= p.ft_percent->0.milli,
        p.oreb is Some ==> r.oreb is Some && r.oreb->0 >= p.oreb->0,
        p.dreb is Some ==> r.dreb is Some && r.dreb->0 >= p.dreb->0,
        p.tov is Some ==> r.tov is Some && r.tov->0 >= p.tov->0,
        p.pf is Some ==> r.pf is Some && r.pf->0 >= p.pf->0,
        p.plus_minus is Some ==> r.plus_minus is Some && r.plus_minus->0 >= p.plus_minus->0,
        p.fp is Some ==> r.fp is Some && r.fp->0.milli >= p.fp->0.milli,
        p.min is Some ==> r.min is Some && r.min->0 >= p.min->0,
{
}

/// Two parameter sets with the same filters, whatever their
/// pagination and sort, keep exactly the same rows.
pub open spec fn same_filters(p1: QueryParams, p2: QueryParams) -> bool {
    &&& p1.pts == p2.pts
    &&& p1.reb == p2.reb
    &&& p1.ast == p2.ast
    &&& p1.stl == p2.stl
    &&& p1.blk == p2.blk
    &&& p1.fgm == p2.fgm
    &&& p1.fga == p2.fga
    &&& p1.fg_percent == p2.fg_percent
    &&& p1.three_pm == p2.three_pm
    &&& p1.three_pa == p2.three_pa
    &&& p1.three_p_percent == p2.three_p_percent
    &&& p1.ftm == p2.ftm
    &&& p1.fta == p2.fta
    &&& p1.ft_percent == p2.ft_percent
    &&& p1.oreb == p2.oreb
    &&& p1.dreb == p2.dreb
    &&& p1.tov == p2.tov
    &&& p1.pf == p2.pf
    &&& p1.plus_minus == p2.plus_minus
    &&& p1.fp == p2.fp
    &&& p1.min == p2.min
    &&& (p1.season is Some <==> p2.season is Some)
    &&& (p1.season is Some ==> p1.season->0@ == p2.season->0@)
    &&& (p1.player is Some <==> p2.player is Some)
    &&& (p1.player is Some ==> p1.player->0@ == p2.player->0@)
    &&& (p1.team is Some <==> p2.team is Some)
    &&& (p1.team is Some ==> p1.team->0@ == p2.team->0@)
    &&& (p1.player_id is Some <==> p2.player_id is Some)
    &&& (p1.player_id is Some ==> p1.player_id->0@ == p2.player_id->0@)
    &&& (p1.game_id is Some <==> p2.game_id is Some)
    &&& (p1.game_id is Some ==> p1.game_id->0@ == p2.game_id->0@)
}

/// The matching count is a function of the filters alone: two
/// parameter sets that differ only in pagination or sort agree on
/// it, so the reported total is independent of the page asked for.
pub proof fn lemma_total_ignores_pagination(p1: QueryParams, p2: QueryParams, rows: Seq<BoxScore>)
    requires
        same_filters(p1, p2),
    ensures
        count_matching(p1, rows) == count_matching(p2, rows),
    decreases rows,
{
    if rows.len() > 0 {
        lemma_total_ignores_pagination(p1, p2, rows.drop_first());
        assert(row_matches(p1, rows[0]) == row_matches(p2, rows[0]));
    }
}

/// An offset at or beyond the end of the matching rows yields an
/// empty page, while the total stays that of the whole matching set.
pub proof fn lemma_offset_beyond_end<A>(s: Seq<A>, limit: int, offset: int)
    requires
        offset >= s.len(),
    ensures
        page(s, limit, offset) == Seq::<A>::empty(),
{
}

} // verus!
