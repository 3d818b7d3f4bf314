use vstd::prelude::*;
use crate::fields::SortField;
use crate::fixed::Fixed;
use crate::sort::SortExpression;

verus! {

/// Sort intent: an optional expression and an optional direction.
///
/// An absent expression sorts by `game_date`; an absent direction
/// sorts descending.
#[derive(Debug)]
pub struct SortParams {
    pub sort_by: Option<SortExpression>,
    pub asc: Option<bool>,
}

/// The full set of optional constraints, pagination, and sort intent
/// for one query.
///
/// Every field is independently optional: absence means "no
/// constraint", never "constrain to a default". Numeric fields are
/// minimum thresholds; `season`, `team`, `player_id` and `game_id`
/// match exactly; `player` matches as a case-insensitive substring.
#[derive(Debug)]
pub struct QueryParams {
    pub pts: Option<i32>,
    pub reb: Option<i32>,
    pub ast: Option<i32>,
    pub stl: Option<i32>,
    pub blk: Option<i32>,
    pub fgm: Option<i32>,
    pub fga: Option<i32>,
    pub fg_percent: Option<Fixed>,
    pub three_pm: Option<i32>,
    pub three_pa: Option<i32>,
    pub three_p_percent: Option<Fixed>,
    pub ftm: Option<i32>,
    pub fta: Option<i32>,
    pub ft_percent: Option<Fixed>,
    pub oreb: Option<i32>,
    pub dreb: Option<i32>,
    pub tov: Option<i32>,
    pub pf: Option<i32>,
    pub plus_minus: Option<i32>,
    pub fp: Option<Fixed>,
    pub min: Option<i32>,
    pub season: Option<String>,
    pub player: Option<String>,
    pub team: Option<String>,
    pub player_id: Option<String>,
    pub game_id: Option<String>,
    pub limit: Option<i64>,
    pub offset: Option<i64>,
    pub sort: SortParams,
}

/// No field set at all.
pub open spec fn all_unset(p: QueryParams) -> bool {
    &&& p.pts is None
    &&& p.reb is None
    &&& p.ast is None
    &&& p.stl is None
    &&& p.blk is None
    &&& p.fgm is None
    &&& p.fga is None
    &&& p.fg_percent is None
    &&& p.three_pm is None
    &&& p.three_pa is None
    &&& p.three_p_percent is None
    &&& p.ftm is None
    &&& p.fta is None
    &&& p.ft_percent is None
    &&& p.oreb is None
    &&& p.dreb is None
    &&& p.tov is None
    &&& p.pf is None
    &&& p.plus_minus is None
    &&& p.fp is None
    &&& p.min is None
    &&& p.season is None
    &&& p.player is None
    &&& p.team is None
    &&& p.player_id is None
    &&& p.game_id is None
    &&& p.limit is None
    &&& p.offset is None
    &&& p.sort.sort_by is None
    &&& p.sort.asc is None
}

impl QueryParams {
    /// Parameters with no field set: no constraint, default
    /// pagination, default sort.
    pub fn empty() -> (r: QueryParams)
        ensures
            all_unset(r),
    {
        QueryParams {
            pts: None,
            reb: None,
            ast: None,
            stl: None,
            blk: None,
            fgm: None,
            fga: None,
            fg_percent: None,
            three_pm: None,
            three_pa: None,
            three_p_percent: None,
            ftm: None,
            fta: None,
            ft_percent: None,
            oreb: None,
            dreb: None,
            tov: None,
            pf: None,
            plus_minus: None,
            fp: None,
            min: None,
            season: None,
            player: None,
            team: None,
            player_id: None,
            game_id: None,
            limit: None,
            offset: None,
            sort: SortParams { sort_by: None, asc: None },
        }
    }
}

/// The effective sort expression: the one supplied, else `game_date`.
pub open spec fn eff_sort(p: QueryParams) -> SortExpression {
    if p.sort.sort_by is Some {
        p.sort.sort_by->0
    } else {
        SortExpression::Field(SortField::GameDate)
    }
}

/// The effective direction: ascending only when asked for.
pub open spec fn eff_asc(p: QueryParams) -> bool {
    if p.sort.asc is Some {
        p.sort.asc->0
    } else {
        false
    }
}

/// The effective limit, defaulting to 50.
pub open spec fn eff_limit(p: QueryParams) -> i64 {
    if p.limit is Some {
        p.limit->0
    } else {
        50
    }
}

/// The effective offset, defaulting to 0.
pub open spec fn eff_offset(p: QueryParams) -> i64 {
    if p.offset is Some {
        p.offset->0
    } else {
        0
    }
}

} // verus!
