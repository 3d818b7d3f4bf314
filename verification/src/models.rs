use vstd::prelude::*;
use crate::fixed::Fixed;

verus! {

/// One player's statistical line for one game, as read back from the
/// store.
///
/// Numeric fields are optional: an absent value means the statistic
/// was not recorded for that row, which is distinct from zero.
#[derive(Debug)]
pub struct BoxScore {
    pub player_id: String,
    pub game_id: String,
    pub team_id: String,
    pub season: String,
    pub player: String,
    pub team: String,
    pub match_up: String,
    pub game_date: String,
    pub w_l: String,
    pub min: Option<i32>,
    pub pts: Option<i32>,
    pub fgm: Option<i32>,
    pub fga: Option<i32>,
    pub fg_percent: Option<Fixed>,
    pub three_pm: Option<i32>,
    pub three_pa: Option<i32>,
    pub three_p_percent: Option<Fixed>,
    pub ftm: Option<i32>,
    pub fta: Option<i32>,
    pub ft_percent: Option<Fixed>,
    pub oreb: Option<i32>,
    pub dreb: Option<i32>,
    pub reb: Option<i32>,
    pub ast: Option<i32>,
    pub stl: Option<i32>,
    pub blk: Option<i32>,
    pub tov: Option<i32>,
    pub pf: Option<i32>,
    pub plus_minus: Option<i32>,
    pub fp: Option<Fixed>,
}

/// The total number of stored rows.
#[derive(Debug)]
pub struct CountResponse {
    pub count: i64,
}

/// The envelope returned to callers: one page of rows, the total
/// matching count ignoring pagination, and the effective page bounds.
#[derive(Debug)]
pub struct PaginatedResponse {
    pub data: Vec<BoxScore>,
    pub total: i64,
    pub limit: i64,
    pub offset: i64,
}

/// A free-text question for the structured query front end.
#[derive(Debug)]
pub struct QueryRequest {
    pub query: String,
}

/// A free-text question for the raw statement front end.
#[derive(Debug)]
pub struct SqlRequest {
    pub query: String,
}

/// Combines fetched rows, the independent total count, and the
/// effective pagination into the response envelope. Pure assembly: a
/// short last page is expected, never an error.
pub fn assemble(data: Vec<BoxScore>, total: i64, limit: i64, offset: i64) -> (r:
    PaginatedResponse)
    ensures
        r.data == data,
        r.total == total,
        r.limit == limit,
        r.offset == offset,
{
    PaginatedResponse { data, total, limit, offset }
}

} // verus!
