use vstd::prelude::*;
use crate::text::str_eq;

verus! {

/// One of the closed set of 22 statistical columns that may be filtered
/// on or sorted by.
///
/// Every identifier that reaches a statement comes from this enum's
/// fixed field-to-column table, never from caller text, which closes
/// the injection surface for column names at the type level.
#[derive(Clone, Copy, Debug, PartialEq, Eq, Structural, Hash)]
pub enum SortField {
    GameDate,
    Pts,
    Reb,
    Ast,
    Stl,
    Blk,
    Fgm,
    Fga,
    FgPercent,
    ThreePm,
    ThreePa,
    ThreePPercent,
    Ftm,
    Fta,
    FtPercent,
    Oreb,
    Dreb,
    Tov,
    Pf,
    PlusMinus,
    Fp,
    Min,
}

/// The canonical column name of a statistical field.
pub open spec fn col_name(f: SortField) -> Seq<char> {
    match f {
        SortField::GameDate => "game_date"@,
        SortField::Pts => "pts"@,
        SortField::Reb => "reb"@,
        SortField::Ast => "ast"@,
        SortField::Stl => "stl"@,
        SortField::Blk => "blk"@,
        SortField::Fgm => "fgm"@,
        SortField::Fga => "fga"@,
        SortField::FgPercent => "fg_percent"@,
        SortField::ThreePm => "three_pm"@,
        SortField::ThreePa => "three_pa"@,
        SortField::ThreePPercent => "three_p_percent"@,
        SortField::Ftm => "ftm"@,
        SortField::Fta => "fta"@,
        SortField::FtPercent => "ft_percent"@,
        SortField::Oreb => "oreb"@,
        SortField::Dreb => "dreb"@,
        SortField::Tov => "tov"@,
        SortField::Pf => "pf"@,
        SortField::PlusMinus => "plus_minus"@,
        SortField::Fp => "fp"@,
        SortField::Min => "min"@,
    }
}

/// The field whose canonical column name is `name`, if any: the
/// whole closed set, and nothing else.
pub open spec fn field_for(name: Seq<char>) -> Option<SortField> {
    if name == "game_date"@ {
        Some(SortField::GameDate)
    } else if name == "pts"@ {
        Some(SortField::Pts)
    } else if name == "reb"@ {
        Some(SortField::Reb)
    } else if name == "ast"@ {
        Some(SortField::Ast)
    } else if name == "stl"@ {
        Some(SortField::Stl)
    } else if name == "blk"@ {
        Some(SortField::Blk)
    } else if name == "fgm"@ {
        Some(SortField::Fgm)
    } else if name == "fga"@ {
        Some(SortField::Fga)
    } else if name == "fg_percent"@ {
        Some(SortField::FgPercent)
    } else if name == "three_pm"@ {
        Some(SortField::ThreePm)
    } else if name == "three_pa"@ {
        Some(SortField::ThreePa)
    } else if name == "three_p_percent"@ {
        Some(SortField::ThreePPercent)
    } else if name == "ftm"@ {
        Some(SortField::Ftm)
    } else if name == "fta"@ {
        Some(SortField::Fta)
    } else if name == "ft_percent"@ {
        Some(SortField::FtPercent)
    } else if name == "oreb"@ {
        Some(SortField::Oreb)
    } else if name == "dreb"@ {
        Some(SortField::Dreb)
    } else if name == "tov"@ {
        Some(SortField::Tov)
    } else if name == "pf"@ {
        Some(SortField::Pf)
    } else if name == "plus_minus"@ {
        Some(SortField::PlusMinus)
    } else if name == "fp"@ {
        Some(SortField::Fp)
    } else if name == "min"@ {
        Some(SortField::Min)
    } else {
        None
    }
}

impl SortField {
    /// Looks a name up in the closed column set.
    #[verifier::rlimit(30)]
    pub fn from_name(name: &str) -> (r: Option<SortField>)
        ensures
            r == field_for(name@),
    {
        if str_eq(name, "game_date") {
            Some(SortField::GameDate)
        } else if str_eq(name, "pts") {
            Some(SortField::Pts)
        } else if str_eq(name, "reb") {
            Some(SortField::Reb)
        } else if str_eq(name, "ast") {
            Some(SortField::Ast)
        } else if str_eq(name, "stl") {
            Some(SortField::Stl)
        } else if str_eq(name, "blk") {
            Some(SortField::Blk)
        } else if str_eq(name, "fgm") {
            Some(SortField::Fgm)
        } else if str_eq(name, "fga") {
            Some(SortField::Fga)
        } else if str_eq(name, "fg_percent") {
            Some(SortField::FgPercent)
        } else if str_eq(name, "three_pm") {
            Some(SortField::ThreePm)
        } else if str_eq(name, "three_pa") {
            Some(SortField::ThreePa)
        } else if str_eq(name, "three_p_percent") {
            Some(SortField::ThreePPercent)
        } else if str_eq(name, "ftm") {
            Some(SortField::Ftm)
        } else if str_eq(name, "fta") {
            Some(SortField::Fta)
        } else if str_eq(name, "ft_percent") {
            Some(SortField::FtPercent)
        } else if str_eq(name, "oreb") {
            Some(SortField::Oreb)
        } else if str_eq(name, "dreb") {
            Some(SortField::Dreb)
        } else if str_eq(name, "tov") {
            Some(SortField::Tov)
        } else if str_eq(name, "pf") {
            Some(SortField::Pf)
        } else if str_eq(name, "plus_minus") {
            Some(SortField::PlusMinus)
        } else if str_eq(name, "fp") {
            Some(SortField::Fp)
        } else if str_eq(name, "min") {
            Some(SortField::Min)
        } else {
            None
        }
    }

    /// The column's canonical name, straight from the fixed
    /// field-to-column table.
    pub fn as_sql(&self) -> (r: &str)
        ensures
            r@ == col_name(*self),
    {
        match self {
            SortField::GameDate => "game_date",
            SortField::Pts => "pts",
            SortField::Reb => "reb",
            SortField::Ast => "ast",
            SortField::Stl => "stl",
            SortField::Blk => "blk",
            SortField::Fgm => "fgm",
            SortField::Fga => "fga",
            SortField::FgPercent => "fg_percent",
            SortField::ThreePm => "three_pm",
            SortField::ThreePa => "three_pa",
            SortField::ThreePPercent => "three_p_percent",
            SortField::Ftm => "ftm",
            SortField::Fta => "fta",
            SortField::FtPercent => "ft_percent",
            SortField::Oreb => "oreb",
            SortField::Dreb => "dreb",
            SortField::Tov => "tov",
            SortField::Pf => "pf",
            SortField::PlusMinus => "plus_minus",
            SortField::Fp => "fp",
            SortField::Min => "min",
        }
    }
}

} // verus!
