use boxscores::fields::SortField;

#[test]
fn every_field_has_its_column_name() {
    let table: Vec<(SortField, &str)> = vec![
        (SortField::GameDate, "game_date"),
        (SortField::Pts, "pts"),
        (SortField::Reb, "reb"),
        (SortField::Ast, "ast"),
        (SortField::Stl, "stl"),
        (SortField::Blk, "blk"),
        (SortField::Fgm, "fgm"),
        (SortField::Fga, "fga"),
        (SortField::FgPercent, "fg_percent"),
        (SortField::ThreePm, "three_pm"),
        (SortField::ThreePa, "three_pa"),
        (SortField::ThreePPercent, "three_p_percent"),
        (SortField::Ftm, "ftm"),
        (SortField::Fta, "fta"),
        (SortField::FtPercent, "ft_percent"),
        (SortField::Oreb, "oreb"),
        (SortField::Dreb, "dreb"),
        (SortField::Tov, "tov"),
        (SortField::Pf, "pf"),
        (SortField::PlusMinus, "plus_minus"),
        (SortField::Fp, "fp"),
        (SortField::Min, "min"),
    ];
    for (field, name) in table {
        assert_eq!(field.as_sql(), name);
        assert_eq!(SortField::from_name(name), Some(field));
    }
}

#[test]
fn names_outside_the_closed_set_resolve_to_nothing() {
    assert_eq!(SortField::from_name("salary"), None);
    assert_eq!(SortField::from_name("pts; DROP TABLE x"), None);
    assert_eq!(SortField::from_name(""), None);
    assert_eq!(SortField::from_name("Pts"), None);
}
