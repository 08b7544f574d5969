use cetkaik_kiaak::{
    parse_bridge_stick_size, parse_profession, parse_profession_or_wildcard, parse_square,
    parse_tam_sqbracket, parse_water_stick, Column, Coord, ParseError, Profession, Row,
};

#[test]
fn square_single_letter_row() {
    assert_eq!(parse_square("KA"), Ok(("", Coord(Row::A, Column::K))));
    assert_eq!(parse_square("ZY"), Ok(("", Coord(Row::Y, Column::Z))));
}

#[test]
fn square_two_letter_rows() {
    assert_eq!(parse_square("KAI"), Ok(("", Coord(Row::AI, Column::K))));
    assert_eq!(parse_square("XAU"), Ok(("", Coord(Row::AU, Column::X))));
    assert_eq!(parse_square("PIA"), Ok(("", Coord(Row::IA, Column::P))));
}

#[test]
fn square_leaves_remainder() {
    assert_eq!(parse_square("XU兵XY"), Ok(("兵XY", Coord(Row::U, Column::X))));
    assert_eq!(parse_square("MAUCAI"), Ok(("CAI", Coord(Row::AU, Column::M))));
}

#[test]
fn square_rejects_bad_column() {
    assert_eq!(parse_square("QA"), Err(ParseError::UnexpectedSymbol));
    assert_eq!(parse_square("兵XY"), Err(ParseError::UnexpectedSymbol));
    assert_eq!(parse_square(""), Err(ParseError::UnexpectedSymbol));
}

#[test]
fn square_rejects_missing_row() {
    assert_eq!(parse_square("K"), Err(ParseError::UnexpectedSymbol));
    assert_eq!(parse_square("K兵"), Err(ParseError::UnexpectedSymbol));
}

#[test]
fn square_rejects_invalid_row_pair() {
    // Lexically well formed, but the coordinate model knows no row "AE".
    assert_eq!(parse_square("KAE"), Err(ParseError::InvalidCoordinate));
    assert_eq!(parse_square("KYA"), Err(ParseError::InvalidCoordinate));
    assert_eq!(parse_square("KUI"), Err(ParseError::InvalidCoordinate));
}

#[test]
fn profession_decodes_each_symbol() {
    assert_eq!(parse_profession("船"), Ok(("", Profession::Nuak1)));
    assert_eq!(parse_profession("兵"), Ok(("", Profession::Kauk2)));
    assert_eq!(parse_profession("弓"), Ok(("", Profession::Gua2)));
    assert_eq!(parse_profession("車"), Ok(("", Profession::Kaun1)));
    assert_eq!(parse_profession("虎"), Ok(("", Profession::Dau2)));
    assert_eq!(parse_profession("馬"), Ok(("", Profession::Maun1)));
    assert_eq!(parse_profession("筆"), Ok(("", Profession::Kua2)));
    assert_eq!(parse_profession("巫"), Ok(("", Profession::Tuk2)));
    assert_eq!(parse_profession("将"), Ok(("", Profession::Uai1)));
    assert_eq!(parse_profession("王"), Ok(("", Profession::Io)));
}

#[test]
fn profession_rejects_wildcard_and_strangers() {
    assert_eq!(parse_profession("片"), Err(ParseError::UnexpectedSymbol));
    assert_eq!(parse_profession("皇"), Err(ParseError::UnexpectedSymbol));
    assert_eq!(parse_profession(""), Err(ParseError::UnexpectedSymbol));
}

#[test]
fn profession_or_wildcard_round_trips_every_symbol() {
    // Every concrete profession decodes to the same variant through both
    // tables, and only the wildcard decodes to "unknown".
    let table = [
        ("船", Profession::Nuak1),
        ("兵", Profession::Kauk2),
        ("弓", Profession::Gua2),
        ("車", Profession::Kaun1),
        ("虎", Profession::Dau2),
        ("馬", Profession::Maun1),
        ("筆", Profession::Kua2),
        ("巫", Profession::Tuk2),
        ("将", Profession::Uai1),
        ("王", Profession::Io),
    ];
    for (sym, prof) in table {
        assert_eq!(parse_profession_or_wildcard(sym), Ok(("", Some(prof))));
        assert_eq!(parse_profession(sym), Ok(("", prof)));
    }
    assert_eq!(parse_profession_or_wildcard("片"), Ok(("", None)));
}

#[test]
fn water_stick_legal_combinations() {
    // The eight legal combinations, exactly as the game rule lists them.
    assert_eq!(parse_water_stick("水無此無"), Ok(("", (Some(0), false))));
    assert_eq!(parse_water_stick("水一此無"), Ok(("", (Some(1), false))));
    assert_eq!(parse_water_stick("水二此無"), Ok(("", (Some(2), false))));
    assert_eq!(parse_water_stick("水三"), Ok(("", (Some(3), true))));
    assert_eq!(parse_water_stick("水四"), Ok(("", (Some(4), true))));
    assert_eq!(parse_water_stick("水五"), Ok(("", (Some(5), true))));
    assert_eq!(parse_water_stick("水或"), Ok(("", (None, true))));
    assert_eq!(parse_water_stick("水或此無"), Ok(("", (None, false))));
}

#[test]
fn water_stick_malformed_runs() {
    // A high numeral never pairs with the failure marker.
    assert_eq!(parse_water_stick("水三此無"), Err(ParseError::MalformedStickThrow));
    assert_eq!(parse_water_stick("水五此無"), Err(ParseError::MalformedStickThrow));
    // A low numeral never stands alone.
    assert_eq!(parse_water_stick("水無"), Err(ParseError::MalformedStickThrow));
    assert_eq!(parse_water_stick("水一"), Err(ParseError::MalformedStickThrow));
    assert_eq!(parse_water_stick("水二"), Err(ParseError::MalformedStickThrow));
    // Stray runs over the stick alphabet.
    assert_eq!(parse_water_stick("水此"), Err(ParseError::MalformedStickThrow));
    assert_eq!(parse_water_stick("水五五"), Err(ParseError::MalformedStickThrow));
    assert_eq!(parse_water_stick("水一此"), Err(ParseError::MalformedStickThrow));
}

#[test]
fn water_stick_lexical_failures() {
    // No marker, or nothing from the stick alphabet after it.
    assert_eq!(parse_water_stick("三"), Err(ParseError::UnexpectedSymbol));
    assert_eq!(parse_water_stick("水"), Err(ParseError::UnexpectedSymbol));
    assert_eq!(parse_water_stick("水K"), Err(ParseError::UnexpectedSymbol));
    assert_eq!(parse_water_stick(""), Err(ParseError::UnexpectedSymbol));
}

#[test]
fn water_stick_run_is_capped_at_three() {
    // Only three symbols are captured; the fourth is left over.
    assert_eq!(parse_water_stick("水或此無無"), Ok(("無", (None, false))));
}

#[test]
fn bridge_stick_sizes() {
    assert_eq!(parse_bridge_stick_size("橋或"), Ok(("", None)));
    assert_eq!(parse_bridge_stick_size("橋無"), Ok(("", Some(0))));
    assert_eq!(parse_bridge_stick_size("橋一"), Ok(("", Some(1))));
    assert_eq!(parse_bridge_stick_size("橋二"), Ok(("", Some(2))));
    assert_eq!(parse_bridge_stick_size("橋三"), Ok(("", Some(3))));
    assert_eq!(parse_bridge_stick_size("橋四"), Ok(("", Some(4))));
    assert_eq!(parse_bridge_stick_size("橋五"), Ok(("", Some(5))));
    assert_eq!(parse_bridge_stick_size("橋四水五"), Ok(("水五", Some(4))));
}

#[test]
fn bridge_stick_failures() {
    assert_eq!(parse_bridge_stick_size("四"), Err(ParseError::UnexpectedSymbol));
    assert_eq!(parse_bridge_stick_size("橋"), Err(ParseError::UnexpectedSymbol));
    assert_eq!(parse_bridge_stick_size("橋水"), Err(ParseError::UnexpectedSymbol));
    assert_eq!(parse_bridge_stick_size(""), Err(ParseError::UnexpectedSymbol));
}

#[test]
fn tam_sqbracket_square_and_unspecified() {
    assert_eq!(
        parse_tam_sqbracket("[TY]"),
        Ok(("", Some(Coord(Row::Y, Column::T))))
    );
    assert_eq!(parse_tam_sqbracket("[或]"), Ok(("", None)));
    assert_eq!(
        parse_tam_sqbracket("[MAU]CAI"),
        Ok(("CAI", Some(Coord(Row::AU, Column::M))))
    );
}

#[test]
fn tam_sqbracket_failures() {
    assert_eq!(parse_tam_sqbracket("TY]"), Err(ParseError::UnexpectedSymbol));
    assert_eq!(parse_tam_sqbracket("[TY"), Err(ParseError::UnexpectedSymbol));
    assert_eq!(parse_tam_sqbracket("[皇]"), Err(ParseError::UnexpectedSymbol));
    assert_eq!(parse_tam_sqbracket(""), Err(ParseError::UnexpectedSymbol));
}
