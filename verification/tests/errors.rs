use cetkaik_kiaak::{parse, Column, Coord, Move, ParseError, Profession, Row};

#[test]
fn empty_input_matches_no_shape() {
    assert_eq!(parse(""), Err(ParseError::NoMatchingShape));
}

#[test]
fn bad_column_symbol_matches_no_shape() {
    // 'Q' is not one of the nine column symbols.
    assert_eq!(parse("QU兵XY無撃裁"), Err(ParseError::NoMatchingShape));
}

#[test]
fn illegal_water_run_matches_no_shape() {
    // The run after the water marker is not in the legal table, so no
    // shape matches and no partial move is produced.
    assert_eq!(parse("LY弓ZY水三此無"), Err(ParseError::NoMatchingShape));
}

#[test]
fn truncated_inputs_match_no_shape() {
    assert_eq!(parse("XU兵XY"), Err(ParseError::NoMatchingShape));
    assert_eq!(parse("XU兵XY無撃"), Err(ParseError::NoMatchingShape));
    assert_eq!(parse("LY弓ZY水"), Err(ParseError::NoMatchingShape));
    assert_eq!(parse("ME弓MIMY橋"), Err(ParseError::NoMatchingShape));
    assert_eq!(parse("KE皇"), Err(ParseError::NoMatchingShape));
    assert_eq!(parse("黒弓"), Err(ParseError::NoMatchingShape));
}

#[test]
fn invalid_coordinate_inside_move_matches_no_shape() {
    // "KAE" is lexically a square but the coordinate model rejects it.
    assert_eq!(parse("KAE兵XY無撃裁"), Err(ParseError::NoMatchingShape));
}

#[test]
fn wildcard_never_in_parachute() {
    // A parachute names a concrete profession; the wildcard is not one.
    assert_eq!(parse("黒片MY"), Err(ParseError::NoMatchingShape));
}

#[test]
fn unbalanced_bracket_matches_no_shape() {
    assert_eq!(parse("KE皇[LEKI"), Err(ParseError::NoMatchingShape));
}

#[test]
fn priority_prefers_latter_over_no_step() {
    // With the full latter grammar present the bracketed shape wins; the
    // shorter no-step shape would have stopped before the step square.
    let (rem, m) = parse("PAU皇[MAU]CAIMAU").unwrap();
    assert_eq!(rem, "");
    assert!(matches!(m, Move::TamStepDuringLatter { .. }));
    // When the latter grammar is not completed, the same prefix decodes
    // as the no-step shape, with the remainder handed back.
    let (rem2, m2) = parse("PAU皇[MAU]CAI").unwrap();
    assert_eq!(rem2, "");
    assert_eq!(
        m2,
        Move::TamNoStep {
            src: Coord(Row::AU, Column::P),
            first_dest: Some(Coord(Row::AU, Column::M)),
            second_dest: Coord(Row::AI, Column::C),
        }
    );
}

#[test]
fn priority_prefers_bridge_water_over_bridge() {
    // The bridge-only shape accepts a strict prefix of this input; the
    // dispatcher must pick the longer bridge-then-water shape.
    let (rem, m) = parse("LO弓NOCO橋四水五").unwrap();
    assert_eq!(rem, "");
    assert!(matches!(m, Move::StepAndBridgeStickAndWaterStick { .. }));
}

#[test]
fn priority_prefers_former_over_unspecified() {
    let (rem, m) = parse("KE皇LI[KE]KA").unwrap();
    assert_eq!(rem, "");
    assert!(matches!(m, Move::TamStepDuringFormer { .. }));
}

#[test]
fn shorter_shape_match_leaves_remainder() {
    // The bridge shape itself succeeds and the trailing symbols that fit
    // no continuation stay unconsumed.
    let (rem, m) = parse("ME弓MIMU橋四水").unwrap();
    assert_eq!(rem, "水");
    assert_eq!(
        m,
        Move::StepAndBridgeStick {
            src: Coord(Row::E, Column::M),
            prof: Some(Profession::Gua2),
            step: Coord(Row::I, Column::M),
            dest: Coord(Row::U, Column::M),
            bridge_stick_size: Some(4),
            bridge_stick_successful: true,
        }
    );
}
