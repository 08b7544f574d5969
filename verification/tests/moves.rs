use cetkaik_kiaak::{parse, Color, Column, Coord, Move, Profession, Row};

#[test]
fn no_step_and_no_stick() {
    assert_eq!(
        parse("XU兵XY無撃裁"),
        Ok((
            "",
            Move::NoStepAndNoStick {
                src: Coord(Row::U, Column::X),
                prof: Some(Profession::Kauk2),
                dest: Coord(Row::Y, Column::X),
            }
        ))
    );
}

#[test]
fn no_step_and_water_stick_unspecified_failed() {
    assert_eq!(
        parse("LY弓ZY水或此無"),
        Ok((
            "",
            Move::NoStepAndWaterStick {
                src: Coord(Row::Y, Column::L),
                prof: Some(Profession::Gua2),
                dest: Coord(Row::Y, Column::Z),
                water_stick_size: None,
                water_stick_successful: false,
            }
        ))
    );
}

#[test]
fn no_step_and_water_stick_one_failed() {
    assert_eq!(
        parse("LY弓ZY水一此無"),
        Ok((
            "",
            Move::NoStepAndWaterStick {
                src: Coord(Row::Y, Column::L),
                prof: Some(Profession::Gua2),
                dest: Coord(Row::Y, Column::Z),
                water_stick_size: Some(1),
                water_stick_successful: false,
            }
        ))
    );
}

#[test]
fn no_step_and_water_stick_five() {
    assert_eq!(
        parse("LY弓ZY水五"),
        Ok((
            "",
            Move::NoStepAndWaterStick {
                src: Coord(Row::Y, Column::L),
                prof: Some(Profession::Gua2),
                dest: Coord(Row::Y, Column::Z),
                water_stick_size: Some(5),
                water_stick_successful: true,
            }
        ))
    );
}

#[test]
fn no_step_and_water_stick_unspecified_successful() {
    assert_eq!(
        parse("LY弓ZY水或"),
        Ok((
            "",
            Move::NoStepAndWaterStick {
                src: Coord(Row::Y, Column::L),
                prof: Some(Profession::Gua2),
                dest: Coord(Row::Y, Column::Z),
                water_stick_size: None,
                water_stick_successful: true,
            }
        ))
    );
}

#[test]
fn step_and_no_stick() {
    assert_eq!(
        parse("XU兵XYXAU無撃裁"),
        Ok((
            "",
            Move::StepAndNoStick {
                src: Coord(Row::U, Column::X),
                prof: Some(Profession::Kauk2),
                step: Coord(Row::Y, Column::X),
                dest: Coord(Row::AU, Column::X),
            }
        ))
    );
}

#[test]
fn step_and_water_stick() {
    assert_eq!(
        parse("NY巫CYCO水五"),
        Ok((
            "",
            Move::StepAndWaterStick {
                src: Coord(Row::Y, Column::N),
                prof: Some(Profession::Tuk2),
                step: Coord(Row::Y, Column::C),
                dest: Coord(Row::O, Column::C),
                water_stick_size: Some(5),
                water_stick_successful: true,
            }
        ))
    );
}

#[test]
fn step_and_bridge_stick_four_successful() {
    assert_eq!(
        parse("ME弓MIMU橋四"),
        Ok((
            "",
            Move::StepAndBridgeStick {
                src: Coord(Row::E, Column::M),
                prof: Some(Profession::Gua2),
                step: Coord(Row::I, Column::M),
                dest: Coord(Row::U, Column::M),
                bridge_stick_size: Some(4),
                bridge_stick_successful: true,
            }
        ))
    );
}

#[test]
fn step_and_bridge_stick_unspecified_successful() {
    assert_eq!(
        parse("ME弓MIMY橋或"),
        Ok((
            "",
            Move::StepAndBridgeStick {
                src: Coord(Row::E, Column::M),
                prof: Some(Profession::Gua2),
                step: Coord(Row::I, Column::M),
                dest: Coord(Row::Y, Column::M),
                bridge_stick_size: None,
                bridge_stick_successful: true,
            }
        ))
    );
}

#[test]
fn step_and_bridge_stick_unspecified_failed() {
    assert_eq!(
        parse("ME弓MIMY橋或此無"),
        Ok((
            "",
            Move::StepAndBridgeStick {
                src: Coord(Row::E, Column::M),
                prof: Some(Profession::Gua2),
                step: Coord(Row::I, Column::M),
                dest: Coord(Row::Y, Column::M),
                bridge_stick_size: None,
                bridge_stick_successful: false,
            }
        ))
    );
}

#[test]
fn step_and_bridge_stick_one_failed() {
    assert_eq!(
        parse("ME弓MIMY橋一此無"),
        Ok((
            "",
            Move::StepAndBridgeStick {
                src: Coord(Row::E, Column::M),
                prof: Some(Profession::Gua2),
                step: Coord(Row::I, Column::M),
                dest: Coord(Row::Y, Column::M),
                bridge_stick_size: Some(1),
                bridge_stick_successful: false,
            }
        ))
    );
}

#[test]
fn step_and_bridge_stick_zero_failed() {
    assert_eq!(
        parse("ME弓MIMY橋無此無"),
        Ok((
            "",
            Move::StepAndBridgeStick {
                src: Coord(Row::E, Column::M),
                prof: Some(Profession::Gua2),
                step: Coord(Row::I, Column::M),
                dest: Coord(Row::Y, Column::M),
                bridge_stick_size: Some(0),
                bridge_stick_successful: false,
            }
        ))
    );
}

#[test]
fn step_and_bridge_stick_low_size_without_marker_succeeds() {
    // Documented edge case: unlike the water rule, a bridge throw of zero
    // to two with no trailing failure marker decodes as successful.
    assert_eq!(
        parse("ME弓MIMY橋一"),
        Ok((
            "",
            Move::StepAndBridgeStick {
                src: Coord(Row::E, Column::M),
                prof: Some(Profession::Gua2),
                step: Coord(Row::I, Column::M),
                dest: Coord(Row::Y, Column::M),
                bridge_stick_size: Some(1),
                bridge_stick_successful: true,
            }
        ))
    );
}

#[test]
fn step_and_bridge_stick_and_water_stick() {
    assert_eq!(
        parse("LO弓NOCO橋四水五"),
        Ok((
            "",
            Move::StepAndBridgeStickAndWaterStick {
                src: Coord(Row::O, Column::L),
                prof: Some(Profession::Gua2),
                step: Coord(Row::O, Column::N),
                dest: Coord(Row::O, Column::C),
                bridge_stick_size: Some(4),
                water_stick_size: Some(5),
                water_stick_successful: true,
            }
        ))
    );
}

#[test]
fn step_and_bridge_stick_and_water_stick_failed_water() {
    assert_eq!(
        parse("LO弓NOCO橋四水一此無"),
        Ok((
            "",
            Move::StepAndBridgeStickAndWaterStick {
                src: Coord(Row::O, Column::L),
                prof: Some(Profession::Gua2),
                step: Coord(Row::O, Column::N),
                dest: Coord(Row::O, Column::C),
                bridge_stick_size: Some(4),
                water_stick_size: Some(1),
                water_stick_successful: false,
            }
        ))
    );
}

#[test]
fn wildcard_profession_move() {
    assert_eq!(
        parse("XU片XY無撃裁"),
        Ok((
            "",
            Move::NoStepAndNoStick {
                src: Coord(Row::U, Column::X),
                prof: None,
                dest: Coord(Row::Y, Column::X),
            }
        ))
    );
}

#[test]
fn parachute_black() {
    assert_eq!(
        parse("黒弓MY"),
        Ok((
            "",
            Move::Parachute {
                color: Color::Huok2,
                prof: Profession::Gua2,
                dest: Coord(Row::Y, Column::M),
            }
        ))
    );
}

#[test]
fn parachute_red() {
    assert_eq!(
        parse("赤車CI"),
        Ok((
            "",
            Move::Parachute {
                color: Color::Kok1,
                prof: Profession::Kaun1,
                dest: Coord(Row::I, Column::C),
            }
        ))
    );
}

#[test]
fn tam_no_step_plain() {
    assert_eq!(
        parse("KE皇KI"),
        Ok((
            "",
            Move::TamNoStep {
                src: Coord(Row::E, Column::K),
                first_dest: None,
                second_dest: Coord(Row::I, Column::K),
            }
        ))
    );
}

#[test]
fn tam_no_step_unspecified_bracket() {
    assert_eq!(
        parse("KE皇[或]KI"),
        Ok((
            "",
            Move::TamNoStep {
                src: Coord(Row::E, Column::K),
                first_dest: None,
                second_dest: Coord(Row::I, Column::K),
            }
        ))
    );
}

#[test]
fn tam_no_step_bracketed_square() {
    assert_eq!(
        parse("KE皇[LE]KI"),
        Ok((
            "",
            Move::TamNoStep {
                src: Coord(Row::E, Column::K),
                first_dest: Some(Coord(Row::E, Column::L)),
                second_dest: Coord(Row::I, Column::K),
            }
        ))
    );
}

#[test]
fn tam_step_unspecified_hop() {
    assert_eq!(
        parse("PAU皇CAIMAU"),
        Ok((
            "",
            Move::TamStepUnspecified {
                src: Coord(Row::AU, Column::P),
                step: Coord(Row::AI, Column::C),
                second_dest: Coord(Row::AU, Column::M),
            }
        ))
    );
}

#[test]
fn tam_step_during_latter() {
    assert_eq!(
        parse("PAU皇[MAU]CAIMAU"),
        Ok((
            "",
            Move::TamStepDuringLatter {
                src: Coord(Row::AU, Column::P),
                first_dest: Some(Coord(Row::AU, Column::M)),
                step: Coord(Row::AI, Column::C),
                second_dest: Coord(Row::AU, Column::M),
            }
        ))
    );
}

#[test]
fn tam_step_during_latter_unspecified_first() {
    assert_eq!(
        parse("PAU皇[或]CAIMAU"),
        Ok((
            "",
            Move::TamStepDuringLatter {
                src: Coord(Row::AU, Column::P),
                first_dest: None,
                step: Coord(Row::AI, Column::C),
                second_dest: Coord(Row::AU, Column::M),
            }
        ))
    );
}

#[test]
fn tam_step_during_former() {
    assert_eq!(
        parse("KE皇LI[KE]KA"),
        Ok((
            "",
            Move::TamStepDuringFormer {
                src: Coord(Row::E, Column::K),
                step: Coord(Row::I, Column::L),
                first_dest: Some(Coord(Row::E, Column::K)),
                second_dest: Coord(Row::A, Column::K),
            }
        ))
    );
}

#[test]
fn tam_step_during_former_unspecified_first() {
    assert_eq!(
        parse("KE皇LI[或]KA"),
        Ok((
            "",
            Move::TamStepDuringFormer {
                src: Coord(Row::E, Column::K),
                step: Coord(Row::I, Column::L),
                first_dest: None,
                second_dest: Coord(Row::A, Column::K),
            }
        ))
    );
}

#[test]
fn parse_leaves_remainder_for_next_move() {
    let (rem, first) = parse("XU兵XY無撃裁黒弓MY").unwrap();
    assert_eq!(
        first,
        Move::NoStepAndNoStick {
            src: Coord(Row::U, Column::X),
            prof: Some(Profession::Kauk2),
            dest: Coord(Row::Y, Column::X),
        }
    );
    assert_eq!(rem, "黒弓MY");
    let (rem2, second) = parse(rem).unwrap();
    assert_eq!(rem2, "");
    assert_eq!(
        second,
        Move::Parachute {
            color: Color::Huok2,
            prof: Profession::Gua2,
            dest: Coord(Row::Y, Column::M),
        }
    );
}
