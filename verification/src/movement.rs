//! The move-notation grammar: primitive token parsers, the stick-throw
//! parsers, the eleven move-shape parsers, and the priority-ordered
//! dispatcher.
//!
//! Every executable parser is specified against a functional model of the
//! grammar: a `spec_parse_*` function maps the input character sequence to
//! either the decoded value together with the number of characters consumed,
//! or the error kind.  A parser returns the unconsumed suffix of its input,
//! so that a caller decoding a sequence of moves can feed the remainder to
//! the next call.

use vstd::prelude::*;
use vstd::string::StrSliceExecFns;
use crate::domain::{Column, Row, Coord, Profession, Color, ParseError};
use crate::domain::{
    spec_column_of, spec_is_row_char, spec_row_of, spec_profession_of,
    spec_profession_or_wildcard_of, spec_color_of, column_from_char, is_row_char,
    row_from_chars, profession_from_char, profession_or_wildcard_from_char,
    color_from_char, square_in_model,
};

verus! {

broadcast use vstd::seq_lib::lemma_seq_skip_of_skip;

/// How many of the first characters of `s` are row letters, capped at two:
/// the greedy row run of a square.
pub open spec fn spec_row_run_len(s: Seq<char>) -> int {
    if s.len() >= 1 && spec_is_row_char(s[0]) {
        if s.len() >= 2 && spec_is_row_char(s[1]) {
            2
        } else {
            1
        }
    } else {
        0
    }
}

/// The square grammar: one column symbol, then a greedy run of one or two
/// row letters, validated as a pair by the coordinate model.
pub open spec fn spec_parse_square(s: Seq<char>) -> Result<(Coord, int), ParseError> {
    if s.len() == 0 || spec_column_of(s[0]) is None {
        Err(ParseError::UnexpectedSymbol)
    } else {
        let k = spec_row_run_len(s.skip(1));
        if k == 0 {
            Err(ParseError::UnexpectedSymbol)
        } else {
            match spec_row_of(s.subrange(1, 1 + k)) {
                Some(row) => Ok((Coord(row, spec_column_of(s[0])->Some_0), 1 + k)),
                None => Err(ParseError::InvalidCoordinate),
            }
        }
    }
}

/// The profession grammar: exactly one symbol from the profession table.
pub open spec fn spec_parse_profession(s: Seq<char>) -> Result<(Profession, int), ParseError> {
    if s.len() >= 1 && spec_profession_of(s[0]) is Some {
        Ok((spec_profession_of(s[0])->Some_0, 1))
    } else {
        Err(ParseError::UnexpectedSymbol)
    }
}

/// The profession-or-wildcard grammar: one symbol from the table of the ten
/// professions plus the wildcard.
pub open spec fn spec_parse_profession_or_wildcard(s: Seq<char>) -> Result<
    (Option<Profession>, int),
    ParseError,
> {
    if s.len() >= 1 && spec_profession_or_wildcard_of(s[0]) is Some {
        Ok((spec_profession_or_wildcard_of(s[0])->Some_0, 1))
    } else {
        Err(ParseError::UnexpectedSymbol)
    }
}

/// Whether `c` belongs to the eight-symbol stick-throw alphabet.
pub open spec fn spec_is_stick_char(c: char) -> bool {
    c == '或' || c == '無' || c == '一' || c == '二' || c == '三' || c == '四' || c == '五'
        || c == '此'
}

/// How many of the first characters of `s` are stick-throw symbols, capped
/// at three: the greedy run captured after the water marker.
pub open spec fn spec_stick_run_len(s: Seq<char>) -> int {
    if s.len() >= 1 && spec_is_stick_char(s[0]) {
        if s.len() >= 2 && spec_is_stick_char(s[1]) {
            if s.len() >= 3 && spec_is_stick_char(s[2]) {
                3
            } else {
                2
            }
        } else {
            1
        }
    } else {
        0
    }
}

/// The closed table of legal water-stick runs.  Sizes three to five are
/// always successful; sizes zero to two exist only together with the
/// two-symbol failure marker; an unspecified size pairs with either outcome.
pub open spec fn spec_water_table(run: Seq<char>) -> Option<(Option<i32>, bool)> {
    if run.len() == 1 {
        match run[0] {
            '三' => Some((Some(3int as i32), true)),
            '四' => Some((Some(4int as i32), true)),
            '五' => Some((Some(5int as i32), true)),
            '或' => Some((None, true)),
            _ => None,
        }
    } else if run.len() == 3 && run[1] == '此' && run[2] == '無' {
        match run[0] {
            '無' => Some((Some(0int as i32), false)),
            '一' => Some((Some(1int as i32), false)),
            '二' => Some((Some(2int as i32), false)),
            '或' => Some((None, false)),
            _ => None,
        }
    } else {
        None
    }
}

/// The water-stick grammar: the water marker, then a greedy run of one to
/// three stick symbols, which must be one of the legal combinations.
pub open spec fn spec_parse_water_stick(s: Seq<char>) -> Result<
    ((Option<i32>, bool), int),
    ParseError,
> {
    if s.len() == 0 || s[0] != '水' {
        Err(ParseError::UnexpectedSymbol)
    } else {
        let k = spec_stick_run_len(s.skip(1));
        if k == 0 {
            Err(ParseError::UnexpectedSymbol)
        } else {
            match spec_water_table(s.subrange(1, 1 + k)) {
                Some(v) => Ok((v, 1 + k)),
                None => Err(ParseError::MalformedStickThrow),
            }
        }
    }
}

/// The bridge-stick size table: the six numerals and the unspecified marker.
pub open spec fn spec_bridge_size_of(c: char) -> Option<Option<i32>> {
    match c {
        '或' => Some(None),
        '無' => Some(Some(0int as i32)),
        '一' => Some(Some(1int as i32)),
        '二' => Some(Some(2int as i32)),
        '三' => Some(Some(3int as i32)),
        '四' => Some(Some(4int as i32)),
        '五' => Some(Some(5int as i32)),
        _ => None,
    }
}

/// The bridge-stick size grammar: the bridge marker, then exactly one size
/// symbol.  The outcome is not decoded here: the caller reads the optional
/// trailing failure marker.
pub open spec fn spec_parse_bridge_stick_size(s: Seq<char>) -> Result<
    (Option<i32>, int),
    ParseError,
> {
    if s.len() == 0 || s[0] != '橋' {
        Err(ParseError::UnexpectedSymbol)
    } else if s.len() >= 2 && spec_bridge_size_of(s[1]) is Some {
        Ok((spec_bridge_size_of(s[1])->Some_0, 2))
    } else {
        Err(ParseError::UnexpectedSymbol)
    }
}

/// Whether the two-symbol failure marker stands at the start of `s`.
pub open spec fn spec_failure_marker(s: Seq<char>) -> bool {
    s.len() >= 2 && s[0] == '此' && s[1] == '無'
}

/// Whether the three-symbol "no strike" tail stands at the start of `s`.
pub open spec fn spec_no_strike_tag(s: Seq<char>) -> bool {
    s.len() >= 3 && s[0] == '無' && s[1] == '撃' && s[2] == '裁'
}

/// The bracketed coordinator hint: an opening bracket, then either a square
/// or the unspecified marker, then a closing bracket.
pub open spec fn spec_parse_tam_sqbracket(s: Seq<char>) -> Result<
    (Option<Coord>, int),
    ParseError,
> {
    if s.len() == 0 || s[0] != '[' {
        Err(ParseError::UnexpectedSymbol)
    } else {
        match spec_parse_square(s.skip(1)) {
            Ok(p) => {
                if 1 + p.1 < s.len() && s[1 + p.1] == ']' {
                    Ok((Some(p.0), p.1 + 2))
                } else {
                    Err(ParseError::UnexpectedSymbol)
                }
            },
            Err(_) => {
                if s.len() >= 3 && s[1] == '或' && s[2] == ']' {
                    Ok((None, 3))
                } else {
                    Err(ParseError::UnexpectedSymbol)
                }
            },
        }
    }
}

/// Decodes one square: a column symbol and one or two row letters, handed
/// to the coordinate model for validation.  Returns the square and the
/// unconsumed suffix.
pub fn parse_square(s: &str) -> (r: Result<(&str, Coord), ParseError>)
    ensures
        match spec_parse_square(s@) {
            Ok(p) => r matches Ok(q) && q.1 == p.0 && q.0@ == s@.skip(p.1),
            Err(e) => r matches Err(e2) && e2 == e,
        },
{
    let len = s.unicode_len();
    if len == 0 {
        return Err(ParseError::UnexpectedSymbol);
    }
    let c0 = s.get_char(0);
    let col = match column_from_char(c0) {
        Some(col) => col,
        None => {
            return Err(ParseError::UnexpectedSymbol);
        },
    };
    let mut run: Vec<char> = Vec::new();
    if len >= 2 {
        let c1 = s.get_char(1);
        if is_row_char(c1) {
            run.push(c1);
            if len >= 3 {
                let c2 = s.get_char(2);
                if is_row_char(c2) {
                    run.push(c2);
                }
            }
        }
    }
    proof {
        assert(s@.skip(1).len() == s@.len() - 1);
        assert(forall|i: int| 0 <= i < s@.len() - 1 ==> s@.skip(1)[i] == s@[i + 1]);
        assert(run@.len() == spec_row_run_len(s@.skip(1)));
        assert(run@ =~= s@.subrange(1, 1 + run@.len() as int));
    }
    if run.len() == 0 {
        return Err(ParseError::UnexpectedSymbol);
    }
    if !square_in_model(c0, &run) {
        return Err(ParseError::InvalidCoordinate);
    }
    let row = match row_from_chars(&run) {
        Some(row) => row,
        None => {
            proof {
                assert(false);
            }
            return Err(ParseError::InvalidCoordinate);
        },
    };
    let n = 1 + run.len();
    let rem = s.substring_char(n, len);
    Ok((rem, Coord(row, col)))
}

/// Decodes one profession symbol.
pub fn parse_profession(s: &str) -> (r: Result<(&str, Profession), ParseError>)
    ensures
        match spec_parse_profession(s@) {
            Ok(p) => r matches Ok(q) && q.1 == p.0 && q.0@ == s@.skip(p.1),
            Err(e) => r matches Err(e2) && e2 == e,
        },
{
    let len = s.unicode_len();
    if len == 0 {
        return Err(ParseError::UnexpectedSymbol);
    }
    match profession_from_char(s.get_char(0)) {
        Some(p) => Ok((s.substring_char(1, len), p)),
        None => Err(ParseError::UnexpectedSymbol),
    }
}

/// Decodes one profession symbol or the wildcard symbol, the latter giving
/// "profession unknown".
pub fn parse_profession_or_wildcard(s: &str) -> (r: Result<
    (&str, Option<Profession>),
    ParseError,
>)
    ensures
        match spec_parse_profession_or_wildcard(s@) {
            Ok(p) => r matches Ok(q) && q.1 == p.0 && q.0@ == s@.skip(p.1),
            Err(e) => r matches Err(e2) && e2 == e,
        },
{
    let len = s.unicode_len();
    if len == 0 {
        return Err(ParseError::UnexpectedSymbol);
    }
    match profession_or_wildcard_from_char(s.get_char(0)) {
        Some(p) => Ok((s.substring_char(1, len), p)),
        None => Err(ParseError::UnexpectedSymbol),
    }
}

/// Looks a captured stick-throw run up in the closed table of legal
/// water-stick combinations.
fn water_from_run(run: &Vec<char>) -> (r: Option<(Option<i32>, bool)>)
    ensures
        r == spec_water_table(run@),
{
    if run.len() == 1 {
        match run[0] {
            '三' => Some((Some(3), true)),
            '四' => Some((Some(4), true)),
            '五' => Some((Some(5), true)),
            '或' => Some((None, true)),
            _ => None,
        }
    } else if run.len() == 3 && run[1] == '此' && run[2] == '無' {
        match run[0] {
            '無' => Some((Some(0), false)),
            '一' => Some((Some(1), false)),
            '二' => Some((Some(2), false)),
            '或' => Some((None, false)),
            _ => None,
        }
    } else {
        None
    }
}

/// Whether `c` belongs to the stick-throw alphabet.
fn is_stick_char(c: char) -> (r: bool)
    ensures
        r == spec_is_stick_char(c),
{
    c == '或' || c == '無' || c == '一' || c == '二' || c == '三' || c == '四' || c == '五'
        || c == '此'
}

/// Decodes a water-stick throw: the water marker, then one to three stick
/// symbols matched whole against the table of legal combinations.  Returns
/// the thrown size (if stated) and whether the crossing succeeded.
pub fn parse_water_stick(s: &str) -> (r: Result<(&str, (Option<i32>, bool)), ParseError>)
    ensures
        match spec_parse_water_stick(s@) {
            Ok(p) => r matches Ok(q) && q.1 == p.0 && q.0@ == s@.skip(p.1),
            Err(e) => r matches Err(e2) && e2 == e,
        },
{
    let len = s.unicode_len();
    if len == 0 || s.get_char(0) != '水' {
        return Err(ParseError::UnexpectedSymbol);
    }
    let mut run: Vec<char> = Vec::new();
    if len >= 2 {
        let c1 = s.get_char(1);
        if is_stick_char(c1) {
            run.push(c1);
            if len >= 3 {
                let c2 = s.get_char(2);
                if is_stick_char(c2) {
                    run.push(c2);
                    if len >= 4 {
                        let c3 = s.get_char(3);
                        if is_stick_char(c3) {
                            run.push(c3);
                        }
                    }
                }
            }
        }
    }
    proof {
        assert(s@.skip(1).len() == s@.len() - 1);
        assert(forall|i: int| 0 <= i < s@.len() - 1 ==> s@.skip(1)[i] == s@[i + 1]);
        assert(run@.len() == spec_stick_run_len(s@.skip(1)));
        assert(run@ =~= s@.subrange(1, 1 + run@.len() as int));
    }
    if run.len() == 0 {
        return Err(ParseError::UnexpectedSymbol);
    }
    match water_from_run(&run) {
        Some(v) => {
            let n = 1 + run.len();
            Ok((s.substring_char(n, len), v))
        },
        None => Err(ParseError::MalformedStickThrow),
    }
}

/// Looks a character up in the bridge-stick size table.
fn bridge_size_from_char(c: char) -> (r: Option<Option<i32>>)
    ensures
        r == spec_bridge_size_of(c),
{
    match c {
        '或' => Some(None),
        '無' => Some(Some(0)),
        '一' => Some(Some(1)),
        '二' => Some(Some(2)),
        '三' => Some(Some(3)),
        '四' => Some(Some(4)),
        '五' => Some(Some(5)),
        _ => None,
    }
}

/// Decodes a bridge-stick size: the bridge marker, then exactly one size
/// symbol.  Success or failure of the crossing is decoded separately by the
/// caller from the optional trailing failure marker.
pub fn parse_bridge_stick_size(s: &str) -> (r: Result<(&str, Option<i32>), ParseError>)
    ensures
        match spec_parse_bridge_stick_size(s@) {
            Ok(p) => r matches Ok(q) && q.1 == p.0 && q.0@ == s@.skip(p.1),
            Err(e) => r matches Err(e2) && e2 == e,
        },
{
    let len = s.unicode_len();
    if len == 0 || s.get_char(0) != '橋' {
        return Err(ParseError::UnexpectedSymbol);
    }
    if len >= 2 {
        match bridge_size_from_char(s.get_char(1)) {
            Some(v) => Ok((s.substring_char(2, len), v)),
            None => Err(ParseError::UnexpectedSymbol),
        }
    } else {
        Err(ParseError::UnexpectedSymbol)
    }
}

/// A fully decoded move: the eleven shapes of the notation, grouped into
/// the seven ordinary-piece shapes, the four coordinator shapes, and the
/// parachute shape.
#[derive(Clone, Copy, PartialEq, Eq, Debug)]
#[allow(inconsistent_fields)]
pub enum Move {
    NoStepAndNoStick { src: Coord, prof: Option<Profession>, dest: Coord },
    NoStepAndWaterStick {
        src: Coord,
        prof: Option<Profession>,
        dest: Coord,
        water_stick_size: Option<i32>,
        water_stick_successful: bool,
    },
    StepAndNoStick { src: Coord, prof: Option<Profession>, step: Coord, dest: Coord },
    StepAndWaterStick {
        src: Coord,
        prof: Option<Profession>,
        step: Coord,
        dest: Coord,
        water_stick_size: Option<i32>,
        water_stick_successful: bool,
    },
    StepAndBridgeStick {
        src: Coord,
        prof: Option<Profession>,
        step: Coord,
        dest: Coord,
        bridge_stick_size: Option<i32>,
        bridge_stick_successful: bool,
    },
    /// The water stage is only reachable after the bridge crossing
    /// succeeded, so this shape records the bridge size but no bridge
    /// outcome.
    StepAndBridgeStickAndWaterStick {
        src: Coord,
        prof: Option<Profession>,
        step: Coord,
        dest: Coord,
        bridge_stick_size: Option<i32>,
        water_stick_size: Option<i32>,
        water_stick_successful: bool,
    },
    TamNoStep { src: Coord, first_dest: Option<Coord>, second_dest: Coord },
    TamStepUnspecified { src: Coord, step: Coord, second_dest: Coord },
    TamStepDuringFormer {
        src: Coord,
        step: Coord,
        first_dest: Option<Coord>,
        second_dest: Coord,
    },
    TamStepDuringLatter {
        src: Coord,
        first_dest: Option<Coord>,
        step: Coord,
        second_dest: Coord,
    },
    Parachute { color: Color, prof: Profession, dest: Coord },
}

/// The shared head of the seven ordinary shapes: a source square and a
/// profession-or-wildcard symbol.
pub open spec fn spec_parse_src_prof(s: Seq<char>) -> Result<
    ((Coord, Option<Profession>), int),
    ParseError,
> {
    match spec_parse_square(s) {
        Err(e) => Err(e),
        Ok((src, n1)) => match spec_parse_profession_or_wildcard(s.skip(n1)) {
            Err(e) => Err(e),
            Ok((prof, n2)) => Ok(((src, prof), n1 + n2)),
        },
    }
}

/// Source, profession and destination: the head of the no-step shapes.
pub open spec fn spec_parse_src_prof_dest(s: Seq<char>) -> Result<
    ((Coord, Option<Profession>, Coord), int),
    ParseError,
> {
    match spec_parse_src_prof(s) {
        Err(e) => Err(e),
        Ok(((src, prof), m)) => match spec_parse_square(s.skip(m)) {
            Err(e) => Err(e),
            Ok((dest, n3)) => Ok(((src, prof, dest), m + n3)),
        },
    }
}

/// Source, profession, step and destination: the head of the step shapes.
pub open spec fn spec_parse_src_prof_step_dest(s: Seq<char>) -> Result<
    ((Coord, Option<Profession>, Coord, Coord), int),
    ParseError,
> {
    match spec_parse_src_prof(s) {
        Err(e) => Err(e),
        Ok(((src, prof), m)) => match spec_parse_square(s.skip(m)) {
            Err(e) => Err(e),
            Ok((step, n3)) => match spec_parse_square(s.skip(m + n3)) {
                Err(e) => Err(e),
                Ok((dest, n4)) => Ok(((src, prof, step, dest), m + n3 + n4)),
            },
        },
    }
}

/// An ordinary move with neither step nor stick throw, closed by the
/// "no strike" tail.
pub open spec fn spec_parse_no_step_and_no_stick(s: Seq<char>) -> Result<
    (Move, int),
    ParseError,
> {
    match spec_parse_src_prof_dest(s) {
        Err(e) => Err(e),
        Ok(((src, prof, dest), m)) => {
            if spec_no_strike_tag(s.skip(m)) {
                Ok((Move::NoStepAndNoStick { src, prof, dest }, m + 3))
            } else {
                Err(ParseError::UnexpectedSymbol)
            }
        },
    }
}

/// An ordinary move without a step whose destination lies across water.
pub open spec fn spec_parse_no_step_and_water_stick(s: Seq<char>) -> Result<
    (Move, int),
    ParseError,
> {
    match spec_parse_src_prof_dest(s) {
        Err(e) => Err(e),
        Ok(((src, prof, dest), m)) => match spec_parse_water_stick(s.skip(m)) {
            Err(e) => Err(e),
            Ok(((water_stick_size, water_stick_successful), n4)) => Ok((
                Move::NoStepAndWaterStick {
                    src,
                    prof,
                    dest,
                    water_stick_size,
                    water_stick_successful,
                },
                m + n4,
            )),
        },
    }
}

/// An ordinary move with a step and no stick throw.
pub open spec fn spec_parse_step_and_no_stick(s: Seq<char>) -> Result<(Move, int), ParseError> {
    match spec_parse_src_prof_step_dest(s) {
        Err(e) => Err(e),
        Ok(((src, prof, step, dest), m)) => {
            if spec_no_strike_tag(s.skip(m)) {
                Ok((Move::StepAndNoStick { src, prof, step, dest }, m + 3))
            } else {
                Err(ParseError::UnexpectedSymbol)
            }
        },
    }
}

/// An ordinary move with a step whose destination lies across water.
pub open spec fn spec_parse_step_and_water_stick(s: Seq<char>) -> Result<
    (Move, int),
    ParseError,
> {
    match spec_parse_src_prof_step_dest(s) {
        Err(e) => Err(e),
        Ok(((src, prof, step, dest), m)) => match spec_parse_water_stick(s.skip(m)) {
            Err(e) => Err(e),
            Ok(((water_stick_size, water_stick_successful), n5)) => Ok((
                Move::StepAndWaterStick {
                    src,
                    prof,
                    step,
                    dest,
                    water_stick_size,
                    water_stick_successful,
                },
                m + n5,
            )),
        },
    }
}

/// The common head of the two bridge shapes: a step move followed by the
/// bridge marker and a size symbol.
pub open spec fn spec_parse_step_bridge_head(s: Seq<char>) -> Result<
    ((Coord, Option<Profession>, Coord, Coord, Option<i32>), int),
    ParseError,
> {
    match spec_parse_src_prof_step_dest(s) {
        Err(e) => Err(e),
        Ok(((src, prof, step, dest), m)) => match spec_parse_bridge_stick_size(s.skip(m)) {
            Err(e) => Err(e),
            Ok((size, n5)) => Ok(((src, prof, step, dest, size), m + n5)),
        },
    }
}

/// A bridge-stick move: the outcome is success exactly when the two-symbol
/// failure marker does not follow the size.
pub open spec fn spec_parse_step_and_bridge_stick(s: Seq<char>) -> Result<
    (Move, int),
    ParseError,
> {
    match spec_parse_step_bridge_head(s) {
        Err(e) => Err(e),
        Ok(((src, prof, step, dest, bridge_stick_size), m)) => {
            if spec_failure_marker(s.skip(m)) {
                Ok((
                    Move::StepAndBridgeStick {
                        src,
                        prof,
                        step,
                        dest,
                        bridge_stick_size,
                        bridge_stick_successful: false,
                    },
                    m + 2,
                ))
            } else {
                Ok((
                    Move::StepAndBridgeStick {
                        src,
                        prof,
                        step,
                        dest,
                        bridge_stick_size,
                        bridge_stick_successful: true,
                    },
                    m,
                ))
            }
        },
    }
}

/// A bridge crossing followed by a water crossing: reaching the water stage
/// presupposes that the bridge crossing succeeded, so only the bridge size
/// is recorded.
pub open spec fn spec_parse_step_and_bridge_stick_and_water_stick(s: Seq<char>) -> Result<
    (Move, int),
    ParseError,
> {
    match spec_parse_step_bridge_head(s) {
        Err(e) => Err(e),
        Ok(((src, prof, step, dest, bridge_stick_size), m)) => match spec_parse_water_stick(
            s.skip(m),
        ) {
            Err(e) => Err(e),
            Ok(((water_stick_size, water_stick_successful), n6)) => Ok((
                Move::StepAndBridgeStickAndWaterStick {
                    src,
                    prof,
                    step,
                    dest,
                    bridge_stick_size,
                    water_stick_size,
                    water_stick_successful,
                },
                m + n6,
            )),
        },
    }
}

/// The shared head of the coordinator shapes: a source square followed by
/// the coordinator symbol.
pub open spec fn spec_parse_tam_head(s: Seq<char>) -> Result<(Coord, int), ParseError> {
    match spec_parse_square(s) {
        Err(e) => Err(e),
        Ok((src, n1)) => {
            if n1 < s.len() && s[n1] == '皇' {
                Ok((src, n1 + 1))
            } else {
                Err(ParseError::UnexpectedSymbol)
            }
        },
    }
}

/// A coordinator move without a step: an optional bracketed hint for the
/// first destination, then the second destination.
pub open spec fn spec_parse_tam_no_step(s: Seq<char>) -> Result<(Move, int), ParseError> {
    match spec_parse_tam_head(s) {
        Err(e) => Err(e),
        Ok((src, h)) => match spec_parse_tam_sqbracket(s.skip(h)) {
            Ok((first_dest, nb)) => match spec_parse_square(s.skip(h + nb)) {
                Err(e) => Err(e),
                Ok((second_dest, n3)) => Ok((
                    Move::TamNoStep { src, first_dest, second_dest },
                    h + nb + n3,
                )),
            },
            Err(_) => match spec_parse_square(s.skip(h)) {
                Err(e) => Err(e),
                Ok((second_dest, n3)) => Ok((
                    Move::TamNoStep { src, first_dest: None, second_dest },
                    h + n3,
                )),
            },
        },
    }
}

/// A coordinator move with a step that the record does not assign to
/// either hop.
pub open spec fn spec_parse_tam_step_unspecified(s: Seq<char>) -> Result<(Move, int), ParseError> {
    match spec_parse_tam_head(s) {
        Err(e) => Err(e),
        Ok((src, h)) => match spec_parse_square(s.skip(h)) {
            Err(e) => Err(e),
            Ok((step, n2)) => match spec_parse_square(s.skip(h + n2)) {
                Err(e) => Err(e),
                Ok((second_dest, n3)) => Ok((
                    Move::TamStepUnspecified { src, step, second_dest },
                    h + n2 + n3,
                )),
            },
        },
    }
}

/// A coordinator move whose step belongs to the former hop: the bracketed
/// hint follows the step.
pub open spec fn spec_parse_tam_step_during_former(s: Seq<char>) -> Result<
    (Move, int),
    ParseError,
> {
    match spec_parse_tam_head(s) {
        Err(e) => Err(e),
        Ok((src, h)) => match spec_parse_square(s.skip(h)) {
            Err(e) => Err(e),
            Ok((step, n2)) => match spec_parse_tam_sqbracket(s.skip(h + n2)) {
                Err(e) => Err(e),
                Ok((first_dest, nb)) => match spec_parse_square(s.skip(h + n2 + nb)) {
                    Err(e) => Err(e),
                    Ok((second_dest, n4)) => Ok((
                        Move::TamStepDuringFormer { src, step, first_dest, second_dest },
                        h + n2 + nb + n4,
                    )),
                },
            },
        },
    }
}

/// A coordinator move whose step belongs to the latter hop: the bracketed
/// hint precedes the step.
pub open spec fn spec_parse_tam_step_during_latter(s: Seq<char>) -> Result<
    (Move, int),
    ParseError,
> {
    match spec_parse_tam_head(s) {
        Err(e) => Err(e),
        Ok((src, h)) => match spec_parse_tam_sqbracket(s.skip(h)) {
            Err(e) => Err(e),
            Ok((first_dest, nb)) => match spec_parse_square(s.skip(h + nb)) {
                Err(e) => Err(e),
                Ok((step, n3)) => match spec_parse_square(s.skip(h + nb + n3)) {
                    Err(e) => Err(e),
                    Ok((second_dest, n4)) => Ok((
                        Move::TamStepDuringLatter { src, first_dest, step, second_dest },
                        h + nb + n3 + n4,
                    )),
                },
            },
        },
    }
}

/// A parachute move: a color symbol, a concrete profession and the
/// destination square.
pub open spec fn spec_parse_parachute(s: Seq<char>) -> Result<(Move, int), ParseError> {
    if s.len() == 0 || spec_color_of(s[0]) is None {
        Err(ParseError::UnexpectedSymbol)
    } else {
        match spec_parse_profession(s.skip(1)) {
            Err(e) => Err(e),
            Ok((prof, n2)) => match spec_parse_square(s.skip(1 + n2)) {
                Err(e) => Err(e),
                Ok((dest, n3)) => Ok((
                    Move::Parachute { color: spec_color_of(s[0])->Some_0, prof, dest },
                    1 + n2 + n3,
                )),
            },
        }
    }
}

/// The dispatcher: the eleven shapes are tried in a fixed priority order,
/// most specific first, and the first that matches wins.  When none
/// matches, the whole parse fails.
pub open spec fn spec_parse(s: Seq<char>) -> Result<(Move, int), ParseError> {
    if spec_parse_parachute(s) is Ok {
        spec_parse_parachute(s)
    } else if spec_parse_tam_step_during_former(s) is Ok {
        spec_parse_tam_step_during_former(s)
    } else if spec_parse_tam_step_during_latter(s) is Ok {
        spec_parse_tam_step_during_latter(s)
    } else if spec_parse_tam_step_unspecified(s) is Ok {
        spec_parse_tam_step_unspecified(s)
    } else if spec_parse_tam_no_step(s) is Ok {
        spec_parse_tam_no_step(s)
    } else if spec_parse_step_and_bridge_stick_and_water_stick(s) is Ok {
        spec_parse_step_and_bridge_stick_and_water_stick(s)
    } else if spec_parse_step_and_bridge_stick(s) is Ok {
        spec_parse_step_and_bridge_stick(s)
    } else if spec_parse_step_and_water_stick(s) is Ok {
        spec_parse_step_and_water_stick(s)
    } else if spec_parse_step_and_no_stick(s) is Ok {
        spec_parse_step_and_no_stick(s)
    } else if spec_parse_no_step_and_water_stick(s) is Ok {
        spec_parse_no_step_and_water_stick(s)
    } else if spec_parse_no_step_and_no_stick(s) is Ok {
        spec_parse_no_step_and_no_stick(s)
    } else {
        Err(ParseError::NoMatchingShape)
    }
}

/// Decodes the bracketed coordinator hint `[…]`: a square gives a known
/// first destination, the unspecified marker gives an unknown one.
pub fn parse_tam_sqbracket(s: &str) -> (r: Result<(&str, Option<Coord>), ParseError>)
    ensures
        match spec_parse_tam_sqbracket(s@) {
            Ok(p) => r matches Ok(q) && q.1 == p.0 && q.0@ == s@.skip(p.1),
            Err(e) => r matches Err(e2) && e2 == e,
        },
{
    let len = s.unicode_len();
    if len == 0 || s.get_char(0) != '[' {
        return Err(ParseError::UnexpectedSymbol);
    }
    let rest = s.substring_char(1, len);
    match parse_square(rest) {
        Ok((rem2, c)) => {
            proof {
                assert(rest@ =~= s@.skip(1));
            }
            let rem2len = rem2.unicode_len();
            if rem2len >= 1 && rem2.get_char(0) == ']' {
                let ghost n = spec_parse_square(s@.skip(1))->Ok_0.1;
                proof {
                    assert(rem2@ == s@.skip(1).skip(n));
                    assert(rem2@[0] == s@[1 + n]);
                    assert(rem2@.skip(1) =~= s@.skip(1 + n + 1));
                }
                Ok((rem2.substring_char(1, rem2len), Some(c)))
            } else {
                Err(ParseError::UnexpectedSymbol)
            }
        },
        Err(_) => {
            proof {
                assert(rest@ =~= s@.skip(1));
            }
            if len >= 3 && s.get_char(1) == '或' && s.get_char(2) == ']' {
                Ok((s.substring_char(3, len), None))
            } else {
                Err(ParseError::UnexpectedSymbol)
            }
        },
    }
}

/// Skipping `a` characters and then `b` more is skipping `a + b`.
proof fn chain(s: Seq<char>, a: int, b: int)
    requires
        0 <= a,
        0 <= b,
        a + b <= s.len(),
    ensures
        s.skip(a).skip(b) == s.skip(a + b),
{
    assert(s.skip(a).skip(b) =~= s.skip(a + b));
}

/// Decodes the shared head of the ordinary shapes: a source square and a
/// profession-or-wildcard symbol.
fn parse_src_prof(s: &str) -> (r: Result<(&str, (Coord, Option<Profession>)), ParseError>)
    ensures
        match spec_parse_src_prof(s@) {
            Ok(p) => r matches Ok(q) && q.1 == p.0 && q.0@ == s@.skip(p.1),
            Err(e) => r matches Err(e2) && e2 == e,
        },
{
    let (rem1, src) = match parse_square(s) {
        Ok(v) => v,
        Err(e) => {
            return Err(e);
        },
    };
    let ghost n1 = spec_parse_square(s@)->Ok_0.1;
    proof {
        assert(1 <= n1 <= s@.len());
    }
    let (rem2, prof) = match parse_profession_or_wildcard(rem1) {
        Ok(v) => v,
        Err(e) => {
            return Err(e);
        },
    };
    let ghost n2 = spec_parse_profession_or_wildcard(s@.skip(n1))->Ok_0.1;
    proof {
        chain(s@, n1, n2);
    }
    Ok((rem2, (src, prof)))
}

/// Decodes a source square, a profession and the destination: the head of
/// the two no-step shapes.
fn parse_src_prof_dest(s: &str) -> (r: Result<
    (&str, (Coord, Option<Profession>, Coord)),
    ParseError,
>)
    ensures
        match spec_parse_src_prof_dest(s@) {
            Ok(p) => r matches Ok(q) && q.1 == p.0 && q.0@ == s@.skip(p.1),
            Err(e) => r matches Err(e2) && e2 == e,
        },
{
    let (rem1, sp) = match parse_src_prof(s) {
        Ok(v) => v,
        Err(e) => {
            return Err(e);
        },
    };
    let ghost m = spec_parse_src_prof(s@)->Ok_0.1;
    proof {
        assert(2 <= m <= s@.len());
    }
    let (rem2, dest) = match parse_square(rem1) {
        Ok(v) => v,
        Err(e) => {
            return Err(e);
        },
    };
    let ghost n3 = spec_parse_square(s@.skip(m))->Ok_0.1;
    proof {
        assert(1 <= n3 <= s@.skip(m).len());
        chain(s@, m, n3);
    }
    Ok((rem2, (sp.0, sp.1, dest)))
}

/// Decodes a source square, a profession, the step and the destination:
/// the head of the step shapes.
fn parse_src_prof_step_dest(s: &str) -> (r: Result<
    (&str, (Coord, Option<Profession>, Coord, Coord)),
    ParseError,
>)
    ensures
        match spec_parse_src_prof_step_dest(s@) {
            Ok(p) => r matches Ok(q) && q.1 == p.0 && q.0@ == s@.skip(p.1),
            Err(e) => r matches Err(e2) && e2 == e,
        },
{
    let (rem1, sp) = match parse_src_prof(s) {
        Ok(v) => v,
        Err(e) => {
            return Err(e);
        },
    };
    let ghost m = spec_parse_src_prof(s@)->Ok_0.1;
    proof {
        assert(2 <= m <= s@.len());
    }
    let (rem2, step) = match parse_square(rem1) {
        Ok(v) => v,
        Err(e) => {
            return Err(e);
        },
    };
    let ghost n3 = spec_parse_square(s@.skip(m))->Ok_0.1;
    proof {
        assert(1 <= n3 <= s@.skip(m).len());
        chain(s@, m, n3);
    }
    let (rem3, dest) = match parse_square(rem2) {
        Ok(v) => v,
        Err(e) => {
            return Err(e);
        },
    };
    let ghost n4 = spec_parse_square(s@.skip(m + n3))->Ok_0.1;
    proof {
        assert(1 <= n4 <= s@.skip(m + n3).len());
        chain(s@, m + n3, n4);
    }
    Ok((rem3, (sp.0, sp.1, step, dest)))
}

/// Reads the three-symbol "no strike" tail; on success hands back the
/// remainder after it.
fn parse_no_strike_tag(s: &str) -> (r: Result<&str, ParseError>)
    ensures
        match r {
            Ok(rem) => spec_no_strike_tag(s@) && rem@ == s@.skip(3),
            Err(e) => !spec_no_strike_tag(s@) && e == ParseError::UnexpectedSymbol,
        },
{
    let len = s.unicode_len();
    if len >= 3 && s.get_char(0) == '無' && s.get_char(1) == '撃' && s.get_char(2) == '裁' {
        Ok(s.substring_char(3, len))
    } else {
        Err(ParseError::UnexpectedSymbol)
    }
}

fn parse_no_step_and_no_stick(s: &str) -> (r: Result<(&str, Move), ParseError>)
    ensures
        match spec_parse_no_step_and_no_stick(s@) {
            Ok(p) => r matches Ok(q) && q.1 == p.0 && q.0@ == s@.skip(p.1),
            Err(e) => r matches Err(e2) && e2 == e,
        },
{
    let (rem1, spd) = match parse_src_prof_dest(s) {
        Ok(v) => v,
        Err(e) => {
            return Err(e);
        },
    };
    let ghost m = spec_parse_src_prof_dest(s@)->Ok_0.1;
    proof {
        assert(3 <= m <= s@.len());
    }
    let rem = match parse_no_strike_tag(rem1) {
        Ok(v) => v,
        Err(e) => {
            return Err(e);
        },
    };
    proof {
        chain(s@, m, 3);
    }
    Ok((rem, Move::NoStepAndNoStick { src: spd.0, prof: spd.1, dest: spd.2 }))
}

fn parse_no_step_and_water_stick(s: &str) -> (r: Result<(&str, Move), ParseError>)
    ensures
        match spec_parse_no_step_and_water_stick(s@) {
            Ok(p) => r matches Ok(q) && q.1 == p.0 && q.0@ == s@.skip(p.1),
            Err(e) => r matches Err(e2) && e2 == e,
        },
{
    let (rem1, spd) = match parse_src_prof_dest(s) {
        Ok(v) => v,
        Err(e) => {
            return Err(e);
        },
    };
    let ghost m = spec_parse_src_prof_dest(s@)->Ok_0.1;
    proof {
        assert(3 <= m <= s@.len());
    }
    let (rem2, stick) = match parse_water_stick(rem1) {
        Ok(v) => v,
        Err(e) => {
            return Err(e);
        },
    };
    let ghost n4 = spec_parse_water_stick(s@.skip(m))->Ok_0.1;
    proof {
        assert(1 <= n4 <= s@.skip(m).len());
        chain(s@, m, n4);
    }
    Ok((
        rem2,
        Move::NoStepAndWaterStick {
            src: spd.0,
            prof: spd.1,
            dest: spd.2,
            water_stick_size: stick.0,
            water_stick_successful: stick.1,
        },
    ))
}

fn parse_step_and_no_stick(s: &str) -> (r: Result<(&str, Move), ParseError>)
    ensures
        match spec_parse_step_and_no_stick(s@) {
            Ok(p) => r matches Ok(q) && q.1 == p.0 && q.0@ == s@.skip(p.1),
            Err(e) => r matches Err(e2) && e2 == e,
        },
{
    let (rem1, spsd) = match parse_src_prof_step_dest(s) {
        Ok(v) => v,
        Err(e) => {
            return Err(e);
        },
    };
    let ghost m = spec_parse_src_prof_step_dest(s@)->Ok_0.1;
    proof {
        assert(4 <= m <= s@.len());
    }
    let rem = match parse_no_strike_tag(rem1) {
        Ok(v) => v,
        Err(e) => {
            return Err(e);
        },
    };
    proof {
        chain(s@, m, 3);
    }
    Ok((
        rem,
        Move::StepAndNoStick { src: spsd.0, prof: spsd.1, step: spsd.2, dest: spsd.3 },
    ))
}

fn parse_step_and_water_stick(s: &str) -> (r: Result<(&str, Move), ParseError>)
    ensures
        match spec_parse_step_and_water_stick(s@) {
            Ok(p) => r matches Ok(q) && q.1 == p.0 && q.0@ == s@.skip(p.1),
            Err(e) => r matches Err(e2) && e2 == e,
        },
{
    let (rem1, spsd) = match parse_src_prof_step_dest(s) {
        Ok(v) => v,
        Err(e) => {
            return Err(e);
        },
    };
    let ghost m = spec_parse_src_prof_step_dest(s@)->Ok_0.1;
    proof {
        assert(4 <= m <= s@.len());
    }
    let (rem2, stick) = match parse_water_stick(rem1) {
        Ok(v) => v,
        Err(e) => {
            return Err(e);
        },
    };
    let ghost n5 = spec_parse_water_stick(s@.skip(m))->Ok_0.1;
    proof {
        assert(1 <= n5 <= s@.skip(m).len());
        chain(s@, m, n5);
    }
    Ok((
        rem2,
        Move::StepAndWaterStick {
            src: spsd.0,
            prof: spsd.1,
            step: spsd.2,
            dest: spsd.3,
            water_stick_size: stick.0,
            water_stick_successful: stick.1,
        },
    ))
}

/// Decodes the common head of the bridge shapes, through the size symbol.
fn parse_step_bridge_head(s: &str) -> (r: Result<
    (&str, (Coord, Option<Profession>, Coord, Coord, Option<i32>)),
    ParseError,
>)
    ensures
        match spec_parse_step_bridge_head(s@) {
            Ok(p) => r matches Ok(q) && q.1 == p.0 && q.0@ == s@.skip(p.1),
            Err(e) => r matches Err(e2) && e2 == e,
        },
{
    let (rem1, spsd) = match parse_src_prof_step_dest(s) {
        Ok(v) => v,
        Err(e) => {
            return Err(e);
        },
    };
    let ghost m = spec_parse_src_prof_step_dest(s@)->Ok_0.1;
    proof {
        assert(4 <= m <= s@.len());
    }
    let (rem2, size) = match parse_bridge_stick_size(rem1) {
        Ok(v) => v,
        Err(e) => {
            return Err(e);
        },
    };
    let ghost n5 = spec_parse_bridge_stick_size(s@.skip(m))->Ok_0.1;
    proof {
        assert(n5 == 2 && 2 <= s@.skip(m).len());
        chain(s@, m, n5);
    }
    Ok((rem2, (spsd.0, spsd.1, spsd.2, spsd.3, size)))
}

fn parse_step_and_bridge_stick(s: &str) -> (r: Result<(&str, Move), ParseError>)
    ensures
        match spec_parse_step_and_bridge_stick(s@) {
            Ok(p) => r matches Ok(q) && q.1 == p.0 && q.0@ == s@.skip(p.1),
            Err(e) => r matches Err(e2) && e2 == e,
        },
{
    let (rem1, head) = match parse_step_bridge_head(s) {
        Ok(v) => v,
        Err(e) => {
            return Err(e);
        },
    };
    let ghost m = spec_parse_step_bridge_head(s@)->Ok_0.1;
    proof {
        assert(6 <= m <= s@.len());
    }
    let rem1len = rem1.unicode_len();
    if rem1len >= 2 && rem1.get_char(0) == '此' && rem1.get_char(1) == '無' {
        proof {
            assert(spec_failure_marker(s@.skip(m)));
            chain(s@, m, 2);
        }
        Ok((
            rem1.substring_char(2, rem1len),
            Move::StepAndBridgeStick {
                src: head.0,
                prof: head.1,
                step: head.2,
                dest: head.3,
                bridge_stick_size: head.4,
                bridge_stick_successful: false,
            },
        ))
    } else {
        proof {
            assert(!spec_failure_marker(s@.skip(m)));
        }
        Ok((
            rem1,
            Move::StepAndBridgeStick {
                src: head.0,
                prof: head.1,
                step: head.2,
                dest: head.3,
                bridge_stick_size: head.4,
                bridge_stick_successful: true,
            },
        ))
    }
}

fn parse_step_and_bridge_stick_and_water_stick(s: &str) -> (r: Result<(&str, Move), ParseError>)
    ensures
        match spec_parse_step_and_bridge_stick_and_water_stick(s@) {
            Ok(p) => r matches Ok(q) && q.1 == p.0 && q.0@ == s@.skip(p.1),
            Err(e) => r matches Err(e2) && e2 == e,
        },
{
    let (rem1, head) = match parse_step_bridge_head(s) {
        Ok(v) => v,
        Err(e) => {
            return Err(e);
        },
    };
    let ghost m = spec_parse_step_bridge_head(s@)->Ok_0.1;
    proof {
        assert(6 <= m <= s@.len());
    }
    let (rem2, stick) = match parse_water_stick(rem1) {
        Ok(v) => v,
        Err(e) => {
            return Err(e);
        },
    };
    let ghost n6 = spec_parse_water_stick(s@.skip(m))->Ok_0.1;
    proof {
        assert(1 <= n6 <= s@.skip(m).len());
        chain(s@, m, n6);
    }
    Ok((
        rem2,
        Move::StepAndBridgeStickAndWaterStick {
            src: head.0,
            prof: head.1,
            step: head.2,
            dest: head.3,
            bridge_stick_size: head.4,
            water_stick_size: stick.0,
            water_stick_successful: stick.1,
        },
    ))
}

/// Decodes the shared head of the coordinator shapes: a source square and
/// the coordinator symbol.
fn parse_tam_head(s: &str) -> (r: Result<(&str, Coord), ParseError>)
    ensures
        match spec_parse_tam_head(s@) {
            Ok(p) => r matches Ok(q) && q.1 == p.0 && q.0@ == s@.skip(p.1),
            Err(e) => r matches Err(e2) && e2 == e,
        },
{
    let (rem1, src) = match parse_square(s) {
        Ok(v) => v,
        Err(e) => {
            return Err(e);
        },
    };
    let ghost n1 = spec_parse_square(s@)->Ok_0.1;
    proof {
        assert(1 <= n1 <= s@.len());
    }
    let rem1len = rem1.unicode_len();
    if rem1len >= 1 && rem1.get_char(0) == '皇' {
        proof {
            chain(s@, n1, 1);
        }
        Ok((rem1.substring_char(1, rem1len), src))
    } else {
        Err(ParseError::UnexpectedSymbol)
    }
}

fn parse_tam_no_step(s: &str) -> (r: Result<(&str, Move), ParseError>)
    ensures
        match spec_parse_tam_no_step(s@) {
            Ok(p) => r matches Ok(q) && q.1 == p.0 && q.0@ == s@.skip(p.1),
            Err(e) => r matches Err(e2) && e2 == e,
        },
{
    let (rem1, src) = match parse_tam_head(s) {
        Ok(v) => v,
        Err(e) => {
            return Err(e);
        },
    };
    let ghost h = spec_parse_tam_head(s@)->Ok_0.1;
    proof {
        assert(2 <= h <= s@.len());
    }
    match parse_tam_sqbracket(rem1) {
        Ok((rem2, first_dest)) => {
            let ghost nb = spec_parse_tam_sqbracket(s@.skip(h))->Ok_0.1;
            proof {
                assert(3 <= nb <= s@.skip(h).len());
                chain(s@, h, nb);
            }
            let (rem3, second_dest) = match parse_square(rem2) {
                Ok(v) => v,
                Err(e) => {
                    return Err(e);
                },
            };
            let ghost n3 = spec_parse_square(s@.skip(h + nb))->Ok_0.1;
            proof {
                assert(1 <= n3 <= s@.skip(h + nb).len());
                chain(s@, h + nb, n3);
            }
            Ok((rem3, Move::TamNoStep { src, first_dest, second_dest }))
        },
        Err(_) => {
            let (rem3, second_dest) = match parse_square(rem1) {
                Ok(v) => v,
                Err(e) => {
                    return Err(e);
                },
            };
            let ghost n3 = spec_parse_square(s@.skip(h))->Ok_0.1;
            proof {
                assert(1 <= n3 <= s@.skip(h).len());
                chain(s@, h, n3);
            }
            Ok((rem3, Move::TamNoStep { src, first_dest: None, second_dest }))
        },
    }
}

fn parse_tam_step_unspecified(s: &str) -> (r: Result<(&str, Move), ParseError>)
    ensures
        match spec_parse_tam_step_unspecified(s@) {
            Ok(p) => r matches Ok(q) && q.1 == p.0 && q.0@ == s@.skip(p.1),
            Err(e) => r matches Err(e2) && e2 == e,
        },
{
    let (rem1, src) = match parse_tam_head(s) {
        Ok(v) => v,
        Err(e) => {
            return Err(e);
        },
    };
    let ghost h = spec_parse_tam_head(s@)->Ok_0.1;
    proof {
        assert(2 <= h <= s@.len());
    }
    let (rem2, step) = match parse_square(rem1) {
        Ok(v) => v,
        Err(e) => {
            return Err(e);
        },
    };
    let ghost n2 = spec_parse_square(s@.skip(h))->Ok_0.1;
    proof {
        assert(1 <= n2 <= s@.skip(h).len());
        chain(s@, h, n2);
    }
    let (rem3, second_dest) = match parse_square(rem2) {
        Ok(v) => v,
        Err(e) => {
            return Err(e);
        },
    };
    let ghost n3 = spec_parse_square(s@.skip(h + n2))->Ok_0.1;
    proof {
        assert(1 <= n3 <= s@.skip(h + n2).len());
        chain(s@, h + n2, n3);
    }
    Ok((rem3, Move::TamStepUnspecified { src, step, second_dest }))
}

fn parse_tam_step_during_former(s: &str) -> (r: Result<(&str, Move), ParseError>)
    ensures
        match spec_parse_tam_step_during_former(s@) {
            Ok(p) => r matches Ok(q) && q.1 == p.0 && q.0@ == s@.skip(p.1),
            Err(e) => r matches Err(e2) && e2 == e,
        },
{
    let (rem1, src) = match parse_tam_head(s) {
        Ok(v) => v,
        Err(e) => {
            return Err(e);
        },
    };
    let ghost h = spec_parse_tam_head(s@)->Ok_0.1;
    proof {
        assert(2 <= h <= s@.len());
    }
    let (rem2, step) = match parse_square(rem1) {
        Ok(v) => v,
        Err(e) => {
            return Err(e);
        },
    };
    let ghost n2 = spec_parse_square(s@.skip(h))->Ok_0.1;
    proof {
        assert(1 <= n2 <= s@.skip(h).len());
        chain(s@, h, n2);
    }
    let (rem3, first_dest) = match parse_tam_sqbracket(rem2) {
        Ok(v) => v,
        Err(e) => {
            return Err(e);
        },
    };
    let ghost nb = spec_parse_tam_sqbracket(s@.skip(h + n2))->Ok_0.1;
    proof {
        assert(3 <= nb <= s@.skip(h + n2).len());
        chain(s@, h + n2, nb);
    }
    let (rem4, second_dest) = match parse_square(rem3) {
        Ok(v) => v,
        Err(e) => {
            return Err(e);
        },
    };
    let ghost n4 = spec_parse_square(s@.skip(h + n2 + nb))->Ok_0.1;
    proof {
        assert(1 <= n4 <= s@.skip(h + n2 + nb).len());
        chain(s@, h + n2 + nb, n4);
    }
    Ok((rem4, Move::TamStepDuringFormer { src, step, first_dest, second_dest }))
}

fn parse_tam_step_during_latter(s: &str) -> (r: Result<(&str, Move), ParseError>)
    ensures
        match spec_parse_tam_step_during_latter(s@) {
            Ok(p) => r matches Ok(q) && q.1 == p.0 && q.0@ == s@.skip(p.1),
            Err(e) => r matches Err(e2) && e2 == e,
        },
{
    let (rem1, src) = match parse_tam_head(s) {
        Ok(v) => v,
        Err(e) => {
            return Err(e);
        },
    };
    let ghost h = spec_parse_tam_head(s@)->Ok_0.1;
    proof {
        assert(2 <= h <= s@.len());
    }
    let (rem2, first_dest) = match parse_tam_sqbracket(rem1) {
        Ok(v) => v,
        Err(e) => {
            return Err(e);
        },
    };
    let ghost nb = spec_parse_tam_sqbracket(s@.skip(h))->Ok_0.1;
    proof {
        assert(3 <= nb <= s@.skip(h).len());
        chain(s@, h, nb);
    }
    let (rem3, step) = match parse_square(rem2) {
        Ok(v) => v,
        Err(e) => {
            return Err(e);
        },
    };
    let ghost n3 = spec_parse_square(s@.skip(h + nb))->Ok_0.1;
    proof {
        assert(1 <= n3 <= s@.skip(h + nb).len());
        chain(s@, h + nb, n3);
    }
    let (rem4, second_dest) = match parse_square(rem3) {
        Ok(v) => v,
        Err(e) => {
            return Err(e);
        },
    };
    let ghost n4 = spec_parse_square(s@.skip(h + nb + n3))->Ok_0.1;
    proof {
        assert(1 <= n4 <= s@.skip(h + nb + n3).len());
        chain(s@, h + nb + n3, n4);
    }
    Ok((rem4, Move::TamStepDuringLatter { src, first_dest, step, second_dest }))
}

fn parse_parachute(s: &str) -> (r: Result<(&str, Move), ParseError>)
    ensures
        match spec_parse_parachute(s@) {
            Ok(p) => r matches Ok(q) && q.1 == p.0 && q.0@ == s@.skip(p.1),
            Err(e) => r matches Err(e2) && e2 == e,
        },
{
    let len = s.unicode_len();
    if len == 0 {
        return Err(ParseError::UnexpectedSymbol);
    }
    let color = match color_from_char(s.get_char(0)) {
        Some(c) => c,
        None => {
            return Err(ParseError::UnexpectedSymbol);
        },
    };
    let rest = s.substring_char(1, len);
    let (rem2, prof) = match parse_profession(rest) {
        Ok(v) => v,
        Err(e) => {
            return Err(e);
        },
    };
    let ghost n2 = spec_parse_profession(s@.skip(1))->Ok_0.1;
    proof {
        chain(s@, 1, n2);
    }
    let (rem3, dest) = match parse_square(rem2) {
        Ok(v) => v,
        Err(e) => {
            return Err(e);
        },
    };
    let ghost n3 = spec_parse_square(s@.skip(1 + n2))->Ok_0.1;
    proof {
        assert(1 <= n3 <= s@.skip(1 + n2).len());
        chain(s@, 1 + n2, n3);
    }
    Ok((rem3, Move::Parachute { color, prof, dest }))
}

/// Decodes one move.  The eleven shape decoders are tried in a fixed
/// priority order, most specific first, and the first full match wins; a
/// failed trial consumes nothing.  Returns the decoded move and the
/// unconsumed suffix of the input, or the top-level failure when no shape
/// matches.
pub fn parse(s: &str) -> (r: Result<(&str, Move), ParseError>)
    ensures
        match spec_parse(s@) {
            Ok(p) => r matches Ok(q) && q.1 == p.0 && q.0@ == s@.skip(p.1),
            Err(e) => r matches Err(e2) && e2 == e,
        },
{
    match parse_parachute(s) {
        Ok(v) => {
            return Ok(v);
        },
        Err(_) => {},
    }
    match parse_tam_step_during_former(s) {
        Ok(v) => {
            return Ok(v);
        },
        Err(_) => {},
    }
    match parse_tam_step_during_latter(s) {
        Ok(v) => {
            return Ok(v);
        },
        Err(_) => {},
    }
    match parse_tam_step_unspecified(s) {
        Ok(v) => {
            return Ok(v);
        },
        Err(_) => {},
    }
    match parse_tam_no_step(s) {
        Ok(v) => {
            return Ok(v);
        },
        Err(_) => {},
    }
    match parse_step_and_bridge_stick_and_water_stick(s) {
        Ok(v) => {
            return Ok(v);
        },
        Err(_) => {},
    }
    match parse_step_and_bridge_stick(s) {
        Ok(v) => {
            return Ok(v);
        },
        Err(_) => {},
    }
    match parse_step_and_water_stick(s) {
        Ok(v) => {
            return Ok(v);
        },
        Err(_) => {},
    }
    match parse_step_and_no_stick(s) {
        Ok(v) => {
            return Ok(v);
        },
        Err(_) => {},
    }
    match parse_no_step_and_water_stick(s) {
        Ok(v) => {
            return Ok(v);
        },
        Err(_) => {},
    }
    match parse_no_step_and_no_stick(s) {
        Ok(v) => {
            return Ok(v);
        },
        Err(_) => {},
    }
    Err(ParseError::NoMatchingShape)
}

} // verus!
