//! The domain vocabulary of the notation: board columns and rows, piece
//! professions, piece colors, and the parser's error kinds, together with
//! the symbol tables that map notation characters to these values.
//!
//! Validity of a column/row combination is delegated to the external
//! coordinate model (`cetkaik_core`); everything else is decided here.

use vstd::prelude::*;

verus! {

/// A column letter of the board, one of the nine column symbols.
#[derive(Clone, Copy, PartialEq, Eq, Debug)]
pub enum Column {
    K,
    L,
    N,
    T,
    Z,
    X,
    C,
    M,
    P,
}

/// A row of the board: six single letters and the three two-letter
/// combinations that denote the extended edge rows.
#[derive(Clone, Copy, PartialEq, Eq, Debug)]
pub enum Row {
    A,
    E,
    I,
    O,
    U,
    Y,
    AI,
    AU,
    IA,
}

/// A validated square of the board, written row first as the coordinate
/// model does.
#[derive(Clone, Copy, PartialEq, Eq, Debug)]
pub struct Coord(pub Row, pub Column);

/// A piece profession, the fixed closed enumeration of the ten piece types.
#[derive(Clone, Copy, PartialEq, Eq, Debug)]
pub enum Profession {
    Nuak1,
    Kauk2,
    Gua2,
    Kaun1,
    Dau2,
    Maun1,
    Kua2,
    Tuk2,
    Uai1,
    Io,
}

/// A piece color, used only for parachute moves.
#[derive(Clone, Copy, PartialEq, Eq, Debug)]
pub enum Color {
    Huok2,
    Kok1,
}

/// The kinds of decode failure.
#[derive(Clone, Copy, PartialEq, Eq, Debug)]
pub enum ParseError {
    /// The current position does not start any alternative of the expected
    /// grammar rule.
    UnexpectedSymbol,
    /// A lexically well-formed column/row pair was rejected by the
    /// coordinate model.
    InvalidCoordinate,
    /// The captured stick-throw symbol run is not one of the closed set of
    /// legal combinations.
    MalformedStickThrow,
    /// No move shape matched the input.
    NoMatchingShape,
}

/// The column symbol table.
pub open spec fn spec_column_of(c: char) -> Option<Column> {
    match c {
        'K' => Some(Column::K),
        'L' => Some(Column::L),
        'N' => Some(Column::N),
        'T' => Some(Column::T),
        'Z' => Some(Column::Z),
        'X' => Some(Column::X),
        'C' => Some(Column::C),
        'M' => Some(Column::M),
        'P' => Some(Column::P),
        _ => None,
    }
}

/// Whether `c` is one of the six row letters.
pub open spec fn spec_is_row_char(c: char) -> bool {
    c == 'A' || c == 'E' || c == 'I' || c == 'O' || c == 'U' || c == 'Y'
}

/// The row table: a run of one or two row letters names a row, or nothing.
pub open spec fn spec_row_of(s: Seq<char>) -> Option<Row> {
    if s.len() == 1 {
        match s[0] {
            'A' => Some(Row::A),
            'E' => Some(Row::E),
            'I' => Some(Row::I),
            'O' => Some(Row::O),
            'U' => Some(Row::U),
            'Y' => Some(Row::Y),
            _ => None,
        }
    } else if s.len() == 2 {
        if s[0] == 'A' && s[1] == 'I' {
            Some(Row::AI)
        } else if s[0] == 'A' && s[1] == 'U' {
            Some(Row::AU)
        } else if s[0] == 'I' && s[1] == 'A' {
            Some(Row::IA)
        } else {
            None
        }
    } else {
        None
    }
}

/// The profession symbol table.
pub open spec fn spec_profession_of(c: char) -> Option<Profession> {
    match c {
        '船' => Some(Profession::Nuak1),
        '兵' => Some(Profession::Kauk2),
        '弓' => Some(Profession::Gua2),
        '車' => Some(Profession::Kaun1),
        '虎' => Some(Profession::Dau2),
        '馬' => Some(Profession::Maun1),
        '筆' => Some(Profession::Kua2),
        '巫' => Some(Profession::Tuk2),
        '将' => Some(Profession::Uai1),
        '王' => Some(Profession::Io),
        _ => None,
    }
}

/// The profession-or-wildcard table: the ten profession symbols plus the
/// wildcard symbol, which maps to "profession unknown".
pub open spec fn spec_profession_or_wildcard_of(c: char) -> Option<Option<Profession>> {
    if c == '片' {
        Some(None)
    } else {
        match spec_profession_of(c) {
            Some(p) => Some(Some(p)),
            None => None,
        }
    }
}

/// The color symbol table.
pub open spec fn spec_color_of(c: char) -> Option<Color> {
    match c {
        '黒' => Some(Color::Huok2),
        '赤' => Some(Color::Kok1),
        _ => None,
    }
}

/// Looks a character up in the column table.
pub fn column_from_char(c: char) -> (r: Option<Column>)
    ensures
        r == spec_column_of(c),
{
    match c {
        'K' => Some(Column::K),
        'L' => Some(Column::L),
        'N' => Some(Column::N),
        'T' => Some(Column::T),
        'Z' => Some(Column::Z),
        'X' => Some(Column::X),
        'C' => Some(Column::C),
        'M' => Some(Column::M),
        'P' => Some(Column::P),
        _ => None,
    }
}

/// Whether `c` is one of the six row letters.
pub fn is_row_char(c: char) -> (r: bool)
    ensures
        r == spec_is_row_char(c),
{
    c == 'A' || c == 'E' || c == 'I' || c == 'O' || c == 'U' || c == 'Y'
}

/// Looks a captured row run up in the row table.
pub fn row_from_chars(run: &Vec<char>) -> (r: Option<Row>)
    ensures
        r == spec_row_of(run@),
{
    if run.len() == 1 {
        match run[0] {
            'A' => Some(Row::A),
            'E' => Some(Row::E),
            'I' => Some(Row::I),
            'O' => Some(Row::O),
            'U' => Some(Row::U),
            'Y' => Some(Row::Y),
            _ => None,
        }
    } else if run.len() == 2 {
        if run[0] == 'A' && run[1] == 'I' {
            Some(Row::AI)
        } else if run[0] == 'A' && run[1] == 'U' {
            Some(Row::AU)
        } else if run[0] == 'I' && run[1] == 'A' {
            Some(Row::IA)
        } else {
            None
        }
    } else {
        None
    }
}

/// Looks a character up in the profession table.
pub fn profession_from_char(c: char) -> (r: Option<Profession>)
    ensures
        r == spec_profession_of(c),
{
    match c {
        '船' => Some(Profession::Nuak1),
        '兵' => Some(Profession::Kauk2),
        '弓' => Some(Profession::Gua2),
        '車' => Some(Profession::Kaun1),
        '虎' => Some(Profession::Dau2),
        '馬' => Some(Profession::Maun1),
        '筆' => Some(Profession::Kua2),
        '巫' => Some(Profession::Tuk2),
        '将' => Some(Profession::Uai1),
        '王' => Some(Profession::Io),
        _ => None,
    }
}

/// Looks a character up in the profession-or-wildcard table.
pub fn profession_or_wildcard_from_char(c: char) -> (r: Option<Option<Profession>>)
    ensures
        r == spec_profession_or_wildcard_of(c),
{
    if c == '片' {
        Some(None)
    } else {
        match profession_from_char(c) {
            Some(p) => Some(Some(p)),
            None => None,
        }
    }
}

/// Looks a character up in the color table.
pub fn color_from_char(c: char) -> (r: Option<Color>)
    ensures
        r == spec_color_of(c),
{
    match c {
        '黒' => Some(Color::Huok2),
        '赤' => Some(Color::Kok1),
        _ => None,
    }
}

/// Relies on `cetkaik_core::absolute::parse_coord`: given one valid column
/// letter followed by one or two row letters, the coordinate model accepts
/// the pair exactly when the row run is one of the nine rows (the six
/// single letters, or the combinations AI, AU and IA).
#[verifier::external_body]
pub(crate) fn square_in_model(column: char, rows: &Vec<char>) -> (r: bool)
    requires
        spec_column_of(column) is Some,
        1 <= rows@.len() <= 2,
        forall|i: int| 0 <= i < rows@.len() ==> spec_is_row_char(#[trigger] rows@[i]),
    ensures
        r == (spec_row_of(rows@) is Some),
{
    let mut text = String::new();
    text.push(column);
    for c in rows.iter() {
        text.push(*c);
    }
    cetkaik_core::absolute::parse_coord(&text).is_some()
}

} // verus!
