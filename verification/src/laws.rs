//! The laws of the grammar: agreement of the two profession tables, the
//! closed water-stick combination table, the bridge-outcome rule, the data
//! invariant of decoded stick throws, and the priority order of the
//! dispatcher.

use vstd::prelude::*;
use crate::domain::{Profession, ParseError};
use crate::domain::{spec_profession_of, spec_profession_or_wildcard_of, spec_color_of};
use crate::movement::{
    Move, spec_parse, spec_parse_square, spec_parse_profession,
    spec_parse_profession_or_wildcard, spec_parse_src_prof, spec_parse_tam_head,
    spec_parse_tam_step_during_former, spec_parse_tam_step_during_latter,
    spec_parse_tam_step_unspecified, spec_parse_step_bridge_head,
    spec_parse_step_and_bridge_stick, spec_parse_step_and_bridge_stick_and_water_stick,
    spec_parse_water_stick, spec_water_table, spec_stick_run_len, spec_failure_marker,
    spec_parse_no_step_and_water_stick, spec_parse_step_and_water_stick,
    spec_parse_src_prof_dest, spec_parse_src_prof_step_dest, spec_parse_tam_sqbracket,
    spec_parse_parachute, spec_parse_no_step_and_no_stick, spec_parse_step_and_no_stick,
    spec_parse_tam_no_step,
};

verus! {

/// Decoding a profession symbol agrees between the two tables: a symbol
/// that names a concrete profession decodes to the same variant with and
/// without the wildcard alternative, and the wildcard symbol — and only
/// the wildcard symbol — decodes to "profession unknown".
pub proof fn lemma_profession_wildcard_round_trip(s: Seq<char>)
    ensures
        spec_parse_profession(s) matches Ok(p) ==> spec_parse_profession_or_wildcard(s)
            == Ok::<(Option<Profession>, int), ParseError>((Some(p.0), p.1)),
        spec_parse_profession_or_wildcard(s) matches Ok(q) ==> (q.0 matches Some(pr)
            ==> spec_parse_profession(s) == Ok::<(Profession, int), ParseError>((pr, q.1))),
        (spec_parse_profession_or_wildcard(s) matches Ok(q) && q.0 is None) <==> (s.len() >= 1
            && s[0] == '片'),
{
    if s.len() >= 1 && s[0] != '片' && spec_profession_of(s[0]) is Some {
        assert(spec_profession_or_wildcard_of(s[0]) == Some(Some(spec_profession_of(s[0])->Some_0)));
    }
}

/// The eight legal water-stick runs decode to exactly the listed pairs of
/// stated size and outcome, and no other run is legal: sizes three to five
/// are successful without a failure marker, sizes zero to two carry the
/// failure marker, and the unspecified size pairs with either outcome.
pub proof fn lemma_water_table(run: Seq<char>)
    ensures
        spec_water_table(seq!['無', '此', '無']) == Some((Some(0int as i32), false)),
        spec_water_table(seq!['一', '此', '無']) == Some((Some(1int as i32), false)),
        spec_water_table(seq!['二', '此', '無']) == Some((Some(2int as i32), false)),
        spec_water_table(seq!['三']) == Some((Some(3int as i32), true)),
        spec_water_table(seq!['四']) == Some((Some(4int as i32), true)),
        spec_water_table(seq!['五']) == Some((Some(5int as i32), true)),
        spec_water_table(seq!['或']) == Some((None::<i32>, true)),
        spec_water_table(seq!['或', '此', '無']) == Some((None::<i32>, false)),
        spec_water_table(run) is Some ==> (run =~= seq!['無', '此', '無'] || run =~= seq![
            '一',
            '此',
            '無',
        ] || run =~= seq!['二', '此', '無'] || run =~= seq!['三'] || run =~= seq!['四'] || run
            =~= seq!['五'] || run =~= seq!['或'] || run =~= seq!['或', '此', '無']),
{
}

/// A captured run that is not in the closed table fails the water-stick
/// decode with the malformed-stick-throw error.
pub proof fn lemma_water_stick_malformed(s: Seq<char>)
    requires
        s.len() >= 1,
        s[0] == '水',
        spec_stick_run_len(s.skip(1)) >= 1,
        spec_water_table(s.subrange(1, 1 + spec_stick_run_len(s.skip(1)))) is None,
    ensures
        spec_parse_water_stick(s) == Err::<((Option<i32>, bool), int), ParseError>(
            ParseError::MalformedStickThrow,
        ),
{
}

/// Once a bridge-stick move has been decoded through its size symbol, the
/// decode always succeeds, and the recorded outcome is success exactly
/// when the two-symbol failure marker does not follow — independent of the
/// stated size.
pub proof fn lemma_bridge_success_iff_no_marker(s: Seq<char>)
    ensures
        spec_parse_step_bridge_head(s) matches Ok(hp) ==> match spec_parse_step_and_bridge_stick(
            s,
        ) {
            Ok(p) => p.0 matches Move::StepAndBridgeStick {
                bridge_stick_size,
                bridge_stick_successful,
                ..
            } && bridge_stick_size == hp.0.4 && (bridge_stick_successful <==> !spec_failure_marker(
                s.skip(hp.1),
            )),
            Err(_) => false,
        },
{
}

/// Whether a decoded stick throw obeys the water-stick rule: a stated size
/// is between zero and five, sizes three to five are always successful,
/// and sizes zero to two always failed.
pub open spec fn water_outcome_invariant(size: Option<i32>, successful: bool) -> bool {
    match size {
        Some(v) => 0 <= v <= 5 && (v >= 3 ==> successful) && (v <= 2 ==> !successful),
        None => true,
    }
}

/// A decoded water-stick throw obeys the water-stick rule.
proof fn lemma_water_stick_ok_invariant(s: Seq<char>)
    ensures
        spec_parse_water_stick(s) matches Ok(w) ==> water_outcome_invariant(w.0.0, w.0.1),
{
}

/// The no-step water shape obeys the water-stick rule.
proof fn lemma_no_step_water_invariant(s: Seq<char>)
    ensures
        spec_parse_no_step_and_water_stick(s) matches Ok(p) ==> match p.0 {
            Move::NoStepAndWaterStick { water_stick_size, water_stick_successful, .. }
                => water_outcome_invariant(water_stick_size, water_stick_successful),
            _ => false,
        },
{
    match spec_parse_src_prof_dest(s) {
        Ok(d) => lemma_water_stick_ok_invariant(s.skip(d.1)),
        Err(_) => (),
    }
}

/// The step water shape obeys the water-stick rule.
proof fn lemma_step_water_invariant(s: Seq<char>)
    ensures
        spec_parse_step_and_water_stick(s) matches Ok(p) ==> match p.0 {
            Move::StepAndWaterStick { water_stick_size, water_stick_successful, .. }
                => water_outcome_invariant(water_stick_size, water_stick_successful),
            _ => false,
        },
{
    match spec_parse_src_prof_step_dest(s) {
        Ok(d) => lemma_water_stick_ok_invariant(s.skip(d.1)),
        Err(_) => (),
    }
}

/// The bridge-then-water shape obeys the water-stick rule on its water
/// stage.
proof fn lemma_bridge_water_invariant(s: Seq<char>)
    ensures
        spec_parse_step_and_bridge_stick_and_water_stick(s) matches Ok(p) ==> match p.0 {
            Move::StepAndBridgeStickAndWaterStick {
                water_stick_size,
                water_stick_successful,
                ..
            } => water_outcome_invariant(water_stick_size, water_stick_successful),
            _ => false,
        },
{
    match spec_parse_step_bridge_head(s) {
        Ok(d) => lemma_water_stick_ok_invariant(s.skip(d.1)),
        Err(_) => (),
    }
}

/// Every move the dispatcher decodes obeys the water-stick rule on its
/// water stage.
#[verifier::rlimit(100)]
pub proof fn lemma_parsed_water_obeys_invariant(s: Seq<char>)
    ensures
        spec_parse(s) matches Ok(p) ==> match p.0 {
            Move::NoStepAndWaterStick { water_stick_size, water_stick_successful, .. }
                => water_outcome_invariant(water_stick_size, water_stick_successful),
            Move::StepAndWaterStick { water_stick_size, water_stick_successful, .. }
                => water_outcome_invariant(water_stick_size, water_stick_successful),
            Move::StepAndBridgeStickAndWaterStick {
                water_stick_size,
                water_stick_successful,
                ..
            } => water_outcome_invariant(water_stick_size, water_stick_successful),
            _ => true,
        },
{
    lemma_no_step_water_invariant(s);
    lemma_step_water_invariant(s);
    lemma_bridge_water_invariant(s);
}

/// A string that decodes as a square can never decode as a parachute move:
/// a column letter is not a color symbol.
proof fn lemma_square_blocks_parachute(s: Seq<char>)
    ensures
        spec_parse_square(s) is Ok ==> spec_color_of(s[0]) is None,
{
}

/// A string whose head decodes as a square and a profession symbol can
/// never decode as a coordinator move: no profession symbol is the
/// coordinator symbol.
proof fn lemma_prof_blocks_tam(s: Seq<char>)
    ensures
        spec_parse_src_prof(s) is Ok ==> spec_parse_tam_head(s) is Err,
{
    if spec_parse_src_prof(s) is Ok {
        let n1 = spec_parse_square(s)->Ok_0.1;
        assert(spec_profession_or_wildcard_of(s.skip(n1)[0]) is Some);
        assert(s.skip(n1)[0] == s[n1]);
    }
}

/// The dispatcher prefers the parachute shape: when it matches, it is the
/// decoded result.
pub proof fn lemma_parse_prefers_parachute(s: Seq<char>)
    ensures
        spec_parse_parachute(s) is Ok ==> spec_parse(s)
            == spec_parse_parachute(s),
{
}

/// When the coordinator shape with a step during the former hop matches,
/// the dispatcher decodes it: no earlier shape can also match.
pub proof fn lemma_parse_prefers_tam_former(s: Seq<char>)
    ensures
        spec_parse_tam_step_during_former(s) is Ok ==> spec_parse(s)
            == spec_parse_tam_step_during_former(s),
{
    if spec_parse_tam_step_during_former(s) is Ok {
        lemma_square_blocks_parachute(s);
    }
}

/// When the coordinator shape with a step during the latter hop matches —
/// a bracketed hint directly after the coordinator symbol, then a step and
/// a destination — the dispatcher decodes it, even though the no-step
/// shape would also accept a strict prefix of the same input.
pub proof fn lemma_parse_prefers_tam_latter(s: Seq<char>)
    ensures
        spec_parse_tam_step_during_latter(s) is Ok ==> spec_parse(s)
            == spec_parse_tam_step_during_latter(s),
{
    if spec_parse_tam_step_during_latter(s) is Ok {
        lemma_square_blocks_parachute(s);
        let h = spec_parse_tam_head(s)->Ok_0.1;
        assert(s.skip(h)[0] == s[h]);
        assert(spec_parse_square(s.skip(h)) is Err);
    }
}

/// When the coordinator shape with an unassigned step matches — two plain
/// squares after the coordinator symbol and no bracket anywhere — the
/// dispatcher decodes it: both bracketed shapes fail on it.
pub proof fn lemma_parse_prefers_tam_unspecified(s: Seq<char>)
    ensures
        spec_parse_tam_step_unspecified(s) is Ok ==> spec_parse(s)
            == spec_parse_tam_step_unspecified(s),
{
    if spec_parse_tam_step_unspecified(s) is Ok {
        lemma_square_blocks_parachute(s);
        let h = spec_parse_tam_head(s)->Ok_0.1;
        let n2 = spec_parse_square(s.skip(h))->Ok_0.1;
        assert(s.skip(h)[0] == s[h]);
        assert(s.skip(h + n2)[0] == s[h + n2]);
        assert(spec_parse_square(s.skip(h)) is Ok);
        assert(spec_parse_tam_sqbracket(s.skip(h)) is Err);
        assert(spec_parse_tam_sqbracket(s.skip(h + n2)) is Err);
    }
}

/// When the full bridge-then-water shape matches, the dispatcher decodes
/// it rather than stopping at the shorter plain bridge shape, which always
/// accepts a strict prefix of the same input.
pub proof fn lemma_parse_prefers_bridge_water(s: Seq<char>)
    ensures
        spec_parse_step_and_bridge_stick_and_water_stick(s) is Ok ==> spec_parse(s)
            == spec_parse_step_and_bridge_stick_and_water_stick(s),
{
    if spec_parse_step_and_bridge_stick_and_water_stick(s) is Ok {
        lemma_square_blocks_parachute(s);
        lemma_prof_blocks_tam(s);
    }
}

/// A decoded square consumes two or three characters of its input.
proof fn lemma_square_bounds(s: Seq<char>)
    ensures
        spec_parse_square(s) matches Ok(p) ==> 2 <= p.1 <= s.len(),
{
}

/// A decoded water stick consumes two to four characters of its input.
proof fn lemma_water_bounds(s: Seq<char>)
    ensures
        spec_parse_water_stick(s) matches Ok(p) ==> 2 <= p.1 <= s.len(),
{
}

/// A decoded bracketed hint consumes at least three characters and at
/// most its whole input.
proof fn lemma_sqbracket_bounds(s: Seq<char>)
    ensures
        spec_parse_tam_sqbracket(s) matches Ok(p) ==> 3 <= p.1 <= s.len(),
{
    if s.len() >= 1 && s[0] == '[' {
        lemma_square_bounds(s.skip(1));
    }
}

/// A decoded square-and-profession head consumes at least three
/// characters and at most its whole input.
proof fn lemma_src_prof_bounds(s: Seq<char>)
    ensures
        spec_parse_src_prof(s) matches Ok(p) ==> 3 <= p.1 <= s.len(),
{
    lemma_square_bounds(s);
}

/// Bounds for the head of the no-step shapes.
proof fn lemma_src_prof_dest_bounds(s: Seq<char>)
    ensures
        spec_parse_src_prof_dest(s) matches Ok(p) ==> 5 <= p.1 <= s.len(),
{
    lemma_src_prof_bounds(s);
    match spec_parse_src_prof(s) {
        Ok(d) => lemma_square_bounds(s.skip(d.1)),
        Err(_) => (),
    }
}

/// Bounds for the head of the step shapes.
proof fn lemma_src_prof_step_dest_bounds(s: Seq<char>)
    ensures
        spec_parse_src_prof_step_dest(s) matches Ok(p) ==> 7 <= p.1 <= s.len(),
{
    lemma_src_prof_bounds(s);
    match spec_parse_src_prof(s) {
        Ok(d) => {
            lemma_square_bounds(s.skip(d.1));
            match spec_parse_square(s.skip(d.1)) {
                Ok(st) => lemma_square_bounds(s.skip(d.1 + st.1)),
                Err(_) => (),
            }
        },
        Err(_) => (),
    }
}

/// Bounds for the head of the bridge shapes.
proof fn lemma_step_bridge_head_bounds(s: Seq<char>)
    ensures
        spec_parse_step_bridge_head(s) matches Ok(p) ==> 9 <= p.1 <= s.len(),
{
    lemma_src_prof_step_dest_bounds(s);
}

/// Bounds for the head of the coordinator shapes.
proof fn lemma_tam_head_bounds(s: Seq<char>)
    ensures
        spec_parse_tam_head(s) matches Ok(p) ==> 3 <= p.1 <= s.len(),
{
    lemma_square_bounds(s);
}

/// Every decoded move consumes at least one character and at most the
/// whole input: the remainder handed back is a proper suffix, so a caller
/// that decodes a record move by move makes progress on every call.
#[verifier::rlimit(100)]
pub proof fn lemma_parse_progress(s: Seq<char>)
    ensures
        spec_parse(s) matches Ok(p) ==> 1 <= p.1 <= s.len(),
{
    lemma_parachute_bounds(s);
    lemma_tam_shape_bounds(s);
    lemma_ordinary_shape_bounds(s);
}

/// Bounds for the parachute shape.
proof fn lemma_parachute_bounds(s: Seq<char>)
    ensures
        spec_parse_parachute(s) matches Ok(p) ==> 4 <= p.1 <= s.len(),
{
    if s.len() >= 1 && spec_color_of(s[0]) is Some {
        match spec_parse_profession(s.skip(1)) {
            Ok(pr) => lemma_square_bounds(s.skip(1 + pr.1)),
            Err(_) => (),
        }
    }
}

/// Bounds for the four coordinator shapes.
proof fn lemma_tam_shape_bounds(s: Seq<char>)
    ensures
        spec_parse_tam_no_step(s) matches Ok(p) ==> 1 <= p.1 <= s.len(),
        spec_parse_tam_step_unspecified(s) matches Ok(p) ==> 1 <= p.1 <= s.len(),
        spec_parse_tam_step_during_former(s) matches Ok(p) ==> 1 <= p.1 <= s.len(),
        spec_parse_tam_step_during_latter(s) matches Ok(p) ==> 1 <= p.1 <= s.len(),
{
    lemma_tam_head_bounds(s);
    match spec_parse_tam_head(s) {
        Ok(hd) => {
            let h = hd.1;
            lemma_sqbracket_bounds(s.skip(h));
            lemma_square_bounds(s.skip(h));
            match spec_parse_tam_sqbracket(s.skip(h)) {
                Ok(b) => {
                    lemma_square_bounds(s.skip(h + b.1));
                    match spec_parse_square(s.skip(h + b.1)) {
                        Ok(st) => lemma_square_bounds(s.skip(h + b.1 + st.1)),
                        Err(_) => (),
                    }
                },
                Err(_) => (),
            }
            match spec_parse_square(s.skip(h)) {
                Ok(st) => {
                    lemma_square_bounds(s.skip(h + st.1));
                    lemma_sqbracket_bounds(s.skip(h + st.1));
                    match spec_parse_tam_sqbracket(s.skip(h + st.1)) {
                        Ok(b) => lemma_square_bounds(s.skip(h + st.1 + b.1)),
                        Err(_) => (),
                    }
                },
                Err(_) => (),
            }
        },
        Err(_) => (),
    }
}

/// Bounds for the seven ordinary shapes.
proof fn lemma_ordinary_shape_bounds(s: Seq<char>)
    ensures
        spec_parse_no_step_and_no_stick(s) matches Ok(p) ==> 1 <= p.1 <= s.len(),
        spec_parse_no_step_and_water_stick(s) matches Ok(p) ==> 1 <= p.1 <= s.len(),
        spec_parse_step_and_no_stick(s) matches Ok(p) ==> 1 <= p.1 <= s.len(),
        spec_parse_step_and_water_stick(s) matches Ok(p) ==> 1 <= p.1 <= s.len(),
        spec_parse_step_and_bridge_stick(s) matches Ok(p) ==> 1 <= p.1 <= s.len(),
        spec_parse_step_and_bridge_stick_and_water_stick(s) matches Ok(p) ==> 1 <= p.1
            <= s.len(),
{
    lemma_src_prof_dest_bounds(s);
    lemma_src_prof_step_dest_bounds(s);
    lemma_step_bridge_head_bounds(s);
    match spec_parse_src_prof_dest(s) {
        Ok(d) => lemma_water_bounds(s.skip(d.1)),
        Err(_) => (),
    }
    match spec_parse_src_prof_step_dest(s) {
        Ok(d) => lemma_water_bounds(s.skip(d.1)),
        Err(_) => (),
    }
    match spec_parse_step_bridge_head(s) {
        Ok(d) => lemma_water_bounds(s.skip(d.1)),
        Err(_) => (),
    }
}

} // verus!
