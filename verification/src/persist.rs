//! Save and load. The flat words of a state travel as a JSON array of
//! numbers; the only unverified steps are the two `serde_json` calls, each
//! behind a trusted contract. Loading also replays the ticks missed while
//! the game was not running, with the very same tick algorithm as live
//! play, so offline progress is numerically identical to staying on.

use vstd::prelude::*;
use crate::TICK_FPS;
use crate::economy::{GameState, Resource, wf_state};
use crate::engine::tick_n;
use crate::codec::{
    state_of_words, words_of_state, resources_from_words, kinds_unique, lemma_state_round_trip,
};

verus! {

/// What `serde_json::from_str::<Vec<u64>>` yields on a given text: the
/// numbers of a JSON array of unsigned 64-bit integers, or nothing where
/// the text is not one. It depends on the text alone.
pub uninterp spec fn json_words(s: Seq<char>) -> Option<Seq<u64>>;

/// Render words as JSON text that parses back to the same words.
///
/// Relies on serde_json::to_string: a `Vec<u64>` always serializes (its
/// `Serialize` impl is infallible) to a JSON array of plain integers, and
/// serde_json::from_str reads such an array back to the same numbers —
/// every `u64` is within JSON's exact integer range as serde_json reads it.
#[verifier::external_body]
fn words_to_json(ws: &Vec<u64>) -> (r: String)
    ensures
        json_words(r@) == Some::<Seq<u64>>(ws@),
{
    match serde_json::to_string(ws) {
        Ok(s) => s,
        Err(_) => String::new(),
    }
}

#[verifier::external_type_specification]
#[verifier::external_body]
pub struct ExJsonError(serde_json::Error);

/// Parse JSON text as an array of unsigned 64-bit integers.
///
/// Relies on serde_json::from_str: it yields the numbers of the array, or
/// an error where the text is not such an array; what it yields is a
/// function of the text alone.
#[verifier::external_body]
fn json_to_words(s: &str) -> (r: Result<Vec<u64>, serde_json::Error>)
    ensures
        (match r {
            Ok(ws) => json_words(s@) == Some(ws@),
            Err(_) => json_words(s@) is None,
        }),
{
    serde_json::from_str::<Vec<u64>>(s)
}

/// Why a save file's text did not load.
#[derive(Debug, Copy, Clone, PartialEq, Eq, Structural)]
pub enum LoadError {
    /// The text is not a JSON array of unsigned integers.
    Malformed,
    /// The words do not lay out a valid state: a ragged length, an unknown
    /// kind, an improper fraction, a zero rate, or a repeated kind.
    InvalidData,
}

/// The state a save text holds, if it is a valid one.
pub open spec fn state_of_chars(s: Seq<char>) -> Option<Seq<Resource>> {
    match json_words(s) {
        Option::None => None,
        Option::Some(ws) => state_of_words(ws),
    }
}

/// How many whole ticks fit in `ms` milliseconds at the fixed tick rate.
pub open spec fn ticks_of_millis(ms: u64) -> nat {
    ((ms * TICK_FPS) / 1000) as nat
}

impl GameState {
    /// Serialize the whole state to its save text. The text is exact: read
    /// back, it yields this very state.
    pub fn save_string(&self) -> (r: String)
        requires
            wf_state(self.resources@),
        ensures
            state_of_chars(r@) == Some(self.resources@),
    {
        proof {
            lemma_state_round_trip(self.resources@);
        }
        let ws = words_of_state(&self.resources);
        words_to_json(&ws)
    }

    /// Read a state back from save text and replay the ticks missed over
    /// `elapsed_millis` of wall-clock time, one by one, with the live tick
    /// algorithm. Fails exactly on text that holds no valid state, and
    /// says whether the text or the data was at fault.
    pub fn load_string(s: &str, elapsed_millis: u64) -> (r: Result<GameState, LoadError>)
        ensures
            (match r {
                Ok(gs) => {
                    &&& state_of_chars(s@) is Some
                    &&& gs.resources@ == tick_n(
                        state_of_chars(s@).unwrap(),
                        ticks_of_millis(elapsed_millis),
                    )
                    &&& wf_state(gs.resources@)
                },
                Err(e) => {
                    &&& state_of_chars(s@) is None
                    &&& (e == LoadError::Malformed <==> json_words(s@) is None)
                },
            }),
    {
        let ws = match json_to_words(s) {
            Ok(ws) => ws,
            Err(_) => {
                return Err(LoadError::Malformed);
            },
        };
        let resources = match resources_from_words(&ws) {
            Some(v) => v,
            None => {
                return Err(LoadError::InvalidData);
            },
        };
        if !kinds_unique(&resources) {
            return Err(LoadError::InvalidData);
        }
        assert(wf_state(resources@));
        let ghost start = resources@;
        assert(state_of_chars(s@) == Some(start));

        let mut gs = GameState { resources };
        let ticks = ticks_for_millis(elapsed_millis);
        let mut k: u64 = 0;
        while k < ticks
            invariant
                k <= ticks,
                ticks == ticks_of_millis(elapsed_millis),
                gs.resources@ == tick_n(start, k as nat),
                wf_state(start) ==> wf_state(gs.resources@),
                wf_state(start),
            decreases ticks - k,
        {
            gs.tick();
            k = k + 1;
        }
        Ok(gs)
    }
}

/// The whole number of ticks that `ms` milliseconds hold at the fixed
/// tick rate: the floor of `seconds * TICK_FPS`.
pub fn ticks_for_millis(ms: u64) -> (t: u64)
    ensures
        t == ticks_of_millis(ms),
{
    proof {
        assert((ms as int) * (TICK_FPS as int) <= (u64::MAX as int) * (TICK_FPS as int))
            by (nonlinear_arith)
            requires ms <= u64::MAX;
        vstd::arithmetic::div_mod::lemma_div_is_ordered(
            (ms as int) * (TICK_FPS as int),
            (u64::MAX as int) * (TICK_FPS as int),
            1000,
        );
    }
    let wide: u128 = (ms as u128) * (TICK_FPS as u128) / 1000;
    wide as u64
}

} // verus!
