use vstd::prelude::*;

use crate::session::{Action, SessionView};

verus! {

/// Every action and every tick keep what has been typed no longer than the
/// active line, along with the rest of the session invariant.
pub proof fn lemma_input_never_exceeds_line(s: SessionView, a: Action)
    requires
        s.wf(),
    ensures
        s.step(a).wf(),
        s.tick().wf(),
        s.step(a).input.len() <= s.step(a).target.len(),
        s.tick().input.len() <= s.tick().target.len(),
{
}

/// Typing, or accepting the next character, leaves a fully typed line's input as it is.
pub proof fn lemma_full_line_absorbs_typing(s: SessionView, c: char)
    requires
        s.wf(),
        s.input.len() == s.target.len(),
    ensures
        s.typed(c).input == s.input,
        s.accepted().input == s.input,
{
}

/// A line whose input equals it is always reported finished.
pub proof fn lemma_matching_input_is_complete(s: SessionView)
    requires
        s.wf(),
        s.input == s.target,
    ensures
        s.pending,
{
}

/// From an unfinished line, any action but a skip finishes the line exactly when
/// the input comes to equal it; a skip finishes it whatever was typed.
pub proof fn lemma_completion_is_exact_match(s: SessionView, a: Action)
    requires
        s.wf(),
        !s.pending,
    ensures
        !(a is Skip) ==> (s.step(a).pending <==> s.step(a).input == s.step(a).target),
        s.skipped().pending,
{
    if s.input.len() == 0 && s.line_number > 1 {
        let prev = s.lines[s.line_number - 2];
        assert(prev.len() > 0);
        assert(prev.drop_last().len() < prev.len());
    }
}

/// Going back a line from line `n > 1` lands on line `n - 1` with nothing typed;
/// from the first line it changes nothing.
pub proof fn lemma_retreat_starts_previous_line(s: SessionView)
    requires
        s.wf(),
    ensures
        s.line_number > 1 ==> {
            &&& s.retreated().line_number == s.line_number - 1
            &&& s.retreated().input.len() == 0
            &&& s.retreated().target == s.lines[s.line_number - 2]
        },
        s.line_number <= 1 ==> s.retreated() == s,
{
}

/// Stepping back with something typed is a backspace; with nothing typed on line
/// `n > 1`, it lands on line `n - 1` with all but its last character typed.
pub proof fn lemma_step_back_reenters_previous_line(s: SessionView)
    requires
        s.wf(),
    ensures
        s.input.len() > 0 ==> s.stepped_back() == s.backspaced(),
        s.input.len() == 0 && s.line_number > 1 ==> {
            &&& s.stepped_back().line_number == s.line_number - 1
            &&& s.stepped_back().input == s.lines[s.line_number - 2].drop_last()
            &&& s.stepped_back().target == s.lines[s.line_number - 2]
        },
{
}

/// Once the session has been asked to end, no action or tick takes that back.
pub proof fn lemma_exit_is_final(s: SessionView, a: Action)
    requires
        s.exit,
    ensures
        s.step(a).exit,
        s.tick().exit,
{
}

} // verus!
