use vstd::prelude::*;

use crate::session::{App, SessionView};

verus! {

/// How one character of the active line stands against what has been typed.
#[derive(Clone, Copy, Debug, PartialEq, Eq, Structural)]
pub enum CharStatus {
    /// Typed, and equal to the line's character.
    Matched,
    /// Typed, and different from the line's character.
    Mismatched,
    /// The next character to type.
    Cursor,
    /// Not reached yet.
    Pending,
}

/// The status of position `i` of `target` when `input` has been typed.
pub open spec fn status_at(target: Seq<char>, input: Seq<char>, i: int) -> CharStatus {
    if i < input.len() {
        if input[i] == target[i] {
            CharStatus::Matched
        } else {
            CharStatus::Mismatched
        }
    } else if i == input.len() {
        CharStatus::Cursor
    } else {
        CharStatus::Pending
    }
}

/// What a display shows of a session.
pub struct ScreenView {
    pub previous: Option<Seq<char>>,
    pub current: Seq<(char, CharStatus)>,
    pub next: Option<Seq<char>>,
    pub line_number: nat,
    pub total: nat,
}

/// The display model of a session: the line before the active one, the active
/// line with a status for each character, the line after it, and the progress.
pub struct Screen {
    /// The line before the active one, if there is one.
    pub previous: Option<String>,
    /// Each character of the active line with its status.
    pub current: Vec<(char, CharStatus)>,
    /// The line after the active one, if there is one.
    pub next: Option<String>,
    /// How many lines have been started.
    pub line_number: usize,
    /// How many lines there are.
    pub total: usize,
}

/// The view of an optional string.
pub open spec fn opt_chars(o: Option<String>) -> Option<Seq<char>> {
    match o {
        Some(s) => Some(s@),
        None => None,
    }
}

impl View for Screen {
    type V = ScreenView;

    open spec fn view(&self) -> ScreenView {
        ScreenView {
            previous: opt_chars(self.previous),
            current: self.current@,
            next: opt_chars(self.next),
            line_number: self.line_number as nat,
            total: self.total as nat,
        }
    }
}

impl SessionView {
    /// The active line, each character paired with its status.
    pub open spec fn statuses(self) -> Seq<(char, CharStatus)> {
        Seq::new(self.target.len(), |i: int| (self.target[i], status_at(self.target, self.input, i)))
    }

    /// What a display shows of this state.
    pub open spec fn screen(self) -> ScreenView {
        ScreenView {
            previous: if self.line_number > 1 {
                Some(self.lines[self.line_number - 2])
            } else {
                None
            },
            current: self.statuses(),
            next: if self.line_number < self.lines.len() {
                Some(self.lines[self.line_number as int])
            } else {
                None
            },
            line_number: self.line_number,
            total: self.lines.len(),
        }
    }
}

impl App {
    /// Projects the session onto what a display shows.
    pub fn screen(&self) -> (r: Screen)
        requires
            self@.wf(),
        ensures
            r@ == self@.screen(),
    {
        let lines = self.lines();
        let n = self.line_number();
        let target = self.target();
        let input = self.input();

        let previous = if n > 1 {
            Some(lines[n - 2].clone())
        } else {
            None
        };

        let mut current: Vec<(char, CharStatus)> = Vec::new();
        let mut i: usize = 0;
        while i < target.len()
            invariant
                target@ == self@.target,
                input@ == self@.input,
                i <= target.len(),
                current@ == Seq::new(
                    i as nat,
                    |j: int| (target@[j], status_at(target@, input@, j)),
                ),
            decreases target.len() - i,
        {
            let ch = target[i];
            let status = if i < input.len() {
                if input[i] == ch {
                    CharStatus::Matched
                } else {
                    CharStatus::Mismatched
                }
            } else if i == input.len() {
                CharStatus::Cursor
            } else {
                CharStatus::Pending
            };
            current.push((ch, status));
            i += 1;
            assert(current@ =~= Seq::new(
                i as nat,
                |j: int| (target@[j], status_at(target@, input@, j)),
            ));
        }

        let next = if n < lines.len() {
            Some(lines[n].clone())
        } else {
            None
        };

        let r = Screen { previous, current, next, line_number: n, total: lines.len() };
        assert(r@.current =~= self@.statuses());
        r
    }
}

} // verus!
