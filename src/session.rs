use vstd::prelude::*;

use crate::loader::{load_lines, loaded_lines};

verus! {

/// The mathematical state of a typing session.
pub struct SessionView {
    /// The lines to practise, fixed when the session starts.
    pub lines: Seq<Seq<char>>,
    /// How many lines have been started: the active line is `lines[line_number - 1]`.
    pub line_number: nat,
    /// The characters of the active line.
    pub target: Seq<char>,
    /// What has been typed for the active line so far.
    pub input: Seq<char>,
    /// The active line is finished and the next tick moves on.
    pub pending: bool,
    /// The session has been asked to end.
    pub exit: bool,
    /// The name of the source the lines were read from.
    pub name: Seq<char>,
}

impl SessionView {
    /// The invariant that every reachable session state satisfies.
    pub open spec fn wf(self) -> bool {
        &&& self.lines.len() >= 1
        &&& forall|i: int| 0 <= i < self.lines.len() ==> #[trigger] self.lines[i].len() > 0
        &&& self.line_number <= self.lines.len()
        &&& self.input.len() <= self.target.len()
        &&& self.line_number == 0 ==> self.target.len() == 0 && self.pending
        &&& self.line_number >= 1 ==> self.target == self.lines[self.line_number - 1]
        &&& self.input == self.target ==> self.pending
    }

    /// Moves to the next line when the active one is finished and another remains.
    pub open spec fn tick(self) -> SessionView {
        if self.pending && self.line_number < self.lines.len() {
            SessionView {
                target: self.lines[self.line_number as int],
                line_number: self.line_number + 1,
                input: Seq::empty(),
                pending: false,
                ..self
            }
        } else {
            self
        }
    }

    /// Records `c` when the line has room, then marks the line finished if it now matches.
    pub open spec fn typed(self, c: char) -> SessionView {
        let input = if self.input.len() < self.target.len() { self.input.push(c) } else { self.input };
        SessionView { input, pending: self.pending || input == self.target, ..self }
    }

    /// Records the line's own next character when the line has room, then marks the
    /// line finished if it now matches.
    pub open spec fn accepted(self) -> SessionView {
        let input = if self.input.len() < self.target.len() {
            self.input.push(self.target[self.input.len() as int])
        } else {
            self.input
        };
        SessionView { input, pending: self.pending || input == self.target, ..self }
    }

    /// Removes the last typed character, if any.
    pub open spec fn backspaced(self) -> SessionView {
        if self.input.len() > 0 {
            SessionView { input: self.input.drop_last(), ..self }
        } else {
            self
        }
    }

    /// Empties what has been typed for the active line.
    pub open spec fn cleared(self) -> SessionView {
        SessionView { input: Seq::empty(), ..self }
    }

    /// Starts the previous line afresh, when there is one.
    pub open spec fn retreated(self) -> SessionView {
        if self.line_number > 1 {
            SessionView {
                target: self.lines[self.line_number - 2],
                line_number: (self.line_number - 1) as nat,
                input: Seq::empty(),
                ..self
            }
        } else {
            self
        }
    }

    /// Removes the last typed character; with nothing typed, re-enters the previous
    /// line typed up to its last character.
    pub open spec fn stepped_back(self) -> SessionView {
        if self.input.len() > 0 {
            self.backspaced()
        } else if self.line_number > 1 {
            SessionView {
                target: self.lines[self.line_number - 2],
                line_number: (self.line_number - 1) as nat,
                input: self.lines[self.line_number - 2].drop_last(),
                ..self
            }
        } else {
            self
        }
    }

    /// Marks the active line finished whatever has been typed.
    pub open spec fn skipped(self) -> SessionView {
        SessionView { pending: true, ..self }
    }

    /// Asks the session to end.
    pub open spec fn quitted(self) -> SessionView {
        SessionView { exit: true, ..self }
    }

    /// The state after one user action.
    pub open spec fn step(self, a: Action) -> SessionView {
        match a {
            Action::Quit => self.quitted(),
            Action::Retreat => self.retreated(),
            Action::Skip => self.skipped(),
            Action::Clear => self.cleared(),
            Action::Backspace => self.backspaced(),
            Action::StepBack => self.stepped_back(),
            Action::AcceptChar => self.accepted(),
            Action::Type(c) => self.typed(c),
        }
    }
}

/// One discrete user action.
#[derive(Clone, Copy, Debug, PartialEq, Eq, Structural)]
pub enum Action {
    /// End the session.
    Quit,
    /// Start the previous line afresh.
    Retreat,
    /// Give up on the active line and move on.
    Skip,
    /// Empty what has been typed for the active line.
    Clear,
    /// Remove the last typed character.
    Backspace,
    /// Remove the last typed character, or go back into the previous line.
    StepBack,
    /// Take the active line's next character as typed.
    AcceptChar,
    /// A typed character.
    Type(char),
}

/// A typing session over the lines of one source.
pub struct App {
    file_name: String,
    file_contents: Vec<String>,
    exit: bool,
    cur_paragraph: Vec<char>,
    cur_paragraph_done: bool,
    paragraph_num: usize,
    cur_input: Vec<char>,
}

impl View for App {
    type V = SessionView;

    closed spec fn view(&self) -> SessionView {
        SessionView {
            lines: self.file_contents@.map_values(|s: String| s@),
            line_number: self.paragraph_num as nat,
            target: self.cur_paragraph@,
            input: self.cur_input@,
            pending: self.cur_paragraph_done,
            exit: self.exit,
            name: self.file_name@,
        }
    }
}

/// The characters of `s`, in order.
fn chars_of(s: &str) -> (r: Vec<char>)
    ensures
        r@ == s@,
{
    let n = s.unicode_len();
    let mut r: Vec<char> = Vec::new();
    let mut i: usize = 0;
    while i < n
        invariant
            n == s@.len(),
            i <= n,
            r@ == s@.take(i as int),
        decreases n - i,
    {
        r.push(s.get_char(i));
        i += 1;
    }
    assert(r@ == s@);
    r
}

/// Whether two character sequences are equal.
fn same_chars(a: &Vec<char>, b: &Vec<char>) -> (r: bool)
    ensures
        r == (a@ == b@),
{
    if a.len() != b.len() {
        return false;
    }
    let mut i: usize = 0;
    while i < a.len()
        invariant
            a.len() == b.len(),
            i <= a.len(),
            forall|j: int| 0 <= j < i ==> a@[j] == b@[j],
        decreases a.len() - i,
    {
        if a[i] != b[i] {
            return false;
        }
        i += 1;
    }
    assert(a@ =~= b@);
    true
}

impl App {
    /// Starts a session over the given raw lines of a source named `file_name`.
    /// Nothing is loaded yet: the first tick brings in the first line.
    pub fn new(file_contents: Vec<&str>, file_name: String) -> (r: App)
        ensures
            r@.lines == loaded_lines(file_contents@.map_values(|s: &str| s@), file_name@),
            r@.line_number == 0,
            r@.target.len() == 0,
            r@.input.len() == 0,
            r@.pending,
            !r@.exit,
            r@.name == file_name@,
            r@.wf(),
    {
        let file_contents = load_lines(&file_contents, file_name.as_str());
        App {
            file_name,
            file_contents,
            cur_paragraph: Vec::new(),
            cur_paragraph_done: true,
            cur_input: Vec::new(),
            paragraph_num: 0,
            exit: false,
        }
    }

    /// Loads the next line when the active one is finished; otherwise does nothing.
    pub fn advance_if_pending(&mut self)
        requires
            old(self)@.wf(),
        ensures
            final(self)@ == old(self)@.tick(),
            final(self)@.wf(),
    {
        if self.cur_paragraph_done && self.paragraph_num < self.file_contents.len() {
            self.cur_paragraph = chars_of(self.file_contents[self.paragraph_num].as_str());
            self.paragraph_num += 1;
            self.cur_input.clear();
            self.cur_paragraph_done = false;
            assert(self@.input =~= Seq::<char>::empty());
        }
    }

    /// Records a typed character when the line has room for it, correct or not.
    pub fn type_char(&mut self, ch: char)
        requires
            old(self)@.wf(),
        ensures
            final(self)@ == old(self)@.typed(ch),
            final(self)@.wf(),
    {
        if self.cur_paragraph.len() > self.cur_input.len() {
            self.cur_input.push(ch);
        }
        if same_chars(&self.cur_paragraph, &self.cur_input) {
            self.cur_paragraph_done = true;
        }
    }

    /// Records the active line's next character as typed, when the line has room.
    pub fn accept_char(&mut self)
        requires
            old(self)@.wf(),
        ensures
            final(self)@ == old(self)@.accepted(),
            final(self)@.wf(),
    {
        if self.cur_paragraph.len() > self.cur_input.len() {
            let ch = self.cur_paragraph[self.cur_input.len()];
            self.cur_input.push(ch);
        }
        if same_chars(&self.cur_paragraph, &self.cur_input) {
            self.cur_paragraph_done = true;
        }
    }

    /// Removes the last typed character, if any.
    pub fn backspace(&mut self)
        requires
            old(self)@.wf(),
        ensures
            final(self)@ == old(self)@.backspaced(),
            final(self)@.wf(),
    {
        if self.cur_input.len() > 0 {
            self.cur_input.pop();
        }
    }

    /// Empties what has been typed for the active line.
    pub fn clear(&mut self)
        requires
            old(self)@.wf(),
        ensures
            final(self)@ == old(self)@.cleared(),
            final(self)@.wf(),
    {
        self.cur_input.clear();
        assert(self@.input =~= Seq::<char>::empty());
    }

    /// Starts the previous line afresh, when there is one.
    pub fn retreat(&mut self)
        requires
            old(self)@.wf(),
        ensures
            final(self)@ == old(self)@.retreated(),
            final(self)@.wf(),
    {
        if self.paragraph_num > 1 {
            self.cur_paragraph = chars_of(self.file_contents[self.paragraph_num - 2].as_str());
            self.paragraph_num -= 1;
            self.cur_input.clear();
            assert(self@.input =~= Seq::<char>::empty());
        }
    }

    /// Removes the last typed character; with nothing typed, goes back into the
    /// previous line with all but its last character typed.
    pub fn step_back(&mut self)
        requires
            old(self)@.wf(),
        ensures
            final(self)@ == old(self)@.stepped_back(),
            final(self)@.wf(),
    {
        if self.cur_input.len() > 0 {
            self.cur_input.pop();
        } else if self.paragraph_num > 1 {
            self.cur_paragraph = chars_of(self.file_contents[self.paragraph_num - 2].as_str());
            self.cur_input = self.cur_paragraph.clone();
            self.cur_input.pop();
            self.paragraph_num -= 1;
        }
    }

    /// Marks the active line finished, whatever has been typed.
    pub fn skip(&mut self)
        requires
            old(self)@.wf(),
        ensures
            final(self)@ == old(self)@.skipped(),
            final(self)@.wf(),
    {
        self.cur_paragraph_done = true;
    }

    /// Asks the session to end.
    pub fn quit(&mut self)
        requires
            old(self)@.wf(),
        ensures
            final(self)@ == old(self)@.quitted(),
            final(self)@.wf(),
    {
        self.exit = true;
    }

    /// Applies one user action.
    pub fn handle(&mut self, action: Action)
        requires
            old(self)@.wf(),
        ensures
            final(self)@ == old(self)@.step(action),
            final(self)@.wf(),
    {
        match action {
            Action::Quit => self.quit(),
            Action::Retreat => self.retreat(),
            Action::Skip => self.skip(),
            Action::Clear => self.clear(),
            Action::Backspace => self.backspace(),
            Action::StepBack => self.step_back(),
            Action::AcceptChar => self.accept_char(),
            Action::Type(ch) => self.type_char(ch),
        }
    }
    /// The lines of the session.
    pub fn lines(&self) -> (r: &Vec<String>)
        ensures
            r@.map_values(|s: String| s@) == self@.lines,
    {
        &self.file_contents
    }

    /// How many lines have been started; the active one is at this 1-based position.
    pub fn line_number(&self) -> (r: usize)
        ensures
            r == self@.line_number,
    {
        self.paragraph_num
    }

    /// The characters of the active line.
    pub fn target(&self) -> (r: &Vec<char>)
        ensures
            r@ == self@.target,
    {
        &self.cur_paragraph
    }

    /// What has been typed for the active line.
    pub fn input(&self) -> (r: &Vec<char>)
        ensures
            r@ == self@.input,
    {
        &self.cur_input
    }

    /// Whether the active line is finished, so that the next tick moves on.
    pub fn is_line_complete(&self) -> (r: bool)
        ensures
            r == self@.pending,
    {
        self.cur_paragraph_done
    }

    /// Whether the session has been asked to end.
    pub fn should_exit(&self) -> (r: bool)
        ensures
            r == self@.exit,
    {
        self.exit
    }

    /// The name of the source the lines came from.
    pub fn file_name(&self) -> (r: &String)
        ensures
            r@ == self@.name,
    {
        &self.file_name
    }
}

} // verus!
