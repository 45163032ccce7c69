use punch::{Action, App, CharStatus};

fn started(lines: Vec<&str>) -> App {
    let mut app = App::new(lines, "practice.txt".to_string());
    app.advance_if_pending();
    app
}

#[test]
fn loading_trims_and_drops_blank_lines() {
    let app = App::new(vec!["a", "", "  b  ", ""], "f.txt".to_string());
    assert_eq!(app.lines(), &vec!["a".to_string(), "b".to_string()]);
}

#[test]
fn loading_keeps_order_and_inner_spaces() {
    let app = App::new(vec!["\tone two ", "   ", "three"], "f.txt".to_string());
    assert_eq!(app.lines(), &vec!["one two".to_string(), "three".to_string()]);
}

#[test]
fn blank_source_loads_placeholder() {
    let app = App::new(vec!["", "   ", "\t"], "notes.txt".to_string());
    assert_eq!(app.lines(), &vec!["Empty content in file [notes.txt]".to_string()]);
}

#[test]
fn empty_source_loads_placeholder() {
    let app = App::new(Vec::new(), "missing.txt".to_string());
    assert_eq!(app.lines(), &vec!["Empty content in file [missing.txt]".to_string()]);
    assert_eq!(app.file_name(), "missing.txt");
}

#[test]
fn new_session_waits_for_first_tick() {
    let app = App::new(vec!["hi"], "f".to_string());
    assert_eq!(app.line_number(), 0);
    assert!(app.target().is_empty());
    assert!(app.input().is_empty());
    assert!(app.is_line_complete());
    assert!(!app.should_exit());
}

#[test]
fn single_line_scenario() {
    let mut app = started(vec!["hi"]);
    assert_eq!(app.line_number(), 1);
    assert_eq!(app.target(), &vec!['h', 'i']);
    app.type_char('h');
    assert_eq!(app.input(), &vec!['h']);
    assert!(!app.is_line_complete());
    app.type_char('i');
    assert_eq!(app.input(), &vec!['h', 'i']);
    assert!(app.is_line_complete());
    app.advance_if_pending();
    assert_eq!(app.line_number(), 1);
    assert_eq!(app.input(), &vec!['h', 'i']);
    assert!(app.is_line_complete());
    app.handle(Action::Quit);
    assert!(app.should_exit());
}

#[test]
fn corrected_mistake_scenario() {
    let mut app = started(vec!["ab", "cd"]);
    app.handle(Action::Type('a'));
    assert_eq!(app.screen().current[0], ('a', CharStatus::Matched));
    app.handle(Action::Type('x'));
    assert_eq!(app.screen().current[1], ('b', CharStatus::Mismatched));
    assert!(!app.is_line_complete());
    app.handle(Action::Backspace);
    assert_eq!(app.input(), &vec!['a']);
    app.handle(Action::Type('b'));
    assert_eq!(app.screen().current[1], ('b', CharStatus::Matched));
    assert!(app.is_line_complete());
    app.advance_if_pending();
    assert_eq!(app.line_number(), 2);
    assert_eq!(app.target(), &vec!['c', 'd']);
    assert!(app.input().is_empty());
}

#[test]
fn typing_past_line_end_is_ignored() {
    let mut app = started(vec!["ab"]);
    app.type_char('x');
    app.type_char('y');
    app.type_char('z');
    assert_eq!(app.input(), &vec!['x', 'y']);
    assert!(!app.is_line_complete());
    app.accept_char();
    assert_eq!(app.input(), &vec!['x', 'y']);
}

#[test]
fn accept_char_types_the_right_character() {
    let mut app = started(vec!["ab"]);
    app.accept_char();
    assert_eq!(app.input(), &vec!['a']);
    assert!(!app.is_line_complete());
    app.handle(Action::AcceptChar);
    assert_eq!(app.input(), &vec!['a', 'b']);
    assert!(app.is_line_complete());
}

#[test]
fn backspace_on_empty_input_is_noop() {
    let mut app = started(vec!["ab", "cd"]);
    app.advance_if_pending();
    app.skip();
    app.advance_if_pending();
    app.backspace();
    assert_eq!(app.line_number(), 2);
    assert!(app.input().is_empty());
}

#[test]
fn clear_empties_input_only() {
    let mut app = started(vec!["abc"]);
    app.type_char('a');
    app.type_char('q');
    app.handle(Action::Clear);
    assert!(app.input().is_empty());
    assert_eq!(app.line_number(), 1);
    assert_eq!(app.target(), &vec!['a', 'b', 'c']);
}

#[test]
fn skip_forces_completion() {
    let mut app = started(vec!["ab", "cd"]);
    app.type_char('z');
    app.handle(Action::Skip);
    assert!(app.is_line_complete());
    assert_eq!(app.input(), &vec!['z']);
    app.advance_if_pending();
    assert_eq!(app.line_number(), 2);
    assert!(app.input().is_empty());
    assert!(!app.is_line_complete());
}

#[test]
fn skip_on_last_line_idles() {
    let mut app = started(vec!["ab"]);
    app.skip();
    app.advance_if_pending();
    assert_eq!(app.line_number(), 1);
    assert!(app.is_line_complete());
}

#[test]
fn retreat_restarts_previous_line() {
    let mut app = started(vec!["ab", "cd", "ef"]);
    app.skip();
    app.advance_if_pending();
    app.skip();
    app.advance_if_pending();
    assert_eq!(app.line_number(), 3);
    app.type_char('e');
    app.handle(Action::Retreat);
    assert_eq!(app.line_number(), 2);
    assert_eq!(app.target(), &vec!['c', 'd']);
    assert!(app.input().is_empty());
}

#[test]
fn retreat_on_first_line_is_noop() {
    let mut app = started(vec!["ab", "cd"]);
    app.type_char('a');
    app.retreat();
    assert_eq!(app.line_number(), 1);
    assert_eq!(app.input(), &vec!['a']);
}

#[test]
fn step_back_with_input_is_backspace() {
    let mut app = started(vec!["abc"]);
    app.type_char('a');
    app.type_char('b');
    app.handle(Action::StepBack);
    assert_eq!(app.input(), &vec!['a']);
    assert_eq!(app.line_number(), 1);
}

#[test]
fn step_back_reenters_previous_line() {
    let mut app = started(vec!["abc", "de"]);
    app.skip();
    app.advance_if_pending();
    assert_eq!(app.line_number(), 2);
    app.step_back();
    assert_eq!(app.line_number(), 1);
    assert_eq!(app.target(), &vec!['a', 'b', 'c']);
    assert_eq!(app.input(), &vec!['a', 'b']);
    assert_eq!(app.screen().current[2], ('c', CharStatus::Cursor));
}

#[test]
fn step_back_on_first_line_is_noop() {
    let mut app = started(vec!["abc", "de"]);
    app.step_back();
    assert_eq!(app.line_number(), 1);
    assert!(app.input().is_empty());
}

#[test]
fn screen_classifies_every_character() {
    let mut app = started(vec!["abcd"]);
    app.type_char('a');
    app.type_char('x');
    let screen = app.screen();
    assert_eq!(
        screen.current,
        vec![
            ('a', CharStatus::Matched),
            ('b', CharStatus::Mismatched),
            ('c', CharStatus::Cursor),
            ('d', CharStatus::Pending),
        ]
    );
}

#[test]
fn screen_shows_neighbour_lines_and_progress() {
    let mut app = started(vec!["one", "two", "three"]);
    let first = app.screen();
    assert_eq!(first.previous, None);
    assert_eq!(first.next, Some("two".to_string()));
    assert_eq!((first.line_number, first.total), (1, 3));
    app.skip();
    app.advance_if_pending();
    app.skip();
    app.advance_if_pending();
    let last = app.screen();
    assert_eq!(last.previous, Some("two".to_string()));
    assert_eq!(last.next, None);
    assert_eq!((last.line_number, last.total), (3, 3));
}

#[test]
fn quit_is_final_flag() {
    let mut app = started(vec!["ab"]);
    app.quit();
    assert!(app.should_exit());
    app.type_char('a');
    assert!(app.should_exit());
}
