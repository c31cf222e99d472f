use query_editor::suggestion::Suggestion;
use query_editor::textbox::Message;
use query_editor::textbox::QueryState;
use query_editor::textbox::TextBox;
use query_editor::App;
use query_editor::FocusState;
use query_editor::Key;
use query_editor::Tabs;

fn chars(s: &str) -> Vec<char> {
    s.chars().collect()
}

fn string_of(v: &[char]) -> String {
    v.iter().collect()
}

fn app_with_buffer(s: &str) -> App {
    let mut app = App::new();
    app.text_box.current_query = chars(s);
    app.text_box.character_index = s.chars().count();
    app
}

#[test]
fn new_app_starts_editing_with_empty_buffer() {
    let app = App::new();
    assert_eq!(app.focus_state, FocusState::Editing);
    assert_eq!(app.text_box.current_query, Vec::<char>::new());
    assert_eq!(app.text_box.character_index, 0);
    assert_eq!(app.text_box.query_state, QueryState::Waiting);
    let vocab: Vec<String> = app
        .suggestion_box
        .available_completions
        .iter()
        .map(|w| string_of(w))
        .collect();
    assert_eq!(vocab, vec!["SELECT", "FROM", "WHERE", "AGGREGATORS"]);
    assert!(app.suggestion_box.suggested_completions.is_empty());
}

#[test]
fn suggestion_new_matches_app_vocabulary() {
    let s = Suggestion::new();
    assert_eq!(s.available_completions.len(), 4);
    assert_eq!(string_of(&s.available_completions[0]), "SELECT");
    assert_eq!(string_of(&s.available_completions[3]), "AGGREGATORS");
    assert!(s.suggested_completions.is_empty());
}

#[test]
fn insert_at_cursor_not_at_end() {
    let mut app = app_with_buffer("AB");
    app.text_box.character_index = 1;
    TextBox::update(&mut app, Tabs::TextBox(Message::NewCharacter('X')));
    assert_eq!(string_of(&app.text_box.current_query), "AXB");
    assert_eq!(app.text_box.character_index, 2);
}

#[test]
fn insert_then_delete_restores_buffer_and_cursor() {
    let mut app = app_with_buffer("AB");
    app.text_box.character_index = 1;
    app.text_box.query_state = QueryState::Check;
    TextBox::update(&mut app, Tabs::TextBox(Message::NewCharacter('X')));
    TextBox::update(&mut app, Tabs::TextBox(Message::DeleteCharacter));
    assert_eq!(string_of(&app.text_box.current_query), "AB");
    assert_eq!(app.text_box.character_index, 1);
    assert_eq!(app.text_box.query_state, QueryState::Waiting);
}

#[test]
fn edits_reset_validation_to_pending() {
    let mut app = app_with_buffer("SELECT * FROM t");
    TextBox::update(&mut app, Tabs::TextBox(Message::Validate));
    assert_eq!(app.text_box.query_state, QueryState::Check);
    TextBox::update(&mut app, Tabs::TextBox(Message::NewCharacter('x')));
    assert_eq!(app.text_box.query_state, QueryState::Waiting);
    TextBox::update(&mut app, Tabs::TextBox(Message::Validate));
    TextBox::update(&mut app, Tabs::TextBox(Message::DeleteCharacter));
    assert_eq!(app.text_box.query_state, QueryState::Waiting);
}

#[test]
fn delete_at_start_is_a_noop() {
    let mut app = app_with_buffer("AB");
    app.text_box.character_index = 0;
    app.text_box.query_state = QueryState::Error;
    TextBox::update(&mut app, Tabs::TextBox(Message::DeleteCharacter));
    assert_eq!(string_of(&app.text_box.current_query), "AB");
    assert_eq!(app.text_box.character_index, 0);
    assert_eq!(app.text_box.query_state, QueryState::Error);
}

#[test]
fn cursor_stays_within_buffer_over_command_sequences() {
    let mut app = App::new();
    let commands = [
        Tabs::TextBox(Message::NewCharacter('S')),
        Tabs::TextBox(Message::NewCharacter('E')),
        Tabs::TextBox(Message::DeleteCharacter),
        Tabs::TextBox(Message::NewCharacter('L')),
        Tabs::TextBox(Message::AutoComplete),
        Tabs::TextBox(Message::DeleteCharacter),
        Tabs::TextBox(Message::DeleteCharacter),
    ];
    for msg in commands {
        TextBox::update(&mut app, msg);
        assert!(app.text_box.character_index <= app.text_box.current_query.len());
    }
}

#[test]
fn substring_match_is_not_prefix_only() {
    let mut app = app_with_buffer("HE");
    let result = app.update_autocomplete();
    let suggested: Vec<String> = app
        .suggestion_box
        .suggested_completions
        .iter()
        .map(|w| string_of(w))
        .collect();
    assert!(suggested.contains(&"WHERE".to_string()));
    let (len, word) = result.expect("HE should match WHERE");
    assert_eq!(len, 2);
    assert_eq!(string_of(&word), "WHERE");
}

#[test]
fn autocomplete_completes_selec_to_select() {
    let mut app = app_with_buffer("SELEC");
    TextBox::update(&mut app, Tabs::TextBox(Message::AutoComplete));
    assert_eq!(string_of(&app.text_box.current_query), "SELECT");
    assert_eq!(app.text_box.character_index, 6);
}

#[test]
fn autocomplete_replaces_trailing_word_after_space() {
    let mut app = app_with_buffer("SELECT * FR");
    TextBox::update(&mut app, Tabs::TextBox(Message::AutoComplete));
    assert_eq!(string_of(&app.text_box.current_query), "SELECT * FROM");
    assert_eq!(app.text_box.character_index, 13);
}

#[test]
fn autocomplete_without_match_changes_nothing_but_validation() {
    let mut app = app_with_buffer("qzj");
    app.text_box.query_state = QueryState::Error;
    app.suggestion_box.suggested_completions = vec![chars("SELECT")];
    TextBox::update(&mut app, Tabs::TextBox(Message::AutoComplete));
    assert_eq!(string_of(&app.text_box.current_query), "qzj");
    assert_eq!(app.text_box.character_index, 3);
    assert_eq!(app.text_box.query_state, QueryState::Waiting);
    assert_eq!(app.suggestion_box.suggested_completions, vec![chars("SELECT")]);
}

#[test]
fn autocomplete_on_empty_trailing_word_clears_suggestions() {
    let mut app = app_with_buffer("SELECT ");
    app.suggestion_box.suggested_completions = vec![chars("SELECT")];
    let result = app.update_autocomplete();
    assert!(result.is_none());
    assert!(app.suggestion_box.suggested_completions.is_empty());
}

#[test]
fn autocomplete_keeps_all_matches_but_returns_first() {
    let mut app = app_with_buffer("E");
    let result = app.update_autocomplete();
    let suggested: Vec<String> = app
        .suggestion_box
        .suggested_completions
        .iter()
        .map(|w| string_of(w))
        .collect();
    assert_eq!(suggested, vec!["SELECT", "WHERE", "AGGREGATORS"]);
    let (len, word) = result.expect("E matches several entries");
    assert_eq!(len, 1);
    assert_eq!(string_of(&word), "SELECT");
}

#[test]
fn reset_state_returns_to_waiting() {
    let mut tb = TextBox::new();
    tb.query_state = QueryState::Error;
    tb.reset_state();
    assert_eq!(tb.query_state, QueryState::Waiting);
    tb.reset_state();
    assert_eq!(tb.query_state, QueryState::Waiting);
}

#[test]
fn standby_enter_starts_editing_and_escape_quits() {
    let mut app = App::new();
    app.focus_state = FocusState::StandBy;
    let routed = query_editor::handle_key(&mut app, Key::Enter);
    assert!(routed.is_none());
    assert_eq!(app.focus_state, FocusState::Editing);

    let mut other = App::new();
    other.focus_state = FocusState::StandBy;
    let routed = query_editor::handle_key(&mut other, Key::Esc);
    assert!(routed.is_none());
    assert_eq!(other.focus_state, FocusState::Done);
}

#[test]
fn standby_ignores_other_keys() {
    let mut app = App::new();
    app.focus_state = FocusState::StandBy;
    let routed = query_editor::handle_key(&mut app, Key::Char('x'));
    assert!(routed.is_none());
    assert_eq!(app.focus_state, FocusState::StandBy);
}

#[test]
fn editing_translates_keys_to_commands() {
    let mut app = App::new();
    assert_eq!(
        query_editor::handle_key(&mut app, Key::Char('a')),
        Some(Tabs::TextBox(Message::NewCharacter('a')))
    );
    assert_eq!(
        query_editor::handle_key(&mut app, Key::Tab),
        Some(Tabs::TextBox(Message::AutoComplete))
    );
    assert_eq!(
        query_editor::handle_key(&mut app, Key::Enter),
        Some(Tabs::TextBox(Message::Validate))
    );
    assert_eq!(
        query_editor::handle_key(&mut app, Key::Backspace),
        Some(Tabs::TextBox(Message::DeleteCharacter))
    );
    assert_eq!(
        query_editor::handle_key(&mut app, Key::Esc),
        Some(Tabs::TextBox(Message::Exit))
    );
    assert_eq!(query_editor::handle_key(&mut app, Key::Other), None);
    assert_eq!(app.focus_state, FocusState::Editing);
}

#[test]
fn exit_command_hands_focus_back_to_standby() {
    let mut app = App::new();
    TextBox::update(&mut app, Tabs::TextBox(Message::Exit));
    assert_eq!(app.focus_state, FocusState::StandBy);
}

#[test]
fn done_routes_nothing() {
    let mut app = App::new();
    app.focus_state = FocusState::Done;
    let routed = query_editor::handle_key(&mut app, Key::Enter);
    assert!(routed.is_none());
    assert_eq!(app.focus_state, FocusState::Done);
}
