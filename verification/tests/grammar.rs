use query_editor::grammar::check_query;
use query_editor::textbox::Message;
use query_editor::textbox::QueryState;
use query_editor::textbox::TextBox;
use query_editor::App;
use query_editor::Tabs;

fn chars(s: &str) -> Vec<char> {
    s.chars().collect()
}

fn is_valid(s: &str) -> bool {
    check_query(&chars(s))
}

fn validate(s: &str) -> QueryState {
    let mut app = App::new();
    app.text_box.current_query = chars(s);
    app.text_box.character_index = s.chars().count();
    TextBox::update(&mut app, Tabs::TextBox(Message::Validate));
    app.text_box.query_state
}

#[test]
fn select_star_from_with_semicolon_is_valid() {
    assert_eq!(validate("SELECT * FROM users;"), QueryState::Check);
}

#[test]
fn select_from_without_columns_is_invalid() {
    assert_eq!(validate("SELECT FROM"), QueryState::Error);
}

#[test]
fn validate_does_not_touch_buffer_or_cursor() {
    let mut app = App::new();
    app.text_box.current_query = chars("SELECT * FROM t");
    app.text_box.character_index = 15;
    TextBox::update(&mut app, Tabs::TextBox(Message::Validate));
    assert_eq!(app.text_box.current_query, chars("SELECT * FROM t"));
    assert_eq!(app.text_box.character_index, 15);
    assert_eq!(app.text_box.query_state, QueryState::Check);
}

#[test]
fn minimal_select_is_valid() {
    assert!(is_valid("SELECT * FROM t"));
    assert!(is_valid("SELECT a FROM t"));
    assert!(is_valid("SELECT a, b, c FROM tbl_2"));
}

#[test]
fn distinct_columns_are_valid() {
    assert!(is_valid("SELECT DISTINCT * FROM t"));
    assert!(is_valid("SELECT DISTINCT a, b FROM t;"));
}

#[test]
fn where_clause_is_valid() {
    assert!(is_valid("SELECT * FROM users WHERE age > 30"));
    assert!(is_valid("SELECT name FROM users WHERE name = 'Ada' ;"));
    assert!(is_valid("SELECT * FROM t WHERE a = 1, b != \"x\" (c)"));
}

#[test]
fn grouping_and_ordering_are_valid() {
    assert!(is_valid("SELECT a FROM t GROUP BY a"));
    assert!(is_valid("SELECT a FROM t ORDER BY a, b"));
    assert!(is_valid("SELECT a FROM t WHERE x = 1 GROUP BY a ORDER BY b;"));
}

#[test]
fn limits_and_options_are_valid() {
    assert!(is_valid("SELECT * FROM t PER PARTITION LIMIT 3"));
    assert!(is_valid("SELECT * FROM t PER PARTITION LIMIT ?"));
    assert!(is_valid("SELECT * FROM t LIMIT 10"));
    assert!(is_valid("SELECT * FROM t LIMIT ?;"));
    assert!(is_valid("SELECT * FROM t ALLOW FILTERING"));
    assert!(is_valid("SELECT * FROM t BYPASS CACHE"));
    assert!(is_valid("SELECT * FROM t USING TIMEOUT 30"));
    assert!(is_valid(
        "SELECT a FROM t WHERE x = 1 GROUP BY a ORDER BY b PER PARTITION LIMIT 2 LIMIT 10 ALLOW FILTERING BYPASS CACHE USING TIMEOUT 5;"
    ));
}

#[test]
fn trailing_whitespace_is_tolerated() {
    assert!(is_valid("SELECT * FROM t   "));
    assert!(is_valid("SELECT * FROM t  ;"));
    assert!(is_valid("SELECT  *   FROM   t"));
}

#[test]
fn empty_and_fragmentary_queries_are_invalid() {
    assert!(!is_valid(""));
    assert!(!is_valid(";"));
    assert!(!is_valid("SELECT"));
    assert!(!is_valid("SELECT *"));
    assert!(!is_valid("SELECT * FROM"));
    assert!(!is_valid("SELECT * FROM "));
}

#[test]
fn keywords_are_case_sensitive() {
    assert!(!is_valid("select * from t"));
    assert!(!is_valid("Select * From t"));
}

#[test]
fn clause_order_is_fixed() {
    assert!(!is_valid("SELECT * FROM t LIMIT 5 WHERE x = 1"));
    assert!(!is_valid("SELECT * FROM t ALLOW FILTERING WHERE x = 1"));
    assert!(!is_valid("FROM t SELECT *"));
}

#[test]
fn list_bodies_swallow_later_words() {
    // The ORDER BY list may consist of words and spaces, so it absorbs a
    // misplaced GROUP BY; the grammar is deliberately this loose.
    assert!(is_valid("SELECT * FROM t ORDER BY a GROUP BY b"));
}

#[test]
fn malformed_tokens_are_invalid() {
    assert!(!is_valid("SELECT *FROM t"));
    assert!(!is_valid("SELECT * FROM t;;"));
    assert!(!is_valid("SELECT * FROM t LIMIT"));
    assert!(!is_valid("SELECT * FROM t LIMIT x"));
    assert!(!is_valid("SELECT * FROM t USING TIMEOUT ?"));
    assert!(!is_valid("SELECT * FROM t-y"));
}

#[test]
fn semicolon_must_be_last() {
    assert!(!is_valid("SELECT * FROM t; LIMIT 5"));
    assert!(!is_valid(";SELECT * FROM t"));
}
