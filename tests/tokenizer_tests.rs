use tokenizer::breakdown::{gran_breakdown, render_text};
use tokenizer::classify::{classify_token, TokenType};
use tokenizer::scan::{tokenize, Token};

fn pairs(tokens: &[Token]) -> Vec<(String, TokenType)> {
    tokens
        .iter()
        .map(|t| (t.token.clone(), t.token_type))
        .collect()
}

fn tok(text: &str, token_type: TokenType) -> Token {
    Token {
        token: text.to_string(),
        token_type,
    }
}

#[test]
fn classify_letters_as_word() {
    assert_eq!(classify_token("hello"), TokenType::Word);
    assert_eq!(classify_token("Z"), TokenType::Word);
    assert_eq!(classify_token("京都"), TokenType::Word);
}

#[test]
fn classify_digits_as_number() {
    assert_eq!(classify_token("12345"), TokenType::Number);
    assert_eq!(classify_token("0"), TokenType::Number);
    assert_eq!(classify_token("٣"), TokenType::Number);
}

#[test]
fn classify_empty_as_end_of_line() {
    assert_eq!(classify_token(""), TokenType::EndOfLine);
}

#[test]
fn classify_single_operators() {
    for op in ["+", "-", "*", "/", "=", "<", ">"] {
        assert_eq!(classify_token(op), TokenType::Operator, "{}", op);
    }
    assert_eq!(classify_token("<="), TokenType::Operator);
}

#[test]
fn classify_whitespace() {
    assert_eq!(classify_token(" "), TokenType::Whitespace);
    assert_eq!(classify_token("\t\t"), TokenType::Whitespace);
    assert_eq!(classify_token("\u{A0}"), TokenType::Whitespace);
}

#[test]
fn classify_punctuation_and_unknown() {
    assert_eq!(classify_token("!!"), TokenType::Punctuation);
    assert_eq!(classify_token("+!"), TokenType::Punctuation);
    assert_eq!(classify_token("a+b"), TokenType::Unknown);
    assert_eq!(classify_token("a1"), TokenType::Unknown);
    assert_eq!(classify_token("é!"), TokenType::Unknown);
}

#[test]
fn scan_assignment() {
    let tokens = tokenize("x = 5");
    assert_eq!(
        pairs(&tokens),
        vec![
            ("x".to_string(), TokenType::Word),
            (" ".to_string(), TokenType::Whitespace),
            ("=".to_string(), TokenType::Operator),
            (" ".to_string(), TokenType::Whitespace),
            ("5".to_string(), TokenType::Number),
        ]
    );
}

#[test]
fn scan_operator_inside_run() {
    let tokens = tokenize("a+b");
    assert_eq!(pairs(&tokens), vec![("a+b".to_string(), TokenType::Unknown)]);
}

#[test]
fn scan_empty_input() {
    assert!(tokenize("").is_empty());
}

#[test]
fn scan_number_then_newline() {
    let tokens = tokenize("12\n");
    assert_eq!(
        pairs(&tokens),
        vec![
            ("12".to_string(), TokenType::Number),
            ("\n".to_string(), TokenType::EndOfLine),
        ]
    );
}

#[test]
fn scan_adjacent_delimiters() {
    let tokens = tokenize("a==b");
    assert_eq!(
        pairs(&tokens),
        vec![
            ("a".to_string(), TokenType::Word),
            ("=".to_string(), TokenType::Operator),
            ("=".to_string(), TokenType::Operator),
            ("b".to_string(), TokenType::Word),
        ]
    );
}

#[test]
fn scan_tab_is_not_a_delimiter() {
    let tokens = tokenize("a\tb c");
    assert_eq!(
        pairs(&tokens),
        vec![
            ("a\tb".to_string(), TokenType::Unknown),
            (" ".to_string(), TokenType::Whitespace),
            ("c".to_string(), TokenType::Word),
        ]
    );
}

#[test]
fn scan_texts_rebuild_input() {
    for input in ["x = 5", "a+b", "", "12\n", "  ==\n\nfoo bar=baz!", "日本 = 語\t9"] {
        let tokens = tokenize(input);
        let joined: String = tokens.iter().map(|t| t.token.as_str()).collect();
        assert_eq!(joined, input);
        assert!(tokens.iter().all(|t| !t.token.is_empty()));
    }
}

#[test]
fn scan_is_deterministic() {
    let input = "let total = 3 * y\n";
    assert_eq!(pairs(&tokenize(input)), pairs(&tokenize(input)));
}

#[test]
fn breakdown_two_letters() {
    let out = gran_breakdown(vec![tok("ab", TokenType::Word)]);
    assert_eq!(out, vec![("ab".to_string(), "\"a\" = \"b\"".to_string())]);
}

#[test]
fn breakdown_keeps_order_and_count() {
    let tokens = tokenize("x = 42");
    let out = gran_breakdown(tokens);
    assert_eq!(
        out,
        vec![
            ("x".to_string(), "\"x\"".to_string()),
            (" ".to_string(), "\" \"".to_string()),
            ("=".to_string(), "\"=\"".to_string()),
            (" ".to_string(), "\" \"".to_string()),
            ("42".to_string(), "\"4\" = \"2\"".to_string()),
        ]
    );
}

#[test]
fn breakdown_of_nothing() {
    assert!(gran_breakdown(Vec::new()).is_empty());
}

#[test]
fn render_edge_cases() {
    assert_eq!(render_text(""), "");
    assert_eq!(render_text("="), "\"=\"");
    assert_eq!(render_text("a ="), "\"a\" = \" \" = \"=\"");
}
