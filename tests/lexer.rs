use wacc_lexer::c_token::{CKeyword, CSymbol, CToken};
use wacc_lexer::lexer::{c_table, keyword_for, CLang, CRule, Lexer, Source};
use wacc_lexer::scan::{lex, LexFailure, LexOutput, PatternTable};
use wacc_lexer::span::Span;

/// A readable form of one token: its kind and the text it covers.
fn describe(t: &CToken) -> (String, usize, usize, String) {
    match t {
        CToken::Keyword(k) => (format!("Keyword({})", k.as_str()), k.start(), k.end(), k.span().to_string()),
        CToken::Operator(s) => (format!("Operator({})", s.as_char()), s.start(), s.end(), s.span().to_string()),
        CToken::Punctuator(s) => (format!("Punctuator({})", s.as_char()), s.start(), s.end(), s.span().to_string()),
        CToken::Identifier(i) => ("Identifier".to_string(), i.start(), i.end(), i.span().to_string()),
        CToken::Constant(c) => ("Constant".to_string(), c.start(), c.end(), c.span().to_string()),
        CToken::Whitespace => ("Whitespace".to_string(), 0, 0, String::new()),
    }
}

fn tokens_of<'a>(out: &LexOutput<'a, CToken<'a>>) -> Vec<(String, usize, usize, String)> {
    (0..out.tokens.len()).map(|i| describe(&out.tokens.get(i))).collect()
}

fn expect(kind: &str, start: usize, end: usize, text: &str) -> (String, usize, usize, String) {
    (kind.to_string(), start, end, text.to_string())
}

#[test]
fn test_lex_c() {
    let input = r#"
            int main(void) {
              return 2;
            }
        "#;
    let out = Lexer::lex(&input, String::lex_c).unwrap();
    assert_eq!(
        tokens_of(&out),
        vec![
            expect("Keyword(int)", 13, 16, "int"),
            expect("Identifier", 17, 21, "main"),
            expect("Punctuator(()", 21, 22, "("),
            expect("Keyword(void)", 22, 26, "void"),
            expect("Punctuator())", 26, 27, ")"),
            expect("Punctuator({)", 28, 29, "{"),
            expect("Keyword(return)", 44, 50, "return"),
            expect("Constant", 51, 52, "2"),
            expect("Punctuator(;)", 52, 53, ";"),
            expect("Punctuator(})", 66, 67, "}"),
        ]
    );
    assert!(out.errors.is_empty());
    assert_eq!(out.stalled_at, None);
}

#[test]
fn happy_path_scenario() {
    let src = "int main(void) {\n  return 2;\n}";
    let out = String::lex_c(src).unwrap();
    assert_eq!(
        tokens_of(&out),
        vec![
            expect("Keyword(int)", 0, 3, "int"),
            expect("Identifier", 4, 8, "main"),
            expect("Punctuator(()", 8, 9, "("),
            expect("Keyword(void)", 9, 13, "void"),
            expect("Punctuator())", 13, 14, ")"),
            expect("Punctuator({)", 15, 16, "{"),
            expect("Keyword(return)", 19, 25, "return"),
            expect("Constant", 26, 27, "2"),
            expect("Punctuator(;)", 27, 28, ";"),
            expect("Punctuator(})", 29, 30, "}"),
        ]
    );
    assert_eq!(out.errors.len(), 0);
    let stream = out.finish().unwrap();
    assert_eq!(stream.len(), 10);
}

#[test]
fn unrecognized_character_scenario() {
    let src = "int x@3;";
    let out = String::lex_c(src).unwrap();
    assert_eq!(
        tokens_of(&out),
        vec![
            expect("Keyword(int)", 0, 3, "int"),
            expect("Identifier", 4, 5, "x"),
            expect("Constant", 6, 7, "3"),
            expect("Punctuator(;)", 7, 8, ";"),
        ]
    );
    let errors = out.errors.errors();
    assert_eq!(errors.len(), 1);
    assert_eq!(errors[0].span().start(), 5);
    assert_eq!(errors[0].span().end(), 6);
    assert_eq!(errors[0].span().span(), "@");
    assert_eq!(errors[0].context(), "Unrecognized token");
    match out.finish() {
        Err(LexFailure::Errors(es)) => assert_eq!(es.len(), 1),
        other => panic!("expected the recorded errors, got {:?}", other),
    }
}

#[test]
fn empty_input_scenario() {
    let out = String::lex_c("").unwrap();
    assert!(out.tokens.is_empty());
    assert!(out.errors.is_empty());
    assert_eq!(out.stalled_at, None);
    assert!(matches!(out.finish(), Err(LexFailure::EmptyStream)));
}

#[test]
fn whitespace_only_input_is_an_empty_stream() {
    let out = String::lex_c(" \n\t ").unwrap();
    assert!(out.tokens.is_empty());
    assert!(out.errors.is_empty());
    assert!(matches!(out.finish(), Err(LexFailure::EmptyStream)));
}

#[test]
fn empty_stream_is_reported_before_errors() {
    let out = String::lex_c("@").unwrap();
    assert!(out.tokens.is_empty());
    assert_eq!(out.errors.len(), 1);
    assert!(matches!(out.finish(), Err(LexFailure::EmptyStream)));
}

#[test]
fn keyword_identifier_boundary_scenario() {
    let out = String::lex_c("integer").unwrap();
    assert_eq!(tokens_of(&out), vec![expect("Identifier", 0, 7, "integer")]);
    assert!(out.errors.is_empty());
}

#[test]
fn keywords_are_classified_by_whole_word() {
    assert_eq!(keyword_for("int"), Some(CKeyword::Int));
    assert_eq!(keyword_for("void"), Some(CKeyword::Void));
    assert_eq!(keyword_for("return"), Some(CKeyword::Return));
    assert_eq!(keyword_for("intmax"), None);
    assert_eq!(keyword_for("in"), None);
    assert_eq!(keyword_for(""), None);
}

#[test]
fn multibyte_character_is_one_error() {
    let src = "int é;";
    let out = String::lex_c(src).unwrap();
    assert_eq!(
        tokens_of(&out),
        vec![expect("Keyword(int)", 0, 3, "int"), expect("Punctuator(;)", 6, 7, ";")]
    );
    let errors = out.errors.errors();
    assert_eq!(errors.len(), 1);
    assert_eq!((errors[0].span().start(), errors[0].span().end()), (4, 6));
    assert_eq!(errors[0].span().span(), "é");
}

#[test]
fn digits_then_letters_split_into_constant_and_identifier() {
    let out = String::lex_c("12ab").unwrap();
    assert!(out.errors.is_empty());
    assert_eq!(
        tokens_of(&out),
        vec![expect("Constant", 0, 2, "12"), expect("Identifier", 2, 4, "ab")]
    );
}

#[test]
fn rescanning_gives_identical_output() {
    let src = "int x@3; return y;";
    let a = String::lex_c(src).unwrap();
    let b = String::lex_c(src).unwrap();
    assert_eq!(tokens_of(&a), tokens_of(&b));
    let ea: Vec<_> = a.errors.errors().iter().map(|e| (e.span().start(), e.span().end(), e.context().to_string())).collect();
    let eb: Vec<_> = b.errors.errors().iter().map(|e| (e.span().start(), e.span().end(), e.context().to_string())).collect();
    assert_eq!(ea, eb);
    assert_eq!(a.stalled_at, b.stalled_at);
}

#[test]
fn consumed_ranges_tile_the_buffer() {
    let src = "int main(void) {\n  return 2;\n} @ x";
    let out = String::lex_c(src).unwrap();
    let mut ranges: Vec<(usize, usize)> = (0..out.tokens.len())
        .map(|i| { let d = describe(&out.tokens.get(i)); (d.1, d.2) })
        .collect();
    ranges.extend(out.errors.errors().iter().map(|e| (e.span().start(), e.span().end())));
    for (i, c) in src.char_indices() {
        if c.is_whitespace() {
            ranges.push((i, i + c.len_utf8()));
        }
    }
    ranges.sort();
    let mut pos = 0;
    for (s, e) in ranges {
        assert_eq!(s, pos);
        assert!(e > s);
        pos = e;
    }
    assert_eq!(pos, src.len());
    assert!(out.tokens.len() + out.errors.len() <= src.len());
}

#[test]
fn tokens_are_ordered_and_never_whitespace() {
    let out = String::lex_c("  int  a ; \n b").unwrap();
    let mut last: Option<(usize, usize)> = None;
    for i in 0..out.tokens.len() {
        let t = out.tokens.get(i);
        assert!(!t.is_whitespace());
        let span = t.span().unwrap();
        if let Some((prev_start, prev_end)) = last {
            assert!(prev_start < span.start());
            assert!(prev_end <= span.start());
        }
        last = Some((span.start(), span.end()));
    }
    assert_eq!(out.tokens.len(), 4);
}

#[test]
fn first_declared_pattern_wins_over_a_longer_match() {
    let mut table = PatternTable::new();
    table.add("a", CRule::Number).unwrap();
    table.add("ab", CRule::Word).unwrap();
    table.add(".", CRule::Unrecognized).unwrap();
    let out = lex::<CLang>(&table, "ab");
    let d: Vec<_> = (0..out.tokens.len()).map(|i| describe(&out.tokens.get(i))).collect();
    assert_eq!(d, vec![expect("Constant", 0, 1, "a")]);
    assert_eq!(out.errors.len(), 1);
    assert_eq!(out.errors.errors()[0].span().span(), "b");
}

#[test]
fn first_declared_pattern_wins_over_a_shorter_match() {
    let mut table = PatternTable::new();
    table.add("ab", CRule::Word).unwrap();
    table.add("a", CRule::Number).unwrap();
    let out = lex::<CLang>(&table, "ab");
    let d: Vec<_> = (0..out.tokens.len()).map(|i| describe(&out.tokens.get(i))).collect();
    assert_eq!(d, vec![expect("Identifier", 0, 2, "ab")]);
    assert!(out.errors.is_empty());
}

#[test]
fn a_match_starting_later_is_not_taken() {
    let mut table = PatternTable::new();
    table.add("b", CRule::Word).unwrap();
    table.add(".", CRule::Unrecognized).unwrap();
    let out = lex::<CLang>(&table, "ab");
    assert_eq!(out.errors.len(), 1);
    assert_eq!(out.errors.errors()[0].span().span(), "a");
    let d: Vec<_> = (0..out.tokens.len()).map(|i| describe(&out.tokens.get(i))).collect();
    assert_eq!(d, vec![expect("Identifier", 1, 2, "b")]);
}

#[test]
fn empty_matches_are_passed_over() {
    let mut table = PatternTable::new();
    table.add("x*", CRule::Word).unwrap();
    table.add(".", CRule::Number).unwrap();
    let out = lex::<CLang>(&table, "ab");
    let d: Vec<_> = (0..out.tokens.len()).map(|i| describe(&out.tokens.get(i))).collect();
    assert_eq!(d, vec![expect("Constant", 0, 1, "a"), expect("Constant", 1, 2, "b")]);
}

#[test]
fn scan_stops_where_no_pattern_matches() {
    let mut table = PatternTable::new();
    table.add("\\s", CRule::Whitespace).unwrap();
    table.add("[a-z]+", CRule::Word).unwrap();
    assert_eq!(table.len(), 2);
    let out = lex::<CLang>(&table, "ab $ cd");
    assert_eq!(out.stalled_at, Some(3));
    let d: Vec<_> = (0..out.tokens.len()).map(|i| describe(&out.tokens.get(i))).collect();
    assert_eq!(d, vec![expect("Identifier", 0, 2, "ab")]);
    assert!(matches!(out.finish(), Err(LexFailure::Stalled(3))));
}

#[test]
fn invalid_pattern_is_rejected() {
    let mut table: PatternTable<CRule> = PatternTable::new();
    let err = table.add("foo(bar", CRule::Word).unwrap_err();
    assert_eq!(err.pattern, "foo(bar");
    assert_eq!(table.len(), 0);
}

#[test]
fn c_table_has_nine_entries() {
    let table = c_table().unwrap();
    assert_eq!(table.len(), 9);
    assert_eq!(table.rule(0), CRule::Whitespace);
    assert_eq!(table.rule(3), CRule::Punctuator(CSymbol::OpenParenthesis));
    assert_eq!(table.rule(8), CRule::Unrecognized);
}

#[test]
fn source_wrapper_lexes_its_text() {
    let source = Source::new(String::from("return 0;"));
    let out = source.lex(String::lex_c).unwrap();
    assert_eq!(
        tokens_of(&out),
        vec![
            expect("Keyword(return)", 0, 6, "return"),
            expect("Constant", 7, 8, "0"),
            expect("Punctuator(;)", 8, 9, ";"),
        ]
    );
}

#[test]
fn first_match_reports_entry_and_end() {
    let table = c_table().unwrap();
    assert_eq!(table.first_match("int x", 0), Some((1, 3)));
    assert_eq!(table.first_match("int x", 3), Some((0, 4)));
    assert_eq!(table.first_match("42;", 0), Some((2, 2)));
    assert_eq!(table.first_match("42;", 2), Some((7, 3)));
    assert_eq!(table.first_match("@", 0), Some((8, 1)));
}

#[test]
fn separate_buffers_with_equal_text_scan_alike() {
    let first = String::from("int x@3;");
    let second = String::from("int x@3;");
    let a = String::lex_c(&first).unwrap();
    let b = String::lex_c(&second).unwrap();
    assert_eq!(tokens_of(&a), tokens_of(&b));
    let ea: Vec<_> = a.errors.errors().iter().map(|e| (e.span().start(), e.span().end(), e.context().to_string())).collect();
    let eb: Vec<_> = b.errors.errors().iter().map(|e| (e.span().start(), e.span().end(), e.context().to_string())).collect();
    assert_eq!(ea, eb);
}
