//! Tests for the library's stated properties: lossless tokenization,
//! idempotent and deterministic formatting, placeholder substitution,
//! keyword casing, clause breaking, inline-block folding, the formatting
//! directives, and statement separation.

use sqlformat::tokenize;
use sqlformat::FormatOptions;
use sqlformat::QueryParams;

fn concat_token_texts(query: &str, options: &FormatOptions) -> String {
    let named = options.params.is_named();
    let tokens = tokenize(query, named, options);
    let mut out = String::new();
    for t in &tokens {
        let piece: String = t.value.iter().collect();
        out.push_str(&piece);
    }
    out
}

#[test]
fn tokenizer_is_lossless_on_mixed_input() {
    let inputs = [
        "SELECT count(*),Column1 FROM Table1;",
        "select /* block\n comment */ 'str''ing' -- line\n  FROM t WHERE a NOT\tBETWEEN 1 AND 2",
        "INSERT INTO t VALUES(?, ?2, $3, :name, @'x y', {b});",
        "broken ( \"unterminated",
        "  leading and trailing  \n",
        "тест / mixed□unicode△text",
    ];
    let options = FormatOptions::default();
    for input in &inputs {
        assert_eq!(&concat_token_texts(input, &options), input);
    }
}

#[test]
fn formatting_is_idempotent_on_representative_inputs() {
    let inputs = [
        "SELECT count(*),Column1 FROM Table1;",
        "SELECT *, SUM(*) AS sum FROM (SELECT * FROM Posts LIMIT 30) WHERE a > b",
        "UPDATE Customers SET ContactName='Alfred Schmidt', City='Hamburg' WHERE CustomerName='Alfreds Futterkiste';",
        "CASE WHEN option = 'foo' THEN 1 ELSE 2 END;",
        "SELECT a#comment, here\nFROM b--comment",
        "LIMIT 5, 10;",
    ];
    let options = FormatOptions::default();
    for input in &inputs {
        let once = options.format(input);
        let twice = options.format(&once);
        assert_eq!(twice, once);
    }
}

#[test]
fn formatting_is_deterministic_across_calls() {
    let input = "SELECT ?, x FROM t WHERE a BETWEEN 1 AND 2; SELECT 2;";
    let options = FormatOptions::default().with_params(QueryParams::Indexed(vec![
        "first".to_string(),
    ]));
    let a = options.format(input);
    let b = options.format(input);
    assert_eq!(a, b);
}

#[test]
fn it_substitutes_indexed_params_in_order() {
    let params = vec!["a".to_string(), "b".to_string(), "c".to_string()];
    let options = FormatOptions::default().with_params(QueryParams::Indexed(params));
    assert_eq!(options.format("SELECT ?, ?, ?"), "SELECT\n  a,\n  b,\n  c");
}

#[test]
fn it_substitutes_question_numbered_params_zero_based() {
    let params = vec!["a".to_string(), "b".to_string(), "c".to_string()];
    let options = FormatOptions::default().with_params(QueryParams::Indexed(params));
    assert_eq!(options.format("SELECT ?2, ?1"), "SELECT\n  c,\n  b");
}

#[test]
fn it_substitutes_named_params_by_key() {
    let params = vec![("x".to_string(), "5".to_string())];
    let options = FormatOptions::default().with_params(QueryParams::Named(params));
    assert_eq!(options.format("SELECT :x"), "SELECT\n  5");
}

#[test]
fn it_uppercases_keywords_only() {
    let options = FormatOptions {
        uppercase: Some(true),
        ..Default::default()
    };
    assert_eq!(options.format("select * from foo"), "SELECT\n  *\nFROM\n  foo");
}

#[test]
fn it_honors_the_ignore_case_convert_list() {
    let options = FormatOptions {
        uppercase: Some(true),
        ignore_case_convert: Some(vec!["from".to_string()]),
        ..Default::default()
    };
    assert_eq!(options.format("select * from foo"), "SELECT\n  *\nfrom\n  foo");
}

#[test]
fn short_blocks_stay_inline_and_long_blocks_break() {
    let options = FormatOptions {
        max_inline_block: 10,
        ..Default::default()
    };
    // "(a + b)" spans 7 characters: at most 10, so it stays on one line
    let short = options.format("SELECT (a + b)");
    assert_eq!(short, "SELECT\n  (a + b)");
    // "(aaa + bbbbbb)" spans 14 characters: over 10, so it breaks
    let long = options.format("SELECT (aaa + bbbbbb)");
    assert_eq!(long, "SELECT\n  (\n    aaa + bbbbbb\n  )");
}

#[test]
fn statements_are_separated_by_configured_blank_lines() {
    let one = FormatOptions::default();
    assert_eq!(one.format("foo;bar;"), "foo;\nbar;");
    let two = FormatOptions {
        lines_between_queries: 2,
        ..Default::default()
    };
    assert_eq!(two.format("foo;bar;"), "foo;\n\nbar;");
}

#[test]
fn connector_punctuation_and_marks_stay_inside_words() {
    // an underscore and an undertie (connector punctuation) and a
    // combining accent must stay inside one word token rather than
    // splitting it
    let options = FormatOptions::default();
    assert_eq!(
        options.format("SELECT a_b, x\u{0079}\u{0301}z FROM t"),
        "SELECT\n  a_b,\n  x\u{0079}\u{0301}z\nFROM\n  t"
    );
    assert_eq!(
        options.format("SELECT a\u{203F}b FROM t"),
        "SELECT\n  a\u{203F}b\nFROM\n  t"
    );
}

#[test]
fn empty_and_blank_inputs_format_to_nothing() {
    let options = FormatOptions::default();
    assert_eq!(options.format(""), "");
    assert_eq!(options.format("   \n  "), "");
}

#[test]
fn fmt_off_region_is_copied_verbatim() {
    let options = FormatOptions::default();
    let input = "select   1\n-- fmt: off\nkeep   AS-IS\n-- fmt: on\nselect   2";
    let output = options.format(input);
    assert!(output.contains("keep   AS-IS"));
}

#[test]
fn unresolved_placeholders_pass_through() {
    // no parameter set: placeholders keep their own text; a lone brace
    // pair is no placeholder
    let options = FormatOptions::default();
    assert_eq!(options.format("SELECT {a}, {}"), "SELECT\n  {a},\n  { }");
    // an exhausted indexed list leaves the marker in place
    let empty = options.with_params(QueryParams::Indexed(Vec::new()));
    assert_eq!(empty.format("SELECT ?"), "SELECT\n  ?");
}

#[test]
fn unterminated_strings_run_to_end_of_input() {
    let options = FormatOptions::default();
    assert_eq!(options.format("SELECT 'unterminated"), "SELECT\n  'unterminated");
    assert_eq!(options.format("SELECT \"open and x'ff"), "SELECT\n  \"open and x'ff");
}

#[test]
fn block_comment_directives_suspend_formatting() {
    let options = FormatOptions::default();
    let input = "select  2 /* fmt: off */ a   b /* fmt: on */ c";
    assert_eq!(options.format(input), "select\n  2 a   b c");
}

#[test]
fn create_temporary_table_forms_are_top_level() {
    let options = FormatOptions::default();
    assert_eq!(
        options.format("CREATE GLOBAL TEMPORARY TABLE t (a INT);"),
        "CREATE GLOBAL TEMPORARY TABLE t (a INT);"
    );
    assert_eq!(
        options.format("CREATE LOCAL TEMP TABLE t (a INT);"),
        "CREATE LOCAL TEMP TABLE t (a INT);"
    );
}
