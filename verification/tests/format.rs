//! End-to-end formatting tests over the public API.

use sqlformat::Dialect;
use sqlformat::FormatOptions;
use sqlformat::Indent;
use sqlformat::QueryParams;

#[test]
fn test_sqlite_blob_literal_fmt() {
        let options = FormatOptions::default();

        let input = "SELECT x'73716c69676874' AS BLOB_VAL;";
        let expected = "SELECT\n  x'73716c69676874' AS BLOB_VAL;";
        assert_eq!(options.format(input), expected);

        let input = "SELECT X'73716c69676874' AS BLOB_VAL;";
        let expected = "SELECT\n  X'73716c69676874' AS BLOB_VAL;";
        assert_eq!(options.format(input), expected);
}

#[test]
fn it_uses_given_indent_config_for_indentation() {
        let input = "SELECT count(*),Column1 FROM Table1;";
        let options = FormatOptions::builder().indent(Indent::Spaces(4));
        let expected = "SELECT\n    count(*),\n    Column1\nFROM\n    Table1;";

        assert_eq!(options.format(input), expected);
}

#[test]
fn it_formats_simple_set_schema_queries() {
        let input = "SET SCHEMA schema1; SET CURRENT SCHEMA schema2;";
        let options = FormatOptions::default();
        let expected = "SET SCHEMA\n  schema1;\nSET CURRENT SCHEMA\n  schema2;";

        assert_eq!(options.format(input), expected);
}

#[test]
fn it_formats_simple_select_query() {
        let input = "SELECT count(*),Column1 FROM Table1;";
        let options = FormatOptions::default();
        let expected = "SELECT\n  count(*),\n  Column1\nFROM\n  Table1;";

        assert_eq!(options.format(input), expected);
}

#[test]
fn it_formats_complex_select() {
        let input =
            "SELECT DISTINCT name, ROUND(age/7) field1, 18 + 20 AS field2, 'some string' FROM foo;";
        let options = FormatOptions::default();
        let expected = "SELECT DISTINCT\n  name,\n  ROUND(age / 7) field1,\n  18 + 20 AS field2,\n  'some string'\nFROM\n  foo;";

        assert_eq!(options.format(input), expected);
}

#[test]
fn it_formats_over_with_window() {
        let input =
            "SELECT id, val, at, SUM(val) OVER win AS cumulative FROM data WINDOW win AS (PARTITION BY id ORDER BY at);";
        let options = FormatOptions::default();
        let expected = "SELECT\n  id,\n  val,\n  at,\n  SUM(val) OVER win AS cumulative\nFROM\n  data\nWINDOW\n  win AS (\n    PARTITION BY\n      id\n    ORDER BY\n      at\n  );";

        assert_eq!(options.format(input), expected);
}

#[test]
fn it_formats_distinct_from() {
        let input = "SELECT bar IS DISTINCT FROM 'baz', IS NOT DISTINCT FROM 'foo' FROM foo;";
        let options = FormatOptions::default();
        let expected = "SELECT\n  bar IS DISTINCT FROM 'baz',\n  IS NOT DISTINCT FROM 'foo'\nFROM\n  foo;";

        assert_eq!(options.format(input), expected);
}

#[test]
fn keep_select_arguments_inline() {
        let input = "SELECT\n  a,\n  b,\n  c,\n  d,\n  e,\n  f,\n  g,\n  h\nFROM foo;";
        let options = FormatOptions::builder().max_inline_arguments(50);
        let expected = "SELECT\n  a, b, c, d, e, f, g, h\nFROM\n  foo;";
        assert_eq!(options.format(input), expected);
}

#[test]
fn split_select_arguments_inline_top_level() {
        let input = "SELECT\n  a,\n  b,\n  c,\n  d,\n  e,\n  f,\n  g,\n  h\nFROM foo;";
        let options = FormatOptions::builder()
            .max_inline_arguments(50)
            .max_inline_top_level(50);
        let expected = "SELECT a, b, c, d, e, f, g, h\nFROM foo;";
        assert_eq!(options.format(input), expected);
}

#[test]
fn inline_arguments_when_possible() {
        let input = "SELECT\n  a,\n  b,\n  c,\n  d,\n  e,\n  f,\n  g,\n  h\nFROM foo;";
        let options = FormatOptions::builder()
            .max_inline_arguments(50)
            .max_inline_top_level(20);
        let expected = "SELECT\n  a, b, c, d, e, f, g, h\nFROM foo;";
        assert_eq!(options.format(input), expected);
}

#[test]
fn inline_single_block_argument() {
        let input = "SELECT a, b, c FROM ( SELECT (e+f) AS a, (m+o) AS b FROM d) WHERE (a != b) OR (c IS NULL AND a == b)";
        let options = FormatOptions::builder()
            .max_inline_arguments(10)
            .max_inline_top_level(20);
        let expected = "SELECT a, b, c\nFROM (\n  SELECT\n    (e + f) AS a,\n    (m + o) AS b\n  FROM d\n)\nWHERE\n  (a != b)\n  OR (\n    c IS NULL\n    AND a == b\n  )";
        assert_eq!(options.format(input), expected);
}

#[test]
fn it_formats_select_with_complex_where() {
        let input = "SELECT * FROM foo WHERE Column1 = 'testing'\nAND ( (Column2 = Column3 OR Column4 >= NOW()) );\n";
        let options = FormatOptions::default();
        let expected = "SELECT\n  *\nFROM\n  foo\nWHERE\n  Column1 = 'testing'\n  AND (\n    (\n      Column2 = Column3\n      OR Column4 >= NOW()\n    )\n  );";

        assert_eq!(options.format(input), expected);
}

#[test]
fn it_formats_select_with_complex_where_inline() {
        let input = "SELECT * FROM foo WHERE Column1 = 'testing'\nAND ( (Column2 = Column3 OR Column4 >= NOW()) );\n";
        let options = FormatOptions::builder().max_inline_arguments(100);
        let expected = "SELECT\n  *\nFROM\n  foo\nWHERE\n  Column1 = 'testing' AND ((Column2 = Column3 OR Column4 >= NOW()));";

        assert_eq!(options.format(input), expected);
}

#[test]
fn it_formats_select_with_top_level_reserved_words() {
        let input = "SELECT * FROM foo WHERE name = 'John' GROUP BY some_column\nHAVING column > 10 ORDER BY other_column LIMIT 5;\n";
        let options = FormatOptions::default();
        let expected = "SELECT\n  *\nFROM\n  foo\nWHERE\n  name = 'John'\nGROUP BY\n  some_column\nHAVING\n  column > 10\nORDER BY\n  other_column\nLIMIT\n  5;";

        assert_eq!(options.format(input), expected);
}

#[test]
fn it_formats_select_with_for_update_of() {
        let input: &'static str = "SELECT id FROM users WHERE disabled_at IS NULL FOR UPDATE OF users SKIP LOCKED LIMIT 1";
        let options = FormatOptions::default();
        let expected = "SELECT\n  id\nFROM\n  users\nWHERE\n  disabled_at IS NULL\nFOR UPDATE\n  OF users SKIP LOCKED\nLIMIT\n  1";

        assert_eq!(options.format(input), expected);
}

#[test]
fn it_formats_limit_with_two_comma_separated_values_on_single_line() {
        let input = "LIMIT 5, 10;";
        let options = FormatOptions::default();
        let expected = "LIMIT\n  5, 10;";

        assert_eq!(options.format(input), expected);
}

#[test]
fn it_formats_limit_of_single_value_followed_by_another_select_using_commas() {
        let input = "LIMIT 5; SELECT foo, bar;";
        let options = FormatOptions::default();
        let expected = "LIMIT\n  5;\nSELECT\n  foo,\n  bar;";

        assert_eq!(options.format(input), expected);
}

#[test]
fn it_formats_type_specifiers() {
        let input = "SELECT id,  ARRAY [] :: UUID [] FROM UNNEST($1  ::  UUID   []) WHERE $1::UUID[] IS NOT NULL;";
        let options = FormatOptions::builder().dialect(Dialect::PostgreSql);
        let expected = "SELECT\n  id,\n  ARRAY[]::UUID[]\nFROM\n  UNNEST($1::UUID[])\nWHERE\n  $1::UUID[] IS NOT NULL;";

        assert_eq!(options.format(input), expected);
}

#[test]
fn it_formats_arrays_as_function_arguments() {
        let input =
            "SELECT array_position(ARRAY['sun','mon','tue',  'wed',   'thu','fri',  'sat'], 'mon');";
        let options = FormatOptions::builder().dialect(Dialect::PostgreSql);
        let expected = "SELECT\n  array_position(\n    ARRAY['sun', 'mon', 'tue', 'wed', 'thu', 'fri', 'sat'],\n    'mon'\n  );";

        assert_eq!(options.format(input), expected);
}

#[test]
fn it_formats_arrays_as_values() {
        let input = " INSERT INTO t VALUES('a', ARRAY[0, 1,2,3], ARRAY[['a','b'],    ['c' ,'d']]);";
        let options = FormatOptions::builder()
            .dialect(Dialect::PostgreSql)
            .max_inline_block(10)
            .max_inline_top_level(50);
        let expected = "INSERT INTO t\nVALUES (\n  'a',\n  ARRAY[0, 1, 2, 3],\n  ARRAY[\n    ['a', 'b'],\n    ['c', 'd']\n  ]\n);";

        assert_eq!(options.format(input), expected);
}

#[test]
fn it_formats_array_index_notation() {
        let input = "SELECT a [ 1 ] + b [ 2 ] [   5+1 ] > c [3] ;";
        let options = FormatOptions::builder().dialect(Dialect::PostgreSql);
        let expected = "SELECT\n  a[1] + b[2][5 + 1] > c[3];";

        assert_eq!(options.format(input), expected);
}

#[test]
fn it_formats_limit_of_single_value_and_offset() {
        let input = "LIMIT 5 OFFSET 8;";
        let options = FormatOptions::default();
        let expected = "LIMIT\n  5 OFFSET 8;";

        assert_eq!(options.format(input), expected);
}

#[test]
fn it_recognizes_limit_in_lowercase() {
        let input = "limit 5, 10;";
        let options = FormatOptions::default();
        let expected = "limit\n  5, 10;";

        assert_eq!(options.format(input), expected);
}

#[test]
fn it_preserves_case_of_keywords() {
        let input = "select distinct * frOM foo left join bar WHERe a > 1 and b = 3";
        let options = FormatOptions::default();
        let expected = "select distinct\n  *\nfrOM\n  foo\n  left join bar\nWHERe\n  a > 1\n  and b = 3";

        assert_eq!(options.format(input), expected);
}

#[test]
fn it_formats_select_query_with_select_query_inside_it() {
        let input = "SELECT *, SUM(*) AS sum FROM (SELECT * FROM Posts LIMIT 30) WHERE a > b";
        let options = FormatOptions::default();
        let expected = "SELECT\n  *,\n  SUM(*) AS sum\nFROM\n  (\n    SELECT\n      *\n    FROM\n      Posts\n    LIMIT\n      30\n  )\nWHERE\n  a > b";

        assert_eq!(options.format(input), expected);
}

#[test]
fn it_does_format_drop() {
        let input = "DROP INDEX IF EXISTS idx_a;\nDROP INDEX IF EXISTS idx_b;\n";

        let options = FormatOptions {
            ..Default::default()
        };

        let expected = "DROP INDEX IF EXISTS\n  idx_a;\nDROP INDEX IF EXISTS\n  idx_b;";

        assert_eq!(options.format(input), expected);

        let input = "-- comment\nDROP TABLE IF EXISTS \"public\".\"table_name\";\n";

        let expected = "-- comment\nDROP TABLE IF EXISTS\n  \"public\".\"table_name\";";

        assert_eq!(options.format(input), expected);
}

#[test]
fn it_formats_select_query_with_inner_join() {
        let input = "SELECT customer_id.from, COUNT(order_id) AS total FROM customers\nINNER JOIN orders ON customers.customer_id = orders.customer_id;";
        let options = FormatOptions::default();
        let expected = "SELECT\n  customer_id.from,\n  COUNT(order_id) AS total\nFROM\n  customers\n  INNER JOIN orders ON customers.customer_id = orders.customer_id;";

        assert_eq!(options.format(input), expected);
}

#[test]
fn it_formats_select_query_with_non_standard_join() {
        let input = "SELECT customer_id.from, COUNT(order_id) AS total FROM customers\nINNER ANY JOIN orders ON customers.customer_id = orders.customer_id\nLEFT\nSEMI JOIN foo ON foo.id = customers.id\nPASTE\nJOIN bar\n;";
        let options = FormatOptions::default();
        let expected = "SELECT\n  customer_id.from,\n  COUNT(order_id) AS total\nFROM\n  customers\n  INNER ANY JOIN orders ON customers.customer_id = orders.customer_id\n  LEFT SEMI JOIN foo ON foo.id = customers.id\n  PASTE JOIN bar;";

        assert_eq!(options.format(input), expected);
}

#[test]
fn it_formats_select_query_with_non_standard_join_as_toplevel() {
        let input = "SELECT customer_id.from, COUNT(order_id) AS total FROM customers\nINNER ANY JOIN orders ON customers.customer_id = orders.customer_id\nLEFT\nSEMI JOIN foo ON foo.id = customers.id\nPASTE\nJOIN bar\n;";
        let options = FormatOptions::builder()
            .joins_as_top_level(true)
            .max_inline_top_level(40)
            .max_inline_arguments(40);
        let expected = "SELECT\n  customer_id.from,\n  COUNT(order_id) AS total\nFROM customers\nINNER ANY JOIN\n  orders ON customers.customer_id = orders.customer_id\nLEFT SEMI JOIN foo ON foo.id = customers.id\nPASTE JOIN bar;";

        assert_eq!(options.format(input), expected);
}

#[test]
fn it_formats_select_query_with_different_comments() {
        let input = "SELECT\n/*\n * This is a block comment\n */\n* FROM\n-- This is another comment\nMyTable # One final comment\nWHERE 1 = 2;";
        let options = FormatOptions::default();
        let expected = "SELECT\n  /*\n   * This is a block comment\n   */\n  *\nFROM\n  -- This is another comment\n  MyTable # One final comment\nWHERE\n  1 = 2;";

        assert_eq!(options.format(input), expected);
}

#[test]
fn it_maintains_block_comment_indentation() {
        let input = "SELECT\n  /*\n   * This is a block comment\n   */\n  *\nFROM\n  MyTable\nWHERE\n  1 = 2;";
        let options = FormatOptions::default();

        assert_eq!(options.format(input), input);
}

#[test]
fn it_formats_simple_insert_query() {
        let input = "INSERT INTO Customers (ID, MoneyBalance, Address, City) VALUES (12,-123.4, 'Skagen 2111','Stv');";
        let options = FormatOptions::default();
        let expected = "INSERT INTO\n  Customers (ID, MoneyBalance, Address, City)\nVALUES\n  (12, -123.4, 'Skagen 2111', 'Stv');";

        assert_eq!(options.format(input), expected);
}

#[test]
fn it_formats_complex_insert_query() {
        let input = "
 INSERT INTO t(id, a, min, max) SELECT input.id, input.a, input.min, input.max FROM ( SELECT id, a, min, max FROM foo WHERE a IN ('a', 'b') ) AS input WHERE (SELECT true FROM condition) ON CONFLICT ON CONSTRAINT a_id_key DO UPDATE SET id = EXCLUDED.id, a = EXCLUDED.severity, min = EXCLUDED.min, max = EXCLUDED.max RETURNING *; ";
        let max_line = 50;
        let options = FormatOptions::builder()
            .max_inline_block(max_line)
            .max_inline_arguments(max_line)
            .max_inline_top_level(max_line);

        let expected = "INSERT INTO t(id, a, min, max)\nSELECT input.id, input.a, input.min, input.max\nFROM (\n  SELECT id, a, min, max\n  FROM foo\n  WHERE a IN ('a', 'b')\n) AS input\nWHERE (SELECT true FROM condition)\nON CONFLICT ON CONSTRAINT a_id_key DO UPDATE SET\n  id = EXCLUDED.id,\n  a = EXCLUDED.severity,\n  min = EXCLUDED.min,\n  max = EXCLUDED.max\nRETURNING *;";

        assert_eq!(options.format(input), expected);
}

#[test]
fn it_keeps_short_parenthesized_list_with_nested_parenthesis_on_single_line() {
        let input = "SELECT (a + b * (c - NOW()));";
        let options = FormatOptions::default();
        let expected = "SELECT\n  (a + b * (c - NOW()));";

        assert_eq!(options.format(input), expected);
}

#[test]
fn it_breaks_long_parenthesized_lists_to_multiple_lines() {
        let input = "INSERT INTO some_table (id_product, id_shop, id_currency, id_country, id_registration) (\nSELECT IF(dq.id_discounter_shopping = 2, dq.value, dq.value / 100),\nIF (dq.id_discounter_shopping = 2, 'amount', 'percentage') FROM foo);";
        let options = FormatOptions::default();
        let expected = "INSERT INTO\n  some_table (\n    id_product,\n    id_shop,\n    id_currency,\n    id_country,\n    id_registration\n  ) (\n    SELECT\n      IF (\n        dq.id_discounter_shopping = 2,\n        dq.value,\n        dq.value / 100\n      ),\n      IF (\n        dq.id_discounter_shopping = 2,\n        'amount',\n        'percentage'\n      )\n    FROM\n      foo\n  );";

        assert_eq!(options.format(input), expected);
}

#[test]
fn it_keep_long_parenthesized_lists_to_multiple_lines() {
        let input = "INSERT INTO some_table (id_product, id_shop, id_currency, id_country, id_registration) (\nSELECT IF (dq.id_discounter_shopping = 2, dq.value, dq.value / 100),\nIF (dq.id_discounter_shopping = 2, 'amount', 'percentage') FROM foo);";
        let options = FormatOptions::builder().max_inline_block(100);
        let expected = "INSERT INTO\n  some_table (id_product, id_shop, id_currency, id_country, id_registration) (\n    SELECT\n      IF (dq.id_discounter_shopping = 2, dq.value, dq.value / 100),\n      IF (dq.id_discounter_shopping = 2, 'amount', 'percentage')\n    FROM\n      foo\n  );";

        assert_eq!(options.format(input), expected);
}

#[test]
fn it_formats_simple_update_query() {
        let input = "UPDATE Customers SET ContactName='Alfred Schmidt', City='Hamburg' WHERE CustomerName='Alfreds Futterkiste';";
        let options = FormatOptions::default();
        let expected = "UPDATE\n  Customers\nSET\n  ContactName = 'Alfred Schmidt',\n  City = 'Hamburg'\nWHERE\n  CustomerName = 'Alfreds Futterkiste';";

        assert_eq!(options.format(input), expected);
}

#[test]
fn it_formats_simple_update_query_inlining_set() {
        let input = "UPDATE Customers SET ContactName='Alfred Schmidt', City='Hamburg' WHERE CustomerName='Alfreds Futterkiste';";
        let options = FormatOptions::builder()
            .max_inline_top_level(20)
            .max_inline_arguments(10);
        let expected = "UPDATE Customers SET\n  ContactName = 'Alfred Schmidt',\n  City = 'Hamburg'\nWHERE\n  CustomerName = 'Alfreds Futterkiste';";

        assert_eq!(options.format(input), expected);
}

#[test]
fn it_formats_simple_delete_query() {
        let input = "DELETE FROM Customers WHERE CustomerName='Alfred' AND Phone=5002132;";
        let options = FormatOptions::default();
        let expected = "DELETE FROM\n  Customers\nWHERE\n  CustomerName = 'Alfred'\n  AND Phone = 5002132;";

        assert_eq!(options.format(input), expected);
}

#[test]
fn it_formats_full_delete_query() {
        let input =
            "DELETE FROM Customers USING Phonebook WHERE CustomerName='Alfred' AND Phone=5002132;";
        let options = FormatOptions::default();
        let expected = "DELETE FROM\n  Customers\nUSING\n  Phonebook\nWHERE\n  CustomerName = 'Alfred'\n  AND Phone = 5002132;";

        assert_eq!(options.format(input), expected);
}

#[test]
fn it_formats_simple_drop_query() {
        let input = "DROP TABLE IF EXISTS admin_role;";
        let options = FormatOptions::default();
        let output = "DROP TABLE IF EXISTS\n  admin_role;";
        assert_eq!(options.format(input), output);
}

#[test]
fn it_formats_incomplete_query() {
        let input = "SELECT count(";
        let options = FormatOptions::default();
        let expected = "SELECT\n  count(";

        assert_eq!(options.format(input), expected);
}

#[test]
fn it_formats_query_that_ends_with_open_comment() {
        let input = "SELECT count(*)\n/*Comment";
        let options = FormatOptions::default();
        let expected = "SELECT\n  count(*)\n  /*Comment";

        assert_eq!(options.format(input), expected);
}

#[test]
fn it_formats_update_query_with_as_part() {
        let input = "UPDATE customers SET total_orders = order_summary.total  FROM ( SELECT * FROM bank) AS order_summary";
        let options = FormatOptions::default();
        let expected = "UPDATE\n  customers\nSET\n  total_orders = order_summary.total\nFROM\n  (\n    SELECT\n      *\n    FROM\n      bank\n  ) AS order_summary";

        assert_eq!(options.format(input), expected);
}

#[test]
fn it_formats_update_query_with_as_part_inline() {
        let options = FormatOptions::builder().inline(true);
        let expected = "UPDATE customers SET total_orders = order_summary.total FROM ( SELECT * FROM bank ) AS order_summary";
        let input = "UPDATE\n  customers\nSET\n  total_orders = order_summary.total\nFROM\n  (\n    SELECT\n      *\n    FROM\n      bank\n  ) AS order_summary";

        assert_eq!(options.format(input), expected);
}

#[test]
fn it_formats_top_level_and_newline_multi_word_reserved_words_with_inconsistent_spacing() {
        let input = "SELECT * FROM foo LEFT \t OUTER  \n JOIN bar ORDER \n BY blah";
        let options = FormatOptions::default();
        let expected = "SELECT\n  *\nFROM\n  foo\n  LEFT OUTER JOIN bar\nORDER BY\n  blah";

        assert_eq!(options.format(input), expected);
}

#[test]
fn it_formats_long_double_parenthesized_queries_to_multiple_lines() {
        let input = "((foo = '0123456789-0123456789-0123456789-0123456789'))";
        let options = FormatOptions::default();
        let expected = "(\n  (\n    foo = '0123456789-0123456789-0123456789-0123456789'\n  )\n)";

        assert_eq!(options.format(input), expected);
}

#[test]
fn it_formats_short_double_parenthesizes_queries_to_one_line() {
        let input = "((foo = 'bar'))";
        let options = FormatOptions::default();

        assert_eq!(options.format(input), input);
}

#[test]
fn it_formats_single_char_operators() {
        let inputs = [
            "foo = bar",
            "foo < bar",
            "foo > bar",
            "foo + bar",
            "foo - bar",
            "foo * bar",
            "foo / bar",
            "foo % bar",
        ];
        let options = FormatOptions::default();
        for input in &inputs {
            assert_eq!(&options.format(input), input);
        }
}

#[test]
fn it_formats_multi_char_operators() {
        let inputs = [
            "foo != bar",
            "foo <> bar",
            "foo == bar",
            "foo || bar",
            "foo <= bar",
            "foo >= bar",
            "foo !< bar",
            "foo !> bar",
        ];
        let options = FormatOptions::default();
        for input in &inputs {
            assert_eq!(&options.format(input), input);
        }
}

#[test]
fn it_formats_logical_operators() {
        let inputs = [
            "foo ALL bar",
            "foo = ANY (1, 2, 3)",
            "EXISTS bar",
            "foo IN (1, 2, 3)",
            "foo LIKE 'hello%'",
            "foo IS NULL",
            "UNIQUE foo",
        ];
        let options = FormatOptions::default();
        for input in &inputs {
            assert_eq!(&options.format(input), input);
        }
}

#[test]
fn it_formats_and_or_operators() {
        let strings = [
            ("foo BETWEEN bar AND baz", "foo BETWEEN bar AND baz"),
            ("foo BETWEEN\nbar\nAND baz", "foo BETWEEN bar AND baz"),
            ("foo AND bar", "foo\nAND bar"),
            ("foo OR bar", "foo\nOR bar"),
        ];
        let options = FormatOptions::default();
        for (input, output) in &strings {
            assert_eq!(&options.format(input), output);
        }
}

#[test]
fn it_recognizes_strings() {
        let inputs = ["\"foo JOIN bar\"", "'foo JOIN bar'", "`foo JOIN bar`"];
        let options = FormatOptions::default();
        for input in &inputs {
            assert_eq!(&options.format(input), input);
        }
}

#[test]
fn it_recognizes_escaped_strings() {
        let inputs = [
            r#""foo \" JOIN bar""#,
            r#"'foo \' JOIN bar'"#,
            r#"`foo `` JOIN bar`"#,
            r#"'foo '' JOIN bar'"#,
            r#"'two households"'"#,
            r#"'two households'''"#,
            r#"E'alice'''"#,
        ];
        let options = FormatOptions::default();
        for input in &inputs {
            assert_eq!(&options.format(input), input);
        }
}

#[test]
fn it_formats_postgres_specific_operators() {
        let strings = [
            ("column::int", "column::int"),
            ("v->2", "v -> 2"),
            ("v->>2", "v ->> 2"),
            ("foo ~~ 'hello'", "foo ~~ 'hello'"),
            ("foo !~ 'hello'", "foo !~ 'hello'"),
            ("foo ~* 'hello'", "foo ~* 'hello'"),
            ("foo ~~* 'hello'", "foo ~~* 'hello'"),
            ("foo !~~ 'hello'", "foo !~~ 'hello'"),
            ("foo !~* 'hello'", "foo !~* 'hello'"),
            ("foo !~~* 'hello'", "foo !~~* 'hello'"),
        ];
        let options = FormatOptions::default();
        for (input, output) in &strings {
            assert_eq!(&options.format(input), output);
        }
}

#[test]
fn it_keeps_separation_between_multiple_statements() {
        let strings = [
            ("foo;bar;", "foo;\nbar;"),
            ("foo\n;bar;", "foo;\nbar;"),
            ("foo\n\n\n;bar;\n\n", "foo;\nbar;"),
        ];
        let options = FormatOptions::default();
        for (input, output) in &strings {
            assert_eq!(&options.format(input), output);
        }

        let input = "SELECT count(*),Column1 FROM Table1;\nSELECT count(*),Column1 FROM Table2;";
        let options = FormatOptions::default();
        let expected = "SELECT\n  count(*),\n  Column1\nFROM\n  Table1;\nSELECT\n  count(*),\n  Column1\nFROM\n  Table2;";

        assert_eq!(options.format(input), expected);
}

#[test]
fn it_formats_unicode_correctly() {
        let input = "SELECT test, тест FROM table;";
        let options = FormatOptions::default();
        let expected = "SELECT\n  test,\n  тест\nFROM\n  table;";

        assert_eq!(options.format(input), expected);
}

#[test]
fn it_converts_keywords_to_uppercase_when_option_passed_in() {
        let input = "select distinct * frOM foo left join bar WHERe cola > 1 and colb = 3";
        let options = FormatOptions {
            uppercase: Some(true),
            ..FormatOptions::default()
        };
        let expected = "SELECT DISTINCT\n  *\nFROM\n  foo\n  LEFT JOIN bar\nWHERE\n  cola > 1\n  AND colb = 3";

        assert_eq!(options.format(input), expected);
}

#[test]
fn it_line_breaks_between_queries_with_config() {
        let input = "SELECT * FROM foo; SELECT * FROM bar;";
        let options = FormatOptions {
            lines_between_queries: 2,
            ..FormatOptions::default()
        };
        let expected = "SELECT\n  *\nFROM\n  foo;\n\nSELECT\n  *\nFROM\n  bar;";

        assert_eq!(options.format(input), expected);
}

#[test]
fn it_correctly_indents_create_statement_after_select() {
        let input = "SELECT * FROM test;\nCREATE TABLE TEST(id NUMBER NOT NULL, col1 VARCHAR2(20), col2 VARCHAR2(20));\n";
        let options = FormatOptions::default();
        let expected = "SELECT\n  *\nFROM\n  test;\nCREATE TABLE TEST(\n  id NUMBER NOT NULL,\n  col1 VARCHAR2(20),\n  col2 VARCHAR2(20)\n);";

        assert_eq!(options.format(input), expected);
}

#[test]
fn it_formats_short_create_table() {
        let input = "CREATE TABLE items (a INT PRIMARY KEY, b TEXT);";
        let options = FormatOptions::default();

        assert_eq!(options.format(input), input);
}

#[test]
fn it_formats_long_create_table() {
        let input =
            "CREATE TABLE items (a INT PRIMARY KEY, b TEXT, c INT NOT NULL, d INT NOT NULL);";
        let options = FormatOptions::default();
        let expected = "CREATE TABLE items (\n  a INT PRIMARY KEY,\n  b TEXT,\n  c INT NOT NULL,\n  d INT NOT NULL\n);";

        assert_eq!(options.format(input), expected);
}

#[test]
fn it_formats_insert_without_into() {
        let input =
            "INSERT Customers (ID, MoneyBalance, Address, City) VALUES (12,-123.4, 'Skagen 2111','Stv');";
        let options = FormatOptions::default();
        let expected = "INSERT\n  Customers (ID, MoneyBalance, Address, City)\nVALUES\n  (12, -123.4, 'Skagen 2111', 'Stv');";

        assert_eq!(options.format(input), expected);
}

#[test]
fn it_formats_alter_table_modify_query() {
        let input = "ALTER TABLE supplier MODIFY supplier_name char(100) NOT NULL;";
        let options = FormatOptions::default();
        let expected = "ALTER TABLE\n  supplier\nMODIFY\n  supplier_name char(100) NOT NULL;";

        assert_eq!(options.format(input), expected);
}

#[test]
fn it_formats_alter_table_alter_column_query() {
        let input = "ALTER TABLE supplier ALTER COLUMN supplier_name VARCHAR(100) NOT NULL;";
        let options = FormatOptions::default();
        let expected = "ALTER TABLE\n  supplier\n  ALTER COLUMN supplier_name VARCHAR(100) NOT NULL;";

        assert_eq!(options.format(input), expected);
}

#[test]
fn it_formats_alter_table_add_and_drop() {
        let input = r#"ALTER TABLE "public"."event" DROP CONSTRAINT "validate_date", ADD CONSTRAINT "validate_date" CHECK (end_date IS NULL
            OR (start_date IS NOT NULL AND end_date > start_date));"#;

        let options = FormatOptions::default();
        let expected = "ALTER TABLE\n  \"public\".\"event\"\n  DROP CONSTRAINT \"validate_date\",\n  ADD CONSTRAINT \"validate_date\" CHECK (\n    end_date IS NULL\n    OR (\n      start_date IS NOT NULL\n      AND end_date > start_date\n    )\n  );";

        assert_eq!(options.format(input), expected);
}

#[test]
fn it_recognizes_bracketed_strings() {
        let inputs = ["[foo JOIN bar]", "[foo ]] JOIN bar]"];
        let options = FormatOptions {
            dialect: Dialect::SQLServer,
            ..Default::default()
        };
        for input in &inputs {
            assert_eq!(&options.format(input), input);
        }
}

#[test]
fn it_recognizes_at_variables() {
        let input =
            "SELECT @variable, @a1_2.3$, @'var name', @\"var name\", @`var name`, @[var name];";
        let options = FormatOptions {
            dialect: Dialect::SQLServer,
            ..Default::default()
        };
        let expected = "SELECT\n  @variable,\n  @a1_2.3$,\n  @'var name',\n  @\"var name\",\n  @`var name`,\n  @[var name];";

        assert_eq!(options.format(input), expected);
}

#[test]
fn it_recognizes_at_variables_with_param_values() {
        let input =
            "SELECT @variable, @a1_2.3$, @'var name', @\"var name\", @`var name`, @[var name], @'var\\name';";
        let params = vec![
            ("variable".to_string(), "\"variable value\"".to_string()),
            ("a1_2.3$".to_string(), "'weird value'".to_string()),
            ("var name".to_string(), "'var value'".to_string()),
            ("var\\name".to_string(), "'var\\ value'".to_string()),
        ];
        let options = FormatOptions::builder()
            .dialect(Dialect::SQLServer)
            .params(QueryParams::Named(params));
        let expected = "SELECT\n  \"variable value\",\n  'weird value',\n  'var value',\n  'var value',\n  'var value',\n  'var value',\n  'var\\ value';";

        assert_eq!(options.format(input), expected);
}

#[test]
fn it_recognizes_colon_variables() {
        let input =
            "SELECT :variable, :a1_2.3$, :'var name', :\"var name\", :`var name`, :[var name];";
        let options = FormatOptions {
            dialect: Dialect::SQLServer,
            ..Default::default()
        };
        let expected = "SELECT\n  :variable,\n  :a1_2.3$,\n  :'var name',\n  :\"var name\",\n  :`var name`,\n  :[var name];";

        assert_eq!(options.format(input), expected);
}

#[test]
fn it_recognizes_colon_variables_with_param_values() {
        let input = "SELECT :variable, :a1_2.3$, :'var name', :\"var name\", :`var name`,\n:[var name], :'escaped \\'var\\'', :\"^*& weird \\\" var   \";\n";
        let params = vec![
            ("variable".to_string(), "\"variable value\"".to_string()),
            ("a1_2.3$".to_string(), "'weird value'".to_string()),
            ("var name".to_string(), "'var value'".to_string()),
            ("escaped 'var'".to_string(), "'weirder value'".to_string()),
            (
                "^*& weird \" var   ".to_string(),
                "'super weird value'".to_string(),
            ),
        ];
        let options = FormatOptions::builder()
            .dialect(Dialect::SQLServer)
            .params(QueryParams::Named(params));
        let expected = "SELECT\n  \"variable value\",\n  'weird value',\n  'var value',\n  'var value',\n  'var value',\n  'var value',\n  'weirder value',\n  'super weird value';";

        assert_eq!(options.format(input), expected);
}

#[test]
fn it_recognizes_question_numbered_placeholders() {
        let input = "SELECT ?1, ?25, ?;";
        let options = FormatOptions::default();
        let expected = "SELECT\n  ?1,\n  ?25,\n  ?;";

        assert_eq!(options.format(input), expected);
}

#[test]
fn it_recognizes_question_numbered_placeholders_with_param_values() {
        let input = "SELECT ?1, ?2, ?0;";
        let params = vec![
            "first".to_string(),
            "second".to_string(),
            "third".to_string(),
        ];
        let options = FormatOptions::builder().params(QueryParams::Indexed(params));
        let expected = "SELECT\n  second,\n  third,\n  first;";

        assert_eq!(options.format(input), expected);
}

#[test]
fn it_recognizes_question_indexed_placeholders_with_param_values() {
        let input = "SELECT ?, ?, ?;";
        let params = vec![
            "first".to_string(),
            "second".to_string(),
            "third".to_string(),
        ];
        let options = FormatOptions::builder().params(QueryParams::Indexed(params));
        let expected = "SELECT\n  first,\n  second,\n  third;";

        assert_eq!(options.format(input), expected);
}

#[test]
fn it_recognizes_dollar_sign_numbered_placeholders() {
        let input = "SELECT $1, $2;";
        let options = FormatOptions::default();
        let expected = "SELECT\n  $1,\n  $2;";

        assert_eq!(options.format(input), expected);
}

#[test]
fn it_recognizes_dollar_sign_alphanumeric_placeholders() {
        let input = "SELECT $hash, $foo, $bar;";
        let options = FormatOptions::default();
        let expected = "SELECT\n  $hash,\n  $foo,\n  $bar;";

        assert_eq!(options.format(input), expected);
}

#[test]
fn it_recognizes_dollar_sign_numbered_placeholders_with_param_values() {
        let input = "SELECT $2, $3, $1, $named, $4, $alias;";
        let params = vec![
            "first".to_string(),
            "second".to_string(),
            "third".to_string(),
            "4th".to_string(),
        ];
        let options = FormatOptions::builder().params(QueryParams::Indexed(params));
        let expected = "SELECT\n  second,\n  third,\n  first,\n  $named,\n  4th,\n  $alias;";

        assert_eq!(options.format(input), expected);
}

#[test]
fn it_recognizes_dollar_sign_alphanumeric_placeholders_with_param_values() {
        let input = "SELECT $hash, $salt, $1, $2;";
        let params = vec![
            ("hash".to_string(), "hash value".to_string()),
            ("salt".to_string(), "salt value".to_string()),
            ("1".to_string(), "number 1".to_string()),
            ("2".to_string(), "number 2".to_string()),
        ];
        let options = FormatOptions::builder().params(QueryParams::Named(params));
        let expected = "SELECT\n  hash value,\n  salt value,\n  number 1,\n  number 2;";

        assert_eq!(options.format(input), expected);
}

#[test]
fn it_recognizes_braced_placeholders_with_param_values() {
        let input = "SELECT {a}, {b}, {c};";
        let params = vec![
            ("a".to_string(), "first".to_string()),
            ("b".to_string(), "second".to_string()),
            ("c".to_string(), "third".to_string()),
        ];
        let options = FormatOptions::default();
        let expected = "SELECT\n  first,\n  second,\n  third;";

        assert_eq!(options.with_params(QueryParams::Named(params)).format(input), expected);
}

#[test]
fn it_formats_query_with_go_batch_separator() {
        let input = "SELECT 1 GO SELECT 2";
        let params = vec![
            "first".to_string(),
            "second".to_string(),
            "third".to_string(),
        ];
        let options = FormatOptions::builder().params(QueryParams::Indexed(params));
        let expected = "SELECT\n  1\nGO\nSELECT\n  2";

        assert_eq!(options.format(input), expected);
}

#[test]
fn it_formats_select_query_with_cross_join() {
        let input = "SELECT a, b FROM t CROSS JOIN t2 on t.id = t2.id_t";
        let options = FormatOptions::default();
        let expected = "SELECT\n  a,\n  b\nFROM\n  t\n  CROSS JOIN t2 on t.id = t2.id_t";

        assert_eq!(options.format(input), expected);
}

#[test]
fn it_formats_select_query_with_cross_apply() {
        let input = "SELECT a, b FROM t CROSS APPLY fn(t.id)";
        let options = FormatOptions::default();
        let expected = "SELECT\n  a,\n  b\nFROM\n  t\n  CROSS APPLY fn(t.id)";

        assert_eq!(options.format(input), expected);
}

#[test]
fn it_formats_simple_select() {
        let input = "SELECT N, M FROM t";
        let options = FormatOptions::default();
        let expected = "SELECT\n  N,\n  M\nFROM\n  t";

        assert_eq!(options.format(input), expected);
}

#[test]
fn it_formats_simple_select_with_national_characters_mssql() {
        let input = "SELECT N'value'";
        let options = FormatOptions::default();
        let expected = "SELECT\n  N'value'";

        assert_eq!(options.format(input), expected);
}

#[test]
fn it_formats_select_query_with_outer_apply() {
        let input = "SELECT a, b FROM t OUTER APPLY fn(t.id)";
        let options = FormatOptions::default();
        let expected = "SELECT\n  a,\n  b\nFROM\n  t\n  OUTER APPLY fn(t.id)";

        assert_eq!(options.format(input), expected);
}

#[test]
fn it_formats_fetch_first_like_limit() {
        let input = "SELECT * FETCH FIRST 2 ROWS ONLY;";
        let options = FormatOptions::default();
        let expected = "SELECT\n  *\nFETCH FIRST\n  2 ROWS ONLY;";

        assert_eq!(options.format(input), expected);
}

#[test]
fn it_formats_case_when_with_a_blank_expression() {
        let input = "CASE WHEN option = 'foo' THEN 1 WHEN option = 'bar' THEN 2 WHEN option = 'baz' THEN 3 ELSE 4 END;";
        let options = FormatOptions::default();
        let expected = "CASE\n  WHEN option = 'foo' THEN 1\n  WHEN option = 'bar' THEN 2\n  WHEN option = 'baz' THEN 3\n  ELSE 4\nEND;";

        assert_eq!(options.format(input), expected);
}

#[test]
fn it_formats_case_when_inside_select() {
        let input =
            "SELECT foo, bar, CASE baz WHEN 'one' THEN 1 WHEN 'two' THEN 2 ELSE 3 END FROM table";
        let options = FormatOptions::default();
        let expected = "SELECT\n  foo,\n  bar,\n  CASE\n    baz\n    WHEN 'one' THEN 1\n    WHEN 'two' THEN 2\n    ELSE 3\n  END\nFROM\n  table";

        assert_eq!(options.format(input), expected);
}

#[test]
fn it_formats_case_when_inside_select_inlined_top_level() {
        let input =
            "SELECT foo, bar, CASE baz WHEN 'one' THEN 1 WHEN 'two' THEN 2 ELSE 3 END FROM table";
        let options = FormatOptions {
            max_inline_top_level: Some(50),
            ..Default::default()
        };
        let expected = "SELECT\n  foo,\n  bar,\n  CASE\n    baz\n    WHEN 'one' THEN 1\n    WHEN 'two' THEN 2\n    ELSE 3\n  END\nFROM table";

        assert_eq!(options.format(input), expected);
}

#[test]
fn it_formats_case_when_with_an_expression() {
        let input = "CASE toString(getNumber()) WHEN 'one' THEN 1 WHEN 'two' THEN 2 WHEN 'three' THEN 3 ELSE 4 END;";
        let options = FormatOptions::default();
        let expected = "CASE\n  toString(getNumber())\n  WHEN 'one' THEN 1\n  WHEN 'two' THEN 2\n  WHEN 'three' THEN 3\n  ELSE 4\nEND;";

        assert_eq!(options.format(input), expected);
}

#[test]
fn it_formats_case_when_inside_an_order_by() {
        let input = "SELECT a, created_at FROM b ORDER BY (CASE $3 WHEN 'created_at_asc' THEN created_at END) ASC, (CASE $3 WHEN 'created_at_desc' THEN created_at END) DESC;";
        let max_line = 80;
        let options = FormatOptions {
            max_inline_block: max_line,
            max_inline_arguments: Some(max_line),
            ..Default::default()
        };

        let expected = "SELECT\n  a, created_at\nFROM\n  b\nORDER BY\n  (CASE $3 WHEN 'created_at_asc' THEN created_at END) ASC,\n  (CASE $3 WHEN 'created_at_desc' THEN created_at END) DESC;";

        assert_eq!(options.format(input), expected);
}

#[test]
fn it_recognizes_lowercase_case_end() {
        let input = "case when option = 'foo' then 1 else 2 end;";
        let options = FormatOptions::default();
        let expected = "case\n  when option = 'foo' then 1\n  else 2\nend;";

        assert_eq!(options.format(input), expected);
}

#[test]
fn it_ignores_words_case_and_end_inside_other_strings() {
        let input = "SELECT CASEDATE, ENDDATE FROM table1;";
        let options = FormatOptions::default();
        let expected = "SELECT\n  CASEDATE,\n  ENDDATE\nFROM\n  table1;";

        assert_eq!(options.format(input), expected);
}

#[test]
fn it_formats_tricky_line_comments() {
        let input = "SELECT a#comment, here\nFROM b--comment";
        let options = FormatOptions::default();
        let expected = "SELECT\n  a #comment, here\nFROM\n  b --comment";

        assert_eq!(options.format(input), expected);
}

#[test]
fn it_formats_line_comments_followed_by_semicolon() {
        let input = "SELECT a FROM b\n--comment\n;";
        let options = FormatOptions::default();
        let expected = "SELECT\n  a\nFROM\n  b --comment\n;";

        assert_eq!(options.format(input), expected);
}

#[test]
fn it_formats_line_comments_followed_by_comma() {
        let input = "SELECT a --comment\n, b";
        let options = FormatOptions::default();
        let expected = "SELECT\n  a --comment\n,\n  b";

        assert_eq!(options.format(input), expected);
}

#[test]
fn it_formats_line_comments_followed_by_close_paren() {
        let input = "SELECT ( a --comment\n )";
        let options = FormatOptions::default();
        let expected = "SELECT\n  (\n    a --comment\n  )";

        assert_eq!(options.format(input), expected);
}

#[test]
fn it_formats_line_comments_followed_by_open_paren() {
        let input = "SELECT a --comment\n()";
        let options = FormatOptions::default();
        let expected = "SELECT\n  a --comment\n  ()";

        assert_eq!(options.format(input), expected);
}

#[test]
fn it_formats_lonely_semicolon() {
        let input = ";";
        let options = FormatOptions::default();

        assert_eq!(options.format(input), input);
}

#[test]
fn it_formats_multibyte_chars() {
        let input = "\nSELECT 'главная'";
        let options = FormatOptions::default();
        let expected = "SELECT\n  'главная'";

        assert_eq!(options.format(input), expected);
}

#[test]
fn it_recognizes_scientific_notation() {
        let input = "SELECT *, 1e-7 as small, 1e2 as medium, 1e+7 as large FROM t";
        let options = FormatOptions::default();
        let expected = "SELECT\n  *,\n  1e-7 as small,\n  1e2 as medium,\n  1e+7 as large\nFROM\n  t";

        assert_eq!(options.format(input), expected);
}

#[test]
fn it_keeps_double_dollar_signs_together() {
        let input = "CREATE FUNCTION abc() AS $$ SELECT * FROM table $$ LANGUAGE plpgsql;";
        let options = FormatOptions::default();
        let expected = "CREATE FUNCTION abc() AS\n$$\nSELECT\n  *\nFROM\n  table\n$$\nLANGUAGE plpgsql;";

        assert_eq!(options.format(input), expected);
}

#[test]
fn it_formats_pgplsql() {
        let input = "CREATE FUNCTION abc() AS $$ DECLARE a int := 1; b int := 2; BEGIN SELECT * FROM table $$ LANGUAGE plpgsql;";
        let options = FormatOptions::default();
        let expected = "CREATE FUNCTION abc() AS\n$$\nDECLARE\na int := 1;\nb int := 2;\nBEGIN\nSELECT\n  *\nFROM\n  table\n$$\nLANGUAGE plpgsql;";

        assert_eq!(options.format(input), expected);
}

#[test]
fn it_handles_comments_correctly() {
        let input = "    -- 创建一个外部表，存储销售数据\nCREATE EXTERNAL TABLE IF NOT EXISTS sales_data (\n    -- 唯一标识订单ID\n    order_id BIGINT COMMENT 'Unique identifier for the order',\n\n    -- 客户ID\n    customer_id BIGINT COMMENT 'Unique identifier for the customer',\n)\nCOMMENT 'Sales data table for storing transaction records';\n\n-- 按销售日期和城市进行分区\nPARTITIONED BY (\n    sale_year STRING COMMENT 'Year of the sale',\n    sale_month STRING COMMENT 'Month of the sale'\n)\n\n-- 设置数据存储位置\nLOCATION '/user/hive/warehouse/sales_data'\n\n-- 使用 ORC 存储格式\nSTORED AS ORC\n\n-- 设置表的行格式\nROW FORMAT DELIMITED\nFIELDS TERMINATED BY ','\nLINES TERMINATED BY '\n'\n\n-- 设置表属性\nTBLPROPERTIES (\n    'orc.compress' = 'SNAPPY',          -- 使用SNAPPY压缩\n    'transactional' = 'true',           -- 启用事务支持\n    'orc.create.index' = 'true',        -- 创建索引\n    'skip.header.line.count' = '1',     -- 跳过CSV文件的第一行\n    'external.table.purge' = 'true'     -- 在删除表时自动清理数据\n);\n\n-- 自动加载数据到 Hive 分区中\nALTER TABLE sales_data\nADD PARTITION (sale_year = '2024', sale_month = '08')\nLOCATION '/user/hive/warehouse/sales_data/2024/08';";
        let options = FormatOptions {
            indent: Indent::Spaces(4),
            ..Default::default()
        };
        let expected = "-- 创建一个外部表，存储销售数据\nCREATE EXTERNAL TABLE IF NOT EXISTS sales_data (\n    -- 唯一标识订单ID\n    order_id BIGINT COMMENT 'Unique identifier for the order',\n    -- 客户ID\n    customer_id BIGINT COMMENT 'Unique identifier for the customer',\n) COMMENT 'Sales data table for storing transaction records';\n-- 按销售日期和城市进行分区\nPARTITIONED BY (\n    sale_year STRING COMMENT 'Year of the sale',\n    sale_month STRING COMMENT 'Month of the sale'\n)\n-- 设置数据存储位置\nLOCATION '/user/hive/warehouse/sales_data'\n-- 使用 ORC 存储格式\nSTORED AS ORC\n-- 设置表的行格式\nROW FORMAT DELIMITED FIELDS TERMINATED BY ',' LINES TERMINATED BY '\n'\n-- 设置表属性\nTBLPROPERTIES (\n    'orc.compress' = 'SNAPPY',  -- 使用SNAPPY压缩\n    'transactional' = 'true',  -- 启用事务支持\n    'orc.create.index' = 'true',  -- 创建索引\n    'skip.header.line.count' = '1',  -- 跳过CSV文件的第一行\n    'external.table.purge' = 'true' -- 在删除表时自动清理数据\n);\n-- 自动加载数据到 Hive 分区中\nALTER TABLE\n    sales_data\n    ADD PARTITION (sale_year = '2024', sale_month = '08') LOCATION '/user/hive/warehouse/sales_data/2024/08';";

        assert_eq!(options.format(input), expected);
}

#[test]
fn it_recognizes_returning_clause() {
        let input = "INSERT INTO\n  users (name, email)\nVALUES\n  ($1, $2) RETURNING name,\n  email";
        let options = FormatOptions::default();
        let expected = "INSERT INTO\n  users (name, email)\nVALUES\n  ($1, $2)\nRETURNING\n  name,\n  email";

        assert_eq!(options.format(input), expected);
}

#[test]
fn it_recognizes_on_update_clause() {
        let input = "CREATE TABLE a (b integer REFERENCES c (id) ON                                     UPDATE RESTRICT, other integer);";
        let options = FormatOptions::default();
        let expected = "CREATE TABLE a (\n  b integer REFERENCES c (id) ON UPDATE RESTRICT,\n  other integer\n);";
        assert_eq!(options.format(input), expected);
}

#[test]
fn it_formats_except_on_columns() {
        let input = "SELECT table_0.* EXCEPT (profit),\n            details.* EXCEPT (item_id),\n            table_0.profit\nFROM  table_0";
        let options = FormatOptions {
            indent: Indent::Spaces(4),
            ..Default::default()
        };
        let expected = "SELECT\n    table_0.* EXCEPT (profit),\n    details.* EXCEPT (item_id),\n    table_0.profit\nFROM\n    table_0";

        assert_eq!(options.format(input), expected);
}

#[test]
fn it_uses_given_ignore_case_convert_config() {
        let input = "select count(*),Column1 from Table1;";
        let options = FormatOptions {
            uppercase: Some(true),
            ignore_case_convert: Some(vec!["from".to_string()]),
            ..FormatOptions::default()
        };
        let expected = "SELECT\n  count(*),\n  Column1\nfrom\n  Table1;";

        assert_eq!(options.format(input), expected);
}

#[test]
fn it_recognizes_fmt_off() {
        let input = "SELECT              *     FROM   sometable\nWHERE\n-- comment test here\n     -- fmt: off\n    first_key.second_key = 1\n                    -- json:first_key.second_key = 1\n          -- fmt: on\n    AND\n       -- fm1t: off\n    first_key.second_key = 1\n                        --  json:first_key.second_key = 1\n    -- fmt:on";
        let options = FormatOptions {
            indent: Indent::Spaces(4),
            ..Default::default()
        };
        let expected = "SELECT\n    *\nFROM\n    sometable\nWHERE\n    -- comment test here\n    first_key.second_key = 1\n                    -- json:first_key.second_key = 1\n    AND\n    -- fm1t: off\n    first_key.second_key = 1\n    --  json:first_key.second_key = 1";

        assert_eq!(options.format(input), expected);
}

#[test]
fn it_converts_keywords_to_lowercase_when_option_passed_in() {
        let input = "select distinct * frOM foo left join bar WHERe cola > 1 and colb = 3";
        let options = FormatOptions {
            uppercase: Some(false),
            ..FormatOptions::default()
        };
        let expected = "select distinct\n  *\nfrom\n  foo\n  left join bar\nwhere\n  cola > 1\n  and colb = 3";

        assert_eq!(options.format(input), expected);
}

#[test]
fn format_nested_select() {
        let input = "WITH a AS ( SELECT a, b, c FROM t WHERE a > 100 ), aa AS ( SELECT field FROM table ) SELECT b, field FROM a, aa;";
        let options = FormatOptions {
            max_inline_arguments: Some(10),
            max_inline_top_level: Some(9),
            ..Default::default()
        };
        let expected = "WITH\na AS (\n  SELECT a, b, c\n  FROM t\n  WHERE a > 100\n),\naa AS (\n  SELECT field\n  FROM table\n)\nSELECT\n  b, field\nFROM a, aa;";
        assert_eq!(options.format(input), expected);
}

#[test]
fn format_short_with() {
        let input = "WITH a AS ( SELECT a, b, c FROM t WHERE a > 100 ) SELECT b, field FROM a, aa;";
        let max_line = 80;
        let options = FormatOptions {
            max_inline_block: max_line,
            max_inline_arguments: Some(max_line),
            max_inline_top_level: Some(max_line),
            joins_as_top_level: true,
            ..Default::default()
        };
        let expected = "WITH a AS (SELECT a, b, c FROM t WHERE a > 100)\nSELECT b, field\nFROM a, aa;";
        assert_eq!(options.format(input), expected);
}

#[test]
fn format_nested_select_nested_blocks() {
        let input =
            "WITH a AS ( SELECT a, b, c FROM t WHERE a > 100 ), aa AS ( SELECT field FROM table ),
            bb AS ( SELECT count(*) as c FROM d ), cc AS ( INSERT INTO C (a, b, c, d) VALUES (1 ,2 ,3 ,4) )
        SELECT b, field FROM a, aa;";
        let max_line = 20;
        let options = FormatOptions {
            max_inline_block: max_line,
            max_inline_arguments: Some(max_line),
            max_inline_top_level: Some(max_line / 2),
            joins_as_top_level: true,
            ..Default::default()
        };
        let expected = "WITH\na AS (\n  SELECT a, b, c\n  FROM t\n  WHERE a > 100\n),\naa AS (\n  SELECT field\n  FROM table\n),\nbb AS (\n  SELECT\n    count(*) as c\n  FROM d\n),\ncc AS (\n  INSERT INTO\n    C (a, b, c, d)\n  VALUES\n    (1, 2, 3, 4)\n)\nSELECT b, field\nFROM a, aa;";
        assert_eq!(options.format(input), expected);
}

#[test]
fn it_converts_keywords_nothing_when_no_option_passed_in() {
        let input = "select distinct * frOM foo left join bar WHERe cola > 1 and colb = 3";
        let options = FormatOptions {
            uppercase: None,
            ..FormatOptions::default()
        };
        let expected = "select distinct\n  *\nfrOM\n  foo\n  left join bar\nWHERe\n  cola > 1\n  and colb = 3";

        assert_eq!(options.format(input), expected);
}

#[test]
fn it_correctly_parses_all_operators() {
        let operators = [
            "!!", "!~~*", "!~~", "!~*", "!~", "##", "#>>", "#>", "#-", "&<|", "&<", "&>", "&&",
            "*<>", "*<=", "*>=", "*>", "*=", "*<", "<<|", "<<=", "<<", "<->", "<@", "<^", "<=",
            "<>", "<", ">=", ">>=", ">>", ">^", "->>", "->", "-|-", "-", "+", "/", "=", "%", "?||",
            "?|", "?-|", "?-", "?#", "?&", "?", "@@@", "@@", "@>", "@?", "@-@", "@", "^@", "^",
            "|&>", "|>>", "|/", "|", "||/", "||", "~>=~", "~>~", "~<=~", "~<~", "~=", "~*", "~~*",
            "~~", "~", "%", "<%", "%>", "<<%", "%>>", "<<->", "<->>", "<<<->", "<->>>",
        ];

        // Test each operator individually
        for &operator in &operators {
            let input = format!("left {} right", operator);
            let expected = format!("left {} right", operator);
            let options = FormatOptions {
                uppercase: None,
                ..FormatOptions::default()
            };

            assert_eq!(
                options.format(&input),
                expected,
                "Failed to parse operator: {}",
                operator
            );
        }
}

#[test]
fn it_correctly_splits_operators() {
        let input = "
  SELECT
  left <@ right,
  left << right,
  left >> right,
  left &< right,
  left &> right,
  left -|- right,
  @@ left,
  @-@ left,
  left <-> right,
  left <<| right,
  left |>> right,
  left &<| right,
  left |>& right,
  left <^ right,
  left >^ right,
  left <% right,
  left %> right,
  ?- left,
  left ?-| right,
  left ?|| right,
  left ~= right";
        let options = FormatOptions {
            uppercase: None,
            ..FormatOptions::default()
        };
        let expected = "SELECT\n  left <@ right,\n  left << right,\n  left >> right,\n  left &< right,\n  left &> right,\n  left -|- right,\n  @@ left,\n  @-@ left,\n  left <-> right,\n  left <<| right,\n  left |>> right,\n  left &<| right,\n  left |>& right,\n  left <^ right,\n  left >^ right,\n  left <% right,\n  left %> right,\n  ?- left,\n  left ?-| right,\n  left ?|| right,\n  left ~= right";

        assert_eq!(options.format(input), expected);
}

#[test]
fn it_formats_double_colons() {
        let input = "select text  ::  text, num::integer, data::json, (x - y)::integer  frOM foo";
        let options = FormatOptions {
            uppercase: Some(false),
            ..FormatOptions::default()
        };
        let expected = "select\n  text::text,\n  num::integer,\n  data::json,\n  (x - y)::integer\nfrom\n  foo";

        assert_eq!(options.format(input), expected);
}

#[test]
fn it_formats_blocks_inline_or_not() {
        let input = " UPDATE t


        SET o = ($5 + $6 + $7 + $8),a = CASE WHEN $2
            THEN NULL ELSE COALESCE($3, b) END, b = CASE WHEN $4 THEN NULL ELSE
            COALESCE($5, b) END, s = (SELECT true FROM bar WHERE bar.foo = $99 AND bar.foo > $100),
            c = CASE WHEN $6 THEN NULL ELSE COALESCE($7, c) END,
            d = CASE WHEN $8 THEN NULL ELSE COALESCE($9, dddddddd) + bbbbb END,
            e = (SELECT true FROM bar) WHERE id = $1";
        let options = FormatOptions {
            max_inline_arguments: Some(60),
            max_inline_block: 60,
            max_inline_top_level: Some(60),
            ..Default::default()
        };
        let expected = "UPDATE t SET\n  o = ($5 + $6 + $7 + $8),\n  a = CASE WHEN $2 THEN NULL ELSE COALESCE($3, b) END,\n  b = CASE WHEN $4 THEN NULL ELSE COALESCE($5, b) END,\n  s = (\n    SELECT true\n    FROM bar\n    WHERE bar.foo = $99\n      AND bar.foo > $100\n  ),\n  c = CASE WHEN $6 THEN NULL ELSE COALESCE($7, c) END,\n  d = CASE\n    WHEN $8 THEN NULL\n    ELSE COALESCE($9, dddddddd) + bbbbb\n  END,\n  e = (SELECT true FROM bar)\nWHERE id = $1";

        assert_eq!(options.format(input), expected);
}

#[test]
fn parse_union_all() {
        let input = "SELECT id FROM a UNION ALL SELECT id FROM b WHERE c = $12 AND f";
        let options = FormatOptions::default();
        let expected = "SELECT\n  id\nFROM\n  a\nUNION ALL\nSELECT\n  id\nFROM\n  b\nWHERE\n  c = $12\n  AND f";
        assert_eq!(options.format(input), expected);
}

