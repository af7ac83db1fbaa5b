//! The keyword tables: reserved-word phrases by class, and the
//! longest-match phrase scanner that classifies them.
//!
//! A phrase is stored as its upper-case words separated by single spaces.
//! Matching is ASCII-case-insensitive; words of a phrase must line up with
//! whole whitespace-separated words of the input, and the last word must end
//! at a word boundary.

use vstd::prelude::*;
use crate::chars::is_word_character;
use crate::chars::is_whitespace_char;
use crate::chars::to_upper_char;

verus! {

/// Where the whitespace run beginning at `j` ends.
pub open spec fn ws_run_end(s: Seq<char>, j: int) -> int
    decreases s.len() - j,
{
    if j < 0 || j >= s.len() || !crate::chars::is_ws(s[j]) {
        j
    } else {
        ws_run_end(s, j + 1)
    }
}

/// Where `phrase` matches in `s`, with `k` characters of the phrase
/// already matched up to position `j`: a space in the phrase stands for a
/// whitespace run of the input, any other character must match
/// ASCII-case-insensitively, and the whole phrase must end at a word
/// boundary.  The result is the position just past the matched text.
pub open spec fn phrase_match_at(s: Seq<char>, j: int, phrase: Seq<char>, k: int) -> Option<int>
    decreases phrase.len() - k,
{
    if k < 0 || k >= phrase.len() {
        if k == phrase.len() && phrase.len() > 0 {
            if j == s.len() || !crate::chars::is_word_char(s[j]) {
                Some(j)
            } else {
                None
            }
        } else {
            None
        }
    } else if phrase[k] == ' ' {
        if 0 <= j < s.len() && crate::chars::is_ws(s[j]) {
            phrase_match_at(s, ws_run_end(s, j), phrase, k + 1)
        } else {
            None
        }
    } else {
        if 0 <= j < s.len() && crate::chars::upper_char(s[j]) == phrase[k] {
            phrase_match_at(s, j + 1, phrase, k + 1)
        } else {
            None
        }
    }
}

/// Matches `phrase` against `s` starting at `pos`.  Returns the position
/// just past the matched text, which keeps the original spelling and
/// whitespace of `s`.
pub fn match_phrase(s: &Vec<char>, pos: usize, phrase: &Vec<char>) -> (r: Option<usize>)
    requires
        pos <= s.len(),
    ensures
        r is Some ==> pos < r->0 <= s.len(),
        r is Some ==> (r->0 == s.len() || !crate::chars::is_word_char(s@[r->0 as int])),
        (r is Some) == (phrase_match_at(s@, pos as int, phrase@, 0) is Some),
        r is Some ==> r->0 == phrase_match_at(s@, pos as int, phrase@, 0)->0,
{
    if phrase.len() == 0 {
        return None;
    }
    let mut j: usize = pos;
    let mut k: usize = 0;
    loop
        invariant
            pos <= j <= s.len(),
            k <= phrase.len(),
            0 < phrase.len(),
            k > 0 ==> j > pos,
            phrase_match_at(s@, pos as int, phrase@, 0) == phrase_match_at(
                s@,
                j as int,
                phrase@,
                k as int,
            ),
        decreases phrase.len() - k,
    {
        let ghost k_entry = k as int;
        // match the characters of the current phrase word
        while k < phrase.len() && phrase[k] != ' '
            invariant
                pos <= j <= s.len(),
                k_entry <= k <= phrase.len(),
                0 < phrase.len(),
                k > 0 ==> j > pos,
                phrase_match_at(s@, pos as int, phrase@, 0) == phrase_match_at(
                    s@,
                    j as int,
                    phrase@,
                    k as int,
                ),
            decreases phrase.len() - k,
        {
            if j >= s.len() {
                return None;
            }
            let c = s[j];
            if to_upper_char(c) != phrase[k] {
                return None;
            }
            j = j + 1;
            k = k + 1;
        }
        if k == phrase.len() {
            if j == s.len() || !is_word_character(s[j]) {
                return Some(j);
            }
            return None;
        }
        // phrase has a space here: the input must have a whitespace run
        if j >= s.len() || !is_whitespace_char(s[j]) {
            return None;
        }
        let ghost j_ws = j as int;
        j = j + 1;
        while j < s.len() && is_whitespace_char(s[j])
            invariant
                pos < j <= s.len(),
                ws_run_end(s@, j_ws) == ws_run_end(s@, j as int),
            decreases s.len() - j,
        {
            j = j + 1;
        }
        proof {
            assert(ws_run_end(s@, j as int) == j as int);
        }
        k = k + 1;
    }
}

/// The first phrase of `phrases`, from `i` on, that matches at `pos`,
/// and where the match ends.
pub open spec fn list_match_from(s: Seq<char>, pos: int, phrases: Seq<Seq<char>>, i: int) -> Option<
    int,
>
    decreases phrases.len() - i,
{
    if i < 0 || i >= phrases.len() {
        None
    } else if phrase_match_at(s, pos, phrases[i], 0) is Some {
        phrase_match_at(s, pos, phrases[i], 0)
    } else {
        list_match_from(s, pos, phrases, i + 1)
    }
}

/// Tries each phrase in order; the first match wins.
pub fn match_list(s: &Vec<char>, pos: usize, phrases: &Vec<Vec<char>>) -> (r: Option<usize>)
    requires
        pos <= s.len(),
    ensures
        r is Some ==> pos < r->0 <= s.len(),
        (r is Some) == (list_match_from(s@, pos as int, phrases.deep_view(), 0) is Some),
        r is Some ==> r->0 == list_match_from(s@, pos as int, phrases.deep_view(), 0)->0,
{
    let mut i: usize = 0;
    while i < phrases.len()
        invariant
            pos <= s.len(),
            i <= phrases.len(),
            list_match_from(s@, pos as int, phrases.deep_view(), 0) == list_match_from(
                s@,
                pos as int,
                phrases.deep_view(),
                i as int,
            ),
        decreases phrases.len() - i,
    {
        let m = match_phrase(s, pos, &phrases[i]);
        proof {
            assert(phrases.deep_view()[i as int] == phrases@[i as int]@);
        }
        if m.is_some() {
            return m;
        }
        i = i + 1;
    }
    None
}

/// The phrases of this table, in match order.
pub open spec fn top_level_table() -> Seq<Seq<char>> {
    seq!["AFTER"@, "ALTER TABLE"@, "CREATE UNLOGGED TABLE"@, "CREATE GLOBAL TEMPORARY TABLE"@, "CREATE GLOBAL TEMP TABLE"@, "CREATE GLOBAL TABLE"@, "CREATE LOCAL TEMPORARY TABLE"@, "CREATE LOCAL TEMP TABLE"@, "CREATE LOCAL TABLE"@, "CREATE TABLE"@, "DELETE FROM"@, "DROP TABLE IF EXISTS"@, "DROP INDEX IF EXISTS"@, "EXCEPT"@, "FETCH FIRST"@, "FROM"@, "FOR UPDATE"@, "GROUP BY"@, "GO"@, "HAVING"@, "INSERT INTO"@, "INSERT"@, "LIMIT"@, "MODIFY"@, "ORDER BY"@, "ON CONFLICT"@, "PARTITION BY"@, "RETURNING"@, "SELECT DISTINCT"@, "SELECT ALL"@, "SELECT"@, "SET CURRENT SCHEMA"@, "SET SCHEMA"@, "SET"@, "UPDATE"@, "USING"@, "VALUES"@, "WHERE"@, "WINDOW"@]
}

/// Keywords that open a new top-level clause.
pub fn top_level_phrases() -> (r: Vec<Vec<char>>)
    ensures
        r.deep_view() == top_level_table(),
{
    let mut v: Vec<Vec<char>> = Vec::new();
    v.push(crate::chars::str_chars("AFTER"));
    v.push(crate::chars::str_chars("ALTER TABLE"));
    v.push(crate::chars::str_chars("CREATE UNLOGGED TABLE"));
    v.push(crate::chars::str_chars("CREATE GLOBAL TEMPORARY TABLE"));
    v.push(crate::chars::str_chars("CREATE GLOBAL TEMP TABLE"));
    v.push(crate::chars::str_chars("CREATE GLOBAL TABLE"));
    v.push(crate::chars::str_chars("CREATE LOCAL TEMPORARY TABLE"));
    v.push(crate::chars::str_chars("CREATE LOCAL TEMP TABLE"));
    v.push(crate::chars::str_chars("CREATE LOCAL TABLE"));
    v.push(crate::chars::str_chars("CREATE TABLE"));
    v.push(crate::chars::str_chars("DELETE FROM"));
    v.push(crate::chars::str_chars("DROP TABLE IF EXISTS"));
    v.push(crate::chars::str_chars("DROP INDEX IF EXISTS"));
    v.push(crate::chars::str_chars("EXCEPT"));
    v.push(crate::chars::str_chars("FETCH FIRST"));
    v.push(crate::chars::str_chars("FROM"));
    v.push(crate::chars::str_chars("FOR UPDATE"));
    v.push(crate::chars::str_chars("GROUP BY"));
    v.push(crate::chars::str_chars("GO"));
    v.push(crate::chars::str_chars("HAVING"));
    v.push(crate::chars::str_chars("INSERT INTO"));
    v.push(crate::chars::str_chars("INSERT"));
    v.push(crate::chars::str_chars("LIMIT"));
    v.push(crate::chars::str_chars("MODIFY"));
    v.push(crate::chars::str_chars("ORDER BY"));
    v.push(crate::chars::str_chars("ON CONFLICT"));
    v.push(crate::chars::str_chars("PARTITION BY"));
    v.push(crate::chars::str_chars("RETURNING"));
    v.push(crate::chars::str_chars("SELECT DISTINCT"));
    v.push(crate::chars::str_chars("SELECT ALL"));
    v.push(crate::chars::str_chars("SELECT"));
    v.push(crate::chars::str_chars("SET CURRENT SCHEMA"));
    v.push(crate::chars::str_chars("SET SCHEMA"));
    v.push(crate::chars::str_chars("SET"));
    v.push(crate::chars::str_chars("UPDATE"));
    v.push(crate::chars::str_chars("USING"));
    v.push(crate::chars::str_chars("VALUES"));
    v.push(crate::chars::str_chars("WHERE"));
    v.push(crate::chars::str_chars("WINDOW"));
    proof {
        assert(v.deep_view() =~~= top_level_table());
    }
    v
}

/// The phrases of this table, in match order.
pub open spec fn newline_after_table() -> Seq<Seq<char>> {
    seq!["DO NOTHING"@, "DO UPDATE SET"@]
}

/// Keywords after which a line break is forced.
pub fn newline_after_phrases() -> (r: Vec<Vec<char>>)
    ensures
        r.deep_view() == newline_after_table(),
{
    let mut v: Vec<Vec<char>> = Vec::new();
    v.push(crate::chars::str_chars("DO NOTHING"));
    v.push(crate::chars::str_chars("DO UPDATE SET"));
    proof {
        assert(v.deep_view() =~~= newline_after_table());
    }
    v
}

/// The phrases of this table, in match order.
pub open spec fn newline_table() -> Seq<Seq<char>> {
    seq!["CROSS APPLY"@, "OUTER APPLY"@, "AND"@, "OR"@, "XOR"@, "WHEN"@, "ELSE"@, "ADD"@, "DROP"@, "ALTER"@, "VALIDATE"@, "ENABLE"@, "DISABLE"@]
}

/// Keywords that start a new line at the current depth.
pub fn newline_phrases() -> (r: Vec<Vec<char>>)
    ensures
        r.deep_view() == newline_table(),
{
    let mut v: Vec<Vec<char>> = Vec::new();
    v.push(crate::chars::str_chars("CROSS APPLY"));
    v.push(crate::chars::str_chars("OUTER APPLY"));
    v.push(crate::chars::str_chars("AND"));
    v.push(crate::chars::str_chars("OR"));
    v.push(crate::chars::str_chars("XOR"));
    v.push(crate::chars::str_chars("WHEN"));
    v.push(crate::chars::str_chars("ELSE"));
    v.push(crate::chars::str_chars("ADD"));
    v.push(crate::chars::str_chars("DROP"));
    v.push(crate::chars::str_chars("ALTER"));
    v.push(crate::chars::str_chars("VALIDATE"));
    v.push(crate::chars::str_chars("ENABLE"));
    v.push(crate::chars::str_chars("DISABLE"));
    proof {
        assert(v.deep_view() =~~= newline_table());
    }
    v
}

/// The phrases of this table, in match order.
pub open spec fn join_table() -> Seq<Seq<char>> {
    seq!["JOIN"@, "INNER JOIN"@, "LEFT JOIN"@, "RIGHT JOIN"@, "FULL JOIN"@, "CROSS JOIN"@, "LEFT OUTER JOIN"@, "RIGHT OUTER JOIN"@, "FULL OUTER JOIN"@, "INNER ANY JOIN"@, "LEFT ANY JOIN"@, "RIGHT ANY JOIN"@, "ANY JOIN"@, "SEMI JOIN"@, "LEFT SEMI JOIN"@, "RIGHT SEMI JOIN"@, "LEFT ANTI JOIN"@, "RIGHT ANTI JOIN"@, "ASOF JOIN"@, "LEFT ASOF JOIN"@, "PASTE JOIN"@, "GLOBAL INNER JOIN"@, "GLOBAL LEFT JOIN"@, "GLOBAL RIGHT JOIN"@, "GLOBAL FULL JOIN"@]
}

/// The JOIN-family keywords.
pub fn join_phrases() -> (r: Vec<Vec<char>>)
    ensures
        r.deep_view() == join_table(),
{
    let mut v: Vec<Vec<char>> = Vec::new();
    v.push(crate::chars::str_chars("JOIN"));
    v.push(crate::chars::str_chars("INNER JOIN"));
    v.push(crate::chars::str_chars("LEFT JOIN"));
    v.push(crate::chars::str_chars("RIGHT JOIN"));
    v.push(crate::chars::str_chars("FULL JOIN"));
    v.push(crate::chars::str_chars("CROSS JOIN"));
    v.push(crate::chars::str_chars("LEFT OUTER JOIN"));
    v.push(crate::chars::str_chars("RIGHT OUTER JOIN"));
    v.push(crate::chars::str_chars("FULL OUTER JOIN"));
    v.push(crate::chars::str_chars("INNER ANY JOIN"));
    v.push(crate::chars::str_chars("LEFT ANY JOIN"));
    v.push(crate::chars::str_chars("RIGHT ANY JOIN"));
    v.push(crate::chars::str_chars("ANY JOIN"));
    v.push(crate::chars::str_chars("SEMI JOIN"));
    v.push(crate::chars::str_chars("LEFT SEMI JOIN"));
    v.push(crate::chars::str_chars("RIGHT SEMI JOIN"));
    v.push(crate::chars::str_chars("LEFT ANTI JOIN"));
    v.push(crate::chars::str_chars("RIGHT ANTI JOIN"));
    v.push(crate::chars::str_chars("ASOF JOIN"));
    v.push(crate::chars::str_chars("LEFT ASOF JOIN"));
    v.push(crate::chars::str_chars("PASTE JOIN"));
    v.push(crate::chars::str_chars("GLOBAL INNER JOIN"));
    v.push(crate::chars::str_chars("GLOBAL LEFT JOIN"));
    v.push(crate::chars::str_chars("GLOBAL RIGHT JOIN"));
    v.push(crate::chars::str_chars("GLOBAL FULL JOIN"));
    proof {
        assert(v.deep_view() =~~= join_table());
    }
    v
}

/// The phrases of this table, in match order.
pub open spec fn top_level_no_indent_table() -> Seq<Seq<char>> {
    seq!["BEGIN"@, "DECLARE"@, "INTERSECT ALL"@, "INTERSECT"@, "MINUS"@, "UNION ALL"@, "UNION"@, "WITH"@, "$$"@]
}

/// Top-level keywords that do not change the indent.
pub fn top_level_no_indent_phrases() -> (r: Vec<Vec<char>>)
    ensures
        r.deep_view() == top_level_no_indent_table(),
{
    let mut v: Vec<Vec<char>> = Vec::new();
    v.push(crate::chars::str_chars("BEGIN"));
    v.push(crate::chars::str_chars("DECLARE"));
    v.push(crate::chars::str_chars("INTERSECT ALL"));
    v.push(crate::chars::str_chars("INTERSECT"));
    v.push(crate::chars::str_chars("MINUS"));
    v.push(crate::chars::str_chars("UNION ALL"));
    v.push(crate::chars::str_chars("UNION"));
    v.push(crate::chars::str_chars("WITH"));
    v.push(crate::chars::str_chars("$$"));
    proof {
        assert(v.deep_view() =~~= top_level_no_indent_table());
    }
    v
}

/// The phrases of this table, in match order.
pub open spec fn plain_two_word_table() -> Seq<Seq<char>> {
    seq!["CHARACTER SET"@, "ON CONFLICT"@, "ON CONSTRAINT"@, "ON DELETE"@, "ON UPDATE"@, "DISTINCT FROM"@]
}

/// Two-word reserved phrases rendered inline.
pub fn plain_two_word_phrases() -> (r: Vec<Vec<char>>)
    ensures
        r.deep_view() == plain_two_word_table(),
{
    let mut v: Vec<Vec<char>> = Vec::new();
    v.push(crate::chars::str_chars("CHARACTER SET"));
    v.push(crate::chars::str_chars("ON CONFLICT"));
    v.push(crate::chars::str_chars("ON CONSTRAINT"));
    v.push(crate::chars::str_chars("ON DELETE"));
    v.push(crate::chars::str_chars("ON UPDATE"));
    v.push(crate::chars::str_chars("DISTINCT FROM"));
    proof {
        assert(v.deep_view() =~~= plain_two_word_table());
    }
    v
}

/// Single-word reserved words rendered inline.
/// The single-word reserved phrases, as the concatenation of the
/// alphabetical stretches below.
pub open spec fn plain_one_word_table() -> Seq<Seq<char>> {
    plain_one_word_table_0() + plain_one_word_table_1() + plain_one_word_table_2() + plain_one_word_table_3() + plain_one_word_table_4() + plain_one_word_table_5()
}

/// One alphabetical stretch of the single-word reserved phrases.
pub open spec fn plain_one_word_table_0() -> Seq<Seq<char>> {
    seq!["ACCESSIBLE"@, "ACTION"@, "AGAINST"@, "AGGREGATE"@, "ALGORITHM"@, "ALL"@, "ALTER"@, "ANALYSE"@, "ANALYZE"@, "AS"@, "ASC"@, "AUTOCOMMIT"@, "AUTO_INCREMENT"@, "BACKUP"@, "BETWEEN"@, "BINLOG"@, "BOTH"@, "CASCADE"@, "CASE"@, "CHANGE"@, "CHANGED"@, "CHARSET"@, "CHECK"@, "CHECKSUM"@, "COLLATE"@, "COLLATION"@, "COLUMN"@, "COLUMNS"@, "COMMENT"@, "COMMIT"@, "COMMITTED"@, "COMPRESSED"@, "CONCURRENT"@, "CONSTRAINT"@, "CONTAINS"@, "CONVERT"@, "CREATE"@, "CROSS"@, "CURRENT_TIMESTAMP"@, "DATABASE"@, "DATABASES"@, "DAY"@, "DAY_HOUR"@, "DAY_MINUTE"@, "DAY_SECOND"@]
}

fn plain_one_word_phrases_0() -> (r: Vec<Vec<char>>)
    ensures
        r.deep_view() == plain_one_word_table_0(),
{
    let mut v: Vec<Vec<char>> = Vec::new();
    v.push(crate::chars::str_chars("ACCESSIBLE"));
    v.push(crate::chars::str_chars("ACTION"));
    v.push(crate::chars::str_chars("AGAINST"));
    v.push(crate::chars::str_chars("AGGREGATE"));
    v.push(crate::chars::str_chars("ALGORITHM"));
    v.push(crate::chars::str_chars("ALL"));
    v.push(crate::chars::str_chars("ALTER"));
    v.push(crate::chars::str_chars("ANALYSE"));
    v.push(crate::chars::str_chars("ANALYZE"));
    v.push(crate::chars::str_chars("AS"));
    v.push(crate::chars::str_chars("ASC"));
    v.push(crate::chars::str_chars("AUTOCOMMIT"));
    v.push(crate::chars::str_chars("AUTO_INCREMENT"));
    v.push(crate::chars::str_chars("BACKUP"));
    v.push(crate::chars::str_chars("BETWEEN"));
    v.push(crate::chars::str_chars("BINLOG"));
    v.push(crate::chars::str_chars("BOTH"));
    v.push(crate::chars::str_chars("CASCADE"));
    v.push(crate::chars::str_chars("CASE"));
    v.push(crate::chars::str_chars("CHANGE"));
    v.push(crate::chars::str_chars("CHANGED"));
    v.push(crate::chars::str_chars("CHARSET"));
    v.push(crate::chars::str_chars("CHECK"));
    v.push(crate::chars::str_chars("CHECKSUM"));
    v.push(crate::chars::str_chars("COLLATE"));
    v.push(crate::chars::str_chars("COLLATION"));
    v.push(crate::chars::str_chars("COLUMN"));
    v.push(crate::chars::str_chars("COLUMNS"));
    v.push(crate::chars::str_chars("COMMENT"));
    v.push(crate::chars::str_chars("COMMIT"));
    v.push(crate::chars::str_chars("COMMITTED"));
    v.push(crate::chars::str_chars("COMPRESSED"));
    v.push(crate::chars::str_chars("CONCURRENT"));
    v.push(crate::chars::str_chars("CONSTRAINT"));
    v.push(crate::chars::str_chars("CONTAINS"));
    v.push(crate::chars::str_chars("CONVERT"));
    v.push(crate::chars::str_chars("CREATE"));
    v.push(crate::chars::str_chars("CROSS"));
    v.push(crate::chars::str_chars("CURRENT_TIMESTAMP"));
    v.push(crate::chars::str_chars("DATABASE"));
    v.push(crate::chars::str_chars("DATABASES"));
    v.push(crate::chars::str_chars("DAY"));
    v.push(crate::chars::str_chars("DAY_HOUR"));
    v.push(crate::chars::str_chars("DAY_MINUTE"));
    v.push(crate::chars::str_chars("DAY_SECOND"));
    proof {
        assert(v.deep_view() =~~= plain_one_word_table_0());
    }
    v
}

/// One alphabetical stretch of the single-word reserved phrases.
pub open spec fn plain_one_word_table_1() -> Seq<Seq<char>> {
    seq!["DEFAULT"@, "DEFINER"@, "DELAYED"@, "DELETE"@, "DESC"@, "DESCRIBE"@, "DETERMINISTIC"@, "DISTINCT"@, "DISTINCTROW"@, "DIV"@, "DO"@, "DROP"@, "DUMPFILE"@, "DUPLICATE"@, "DYNAMIC"@, "ELSE"@, "ENCLOSED"@, "END"@, "ENGINE"@, "ENGINES"@, "ENGINE_TYPE"@, "ESCAPE"@, "ESCAPED"@, "EVENTS"@, "EXEC"@, "EXECUTE"@, "EXISTS"@, "EXPLAIN"@, "EXTENDED"@, "FAST"@, "FETCH"@, "FIELDS"@, "FILE"@, "FIRST"@, "FIXED"@, "FLUSH"@, "FOR"@, "FORCE"@, "FOREIGN"@, "FULL"@, "FULLTEXT"@, "FUNCTION"@, "GLOBAL"@, "GRANT"@, "GRANTS"@]
}

fn plain_one_word_phrases_1() -> (r: Vec<Vec<char>>)
    ensures
        r.deep_view() == plain_one_word_table_1(),
{
    let mut v: Vec<Vec<char>> = Vec::new();
    v.push(crate::chars::str_chars("DEFAULT"));
    v.push(crate::chars::str_chars("DEFINER"));
    v.push(crate::chars::str_chars("DELAYED"));
    v.push(crate::chars::str_chars("DELETE"));
    v.push(crate::chars::str_chars("DESC"));
    v.push(crate::chars::str_chars("DESCRIBE"));
    v.push(crate::chars::str_chars("DETERMINISTIC"));
    v.push(crate::chars::str_chars("DISTINCT"));
    v.push(crate::chars::str_chars("DISTINCTROW"));
    v.push(crate::chars::str_chars("DIV"));
    v.push(crate::chars::str_chars("DO"));
    v.push(crate::chars::str_chars("DROP"));
    v.push(crate::chars::str_chars("DUMPFILE"));
    v.push(crate::chars::str_chars("DUPLICATE"));
    v.push(crate::chars::str_chars("DYNAMIC"));
    v.push(crate::chars::str_chars("ELSE"));
    v.push(crate::chars::str_chars("ENCLOSED"));
    v.push(crate::chars::str_chars("END"));
    v.push(crate::chars::str_chars("ENGINE"));
    v.push(crate::chars::str_chars("ENGINES"));
    v.push(crate::chars::str_chars("ENGINE_TYPE"));
    v.push(crate::chars::str_chars("ESCAPE"));
    v.push(crate::chars::str_chars("ESCAPED"));
    v.push(crate::chars::str_chars("EVENTS"));
    v.push(crate::chars::str_chars("EXEC"));
    v.push(crate::chars::str_chars("EXECUTE"));
    v.push(crate::chars::str_chars("EXISTS"));
    v.push(crate::chars::str_chars("EXPLAIN"));
    v.push(crate::chars::str_chars("EXTENDED"));
    v.push(crate::chars::str_chars("FAST"));
    v.push(crate::chars::str_chars("FETCH"));
    v.push(crate::chars::str_chars("FIELDS"));
    v.push(crate::chars::str_chars("FILE"));
    v.push(crate::chars::str_chars("FIRST"));
    v.push(crate::chars::str_chars("FIXED"));
    v.push(crate::chars::str_chars("FLUSH"));
    v.push(crate::chars::str_chars("FOR"));
    v.push(crate::chars::str_chars("FORCE"));
    v.push(crate::chars::str_chars("FOREIGN"));
    v.push(crate::chars::str_chars("FULL"));
    v.push(crate::chars::str_chars("FULLTEXT"));
    v.push(crate::chars::str_chars("FUNCTION"));
    v.push(crate::chars::str_chars("GLOBAL"));
    v.push(crate::chars::str_chars("GRANT"));
    v.push(crate::chars::str_chars("GRANTS"));
    proof {
        assert(v.deep_view() =~~= plain_one_word_table_1());
    }
    v
}

/// One alphabetical stretch of the single-word reserved phrases.
pub open spec fn plain_one_word_table_2() -> Seq<Seq<char>> {
    seq!["GROUP_CONCAT"@, "HEAP"@, "HIGH_PRIORITY"@, "HOSTS"@, "HOUR"@, "HOUR_MINUTE"@, "HOUR_SECOND"@, "IDENTIFIED"@, "IF"@, "IFNULL"@, "IGNORE"@, "IN"@, "INDEX"@, "INDEXES"@, "INFILE"@, "INSERT"@, "INSERT_ID"@, "INSERT_METHOD"@, "INTERVAL"@, "INTO"@, "INVOKER"@, "IS"@, "ISOLATION"@, "KEY"@, "KEYS"@, "KILL"@, "LAST_INSERT_ID"@, "LEADING"@, "LEVEL"@, "LIKE"@, "LINEAR"@, "LINES"@, "LOAD"@, "LOCAL"@, "LOCK"@, "LOCKS"@, "LOGS"@, "LOW_PRIORITY"@, "MARIA"@, "MASTER"@, "MASTER_CONNECT_RETRY"@, "MASTER_HOST"@, "MASTER_LOG_FILE"@, "MATCH"@, "MAX_CONNECTIONS_PER_HOUR"@]
}

fn plain_one_word_phrases_2() -> (r: Vec<Vec<char>>)
    ensures
        r.deep_view() == plain_one_word_table_2(),
{
    let mut v: Vec<Vec<char>> = Vec::new();
    v.push(crate::chars::str_chars("GROUP_CONCAT"));
    v.push(crate::chars::str_chars("HEAP"));
    v.push(crate::chars::str_chars("HIGH_PRIORITY"));
    v.push(crate::chars::str_chars("HOSTS"));
    v.push(crate::chars::str_chars("HOUR"));
    v.push(crate::chars::str_chars("HOUR_MINUTE"));
    v.push(crate::chars::str_chars("HOUR_SECOND"));
    v.push(crate::chars::str_chars("IDENTIFIED"));
    v.push(crate::chars::str_chars("IF"));
    v.push(crate::chars::str_chars("IFNULL"));
    v.push(crate::chars::str_chars("IGNORE"));
    v.push(crate::chars::str_chars("IN"));
    v.push(crate::chars::str_chars("INDEX"));
    v.push(crate::chars::str_chars("INDEXES"));
    v.push(crate::chars::str_chars("INFILE"));
    v.push(crate::chars::str_chars("INSERT"));
    v.push(crate::chars::str_chars("INSERT_ID"));
    v.push(crate::chars::str_chars("INSERT_METHOD"));
    v.push(crate::chars::str_chars("INTERVAL"));
    v.push(crate::chars::str_chars("INTO"));
    v.push(crate::chars::str_chars("INVOKER"));
    v.push(crate::chars::str_chars("IS"));
    v.push(crate::chars::str_chars("ISOLATION"));
    v.push(crate::chars::str_chars("KEY"));
    v.push(crate::chars::str_chars("KEYS"));
    v.push(crate::chars::str_chars("KILL"));
    v.push(crate::chars::str_chars("LAST_INSERT_ID"));
    v.push(crate::chars::str_chars("LEADING"));
    v.push(crate::chars::str_chars("LEVEL"));
    v.push(crate::chars::str_chars("LIKE"));
    v.push(crate::chars::str_chars("LINEAR"));
    v.push(crate::chars::str_chars("LINES"));
    v.push(crate::chars::str_chars("LOAD"));
    v.push(crate::chars::str_chars("LOCAL"));
    v.push(crate::chars::str_chars("LOCK"));
    v.push(crate::chars::str_chars("LOCKS"));
    v.push(crate::chars::str_chars("LOGS"));
    v.push(crate::chars::str_chars("LOW_PRIORITY"));
    v.push(crate::chars::str_chars("MARIA"));
    v.push(crate::chars::str_chars("MASTER"));
    v.push(crate::chars::str_chars("MASTER_CONNECT_RETRY"));
    v.push(crate::chars::str_chars("MASTER_HOST"));
    v.push(crate::chars::str_chars("MASTER_LOG_FILE"));
    v.push(crate::chars::str_chars("MATCH"));
    v.push(crate::chars::str_chars("MAX_CONNECTIONS_PER_HOUR"));
    proof {
        assert(v.deep_view() =~~= plain_one_word_table_2());
    }
    v
}

/// One alphabetical stretch of the single-word reserved phrases.
pub open spec fn plain_one_word_table_3() -> Seq<Seq<char>> {
    seq!["MAX_QUERIES_PER_HOUR"@, "MAX_ROWS"@, "MAX_UPDATES_PER_HOUR"@, "MAX_USER_CONNECTIONS"@, "MEDIUM"@, "MERGE"@, "MINUTE"@, "MINUTE_SECOND"@, "MIN_ROWS"@, "MODE"@, "MODIFY"@, "MONTH"@, "MRG_MYISAM"@, "MYISAM"@, "NAMES"@, "NATURAL"@, "NOT"@, "NOW()"@, "NULL"@, "OFFSET"@, "ON"@, "ONLY"@, "OPEN"@, "OPTIMIZE"@, "OPTION"@, "OPTIONALLY"@, "OUTFILE"@, "PACK_KEYS"@, "PAGE"@, "PARTIAL"@, "PARTITION"@, "PARTITIONS"@, "PASSWORD"@, "PRIMARY"@, "PRIVILEGES"@, "PROCEDURE"@, "PROCESS"@, "PROCESSLIST"@, "PURGE"@, "QUICK"@, "RAID0"@, "RAID_CHUNKS"@, "RAID_CHUNKSIZE"@, "RAID_TYPE"@, "RANGE"@]
}

fn plain_one_word_phrases_3() -> (r: Vec<Vec<char>>)
    ensures
        r.deep_view() == plain_one_word_table_3(),
{
    let mut v: Vec<Vec<char>> = Vec::new();
    v.push(crate::chars::str_chars("MAX_QUERIES_PER_HOUR"));
    v.push(crate::chars::str_chars("MAX_ROWS"));
    v.push(crate::chars::str_chars("MAX_UPDATES_PER_HOUR"));
    v.push(crate::chars::str_chars("MAX_USER_CONNECTIONS"));
    v.push(crate::chars::str_chars("MEDIUM"));
    v.push(crate::chars::str_chars("MERGE"));
    v.push(crate::chars::str_chars("MINUTE"));
    v.push(crate::chars::str_chars("MINUTE_SECOND"));
    v.push(crate::chars::str_chars("MIN_ROWS"));
    v.push(crate::chars::str_chars("MODE"));
    v.push(crate::chars::str_chars("MODIFY"));
    v.push(crate::chars::str_chars("MONTH"));
    v.push(crate::chars::str_chars("MRG_MYISAM"));
    v.push(crate::chars::str_chars("MYISAM"));
    v.push(crate::chars::str_chars("NAMES"));
    v.push(crate::chars::str_chars("NATURAL"));
    v.push(crate::chars::str_chars("NOT"));
    v.push(crate::chars::str_chars("NOW()"));
    v.push(crate::chars::str_chars("NULL"));
    v.push(crate::chars::str_chars("OFFSET"));
    v.push(crate::chars::str_chars("ON"));
    v.push(crate::chars::str_chars("ONLY"));
    v.push(crate::chars::str_chars("OPEN"));
    v.push(crate::chars::str_chars("OPTIMIZE"));
    v.push(crate::chars::str_chars("OPTION"));
    v.push(crate::chars::str_chars("OPTIONALLY"));
    v.push(crate::chars::str_chars("OUTFILE"));
    v.push(crate::chars::str_chars("PACK_KEYS"));
    v.push(crate::chars::str_chars("PAGE"));
    v.push(crate::chars::str_chars("PARTIAL"));
    v.push(crate::chars::str_chars("PARTITION"));
    v.push(crate::chars::str_chars("PARTITIONS"));
    v.push(crate::chars::str_chars("PASSWORD"));
    v.push(crate::chars::str_chars("PRIMARY"));
    v.push(crate::chars::str_chars("PRIVILEGES"));
    v.push(crate::chars::str_chars("PROCEDURE"));
    v.push(crate::chars::str_chars("PROCESS"));
    v.push(crate::chars::str_chars("PROCESSLIST"));
    v.push(crate::chars::str_chars("PURGE"));
    v.push(crate::chars::str_chars("QUICK"));
    v.push(crate::chars::str_chars("RAID0"));
    v.push(crate::chars::str_chars("RAID_CHUNKS"));
    v.push(crate::chars::str_chars("RAID_CHUNKSIZE"));
    v.push(crate::chars::str_chars("RAID_TYPE"));
    v.push(crate::chars::str_chars("RANGE"));
    proof {
        assert(v.deep_view() =~~= plain_one_word_table_3());
    }
    v
}

/// One alphabetical stretch of the single-word reserved phrases.
pub open spec fn plain_one_word_table_4() -> Seq<Seq<char>> {
    seq!["READ"@, "READ_ONLY"@, "READ_WRITE"@, "REFERENCES"@, "REGEXP"@, "RELOAD"@, "RENAME"@, "REPAIR"@, "REPEATABLE"@, "REPLACE"@, "REPLICATION"@, "RESET"@, "RESTORE"@, "RESTRICT"@, "RETURN"@, "RETURNS"@, "REVOKE"@, "RLIKE"@, "ROLLBACK"@, "ROW"@, "ROWS"@, "ROW_FORMAT"@, "SECOND"@, "SECURITY"@, "SEPARATOR"@, "SERIALIZABLE"@, "SESSION"@, "SHARE"@, "SHOW"@, "SHUTDOWN"@, "SLAVE"@, "SONAME"@, "SOUNDS"@, "SQL"@, "SQL_AUTO_IS_NULL"@, "SQL_BIG_RESULT"@, "SQL_BIG_SELECTS"@, "SQL_BIG_TABLES"@, "SQL_BUFFER_RESULT"@, "SQL_CACHE"@, "SQL_CALC_FOUND_ROWS"@, "SQL_LOG_BIN"@, "SQL_LOG_OFF"@, "SQL_LOG_UPDATE"@, "SQL_LOW_PRIORITY_UPDATES"@]
}

fn plain_one_word_phrases_4() -> (r: Vec<Vec<char>>)
    ensures
        r.deep_view() == plain_one_word_table_4(),
{
    let mut v: Vec<Vec<char>> = Vec::new();
    v.push(crate::chars::str_chars("READ"));
    v.push(crate::chars::str_chars("READ_ONLY"));
    v.push(crate::chars::str_chars("READ_WRITE"));
    v.push(crate::chars::str_chars("REFERENCES"));
    v.push(crate::chars::str_chars("REGEXP"));
    v.push(crate::chars::str_chars("RELOAD"));
    v.push(crate::chars::str_chars("RENAME"));
    v.push(crate::chars::str_chars("REPAIR"));
    v.push(crate::chars::str_chars("REPEATABLE"));
    v.push(crate::chars::str_chars("REPLACE"));
    v.push(crate::chars::str_chars("REPLICATION"));
    v.push(crate::chars::str_chars("RESET"));
    v.push(crate::chars::str_chars("RESTORE"));
    v.push(crate::chars::str_chars("RESTRICT"));
    v.push(crate::chars::str_chars("RETURN"));
    v.push(crate::chars::str_chars("RETURNS"));
    v.push(crate::chars::str_chars("REVOKE"));
    v.push(crate::chars::str_chars("RLIKE"));
    v.push(crate::chars::str_chars("ROLLBACK"));
    v.push(crate::chars::str_chars("ROW"));
    v.push(crate::chars::str_chars("ROWS"));
    v.push(crate::chars::str_chars("ROW_FORMAT"));
    v.push(crate::chars::str_chars("SECOND"));
    v.push(crate::chars::str_chars("SECURITY"));
    v.push(crate::chars::str_chars("SEPARATOR"));
    v.push(crate::chars::str_chars("SERIALIZABLE"));
    v.push(crate::chars::str_chars("SESSION"));
    v.push(crate::chars::str_chars("SHARE"));
    v.push(crate::chars::str_chars("SHOW"));
    v.push(crate::chars::str_chars("SHUTDOWN"));
    v.push(crate::chars::str_chars("SLAVE"));
    v.push(crate::chars::str_chars("SONAME"));
    v.push(crate::chars::str_chars("SOUNDS"));
    v.push(crate::chars::str_chars("SQL"));
    v.push(crate::chars::str_chars("SQL_AUTO_IS_NULL"));
    v.push(crate::chars::str_chars("SQL_BIG_RESULT"));
    v.push(crate::chars::str_chars("SQL_BIG_SELECTS"));
    v.push(crate::chars::str_chars("SQL_BIG_TABLES"));
    v.push(crate::chars::str_chars("SQL_BUFFER_RESULT"));
    v.push(crate::chars::str_chars("SQL_CACHE"));
    v.push(crate::chars::str_chars("SQL_CALC_FOUND_ROWS"));
    v.push(crate::chars::str_chars("SQL_LOG_BIN"));
    v.push(crate::chars::str_chars("SQL_LOG_OFF"));
    v.push(crate::chars::str_chars("SQL_LOG_UPDATE"));
    v.push(crate::chars::str_chars("SQL_LOW_PRIORITY_UPDATES"));
    proof {
        assert(v.deep_view() =~~= plain_one_word_table_4());
    }
    v
}

/// One alphabetical stretch of the single-word reserved phrases.
pub open spec fn plain_one_word_table_5() -> Seq<Seq<char>> {
    seq!["SQL_MAX_JOIN_SIZE"@, "SQL_NO_CACHE"@, "SQL_QUOTE_SHOW_CREATE"@, "SQL_SAFE_UPDATES"@, "SQL_SELECT_LIMIT"@, "SQL_SLAVE_SKIP_COUNTER"@, "SQL_SMALL_RESULT"@, "SQL_WARNINGS"@, "START"@, "STARTING"@, "STATUS"@, "STOP"@, "STORAGE"@, "STRAIGHT_JOIN"@, "STRING"@, "STRIPED"@, "SUPER"@, "TABLE"@, "TABLES"@, "TEMPORARY"@, "TERMINATED"@, "THEN"@, "TO"@, "TRAILING"@, "TRANSACTIONAL"@, "TRUE"@, "TRUNCATE"@, "TYPE"@, "TYPES"@, "UNCOMMITTED"@, "UNIQUE"@, "UNLOCK"@, "UNSIGNED"@, "USAGE"@, "USE"@, "USING"@, "VARIABLES"@, "VIEW"@, "WHEN"@, "WORK"@, "WRITE"@, "YEAR_MONTH"@]
}

fn plain_one_word_phrases_5() -> (r: Vec<Vec<char>>)
    ensures
        r.deep_view() == plain_one_word_table_5(),
{
    let mut v: Vec<Vec<char>> = Vec::new();
    v.push(crate::chars::str_chars("SQL_MAX_JOIN_SIZE"));
    v.push(crate::chars::str_chars("SQL_NO_CACHE"));
    v.push(crate::chars::str_chars("SQL_QUOTE_SHOW_CREATE"));
    v.push(crate::chars::str_chars("SQL_SAFE_UPDATES"));
    v.push(crate::chars::str_chars("SQL_SELECT_LIMIT"));
    v.push(crate::chars::str_chars("SQL_SLAVE_SKIP_COUNTER"));
    v.push(crate::chars::str_chars("SQL_SMALL_RESULT"));
    v.push(crate::chars::str_chars("SQL_WARNINGS"));
    v.push(crate::chars::str_chars("START"));
    v.push(crate::chars::str_chars("STARTING"));
    v.push(crate::chars::str_chars("STATUS"));
    v.push(crate::chars::str_chars("STOP"));
    v.push(crate::chars::str_chars("STORAGE"));
    v.push(crate::chars::str_chars("STRAIGHT_JOIN"));
    v.push(crate::chars::str_chars("STRING"));
    v.push(crate::chars::str_chars("STRIPED"));
    v.push(crate::chars::str_chars("SUPER"));
    v.push(crate::chars::str_chars("TABLE"));
    v.push(crate::chars::str_chars("TABLES"));
    v.push(crate::chars::str_chars("TEMPORARY"));
    v.push(crate::chars::str_chars("TERMINATED"));
    v.push(crate::chars::str_chars("THEN"));
    v.push(crate::chars::str_chars("TO"));
    v.push(crate::chars::str_chars("TRAILING"));
    v.push(crate::chars::str_chars("TRANSACTIONAL"));
    v.push(crate::chars::str_chars("TRUE"));
    v.push(crate::chars::str_chars("TRUNCATE"));
    v.push(crate::chars::str_chars("TYPE"));
    v.push(crate::chars::str_chars("TYPES"));
    v.push(crate::chars::str_chars("UNCOMMITTED"));
    v.push(crate::chars::str_chars("UNIQUE"));
    v.push(crate::chars::str_chars("UNLOCK"));
    v.push(crate::chars::str_chars("UNSIGNED"));
    v.push(crate::chars::str_chars("USAGE"));
    v.push(crate::chars::str_chars("USE"));
    v.push(crate::chars::str_chars("USING"));
    v.push(crate::chars::str_chars("VARIABLES"));
    v.push(crate::chars::str_chars("VIEW"));
    v.push(crate::chars::str_chars("WHEN"));
    v.push(crate::chars::str_chars("WORK"));
    v.push(crate::chars::str_chars("WRITE"));
    v.push(crate::chars::str_chars("YEAR_MONTH"));
    proof {
        assert(v.deep_view() =~~= plain_one_word_table_5());
    }
    v
}

/// Single-word reserved words rendered inline.
pub fn plain_one_word_phrases() -> (r: Vec<Vec<char>>)
    ensures
        r.deep_view() == plain_one_word_table(),
{
    let mut v = plain_one_word_phrases_0();
    let mut part_1 = plain_one_word_phrases_1();
    v.append(&mut part_1);
    let mut part_2 = plain_one_word_phrases_2();
    v.append(&mut part_2);
    let mut part_3 = plain_one_word_phrases_3();
    v.append(&mut part_3);
    let mut part_4 = plain_one_word_phrases_4();
    v.append(&mut part_4);
    let mut part_5 = plain_one_word_phrases_5();
    v.append(&mut part_5);
    proof {
        assert(v.deep_view() =~~= plain_one_word_table());
    }
    v
}

} // verus!
