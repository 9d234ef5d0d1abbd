//! Result handling for statements run through the SQLx MySQL pool: how each
//! column of a result row becomes a JSON member, the report line of a
//! statement, the pool address, and which statements count as row-history
//! updates.

use vstd::prelude::*;
use crate::utils::json::{JsonCell, JsonCellView, JsonObject, text_cell, text_or_null};
use crate::utils::text::{
    contains, contains_text, decimal, decimal_value, has_prefix, law_decimal_reads_back, law_has_prefix_is_prefix_of, law_contains_five, lowercase, same_text, starts_with,
    to_lowercase, u64_to_decimal,
};

verus! {

/// A point in time in UTC: whole seconds since the Unix epoch and the
/// nanoseconds past that second.
pub struct UtcTimestamp {
    pub secs: i64,
    pub nanos: u32,
}

/// What `chrono` renders for a UTC instant with a strftime pattern, or `None`
/// where `DateTime::from_timestamp` refuses the seconds and nanoseconds.
pub uninterp spec fn utc_text(secs: int, nanos: int, pattern: Seq<char>) -> Option<Seq<char>>;

/// Calls `chrono::DateTime::<Utc>::from_timestamp` on the seconds and
/// nanoseconds and renders the instant with `format(pattern)`. Claimed: the
/// result is `utc_text` of the three arguments, which depends on them alone.
/// The pattern must be the date-time pattern of this library: rendering an
/// ill-formed pattern panics.
#[verifier::external_body]
pub(crate) fn format_utc(secs: i64, nanos: u32, pattern: &str) -> (r: Option<String>)
    requires
        pattern@ == datetime_pattern(),
    ensures
        match r {
            Some(s) => utc_text(secs as int, nanos as int, pattern@) == Some(s@),
            None => utc_text(secs as int, nanos as int, pattern@) is None,
        },
{
    match chrono::DateTime::from_timestamp(secs, nanos) {
        Some(dt) => Some(dt.format(pattern).to_string()),
        None => None,
    }
}

/// The pattern of rendered date-times: `YYYY-MM-DD HH:MM:SS`.
pub open spec fn datetime_pattern() -> Seq<char> {
    "%Y-%m-%d %H:%M:%S"@
}

/// The rendering of a UTC instant as `YYYY-MM-DD HH:MM:SS`.
pub open spec fn timestamp_text(secs: int, nanos: int) -> Option<Seq<char>> {
    utc_text(secs, nanos, datetime_pattern())
}

/// Renders a UTC instant as `YYYY-MM-DD HH:MM:SS`.
pub fn format_timestamp(t: &UtcTimestamp) -> (r: Option<String>)
    ensures
        match r {
            Some(s) => timestamp_text(t.secs as int, t.nanos as int) == Some(s@),
            None => timestamp_text(t.secs as int, t.nanos as int) is None,
        },
{
    format_utc(t.secs, t.nanos, "%Y-%m-%d %H:%M:%S")
}

/// One column of a result row: its name, the name of its SQL type, and what
/// the row yields when the column is read as each of the Rust types that the
/// conversion may ask for (`None` where that read fails or the value is NULL).
pub struct SqlColumn {
    pub name: String,
    pub sql_type: String,
    pub as_i32: Option<i32>,
    /// The value read as `f32`, as its IEEE-754 bit pattern.
    pub as_f32_bits: Option<u32>,
    pub as_string: Option<String>,
    /// The value read as a JSON document, rendered back to JSON text.
    pub as_json_text: Option<String>,
    pub as_bool: Option<bool>,
    pub as_datetime: Option<UtcTimestamp>,
}

/// One result row.
pub struct SqlRow {
    pub columns: Vec<SqlColumn>,
}

/// How a column's SQL type is read.
#[derive(PartialEq, Eq, Structural)]
pub enum ColumnKind {
    Integer,
    Float,
    Text,
    Json,
    Boolean,
    DateTime,
    Other,
}

/// The reading that a SQL type name selects.
pub open spec fn kind_of(sql_type: Seq<char>) -> ColumnKind {
    if sql_type == "INT"@ || sql_type == "BIGINT"@ || sql_type == "SMALLINT"@ || sql_type
        == "TINYINT"@ {
        ColumnKind::Integer
    } else if sql_type == "FLOAT"@ {
        ColumnKind::Float
    } else if sql_type == "VARCHAR"@ || sql_type == "TEXT"@ || sql_type == "CHAR"@ {
        ColumnKind::Text
    } else if sql_type == "JSON"@ {
        ColumnKind::Json
    } else if sql_type == "BOOLEAN"@ {
        ColumnKind::Boolean
    } else if sql_type == "DATETIME"@ || sql_type == "TIMESTAMP"@ {
        ColumnKind::DateTime
    } else {
        ColumnKind::Other
    }
}

/// The text of an optional string.
pub open spec fn opt_text(o: Option<String>) -> Option<Seq<char>> {
    match o {
        Some(s) => Some(s@),
        None => None,
    }
}

/// The JSON member that a column becomes: integers, floats and booleans as
/// such, text and JSON documents as strings, date-times as their
/// `YYYY-MM-DD HH:MM:SS` rendering (falling back to the column read as text),
/// any other type as text; `null` where the reading fails.
pub open spec fn column_cell(c: SqlColumn) -> JsonCellView {
    match kind_of(c.sql_type@) {
        ColumnKind::Integer => match c.as_i32 {
            Some(n) => JsonCellView::Int(n as int),
            None => JsonCellView::Null,
        },
        ColumnKind::Float => match c.as_f32_bits {
            Some(b) => JsonCellView::Float(b),
            None => JsonCellView::Null,
        },
        ColumnKind::Json => text_or_null(opt_text(c.as_json_text)),
        ColumnKind::Boolean => match c.as_bool {
            Some(b) => JsonCellView::Bool(b),
            None => JsonCellView::Null,
        },
        ColumnKind::DateTime => match c.as_datetime {
            Some(t) => match timestamp_text(t.secs as int, t.nanos as int) {
                Some(s) => JsonCellView::Text(s),
                None => text_or_null(opt_text(c.as_string)),
            },
            None => text_or_null(opt_text(c.as_string)),
        },
        _ => text_or_null(opt_text(c.as_string)),
    }
}

/// The object that a row becomes: one member per column, named after it.
pub open spec fn row_object(row: SqlRow) -> Seq<(Seq<char>, JsonCellView)> {
    row.columns@.map_values(|c: SqlColumn| (c.name@, column_cell(c)))
}

/// The reading that a SQL type name selects.
pub fn column_kind(sql_type: &String) -> (k: ColumnKind)
    ensures
        k == kind_of(sql_type@),
{
    if same_text(sql_type, "INT") || same_text(sql_type, "BIGINT") || same_text(
        sql_type,
        "SMALLINT",
    ) || same_text(sql_type, "TINYINT") {
        ColumnKind::Integer
    } else if same_text(sql_type, "FLOAT") {
        ColumnKind::Float
    } else if same_text(sql_type, "VARCHAR") || same_text(sql_type, "TEXT") || same_text(
        sql_type,
        "CHAR",
    ) {
        ColumnKind::Text
    } else if same_text(sql_type, "JSON") {
        ColumnKind::Json
    } else if same_text(sql_type, "BOOLEAN") {
        ColumnKind::Boolean
    } else if same_text(sql_type, "DATETIME") || same_text(sql_type, "TIMESTAMP") {
        ColumnKind::DateTime
    } else {
        ColumnKind::Other
    }
}

fn clone_opt_text(o: &Option<String>) -> (r: Option<String>)
    ensures
        opt_text(r) == opt_text(*o),
{
    match o {
        Some(s) => Some(s.clone()),
        None => None,
    }
}

/// The member of a date-time column: its rendering where there is one,
/// otherwise the column read as text, otherwise `null`.
pub fn datetime_cell(rendered: Option<String>, as_string: &Option<String>) -> (r: JsonCell)
    ensures
        r@ == (match rendered {
            Some(s) => JsonCellView::Text(s@),
            None => text_or_null(opt_text(*as_string)),
        }),
{
    match rendered {
        Some(s) => JsonCell::Text(s),
        None => text_cell(clone_opt_text(as_string)),
    }
}

/// The member that a column becomes, by the column's SQL type: a BOOLEAN
/// column gives the boolean read from the row, an integer column the integer,
/// a FLOAT column the float, a JSON column the document's text, a DATETIME or
/// TIMESTAMP column its `YYYY-MM-DD HH:MM:SS` rendering (else the column read
/// as text), any other column the column read as text; `null` where that read
/// fails.
pub proof fn law_column_member(c: SqlColumn)
    ensures
        c.sql_type@ == "BOOLEAN"@ ==> column_cell(c) == (match c.as_bool {
            Some(b) => JsonCellView::Bool(b),
            None => JsonCellView::Null,
        }),
        c.sql_type@ == "INT"@ || c.sql_type@ == "BIGINT"@ || c.sql_type@ == "SMALLINT"@
            || c.sql_type@ == "TINYINT"@ ==> column_cell(c) == (match c.as_i32 {
            Some(n) => JsonCellView::Int(n as int),
            None => JsonCellView::Null,
        }),
        c.sql_type@ == "FLOAT"@ ==> column_cell(c) == (match c.as_f32_bits {
            Some(bits) => JsonCellView::Float(bits),
            None => JsonCellView::Null,
        }),
        c.sql_type@ == "JSON"@ ==> column_cell(c) == (match c.as_json_text {
            Some(t) => JsonCellView::Text(t@),
            None => JsonCellView::Null,
        }),
        c.sql_type@ == "DATETIME"@ || c.sql_type@ == "TIMESTAMP"@ ==> column_cell(c) == (match c.as_datetime {
            Some(t) => match utc_text(t.secs as int, t.nanos as int, "%Y-%m-%d %H:%M:%S"@) {
                Some(rendered) => JsonCellView::Text(rendered),
                None => match c.as_string {
                    Some(t) => JsonCellView::Text(t@),
                    None => JsonCellView::Null,
                },
            },
            None => match c.as_string {
                Some(t) => JsonCellView::Text(t@),
                None => JsonCellView::Null,
            },
        }),
        !(c.sql_type@ == "BOOLEAN"@ || c.sql_type@ == "INT"@ || c.sql_type@ == "BIGINT"@
            || c.sql_type@ == "SMALLINT"@ || c.sql_type@ == "TINYINT"@ || c.sql_type@ == "FLOAT"@
            || c.sql_type@ == "JSON"@ || c.sql_type@ == "DATETIME"@ || c.sql_type@ == "TIMESTAMP"@)
            ==> column_cell(c) == (match c.as_string {
            Some(t) => JsonCellView::Text(t@),
            None => JsonCellView::Null,
        }),
{
    reveal_strlit("INT");
    reveal_strlit("BIGINT");
    reveal_strlit("SMALLINT");
    reveal_strlit("TINYINT");
    reveal_strlit("FLOAT");
    reveal_strlit("VARCHAR");
    reveal_strlit("TEXT");
    reveal_strlit("CHAR");
    reveal_strlit("JSON");
    reveal_strlit("BOOLEAN");
    reveal_strlit("DATETIME");
    reveal_strlit("TIMESTAMP");
    assert("INT"@.len() == 3 && "BIGINT"@.len() == 6 && "SMALLINT"@.len() == 8
        && "TINYINT"@.len() == 7 && "FLOAT"@.len() == 5 && "VARCHAR"@.len() == 7
        && "TEXT"@.len() == 4 && "CHAR"@.len() == 4 && "JSON"@.len() == 4
        && "BOOLEAN"@.len() == 7 && "DATETIME"@.len() == 8 && "TIMESTAMP"@.len() == 9);
    assert("SMALLINT"@[0] == 'S' && "DATETIME"@[0] == 'D' && "TINYINT"@[0] == 'T'
        && "VARCHAR"@[0] == 'V' && "BOOLEAN"@[0] == 'B' && "TEXT"@[0] == 'T'
        && "CHAR"@[0] == 'C' && "JSON"@[0] == 'J');
    if c.sql_type@ == "BOOLEAN"@ {
        assert(kind_of(c.sql_type@) == ColumnKind::Boolean);
    }
    if c.sql_type@ == "FLOAT"@ {
        assert(kind_of(c.sql_type@) == ColumnKind::Float);
    }
    if c.sql_type@ == "JSON"@ {
        assert(kind_of(c.sql_type@) == ColumnKind::Json);
    }
    if c.sql_type@ == "DATETIME"@ || c.sql_type@ == "TIMESTAMP"@ {
        assert(kind_of(c.sql_type@) == ColumnKind::DateTime);
    }
}

/// The JSON member that one column becomes.
pub fn column_to_json(c: &SqlColumn) -> (r: JsonCell)
    ensures
        r@ == column_cell(*c),
        c.sql_type@ == "BOOLEAN"@ ==> r@ == (match c.as_bool {
            Some(b) => JsonCellView::Bool(b),
            None => JsonCellView::Null,
        }),
        c.sql_type@ == "INT"@ || c.sql_type@ == "BIGINT"@ || c.sql_type@ == "SMALLINT"@
            || c.sql_type@ == "TINYINT"@ ==> r@ == (match c.as_i32 {
            Some(n) => JsonCellView::Int(n as int),
            None => JsonCellView::Null,
        }),
        c.sql_type@ == "FLOAT"@ ==> r@ == (match c.as_f32_bits {
            Some(bits) => JsonCellView::Float(bits),
            None => JsonCellView::Null,
        }),
        c.sql_type@ == "JSON"@ ==> r@ == (match c.as_json_text {
            Some(t) => JsonCellView::Text(t@),
            None => JsonCellView::Null,
        }),
        c.sql_type@ == "DATETIME"@ || c.sql_type@ == "TIMESTAMP"@ ==> r@ == (match c.as_datetime {
            Some(t) => match utc_text(t.secs as int, t.nanos as int, "%Y-%m-%d %H:%M:%S"@) {
                Some(rendered) => JsonCellView::Text(rendered),
                None => match c.as_string {
                    Some(t) => JsonCellView::Text(t@),
                    None => JsonCellView::Null,
                },
            },
            None => match c.as_string {
                Some(t) => JsonCellView::Text(t@),
                None => JsonCellView::Null,
            },
        }),
        !(c.sql_type@ == "BOOLEAN"@ || c.sql_type@ == "INT"@ || c.sql_type@ == "BIGINT"@
            || c.sql_type@ == "SMALLINT"@ || c.sql_type@ == "TINYINT"@ || c.sql_type@ == "FLOAT"@
            || c.sql_type@ == "JSON"@ || c.sql_type@ == "DATETIME"@ || c.sql_type@ == "TIMESTAMP"@)
            ==> r@ == (match c.as_string {
            Some(t) => JsonCellView::Text(t@),
            None => JsonCellView::Null,
        }),
{
    proof {
        law_column_member(*c);
    }
    let kind = column_kind(&c.sql_type);
    match kind {
        ColumnKind::Integer => match c.as_i32 {
            Some(n) => JsonCell::Int(n),
            None => JsonCell::Null,
        },
        ColumnKind::Float => match c.as_f32_bits {
            Some(b) => JsonCell::Float(b),
            None => JsonCell::Null,
        },
        ColumnKind::Json => text_cell(clone_opt_text(&c.as_json_text)),
        ColumnKind::Boolean => match c.as_bool {
            Some(b) => JsonCell::Bool(b),
            None => JsonCell::Null,
        },
        ColumnKind::DateTime => {
            let rendered = match &c.as_datetime {
                Some(t) => format_timestamp(t),
                None => None,
            };
            datetime_cell(rendered, &c.as_string)
        },
        _ => text_cell(clone_opt_text(&c.as_string)),
    }
}

/// The object of a row has one member per column, in column order, named
/// exactly as the column and holding the column's member.
pub proof fn law_row_members(row: SqlRow)
    ensures
        row_object(row).len() == row.columns@.len(),
        forall|k: int|
            0 <= k < row.columns@.len() ==> (#[trigger] row_object(row)[k]).0
                == row.columns@[k].name@,
        forall|k: int|
            0 <= k < row.columns@.len() ==> (#[trigger] row_object(row)[k]).1 == column_cell(
                row.columns@[k],
            ),
{
}

/// Converts a result row into a JSON object, one member per column.
pub fn convert_row_to_json(row: &SqlRow) -> (r: JsonObject)
    ensures
        r@ == row_object(*row),
        r@.len() == row.columns@.len(),
        forall|k: int| 0 <= k < row.columns@.len() ==> (#[trigger] r@[k]).0 == row.columns@[k].name@,
        forall|k: int|
            0 <= k < row.columns@.len() ==> (#[trigger] r@[k]).1 == column_cell(row.columns@[k]),
{
    let mut members: Vec<(String, JsonCell)> = Vec::new();
    let n = row.columns.len();
    for i in 0..n
        invariant
            n == row.columns@.len(),
            members@.len() == i,
            forall|k: int|
                0 <= k < i ==> (#[trigger] members@[k]).0@ == row.columns@[k].name@
                    && members@[k].1@ == column_cell(row.columns@[k]),
    {
        let col = &row.columns[i];
        let cell = column_to_json(col);
        members.push((col.name.clone(), cell));
    }
    let r = JsonObject { members };
    proof {
        assert(r@ =~= row_object(*row));
    }
    r
}

/// Converts every result row, in order.
pub fn rows_to_json(rows: &Vec<SqlRow>) -> (r: Vec<JsonObject>)
    ensures
        r@.len() == rows@.len(),
        forall|i: int| 0 <= i < rows@.len() ==> (#[trigger] r@[i])@ == row_object(rows@[i]),
{
    let mut out: Vec<JsonObject> = Vec::new();
    let n = rows.len();
    for i in 0..n
        invariant
            n == rows@.len(),
            out@.len() == i,
            forall|k: int| 0 <= k < i ==> (#[trigger] out@[k])@ == row_object(rows@[k]),
    {
        out.push(convert_row_to_json(&rows[i]));
    }
    out
}

/// The report line of a statement that returned `n` rows.
pub open spec fn rows_report(n: nat) -> Seq<char> {
    "Query OK, "@ + decimal(n) + " rows affected"@
}

/// The report line of a statement names its whole count of rows: between
/// `Query OK, ` and ` rows affected` it holds a run of digits that reads back
/// as the count.
pub proof fn law_rows_report_count(n: nat)
    ensures
        rows_report(n).len() > 24,
        rows_report(n).subrange(0, 10) == "Query OK, "@,
        rows_report(n).subrange(rows_report(n).len() - 14, rows_report(n).len() as int)
            == " rows affected"@,
        decimal_value(rows_report(n).subrange(10, rows_report(n).len() - 14)) == n,
        forall|i: int| 10 <= i < rows_report(n).len() - 14 ==> '0' <= #[trigger] rows_report(n)[i] <= '9',
{
    reveal_strlit("Query OK, ");
    reveal_strlit(" rows affected");
    law_decimal_reads_back(n);
    let r = rows_report(n);
    assert(r.subrange(0, 10) =~= "Query OK, "@);
    assert(r.subrange(r.len() - 14, r.len() as int) =~= " rows affected"@);
    assert(r.subrange(10, r.len() - 14) =~= decimal(n));
    assert forall|i: int| 10 <= i < r.len() - 14 implies '0' <= #[trigger] r[i] <= '9' by {
        assert(r[i] == decimal(n)[i - 10]);
    }
}

/// `Query OK, <n> rows affected`.
pub fn rows_affected_message(n: usize) -> (r: String)
    ensures
        r@ == rows_report(n as nat),
        r@ == "Query OK, "@ + decimal(n as nat) + " rows affected"@,
        r@.len() > 24,
        decimal_value(r@.subrange(10, r@.len() - 14)) == n,
{
    proof {
        law_rows_report_count(n as nat);
    }
    let mut s = String::from_str("Query OK, ");
    let digits = u64_to_decimal(n as u64);
    s.append(digits.as_str());
    s.append(" rows affected");
    s
}

/// A statement counts as a row-history update when, lower-cased, it begins
/// with `update`, and it holds `where` as written.
pub open spec fn row_history_update(query: Seq<char>) -> bool {
    has_prefix(lowercase(query), "update"@) && contains_text(query, "where"@)
}

/// Whether a statement counts as a row-history update, given the statement
/// and its lower-cased text.
pub fn update_with_where(lowered: &str, query: &str) -> (r: bool)
    ensures
        r == (has_prefix(lowered@, "update"@) && contains_text(query@, "where"@)),
{
    starts_with(lowered, "update") && contains(query, "where")
}

/// A statement counts as a row-history update exactly when its lower-cased
/// text begins with `update` and its text as written holds `where`
/// somewhere: a statement that does not begin with `update` never does.
pub proof fn law_row_history_update(query: Seq<char>)
    ensures
        row_history_update(query) == ("update"@.is_prefix_of(lowercase(query)) && exists|i: int|
            0 <= i && i + 5 <= query.len() && #[trigger] query.subrange(i, i + 5) == "where"@),
        !"update"@.is_prefix_of(lowercase(query)) ==> !row_history_update(query),
{
    reveal_strlit("where");
    law_has_prefix_is_prefix_of(lowercase(query), "update"@);
    law_contains_five(query, "where"@);
}

/// Whether a statement is a row-history update (see [`row_history_update`]).
pub fn is_row_history_update(query: &str) -> (r: bool)
    ensures
        r == row_history_update(query@),
        r == ("update"@.is_prefix_of(lowercase(query@)) && contains_text(query@, "where"@)),
{
    proof {
        law_has_prefix_is_prefix_of(lowercase(query@), "update"@);
    }
    let lower = to_lowercase(query);
    update_with_where(lower.as_str(), query)
}

/// The address of the local pool for a database.
pub open spec fn local_pool_url(db_name: Seq<char>) -> Seq<char> {
    "mysql://root:@127.0.0.1:4000/"@ + db_name
}

/// `mysql://root:@127.0.0.1:4000/<db_name>`.
pub fn pool_url(db_name: &str) -> (r: String)
    ensures
        r@ == local_pool_url(db_name@),
{
    let mut s = String::from_str("mysql://root:@127.0.0.1:4000/");
    s.append(db_name);
    s
}

} // verus!
