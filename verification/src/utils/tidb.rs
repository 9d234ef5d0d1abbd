//! Result handling for statements run through the `mysql_async` pool against
//! TiDB: how a result row becomes a JSON object, the report line of a
//! statement, which statements count as row-history updates, and the
//! per-database pool registry.

use vstd::prelude::*;
use crate::utils::json::{JsonCell, JsonCellView, JsonObject};
use crate::utils::pools::ConnectionPools;
use crate::utils::text::{
    contains, contains_text, decimal, decimal_value, from_utf8_lossy, law_decimal_reads_back, law_has_prefix_is_prefix_of, law_contains_five, has_prefix, lowercase, starts_with,
    to_lowercase, u64_to_decimal, utf8_lossy,
};

verus! {

#[verifier::external_type_specification]
#[verifier::external_body]
pub struct ExMysqlError(mysql_async::Error);

#[verifier::external_type_specification]
#[verifier::external_body]
pub struct ExMysqlPool(mysql_async::Pool);

/// Whether `mysql_async::Opts::from_url` accepts a connection address; this
/// depends on the address alone.
pub uninterp spec fn mysql_url_accepted(url: Seq<char>) -> bool;

/// A connection pool together with the address it was made from.
pub struct TidbPool {
    pub pool: mysql_async::Pool,
    pub url: String,
}

/// Calls `mysql_async::Opts::from_url` and reports whether it succeeded.
/// Claimed: the answer is `mysql_url_accepted` of the address.
#[verifier::external_body]
fn url_accepted(url: &str) -> (r: bool)
    ensures
        r == mysql_url_accepted(url@),
{
    mysql_async::Opts::from_url(url).is_ok()
}

/// Calls `mysql_async::Pool::from_url`, which parses the address with
/// `Opts::from_url` and builds a pool from it without connecting, and pairs
/// the pool with that address. Claimed: it succeeds exactly when
/// `mysql_url_accepted` holds of the address, and the address paired with the
/// pool is the one given. Nothing else is stated of the pool.
#[verifier::external_body]
fn pool_from_url(url: &str) -> (r: Result<TidbPool, mysql_async::Error>)
    ensures
        r is Ok == mysql_url_accepted(url@),
        r matches Ok(p) ==> p.url@ == url@,
{
    match mysql_async::Pool::from_url(url) {
        Ok(pool) => Ok(TidbPool { pool, url: url.to_string() }),
        Err(e) => Err(e),
    }
}

/// The connection settings read from the `tidb.*` configuration keys.
pub struct TidbSettings {
    pub username: String,
    pub password: String,
    pub host: String,
    pub port: String,
}

/// The address of the pool for a database.
pub open spec fn tidb_pool_url(settings: TidbSettings, db_name: Seq<char>) -> Seq<char> {
    "mysql://"@ + settings.username@ + ":"@ + settings.password@ + "@"@ + settings.host@ + ":"@
        + settings.port@ + "/"@ + db_name
}

/// `mysql://<username>:<password>@<host>:<port>/<db_name>`.
pub fn pool_url(settings: &TidbSettings, db_name: &str) -> (r: String)
    ensures
        r@ == tidb_pool_url(*settings, db_name@),
{
    let mut s = String::from_str("mysql://");
    s.append(settings.username.as_str());
    s.append(":");
    s.append(settings.password.as_str());
    s.append("@");
    s.append(settings.host.as_str());
    s.append(":");
    s.append(settings.port.as_str());
    s.append("/");
    s.append(db_name);
    s
}

/// Makes sure a pool is registered for `db_name`: a registered pool is kept
/// as it is; otherwise a pool is made from the database's address and
/// registered with it. The address of an unregistered database must be one
/// that `mysql_async` accepts (see [`try_get_or_init_connection_pool`]).
pub fn get_or_init_connection_pool(
    pools: &mut ConnectionPools<TidbPool>,
    settings: &TidbSettings,
    db_name: &str,
)
    requires
        old(pools).view().contains_key(db_name@) || mysql_url_accepted(tidb_pool_url(*settings, db_name@)),
    ensures
        final(pools).view().dom() == old(pools).view().dom().insert(db_name@),
        old(pools).view().contains_key(db_name@) ==> final(pools).view() == old(pools).view(),
        !old(pools).view().contains_key(db_name@) ==> final(pools).view()[db_name@].url@ == tidb_pool_url(*settings, db_name@),
        forall|name: Seq<char>| name != db_name@ && #[trigger] old(pools).view().contains_key(name) ==> final(pools).view()[name] == old(pools).view()[name],
{
    if pools.get(db_name).is_some() {
        proof {
            assert(pools.view().dom() =~= pools.view().dom().insert(db_name@));
        }
        return;
    }
    let url = pool_url(settings, db_name);
    match pool_from_url(url.as_str()) {
        Ok(entry) => {
            let ghost before = pools.view();
            pools.insert(String::from_str(db_name), entry);
            proof {
                assert(pools.view().dom() =~= before.dom().insert(db_name@));
            }
        },
        Err(_) => {
            proof {
                assert(false);
            }
        },
    }
}

/// Makes sure a pool is registered for `db_name` where that can be done:
/// returns `false`, registering nothing, where the database has no pool yet
/// and `mysql_async` refuses its address; otherwise does what
/// [`get_or_init_connection_pool`] does and returns `true`.
pub fn try_get_or_init_connection_pool(
    pools: &mut ConnectionPools<TidbPool>,
    settings: &TidbSettings,
    db_name: &str,
) -> (r: bool)
    ensures
        r == (old(pools).view().contains_key(db_name@) || mysql_url_accepted(tidb_pool_url(*settings, db_name@))),
        !r ==> final(pools).view() == old(pools).view(),
        r ==> final(pools).view().dom() == old(pools).view().dom().insert(db_name@),
        r && old(pools).view().contains_key(db_name@) ==> final(pools).view() == old(pools).view(),
        r && !old(pools).view().contains_key(db_name@) ==> final(pools).view()[db_name@].url@ == tidb_pool_url(*settings, db_name@),
        r ==> forall|name: Seq<char>| name != db_name@ && #[trigger] old(pools).view().contains_key(name) ==> final(pools).view()[name] == old(pools).view()[name],
{
    if pools.get(db_name).is_none() {
        let url = pool_url(settings, db_name);
        if !url_accepted(url.as_str()) {
            return false;
        }
    }
    get_or_init_connection_pool(pools, settings, db_name);
    true
}

/// What the connection yields for one column of a result row.
pub enum MysqlCell {
    /// A value sent as bytes (text, numbers and dates in the text protocol).
    Bytes(Vec<u8>),
    /// SQL NULL.
    Null,
    /// Any other value, as its debug rendering.
    Other(String),
    /// The column could not be read.
    Unreadable,
}

/// One column of a result row: its name and its value.
pub struct MysqlColumn {
    pub name: String,
    pub cell: MysqlCell,
}

/// The text that a column value becomes: bytes decoded as UTF-8 (invalid
/// sequences replaced), the empty text for NULL or an unreadable column, the
/// debug rendering otherwise.
pub open spec fn cell_text(c: MysqlCell) -> Seq<char> {
    match c {
        MysqlCell::Bytes(b) => utf8_lossy(b@),
        MysqlCell::Null => Seq::empty(),
        MysqlCell::Other(t) => t@,
        MysqlCell::Unreadable => Seq::empty(),
    }
}

/// The object that a row becomes: one text member per column.
pub open spec fn row_object(row: Seq<MysqlColumn>) -> Seq<(Seq<char>, JsonCellView)> {
    row.map_values(|c: MysqlColumn| (c.name@, JsonCellView::Text(cell_text(c.cell))))
}

/// The text of a column value: the bytes decoded as UTF-8 with invalid
/// sequences replaced, the empty text for NULL or an unreadable column, the
/// debug rendering otherwise.
pub proof fn law_cell_text(c: MysqlCell)
    ensures
        c matches MysqlCell::Bytes(b) ==> cell_text(c) == utf8_lossy(b@),
        c is Null ==> cell_text(c) == Seq::<char>::empty(),
        c is Unreadable ==> cell_text(c) == Seq::<char>::empty(),
        c matches MysqlCell::Other(t) ==> cell_text(c) == t@,
{
}

/// The object of a row has one member per column, in column order, named
/// exactly as the column and holding the text of the column's value.
pub proof fn law_row_members(row: Seq<MysqlColumn>)
    ensures
        row_object(row).len() == row.len(),
        forall|k: int| 0 <= k < row.len() ==> (#[trigger] row_object(row)[k]).0 == row[k].name@,
        forall|k: int|
            0 <= k < row.len() ==> (#[trigger] row_object(row)[k]).1 == JsonCellView::Text(
                cell_text(row[k].cell),
            ),
{
}

/// The text that a column value becomes.
pub fn cell_to_text(c: &MysqlCell) -> (r: String)
    ensures
        r@ == cell_text(*c),
        *c matches MysqlCell::Bytes(b) ==> r@ == utf8_lossy(b@),
        *c matches MysqlCell::Bytes(b) ==> (vstd::utf8::valid_utf8(b@) ==> r@
            == vstd::utf8::decode_utf8(b@)),
        *c is Null || *c is Unreadable ==> r@ == Seq::<char>::empty(),
        *c matches MysqlCell::Other(t) ==> r@ == t@,
{
    match c {
        MysqlCell::Bytes(b) => from_utf8_lossy(b.as_slice()),
        MysqlCell::Null => String::new(),
        MysqlCell::Other(t) => t.clone(),
        MysqlCell::Unreadable => String::new(),
    }
}

/// Converts a result row into a JSON object of text members.
pub fn convert_row_to_json(row: &Vec<MysqlColumn>) -> (r: JsonObject)
    ensures
        r@ == row_object(row@),
        r@.len() == row@.len(),
        forall|k: int| 0 <= k < row@.len() ==> (#[trigger] r@[k]).0 == row@[k].name@,
        forall|k: int|
            0 <= k < row@.len() ==> (#[trigger] r@[k]).1 == JsonCellView::Text(
                cell_text(row@[k].cell),
            ),
{
    let mut members: Vec<(String, JsonCell)> = Vec::new();
    let n = row.len();
    for i in 0..n
        invariant
            n == row@.len(),
            members@.len() == i,
            forall|k: int|
                0 <= k < i ==> (#[trigger] members@[k]).0@ == row@[k].name@ && members@[k].1@
                    == JsonCellView::Text(cell_text(row@[k].cell)),
    {
        let col = &row[i];
        let text = cell_to_text(&col.cell);
        members.push((col.name.clone(), JsonCell::Text(text)));
    }
    let r = JsonObject { members };
    proof {
        assert(r@ =~= row_object(row@));
    }
    r
}

/// Converts every result row, in order.
pub fn rows_to_json(rows: &Vec<Vec<MysqlColumn>>) -> (r: Vec<JsonObject>)
    ensures
        r@.len() == rows@.len(),
        forall|i: int| 0 <= i < rows@.len() ==> (#[trigger] r@[i])@ == row_object(rows@[i]@),
{
    let mut out: Vec<JsonObject> = Vec::new();
    let n = rows.len();
    for i in 0..n
        invariant
            n == rows@.len(),
            out@.len() == i,
            forall|k: int| 0 <= k < i ==> (#[trigger] out@[k])@ == row_object(rows@[k]@),
    {
        out.push(convert_row_to_json(&rows[i]));
    }
    out
}

/// The report line of a statement that affected `n` rows.
pub open spec fn affected_report(n: nat) -> Seq<char> {
    "Query OK,"@ + decimal(n) + " row affected"@
}

/// The report line of a statement names the statement's whole count of
/// affected rows: between `Query OK,` and ` row affected` it holds a run of
/// digits that reads back as the count.
pub proof fn law_affected_report_count(n: nat)
    ensures
        affected_report(n).len() > 22,
        affected_report(n).subrange(0, 9) == "Query OK,"@,
        affected_report(n).subrange(affected_report(n).len() - 13, affected_report(n).len() as int)
            == " row affected"@,
        decimal_value(affected_report(n).subrange(9, affected_report(n).len() - 13)) == n,
        forall|i: int| 9 <= i < affected_report(n).len() - 13 ==> '0' <= #[trigger] affected_report(n)[i] <= '9',
{
    reveal_strlit("Query OK,");
    reveal_strlit(" row affected");
    law_decimal_reads_back(n);
    let r = affected_report(n);
    assert(r.subrange(0, 9) =~= "Query OK,"@);
    assert(r.subrange(r.len() - 13, r.len() as int) =~= " row affected"@);
    assert(r.subrange(9, r.len() - 13) =~= decimal(n));
    assert forall|i: int| 9 <= i < r.len() - 13 implies '0' <= #[trigger] r[i] <= '9' by {
        assert(r[i] == decimal(n)[i - 9]);
    }
}

/// `Query OK,<n> row affected`.
pub fn rows_affected_message(affected_rows: u64) -> (r: String)
    ensures
        r@ == affected_report(affected_rows as nat),
        r@ == "Query OK,"@ + decimal(affected_rows as nat) + " row affected"@,
        r@.len() > 22,
        decimal_value(r@.subrange(9, r@.len() - 13)) == affected_rows,
{
    proof {
        law_affected_report_count(affected_rows as nat);
    }
    let mut s = String::from_str("Query OK,");
    let digits = u64_to_decimal(affected_rows);
    s.append(digits.as_str());
    s.append(" row affected");
    s
}

/// A statement counts as a row-history update when it affected some row and,
/// lower-cased, begins with `update` and holds `where`.
pub open spec fn row_history_update(affected_rows: nat, query: Seq<char>) -> bool {
    affected_rows > 0 && has_prefix(lowercase(query), "update"@) && contains_text(
        lowercase(query),
        "where"@,
    )
}

/// Whether a statement that affected `affected_rows` rows counts as a
/// row-history update, given its lower-cased text.
pub fn affected_update_with_where(affected_rows: u64, lowered: &str) -> (r: bool)
    ensures
        r == (affected_rows > 0 && has_prefix(lowered@, "update"@) && contains_text(
            lowered@,
            "where"@,
        )),
{
    affected_rows > 0 && starts_with(lowered, "update") && contains(lowered, "where")
}

/// A statement is a row-history update exactly when it affected some row and
/// its lower-cased text begins with `update` and holds `where` somewhere:
/// a statement that does not begin with `update` never is.
pub proof fn law_row_history_update(affected_rows: nat, query: Seq<char>)
    ensures
        row_history_update(affected_rows, query) == (affected_rows > 0
            && "update"@.is_prefix_of(lowercase(query)) && exists|i: int|
            0 <= i && i + 5 <= lowercase(query).len() && #[trigger] lowercase(query).subrange(
                i,
                i + 5,
            ) == "where"@),
        !"update"@.is_prefix_of(lowercase(query)) ==> !row_history_update(affected_rows, query),
{
    reveal_strlit("where");
    law_has_prefix_is_prefix_of(lowercase(query), "update"@);
    law_contains_five(lowercase(query), "where"@);
}

/// Whether a statement that affected `affected_rows` rows is a row-history
/// update (see [`row_history_update`]).
pub fn is_row_history_update(affected_rows: u64, query: &str) -> (r: bool)
    ensures
        r == row_history_update(affected_rows as nat, query@),
        r ==> affected_rows > 0,
        r ==> "update"@.is_prefix_of(lowercase(query@)),
        r ==> contains_text(lowercase(query@), "where"@),
        affected_rows > 0 && "update"@.is_prefix_of(lowercase(query@)) && contains_text(
            lowercase(query@),
            "where"@,
        ) ==> r,
{
    proof {
        law_has_prefix_is_prefix_of(lowercase(query@), "update"@);
    }
    if affected_rows == 0 {
        return false;
    }
    let lower = to_lowercase(query);
    affected_update_with_where(affected_rows, lower.as_str())
}

} // verus!
