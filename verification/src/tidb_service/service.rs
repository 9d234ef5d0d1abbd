//! The decisions of the TiDB query service. A request is first checked; a
//! well-formed one is run against the database, and the outcome is turned
//! into the reply. Running it is left to the caller, which hands the outcome
//! back.

use vstd::prelude::*;

verus! {

/// A request to run a statement against a database.
pub struct ExecuteQueryRequest {
    pub query: String,
    pub db_name: String,
}

/// The reply to an [`ExecuteQueryRequest`].
pub struct ExecuteQueryResponse {
    pub code: i32,
    pub msg: String,
    pub data: String,
}

/// A request to check the connection to a database.
pub struct CheckConnectionRequest {
    pub db_name: String,
}

/// The reply to a [`CheckConnectionRequest`].
pub struct CheckConnectionResponse {
    pub code: i32,
    pub msg: String,
}

/// What to do with an [`ExecuteQueryRequest`].
pub enum QueryStep {
    /// Run `query` against `db_name`, then pass the outcome to
    /// [`TidbService::execute_query_reply`].
    Run { query: String, db_name: String },
    /// Answer at once.
    Reply(ExecuteQueryResponse),
}

/// What to do with a [`CheckConnectionRequest`].
pub enum ConnectionStep {
    /// Check the connection to `db_name`, then pass the outcome to
    /// [`TidbService::check_connection_reply`].
    Check { db_name: String },
    /// Answer at once.
    Reply(CheckConnectionResponse),
}

/// The reply to a request that names no statement or no database.
pub open spec fn bad_query_reply(r: ExecuteQueryResponse) -> bool {
    r.code == 500 && r.msg@ == "error"@ && r.data@ == "Bad Request"@
}

/// The reply to a statement that ran or failed.
pub open spec fn query_reply(result: Result<(String, String), String>, r: ExecuteQueryResponse) -> bool {
    match result {
        Ok((msg, data)) => r.code == 200 && r.msg@ == msg@ && r.data@ == data@,
        Err(e) => r.code == 400 && r.msg@ == "error"@ && r.data@ == e@,
    }
}

/// The reply to a connection check that succeeded or failed.
pub open spec fn connection_reply(db_name: Seq<char>, result: Result<bool, String>, r: CheckConnectionResponse) -> bool {
    match result {
        Ok(_) => r.code == 200 && r.msg@ == "Connection with db "@ + db_name + " is healthy"@,
        Err(e) => r.code == 400 && r.msg@ == "Error in Connection with db "@ + db_name
            + " Error:-"@ + e@,
    }
}

/// The gRPC service that runs statements against TiDB.
pub struct TidbService {}

impl TidbService {
    /// Decides what to do with a request: run it where both the statement and
    /// the database name are given, otherwise answer `500` / `Bad Request`.
    pub fn execute_query_step(&self, request: ExecuteQueryRequest) -> (r: QueryStep)
        ensures
            match r {
                QueryStep::Run { query, db_name } => request.query@.len() > 0
                    && request.db_name@.len() > 0 && query@ == request.query@ && db_name@
                    == request.db_name@,
                QueryStep::Reply(reply) => !(request.query@.len() > 0 && request.db_name@.len()
                    > 0) && bad_query_reply(reply),
            },
    {
        if !request.query.as_str().is_empty() && !request.db_name.as_str().is_empty() {
            QueryStep::Run { query: request.query, db_name: request.db_name }
        } else {
            QueryStep::Reply(
                ExecuteQueryResponse {
                    code: 500,
                    msg: String::from_str("error"),
                    data: String::from_str("Bad Request"),
                },
            )
        }
    }

    /// The reply to a statement that was run: `200` with the report line and
    /// the rows where it succeeded, `400` / `error` with the error otherwise.
    pub fn execute_query_reply(&self, result: Result<(String, String), String>) -> (r: ExecuteQueryResponse)
        ensures
            query_reply(result, r),
    {
        match result {
            Ok((msg, data)) => ExecuteQueryResponse { code: 200, msg, data },
            Err(error) => ExecuteQueryResponse { code: 400, msg: String::from_str("error"), data: error },
        }
    }

    /// Decides what to do with a connection check: check where a database is
    /// named, otherwise answer `500` / `Bad Request`.
    pub fn check_connection_step(&self, request: CheckConnectionRequest) -> (r: ConnectionStep)
        ensures
            match r {
                ConnectionStep::Check { db_name } => request.db_name@.len() > 0 && db_name@
                    == request.db_name@,
                ConnectionStep::Reply(reply) => request.db_name@.len() == 0 && reply.code == 500
                    && reply.msg@ == "Bad Request"@,
            },
    {
        if !request.db_name.as_str().is_empty() {
            ConnectionStep::Check { db_name: request.db_name }
        } else {
            ConnectionStep::Reply(
                CheckConnectionResponse { code: 500, msg: String::from_str("Bad Request") },
            )
        }
    }

    /// The reply to a connection check: `200` where it succeeded, `400` with
    /// the error otherwise.
    pub fn check_connection_reply(&self, db_name: &str, result: Result<bool, String>) -> (r: CheckConnectionResponse)
        ensures
            connection_reply(db_name@, result, r),
    {
        match result {
            Ok(_) => {
                let mut msg = String::from_str("Connection with db ");
                msg.append(db_name);
                msg.append(" is healthy");
                CheckConnectionResponse { code: 200, msg }
            },
            Err(error) => {
                let mut msg = String::from_str("Error in Connection with db ");
                msg.append(db_name);
                msg.append(" Error:-");
                msg.append(error.as_str());
                CheckConnectionResponse { code: 400, msg }
            },
        }
    }
}

} // verus!
