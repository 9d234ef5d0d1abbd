use datalayerapi_tidb::configuration::settings::{base_config_path, mode_config_path};
use datalayerapi_tidb::tidb_service::service::{
    CheckConnectionRequest, ConnectionStep, ExecuteQueryRequest, QueryStep, TidbService,
};
use datalayerapi_tidb::utils::common::KafkaMsg;

fn request(query: &str, db: &str) -> ExecuteQueryRequest {
    ExecuteQueryRequest { query: query.to_string(), db_name: db.to_string() }
}

#[test]
fn complete_query_request_is_run() {
    let service = TidbService {};
    match service.execute_query_step(request("SELECT 1", "test")) {
        QueryStep::Run { query, db_name } => {
            assert_eq!(query, "SELECT 1");
            assert_eq!(db_name, "test");
        }
        QueryStep::Reply(_) => panic!("a complete request is run"),
    }
}

#[test]
fn incomplete_query_request_is_bad() {
    let service = TidbService {};
    for (q, d) in [("", "test"), ("SELECT 1", ""), ("", "")] {
        match service.execute_query_step(request(q, d)) {
            QueryStep::Reply(r) => {
                assert_eq!(r.code, 500);
                assert_eq!(r.msg, "error");
                assert_eq!(r.data, "Bad Request");
            }
            QueryStep::Run { .. } => panic!("an incomplete request is refused"),
        }
    }
}

#[test]
fn query_outcomes_become_replies() {
    let service = TidbService {};
    let ok = service.execute_query_reply(Ok(("Query OK,1 row affected".to_string(), "[]".to_string())));
    assert_eq!(ok.code, 200);
    assert_eq!(ok.msg, "Query OK,1 row affected");
    assert_eq!(ok.data, "[]");
    let err = service.execute_query_reply(Err("Table 'test.x' doesn't exist".to_string()));
    assert_eq!(err.code, 400);
    assert_eq!(err.msg, "error");
    assert_eq!(err.data, "Table 'test.x' doesn't exist");
}

#[test]
fn connection_checks() {
    let service = TidbService {};
    match service.check_connection_step(CheckConnectionRequest { db_name: "test".to_string() }) {
        ConnectionStep::Check { db_name } => assert_eq!(db_name, "test"),
        ConnectionStep::Reply(_) => panic!("a named database is checked"),
    }
    match service.check_connection_step(CheckConnectionRequest { db_name: String::new() }) {
        ConnectionStep::Reply(r) => {
            assert_eq!(r.code, 500);
            assert_eq!(r.msg, "Bad Request");
        }
        ConnectionStep::Check { .. } => panic!("an unnamed database is refused"),
    }
    let healthy = service.check_connection_reply("test", Ok(true));
    assert_eq!(healthy.code, 200);
    assert_eq!(healthy.msg, "Connection with db test is healthy");
    let still_ok = service.check_connection_reply("test", Ok(false));
    assert_eq!(still_ok.code, 200);
    let failed = service.check_connection_reply("test", Err("timed out".to_string()));
    assert_eq!(failed.code, 400);
    assert_eq!(failed.msg, "Error in Connection with db test Error:-timed out");
}

#[test]
fn configuration_files() {
    assert_eq!(base_config_path(), "resources/config/config");
    assert_eq!(mode_config_path("development"), "resources/config/config-development");
    assert_eq!(mode_config_path(""), "resources/config/config-");
}

#[test]
fn kafka_message_fields() {
    let m = KafkaMsg {
        query: "UPDATE t SET a = 1 where b = 2".to_string(),
        timestamp: "2025-01-13 17:32:52".to_string(),
        db_name: "test".to_string(),
    };
    assert_eq!(m.db_name, "test");
}
