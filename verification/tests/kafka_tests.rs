use datalayerapi_tidb::kafka::consumer::{
    consumer_config, set_new_consumer_config, ConsumerCallbackLogger, KafkaLogLevel,
    KafkaSettings, LogSeverity,
};
use datalayerapi_tidb::kafka::producer::{
    producer_client_config, producer_config, DeliveryOutcome, ProduceCallbackLogger,
};

fn settings() -> KafkaSettings {
    KafkaSettings {
        bootstrap_server: "localhost:9092".to_string(),
        auto_offset_reset: "earliest".to_string(),
        connect_timeout: "5000".to_string(),
        auto_commit: "true".to_string(),
    }
}

#[test]
fn consumer_parameters() {
    let pairs = consumer_config("group-a", &settings());
    let want = vec![
        ("bootstrap.servers", "localhost:9092"),
        ("group.id", "group-a"),
        ("auto.offset.reset", "earliest"),
        ("enable.auto.commit", "true"),
        ("fetch.wait.max.ms", "5000"),
    ];
    let got: Vec<(&str, &str)> = pairs.iter().map(|(k, v)| (k.as_str(), v.as_str())).collect();
    assert_eq!(got, want);
}

#[test]
fn consumer_client_configuration() {
    let config = set_new_consumer_config("group-a", 10, &settings());
    assert_eq!(config.get("group.id"), Some("group-a"));
    assert_eq!(config.get("bootstrap.servers"), Some("localhost:9092"));
    assert_eq!(config.get("auto.offset.reset"), Some("earliest"));
    assert_eq!(config.get("enable.auto.commit"), Some("true"));
    assert_eq!(config.get("fetch.wait.max.ms"), Some("5000"));
    assert_eq!(config.get("client.id"), None);
    assert_eq!(config.config_map().len(), 5);
}

#[test]
fn producer_configuration() {
    let pairs = producer_config("broker:9092");
    assert_eq!(pairs, vec![("bootstrap.servers".to_string(), "broker:9092".to_string())]);
    let config = producer_client_config("broker:9092");
    assert_eq!(config.get("bootstrap.servers"), Some("broker:9092"));
    assert_eq!(config.config_map().len(), 1);
}

#[test]
fn log_levels_map_to_severities() {
    let logger = ConsumerCallbackLogger;
    for l in [KafkaLogLevel::Emerg, KafkaLogLevel::Alert, KafkaLogLevel::Critical, KafkaLogLevel::Error] {
        assert!(logger.log_severity(l) == LogSeverity::Error);
    }
    assert!(logger.log_severity(KafkaLogLevel::Warning) == LogSeverity::Warn);
    assert!(logger.log_severity(KafkaLogLevel::Notice) == LogSeverity::Info);
    assert!(logger.log_severity(KafkaLogLevel::Info) == LogSeverity::Info);
    assert!(logger.log_severity(KafkaLogLevel::Debug) == LogSeverity::Debug);
}

#[test]
fn delivery_reports() {
    let logger = ProduceCallbackLogger;
    let (sev, line) = logger.delivery(&DeliveryOutcome::Delivered {
        key: "k1".to_string(),
        offset: 42,
        partition: 3,
    });
    assert!(sev == LogSeverity::Info);
    assert_eq!(line, "produced message with key k1 in offset 42 of partition 3");
    let (sev, line) = logger.delivery(&DeliveryOutcome::Delivered {
        key: "k2".to_string(),
        offset: -1001,
        partition: -1,
    });
    assert!(sev == LogSeverity::Info);
    assert_eq!(line, "produced message with key k2 in offset -1001 of partition -1");
    let (sev, line) = logger.delivery(&DeliveryOutcome::Failed {
        key: "k3".to_string(),
        error: "Message production error: MessageTimedOut".to_string(),
    });
    assert!(sev == LogSeverity::Error);
    assert_eq!(line, "failed to produce message with key k3 - Message production error: MessageTimedOut");
}

#[test]
fn librdkafka_log_records() {
    let logger = ConsumerCallbackLogger;
    let r = logger.log(KafkaLogLevel::Warning, "FAC", "boom");
    assert!(r.severity == LogSeverity::Warn);
    assert_eq!(r.target, "librdkafka");
    assert_eq!(r.line, "librdkafka: FAC boom");
    let r = logger.log(KafkaLogLevel::Critical, "BROKER", "down");
    assert!(r.severity == LogSeverity::Error);
    assert_eq!(r.line, "librdkafka: BROKER down");
}
