//! The Kafka consumer's settings and the severity at which the consumer's
//! client logs librdkafka's messages.

use vstd::prelude::*;
use crate::kafka::client_config::{
    client_config_entries, client_config_from, entries_map, pairs_view,
};

verus! {

/// The consumer settings read from the `kafka.*` configuration keys.
pub struct KafkaSettings {
    /// `kafka.bootstrapserver`
    pub bootstrap_server: String,
    /// `kafka.autoOffsetReset`
    pub auto_offset_reset: String,
    /// `kafka.connectTimeout`
    pub connect_timeout: String,
    /// `kafka.autoCommit`
    pub auto_commit: String,
}

/// The client parameters of a consumer in group `group_name`, in the order in
/// which they are set.
pub open spec fn consumer_entries(group_name: Seq<char>, settings: KafkaSettings) -> Seq<
    (Seq<char>, Seq<char>),
> {
    seq![
        ("bootstrap.servers"@, settings.bootstrap_server@),
        ("group.id"@, group_name),
        ("auto.offset.reset"@, settings.auto_offset_reset@),
        ("enable.auto.commit"@, settings.auto_commit@),
        ("fetch.wait.max.ms"@, settings.connect_timeout@),
    ]
}

fn pair(key: &str, value: &String) -> (r: (String, String))
    ensures
        r.0@ == key@,
        r.1@ == value@,
{
    (String::from_str(key), value.clone())
}

/// The client parameters of a consumer in group `group_name`. The group must
/// be named: an unnamed group would be looked up in the configuration as a
/// borrowed string, which the configuration cannot give.
pub fn consumer_config(group_name: &str, settings: &KafkaSettings) -> (r: Vec<(String, String)>)
    requires
        group_name@.len() > 0,
    ensures
        pairs_view(r@) == consumer_entries(group_name@, *settings),
{
    let mut r: Vec<(String, String)> = Vec::new();
    r.push(pair("bootstrap.servers", &settings.bootstrap_server));
    r.push((String::from_str("group.id"), String::from_str(group_name)));
    r.push(pair("auto.offset.reset", &settings.auto_offset_reset));
    r.push(pair("enable.auto.commit", &settings.auto_commit));
    r.push(pair("fetch.wait.max.ms", &settings.connect_timeout));
    proof {
        assert(pairs_view(r@) =~= consumer_entries(group_name@, *settings));
    }
    r
}

/// The parameters that the client configuration of a consumer in group
/// `group_name`, made for batches of `batch_size`, holds.
pub open spec fn consumer_client_entries(
    group_name: Seq<char>,
    batch_size: usize,
    settings: KafkaSettings,
) -> Map<Seq<char>, Seq<char>> {
    entries_map(consumer_entries(group_name, settings))
}

/// The batch size is not a client parameter: the client configuration of a
/// consumer is the same for every batch size, exactly the parameters of
/// [`consumer_config`].
pub proof fn law_batch_size_is_not_a_parameter(
    group_name: Seq<char>,
    first: usize,
    second: usize,
    settings: KafkaSettings,
)
    ensures
        consumer_client_entries(group_name, first, settings) == consumer_client_entries(
            group_name,
            second,
            settings,
        ),
        consumer_client_entries(group_name, first, settings) == entries_map(
            consumer_entries(group_name, settings),
        ),
{
}

/// The client configuration of a consumer in group `group_name`: exactly the
/// parameters of [`consumer_config`].
pub fn set_new_consumer_config(
    group_name: &str,
    batch_size: usize,
    settings: &KafkaSettings,
) -> (r: rdkafka::config::ClientConfig)
    requires
        group_name@.len() > 0,
    ensures
        client_config_entries(r) == consumer_client_entries(group_name@, batch_size, *settings),
{
    let pairs = consumer_config(group_name, settings);
    client_config_from(&pairs)
}

/// The parameters that a consumer's client configuration holds: the broker
/// list, the group, the offset reset policy, the auto-commit switch and the
/// fetch wait, and nothing else.
pub proof fn lemma_consumer_entries(group_name: Seq<char>, settings: KafkaSettings)
    ensures
        ({
            let m = entries_map(consumer_entries(group_name, settings));
            &&& m.dom() == set![
                "bootstrap.servers"@,
                "group.id"@,
                "auto.offset.reset"@,
                "enable.auto.commit"@,
                "fetch.wait.max.ms"@,
            ]
            &&& m["bootstrap.servers"@] == settings.bootstrap_server@
            &&& m["group.id"@] == group_name
            &&& m["auto.offset.reset"@] == settings.auto_offset_reset@
            &&& m["enable.auto.commit"@] == settings.auto_commit@
            &&& m["fetch.wait.max.ms"@] == settings.connect_timeout@
        }),
{
    reveal_strlit("bootstrap.servers");
    reveal_strlit("group.id");
    reveal_strlit("auto.offset.reset");
    reveal_strlit("enable.auto.commit");
    reveal_strlit("fetch.wait.max.ms");
    assert("bootstrap.servers"@[0] == 'b' && "group.id"@[0] == 'g' && "auto.offset.reset"@[0]
        == 'a' && "enable.auto.commit"@[0] == 'e' && "fetch.wait.max.ms"@[0] == 'f');
    let s = consumer_entries(group_name, settings);
    let s4 = s.drop_last();
    let s3 = s4.drop_last();
    let s2 = s3.drop_last();
    let s1 = s2.drop_last();
    let s0 = s1.drop_last();
    assert(s0 =~= Seq::<(Seq<char>, Seq<char>)>::empty());
    assert(entries_map(s0) == Map::<Seq<char>, Seq<char>>::empty());
    assert(entries_map(s1) == entries_map(s0).insert(s1.last().0, s1.last().1));
    assert(entries_map(s2) == entries_map(s1).insert(s2.last().0, s2.last().1));
    assert(entries_map(s3) == entries_map(s2).insert(s3.last().0, s3.last().1));
    assert(entries_map(s4) == entries_map(s3).insert(s4.last().0, s4.last().1));
    assert(entries_map(s) == entries_map(s4).insert(s.last().0, s.last().1));
    let m = entries_map(s);
    assert(m.dom() =~= set![
        "bootstrap.servers"@,
        "group.id"@,
        "auto.offset.reset"@,
        "enable.auto.commit"@,
        "fetch.wait.max.ms"@,
    ]);
}

/// librdkafka's log levels, from most to least severe.
#[derive(PartialEq, Eq, Structural, Clone, Copy)]
pub enum KafkaLogLevel {
    Emerg,
    Alert,
    Critical,
    Error,
    Warning,
    Notice,
    Info,
    Debug,
}

/// The severities of the application log.
#[derive(PartialEq, Eq, Structural, Clone, Copy)]
pub enum LogSeverity {
    Error,
    Warn,
    Info,
    Debug,
}

/// The severity at which a librdkafka message of a given level is logged:
/// the four most severe levels as errors, warnings as warnings, notices and
/// information as information, debugging output as debugging output.
pub open spec fn severity_of(level: KafkaLogLevel) -> LogSeverity {
    match level {
        KafkaLogLevel::Emerg | KafkaLogLevel::Alert | KafkaLogLevel::Critical
        | KafkaLogLevel::Error => LogSeverity::Error,
        KafkaLogLevel::Warning => LogSeverity::Warn,
        KafkaLogLevel::Notice | KafkaLogLevel::Info => LogSeverity::Info,
        KafkaLogLevel::Debug => LogSeverity::Debug,
    }
}

/// One record for the application log.
pub struct LogRecord {
    pub severity: LogSeverity,
    pub target: String,
    pub line: String,
}

/// The line logged for a librdkafka message from facility `fac`.
pub open spec fn librdkafka_line(fac: Seq<char>, message: Seq<char>) -> Seq<char> {
    "librdkafka: "@ + fac + " "@ + message
}

/// The client context of the consumer: it routes librdkafka's log messages
/// to the application log.
pub struct ConsumerCallbackLogger;

impl ConsumerCallbackLogger {
    /// The severity at which a librdkafka message of `level` is logged.
    pub fn log_severity(&self, level: KafkaLogLevel) -> (r: LogSeverity)
        ensures
            r == severity_of(level),
    {
        match level {
            KafkaLogLevel::Emerg | KafkaLogLevel::Alert | KafkaLogLevel::Critical
            | KafkaLogLevel::Error => LogSeverity::Error,
            KafkaLogLevel::Warning => LogSeverity::Warn,
            KafkaLogLevel::Notice | KafkaLogLevel::Info => LogSeverity::Info,
            KafkaLogLevel::Debug => LogSeverity::Debug,
        }
    }

    /// The record logged for a librdkafka message of `level` from facility
    /// `fac`: at the level's severity, with target `librdkafka`, reading
    /// `librdkafka: <fac> <message>`.
    pub fn log(&self, level: KafkaLogLevel, fac: &str, log_message: &str) -> (r: LogRecord)
        ensures
            r.severity == severity_of(level),
            r.target@ == "librdkafka"@,
            r.line@ == librdkafka_line(fac@, log_message@),
    {
        let mut line = String::from_str("librdkafka: ");
        line.append(fac);
        line.append(" ");
        line.append(log_message);
        LogRecord {
            severity: self.log_severity(level),
            target: String::from_str("librdkafka"),
            line,
        }
    }
}

} // verus!
