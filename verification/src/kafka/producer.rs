//! The Kafka producer's settings and the report written for each delivery.

use vstd::prelude::*;
use crate::kafka::client_config::{
    client_config_entries, client_config_from, entries_map, pairs_view,
};
use crate::kafka::consumer::LogSeverity;
use crate::utils::text::{i64_to_decimal, signed_decimal};

verus! {

/// The client parameters of the producer: the broker list alone.
pub open spec fn producer_entries(bootstrap_server: Seq<char>) -> Seq<(Seq<char>, Seq<char>)> {
    seq![("bootstrap.servers"@, bootstrap_server)]
}

/// The client parameters of the producer, from `kafka.bootstrapserver`.
pub fn producer_config(bootstrap_server: &str) -> (r: Vec<(String, String)>)
    ensures
        pairs_view(r@) == producer_entries(bootstrap_server@),
{
    let mut r: Vec<(String, String)> = Vec::new();
    r.push((String::from_str("bootstrap.servers"), String::from_str(bootstrap_server)));
    proof {
        assert(pairs_view(r@) =~= producer_entries(bootstrap_server@));
    }
    r
}

/// The client configuration that the producer is created from: exactly the
/// parameters of [`producer_config`].
pub fn producer_client_config(bootstrap_server: &str) -> (r: rdkafka::config::ClientConfig)
    ensures
        client_config_entries(r) == entries_map(producer_entries(bootstrap_server@)),
{
    let pairs = producer_config(bootstrap_server);
    client_config_from(&pairs)
}

/// The producer's client configuration holds the broker list and nothing
/// else.
pub proof fn lemma_producer_entries(bootstrap_server: Seq<char>)
    ensures
        entries_map(producer_entries(bootstrap_server)) == Map::<Seq<char>, Seq<char>>::empty().insert(
            "bootstrap.servers"@,
            bootstrap_server,
        ),
{
    let s = producer_entries(bootstrap_server);
    assert(s.drop_last() =~= Seq::<(Seq<char>, Seq<char>)>::empty());
    assert(entries_map(s.drop_last()) == Map::<Seq<char>, Seq<char>>::empty());
}

/// How the delivery of one produced message ended.
pub enum DeliveryOutcome {
    /// The broker stored the message at `offset` of `partition`.
    Delivered { key: String, offset: i64, partition: i32 },
    /// The message could not be delivered.
    Failed { key: String, error: String },
}

/// The log line for a delivery.
pub open spec fn delivery_line(outcome: DeliveryOutcome) -> Seq<char> {
    match outcome {
        DeliveryOutcome::Delivered { key, offset, partition } => "produced message with key "@
            + key@ + " in offset "@ + signed_decimal(offset as int) + " of partition "@
            + signed_decimal(partition as int),
        DeliveryOutcome::Failed { key, error } => "failed to produce message with key "@ + key@
            + " - "@ + error@,
    }
}

/// The client context of the producer: it reports each delivery to the
/// application log.
pub struct ProduceCallbackLogger;

impl ProduceCallbackLogger {
    /// The severity and the line logged for a delivery: information for a
    /// delivered message, an error for a failed one.
    pub fn delivery(&self, outcome: &DeliveryOutcome) -> (r: (LogSeverity, String))
        ensures
            r.0 == (match outcome {
                DeliveryOutcome::Delivered { .. } => LogSeverity::Info,
                DeliveryOutcome::Failed { .. } => LogSeverity::Error,
            }),
            r.1@ == delivery_line(*outcome),
    {
        match outcome {
            DeliveryOutcome::Delivered { key, offset, partition } => {
                let mut s = String::from_str("produced message with key ");
                s.append(key.as_str());
                s.append(" in offset ");
                let off = i64_to_decimal(*offset);
                s.append(off.as_str());
                s.append(" of partition ");
                let part = i64_to_decimal(*partition as i64);
                s.append(part.as_str());
                (LogSeverity::Info, s)
            },
            DeliveryOutcome::Failed { key, error } => {
                let mut s = String::from_str("failed to produce message with key ");
                s.append(key.as_str());
                s.append(" - ");
                s.append(error.as_str());
                (LogSeverity::Error, s)
            },
        }
    }
}

} // verus!
