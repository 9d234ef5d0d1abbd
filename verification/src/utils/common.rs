use vstd::prelude::*;

verus! {

/// A message published on the row-history topic after an update statement:
/// the statement, when it ran, and the database it ran against.
pub struct KafkaMsg {
    pub query: String,
    pub timestamp: String,
    pub db_name: String,
}

} // verus!
