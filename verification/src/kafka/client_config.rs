//! The Kafka client configuration (`rdkafka::config::ClientConfig`): a map
//! from parameter names to values, filled from a list of parameters.

use vstd::prelude::*;

verus! {

#[verifier::external_type_specification]
#[verifier::external_body]
pub struct ExClientConfig(rdkafka::config::ClientConfig);

/// The parameters that a `ClientConfig` holds (its `conf_map`), by name.
pub uninterp spec fn client_config_entries(c: rdkafka::config::ClientConfig) -> Map<Seq<char>, Seq<char>>;

/// Calls `rdkafka::config::ClientConfig::new`. Claimed: the new configuration
/// holds no parameter (its map starts empty; the log level it also records is
/// not modelled).
#[verifier::external_body]
pub(crate) fn client_config_new() -> (r: rdkafka::config::ClientConfig)
    ensures
        client_config_entries(r).dom().is_empty(),
{
    rdkafka::config::ClientConfig::new()
}

/// Calls `rdkafka::config::ClientConfig::set`. Claimed: the parameter `key`
/// now has `value`, replacing any earlier value, and no other parameter
/// changes (the method inserts into its map).
#[verifier::external_body]
pub(crate) fn client_config_set(config: &mut rdkafka::config::ClientConfig, key: &str, value: &str)
    ensures
        client_config_entries(*final(config)) == client_config_entries(*old(config)).insert(key@, value@),
{
    config.set(key, value);
}

/// The map that results from setting the parameters in order (a later
/// setting of a name replaces an earlier one).
pub open spec fn entries_map(pairs: Seq<(Seq<char>, Seq<char>)>) -> Map<Seq<char>, Seq<char>>
    decreases pairs.len(),
{
    if pairs.len() == 0 {
        Map::empty()
    } else {
        entries_map(pairs.drop_last()).insert(pairs.last().0, pairs.last().1)
    }
}

/// The text view of a list of parameters.
pub open spec fn pairs_view(pairs: Seq<(String, String)>) -> Seq<(Seq<char>, Seq<char>)> {
    pairs.map_values(|p: (String, String)| (p.0@, p.1@))
}

/// A configuration holding exactly the given parameters.
pub fn client_config_from(pairs: &Vec<(String, String)>) -> (r: rdkafka::config::ClientConfig)
    ensures
        client_config_entries(r) == entries_map(pairs_view(pairs@)),
{
    let mut config = client_config_new();
    let n = pairs.len();
    for i in 0..n
        invariant
            n == pairs@.len(),
            client_config_entries(config) == entries_map(pairs_view(pairs@).take(i as int)),
    {
        let ghost before = pairs_view(pairs@).take(i as int);
        client_config_set(&mut config, pairs[i].0.as_str(), pairs[i].1.as_str());
        proof {
            assert(pairs_view(pairs@).take(i + 1).drop_last() =~= before);
        }
    }
    proof {
        assert(pairs_view(pairs@).take(n as int) =~= pairs_view(pairs@));
    }
    config
}

} // verus!
