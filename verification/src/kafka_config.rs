use rdkafka::ClientConfig;
use vstd::prelude::*;

verus! {

#[verifier::external_type_specification]
#[verifier::external_body]
pub struct ExClientConfig(rdkafka::ClientConfig);

/// The parameters a Kafka client configuration holds, key to value.
pub uninterp spec fn config_entries(c: ClientConfig) -> Map<Seq<char>, Seq<char>>;

/// A configuration without parameters.
pub open spec fn no_entries() -> Map<Seq<char>, Seq<char>> {
    Map::empty()
}

/// Calls `rdkafka::ClientConfig::new`, which gives a configuration with no
/// parameter (its separate log level is not a parameter).
#[verifier::external_body]
fn empty_config() -> (c: ClientConfig)
    ensures
        config_entries(c) == no_entries(),
{
    ClientConfig::new()
}

/// Calls `rdkafka::ClientConfig::set`, which stores `value` under `key` and
/// replaces any value stored there before.
#[verifier::external_body]
fn set_entry(c: &mut ClientConfig, key: &str, value: &str)
    ensures
        config_entries(*final(c)) == config_entries(*old(c)).insert(key@, value@),
{
    c.set(key, value);
}

/// The parameters of the producer used to publish scenario messages.
pub open spec fn producer_entries(broker: Seq<char>) -> Map<Seq<char>, Seq<char>> {
    Map::<Seq<char>, Seq<char>>::empty().insert("bootstrap.servers"@, broker).insert("message.timeout.ms"@, "5000"@)
}

/// The parameters of the consumer that reads topics back from the beginning.
pub open spec fn consumer_entries(broker: Seq<char>, group_id: Seq<char>) -> Map<Seq<char>, Seq<char>> {
    Map::<Seq<char>, Seq<char>>::empty().insert("bootstrap.servers"@, broker).insert("group.id"@, group_id).insert(
        "enable.auto.commit"@,
        "true"@,
    ).insert("auto.offset.reset"@, "earliest"@).insert("session.timeout.ms"@, "6000"@).insert(
        "max.poll.interval.ms"@,
        "300000"@,
    ).insert("fetch.min.bytes"@, "1"@).insert("fetch.wait.max.ms"@, "100"@)
}

/// Configuration of a producer for `broker`, whose sends time out after five seconds.
pub fn producer_config(broker: &str) -> (c: ClientConfig)
    ensures
        config_entries(c) == producer_entries(broker@),
{
    let mut c = empty_config();
    set_entry(&mut c, "bootstrap.servers", broker);
    set_entry(&mut c, "message.timeout.ms", "5000");
    c
}

/// Configuration of a consumer for `broker` in group `group_id`: it commits
/// automatically, starts from the earliest offset and does not wait for batches.
pub fn consumer_config(broker: &str, group_id: &str) -> (c: ClientConfig)
    ensures
        config_entries(c) == consumer_entries(broker@, group_id@),
{
    let mut c = empty_config();
    set_entry(&mut c, "bootstrap.servers", broker);
    set_entry(&mut c, "group.id", group_id);
    set_entry(&mut c, "enable.auto.commit", "true");
    set_entry(&mut c, "auto.offset.reset", "earliest");
    set_entry(&mut c, "session.timeout.ms", "6000");
    set_entry(&mut c, "max.poll.interval.ms", "300000");
    set_entry(&mut c, "fetch.min.bytes", "1");
    set_entry(&mut c, "fetch.wait.max.ms", "100");
    c
}

} // verus!
