use ozymandias::kafka_config::{consumer_config, producer_config};

#[test]
fn producer_settings() {
    let c = producer_config("localhost:9092");
    assert_eq!(c.get("bootstrap.servers"), Some("localhost:9092"));
    assert_eq!(c.get("message.timeout.ms"), Some("5000"));
    assert_eq!(c.config_map().len(), 2);
}

#[test]
fn consumer_settings() {
    let c = consumer_config("invalid:9092", "test-group");
    assert_eq!(c.get("bootstrap.servers"), Some("invalid:9092"));
    assert_eq!(c.get("group.id"), Some("test-group"));
    assert_eq!(c.get("enable.auto.commit"), Some("true"));
    assert_eq!(c.get("auto.offset.reset"), Some("earliest"));
    assert_eq!(c.get("session.timeout.ms"), Some("6000"));
    assert_eq!(c.get("max.poll.interval.ms"), Some("300000"));
    assert_eq!(c.get("fetch.min.bytes"), Some("1"));
    assert_eq!(c.get("fetch.wait.max.ms"), Some("100"));
    assert_eq!(c.config_map().len(), 8);
}
