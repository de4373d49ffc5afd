use ozymandias::ports::PortMappings;
use ozymandias::scenario::ServiceType;
use ozymandias::text::{bool_string, decimal_string};

#[test]
fn decimal_strings() {
    assert_eq!(decimal_string(0), "0");
    assert_eq!(decimal_string(7), "7");
    assert_eq!(decimal_string(10), "10");
    assert_eq!(decimal_string(9092), "9092");
    assert_eq!(decimal_string(u64::MAX), u64::MAX.to_string());
    assert_eq!(bool_string(true), "true");
    assert_eq!(bool_string(false), "false");
}

#[test]
fn port_lookups_keep_successes_and_last_result() {
    let ports = vec![7000u16, 7001, 7002, 7000];
    let found = vec![Some(32768u16), None, Some(40000), Some(41000)];
    let m = PortMappings::from_lookups(&ports, &found);
    assert_eq!(m.get_port(7000), Some(41000));
    assert_eq!(m.get_port(7001), None);
    assert_eq!(m.get_port(7002), Some(40000));
    assert_eq!(m.get_connection_string(7002), Some("localhost:40000".to_string()));
    assert_eq!(m.get_connection_string(7001), None);
    assert!(m.contains(7000));
    assert!(!m.is_empty());
    let mut pairs = m.pairs();
    pairs.sort();
    assert_eq!(pairs, vec![(7000, 41000), (7002, 40000)]);
}

#[test]
fn empty_port_mappings() {
    let m = PortMappings::new();
    assert!(m.is_empty());
    assert_eq!(m.get_port(9092), None);
    assert!(m.pairs().is_empty());
}

#[test]
fn service_type_names() {
    assert_eq!(ServiceType::RedisCluster.to_display_string(), "redis_cluster");
    assert_eq!(ServiceType::Kafka.to_display_string(), "kafka");
    assert_eq!(ServiceType::Ccs.to_display_string(), "ccs");
    assert_eq!(ServiceType::Custom("pg".to_string()).to_display_string(), "pg");
}
