use aquadoggo_cli::allow_list::{AllowList, UncheckedAllowList};
use aquadoggo_cli::config::Configuration;
use aquadoggo_cli::ids::{accept_all, check_peer_ids, check_schema_ids, PeerId, SchemaId};
use aquadoggo_cli::node::{BlobsBasePath, ConfigurationError, NodeConfiguration};

const SCHEMA: &str = "venue_0020c65567ae37efea293e34a9c7d13f8f2bf23dbdc3b5c7b9ab46293111c48fc78b";
const PEER: &str = "12D3KooWD3eckifWpRn9wQpMG9R9hX3sD158z7EqHWmweQAJU5SA";
const OTHER_PEER: &str = "QmYyQSo1c1Ym7orWxLYvCrM2EmxFTANf8wXmmE7DWjhx5N";

fn members(list: &[&str]) -> UncheckedAllowList {
    UncheckedAllowList::Members(list.iter().map(|text| text.to_string()).collect())
}

fn schema_id(text: &str) -> SchemaId {
    SchemaId::from_str(text).unwrap()
}

fn peer_id(text: &str) -> PeerId {
    PeerId::from_str(text).unwrap()
}

#[test]
fn schema_ids_are_read() {
    for text in [
        SCHEMA,
        "schema_definition_v1",
        "schema_field_definition_v1",
        "blob_v1",
        "blob_piece_v1",
    ] {
        assert_eq!(schema_id(text).as_str(), text);
    }
}

#[test]
fn schema_ids_are_written_in_one_way() {
    assert_eq!(schema_id("blob_v01").as_str(), "blob_v1");
    assert_eq!(schema_id("schema_definition_v+7").as_str(), "schema_definition_v7");
    assert_eq!(schema_id("blob_v01"), schema_id("blob_v1"));
    assert_eq!(schema_id("blob_v1").clone().as_str(), "blob_v1");
}

#[test]
fn what_is_no_schema_id_is_rejected() {
    for text in ["", "*", "venue", "unknown_v1", "blob_v256", "venue_0020c65567"] {
        assert_eq!(SchemaId::from_str(text), None);
    }
}

#[test]
fn peer_ids_are_read() {
    assert_eq!(peer_id(PEER).as_str(), PEER);
    assert_eq!(peer_id(OTHER_PEER).clone().as_str(), OTHER_PEER);
}

#[test]
fn what_is_no_peer_id_is_rejected() {
    for text in ["", "*", "0OIl", "12D3KooW", SCHEMA] {
        assert_eq!(PeerId::from_str(text), None);
    }
}

#[test]
fn first_missing_item_is_reported() {
    let texts = vec!["a".to_string(), "b".to_string(), "c".to_string()];
    assert_eq!(accept_all(&texts, vec![Some(1), Some(2), Some(3)]), Ok(vec![1, 2, 3]));
    assert_eq!(accept_all(&texts, vec![Some(1), None, None]), Err("b".to_string()));
    assert_eq!(accept_all::<u8>(&Vec::new(), Vec::new()), Ok(Vec::new()));
}

#[test]
fn wildcard_needs_no_check() {
    assert_eq!(
        check_schema_ids(&UncheckedAllowList::Wildcard),
        Ok(AllowList::Wildcard)
    );
    assert_eq!(
        check_peer_ids(&UncheckedAllowList::Wildcard),
        Ok(AllowList::Wildcard)
    );
}

#[test]
fn lists_are_checked_in_order() {
    assert_eq!(
        check_schema_ids(&members(&[SCHEMA, "blob_v01"])),
        Ok(AllowList::Members(vec![schema_id(SCHEMA), schema_id("blob_v1")]))
    );
    assert_eq!(
        check_schema_ids(&members(&[SCHEMA, "first", "second"])),
        Err("first".to_string())
    );
    assert_eq!(
        check_peer_ids(&members(&[OTHER_PEER, PEER])),
        Ok(AllowList::Members(vec![peer_id(OTHER_PEER), peer_id(PEER)]))
    );
    assert_eq!(check_peer_ids(&members(&["nobody"])), Err("nobody".to_string()));
}

#[test]
fn checked_lists_are_accepted_again() {
    let list = match check_schema_ids(&members(&["blob_v01", SCHEMA])) {
        Ok(AllowList::Members(ids)) => ids,
        _ => panic!("the list holds schema ids"),
    };
    let texts: Vec<&str> = list.iter().map(|id| id.as_str()).collect();
    assert_eq!(check_schema_ids(&members(&texts)), Ok(AllowList::Members(list.clone())));
}

#[test]
fn default_configuration_is_usable() {
    let node = NodeConfiguration::try_from(Configuration::default()).unwrap();
    assert_eq!(node.allow_schema_ids, AllowList::Wildcard);
    assert_eq!(node.database_max_connections, 32);
    assert_eq!(node.http_port, 2020);
    assert_eq!(node.blobs_base_path, BlobsBasePath::Temporary);
    assert_eq!(node.worker_pool_size, 16);
    assert_eq!(node.network.quic_port, 2022);
    assert!(node.network.mdns);
    assert!(node.network.direct_node_addresses.is_empty());
    assert_eq!(node.network.allow_peer_ids, AllowList::Wildcard);
    assert!(node.network.block_peer_ids.is_empty());
    assert!(node.network.relay_addresses.is_empty());
    assert!(!node.network.relay_mode);
}

#[test]
fn every_setting_is_kept() {
    let configuration = Configuration {
        log_level: "debug".to_string(),
        allow_schema_ids: members(&[SCHEMA]),
        database_url: "postgres://localhost".to_string(),
        database_max_connections: 5,
        http_port: 1,
        quic_port: 2,
        blobs_base_path: Some("/var/blobs".to_string()),
        private_key: Some("key.txt".to_string()),
        mdns: false,
        direct_node_addresses: vec!["127.0.0.1:2022".to_string()],
        allow_peer_ids: members(&[PEER]),
        block_peer_ids: vec![peer_id(OTHER_PEER)],
        relay_addresses: vec!["[::1]:2022".to_string()],
        relay_mode: true,
        worker_pool_size: 3,
    };
    let node = NodeConfiguration::try_from(configuration).unwrap();
    assert_eq!(node.allow_schema_ids, AllowList::Members(vec![schema_id(SCHEMA)]));
    assert_eq!(node.database_url, "postgres://localhost");
    assert_eq!(node.database_max_connections, 5);
    assert_eq!(node.http_port, 1);
    assert_eq!(node.blobs_base_path, BlobsBasePath::Given("/var/blobs".to_string()));
    assert_eq!(node.worker_pool_size, 3);
    assert_eq!(node.network.quic_port, 2);
    assert!(!node.network.mdns);
    assert_eq!(node.network.direct_node_addresses, vec!["127.0.0.1:2022"]);
    assert_eq!(node.network.allow_peer_ids, AllowList::Members(vec![peer_id(PEER)]));
    assert_eq!(node.network.block_peer_ids, vec![peer_id(OTHER_PEER)]);
    assert_eq!(node.network.relay_addresses, vec!["[::1]:2022"]);
    assert!(node.network.relay_mode);
}

#[test]
fn invalid_schema_id_is_reported() {
    let mut configuration = Configuration::with_database_number(1);
    configuration.allow_schema_ids = members(&[SCHEMA, "venue", "blob"]);
    configuration.allow_peer_ids = members(&["nobody"]);
    let error = NodeConfiguration::try_from(configuration).unwrap_err();
    assert_eq!(error, ConfigurationError::InvalidSchemaId("venue".to_string()));
    assert_eq!(
        error.message(),
        "Invalid schema id 'venue' found in 'allow_schema_ids' list"
    );
}

#[test]
fn invalid_peer_id_is_reported() {
    let mut configuration = Configuration::with_database_number(1);
    configuration.allow_schema_ids = members(&[SCHEMA]);
    configuration.allow_peer_ids = members(&[PEER, "nobody"]);
    let error = NodeConfiguration::try_from(configuration).unwrap_err();
    assert_eq!(error, ConfigurationError::InvalidPeerId("nobody".to_string()));
    assert_eq!(
        error.message(),
        "Invalid peer id 'nobody' found in 'allow_peer_ids' list"
    );
}

#[test]
fn outcomes_of_both_checks_are_taken_over() {
    let invalid = NodeConfiguration::from_checked(
        Configuration::with_database_number(1),
        Err("schema".to_string()),
        Err("peer".to_string()),
    );
    assert_eq!(
        invalid.unwrap_err(),
        ConfigurationError::InvalidSchemaId("schema".to_string())
    );
    let valid = NodeConfiguration::from_checked(
        Configuration::with_database_number(1),
        Ok(AllowList::Members(vec![schema_id("blob_v1")])),
        Ok(AllowList::Members(Vec::new())),
    )
    .unwrap();
    assert_eq!(valid.allow_schema_ids, AllowList::Members(vec![schema_id("blob_v1")]));
    assert_eq!(valid.network.allow_peer_ids, AllowList::Members(Vec::new()));
}
