use aquadoggo_cli::allow_list::UncheckedAllowList;
use aquadoggo_cli::config::Configuration;
use aquadoggo_cli::ids::PeerId;
use aquadoggo_cli::sources::{load_config, merge_sources, CommandLine};
use figment::providers::Serialized;
use figment::value::{Empty, Value};
use figment::Figment;

const PEER: &str = "12D3KooWD3eckifWpRn9wQpMG9R9hX3sD158z7EqHWmweQAJU5SA";

fn text(figment: &Figment, name: &str) -> String {
    figment.extract_inner(name).unwrap()
}

fn port(figment: &Figment, name: &str) -> u16 {
    figment.extract_inner(name).unwrap()
}

fn flag(figment: &Figment, name: &str) -> bool {
    figment.extract_inner(name).unwrap()
}

fn list(figment: &Figment, name: &str) -> Vec<String> {
    figment.extract_inner(name).unwrap()
}

fn defaults() -> Configuration {
    Configuration::with_database_number(7)
}

#[test]
fn default_configuration_is_fixed() {
    let configuration = Configuration::with_database_number(42);
    assert_eq!(configuration.log_level, "off");
    assert_eq!(configuration.allow_schema_ids, UncheckedAllowList::Wildcard);
    assert_eq!(
        configuration.database_url,
        "sqlite://file:dbmem42?mode=memory&cache=shared"
    );
    assert_eq!(configuration.database_max_connections, 32);
    assert_eq!(configuration.http_port, 2020);
    assert_eq!(configuration.quic_port, 2022);
    assert_eq!(configuration.blobs_base_path, None);
    assert_eq!(configuration.private_key, None);
    assert!(configuration.mdns);
    assert!(configuration.direct_node_addresses.is_empty());
    assert_eq!(configuration.allow_peer_ids, UncheckedAllowList::Wildcard);
    assert!(configuration.block_peer_ids.is_empty());
    assert!(configuration.relay_addresses.is_empty());
    assert!(!configuration.relay_mode);
    assert_eq!(configuration.worker_pool_size, 16);
}

#[test]
fn default_databases_have_names_of_their_own() {
    let names: Vec<String> = (0..4).map(|_| Configuration::default().database_url).collect();
    for name in &names {
        assert!(name.starts_with("sqlite://file:dbmem"));
        assert!(name.ends_with("?mode=memory&cache=shared"));
    }
    assert!(names.iter().any(|name| *name != names[0]));
    assert_ne!(
        Configuration::with_database_number(1).database_url,
        Configuration::with_database_number(11).database_url
    );
}

#[test]
fn defaults_stand_where_nothing_is_set() {
    let all = merge_sources(&defaults(), None, Figment::new(), &CommandLine::default());
    assert_eq!(text(&all, "log_level"), "off");
    assert_eq!(text(&all, "allow_schema_ids"), "*");
    assert_eq!(text(&all, "database_url"), "sqlite://file:dbmem7?mode=memory&cache=shared");
    assert_eq!(port(&all, "database_max_connections"), 32);
    assert_eq!(port(&all, "http_port"), 2020);
    assert_eq!(port(&all, "quic_port"), 2022);
    assert_eq!(
        all.find_value("blobs_base_path").unwrap(),
        Value::from(Empty::None)
    );
    assert_eq!(all.find_value("private_key").unwrap(), Value::from(Empty::None));
    assert!(flag(&all, "mdns"));
    assert!(list(&all, "direct_node_addresses").is_empty());
    assert_eq!(text(&all, "allow_peer_ids"), "*");
    assert!(list(&all, "block_peer_ids").is_empty());
    assert!(list(&all, "relay_addresses").is_empty());
    assert!(!flag(&all, "relay_mode"));
    assert_eq!(port(&all, "worker_pool_size"), 16);
    assert!(!all.contains("config"));
}

#[test]
fn settings_hold_paths_and_ids() {
    let mut configuration = defaults();
    configuration.blobs_base_path = Some("blobs".to_string());
    configuration.private_key = Some("key".to_string());
    configuration.block_peer_ids = vec![PeerId::from_str(PEER).unwrap()];
    configuration.direct_node_addresses = vec!["127.0.0.1:1".to_string()];
    configuration.allow_schema_ids = UncheckedAllowList::Members(vec!["blob_v1".to_string()]);
    let all = configuration.settings();
    assert_eq!(text(&all, "blobs_base_path"), "blobs");
    assert_eq!(text(&all, "private_key"), "key");
    assert_eq!(list(&all, "block_peer_ids"), vec![PEER]);
    assert_eq!(list(&all, "direct_node_addresses"), vec!["127.0.0.1:1"]);
    assert_eq!(list(&all, "allow_schema_ids"), vec!["blob_v1"]);
}

#[test]
fn later_sources_take_precedence() {
    let toml = "http_port = 1\nquic_port = 1\nlog_level = \"file\"\nmdns = false\n";
    let environment = Figment::from(Serialized::default("http_port", 2u16))
        .merge(Serialized::default("quic_port", 2u16));
    let cli = CommandLine {
        http_port: Some(3),
        ..CommandLine::default()
    };
    let all = merge_sources(&defaults(), Some(toml), environment, &cli);
    assert_eq!(port(&all, "http_port"), 3);
    assert_eq!(port(&all, "quic_port"), 2);
    assert_eq!(text(&all, "log_level"), "file");
    assert!(!flag(&all, "mdns"));
    assert!(!flag(&all, "relay_mode"));
}

#[test]
fn lists_are_replaced_and_not_extended() {
    let toml = "relay_addresses = [\"10.0.0.1:1\", \"10.0.0.2:2\"]\n";
    let cli = CommandLine {
        relay_addresses: Some(vec!["10.0.0.3:3".to_string()]),
        ..CommandLine::default()
    };
    let all = merge_sources(&defaults(), Some(toml), Figment::new(), &cli);
    assert_eq!(list(&all, "relay_addresses"), vec!["10.0.0.3:3"]);
}

#[test]
fn arguments_that_are_not_given_change_nothing() {
    assert_eq!(CommandLine::default().settings().profiles().count(), 0);
    let toml = "database_url = \"sqlite:file.db\"\n";
    let all = load_config(Some(toml), Figment::new(), &CommandLine::default());
    assert_eq!(text(&all, "database_url"), "sqlite:file.db");
    assert_eq!(text(&all, "allow_peer_ids"), "*");
}

#[test]
fn all_arguments_are_handed_on() {
    let cli = CommandLine {
        config: Some("my.toml".to_string()),
        allow_schema_ids: Some(vec!["*".to_string()]),
        database_url: Some("postgres://db".to_string()),
        http_port: Some(65535),
        quic_port: Some(0),
        blobs_base_path: Some("blobs".to_string()),
        private_key: Some("key".to_string()),
        mdns: Some(false),
        direct_node_addresses: Some(vec!["127.0.0.1:1".to_string(), "[::1]:2".to_string()]),
        allow_peer_ids: Some(vec!["".to_string()]),
        block_peer_ids: Some(vec![PeerId::from_str(PEER).unwrap()]),
        relay_addresses: Some(Vec::new()),
        relay_mode: Some(true),
        log_level: Some("=TRACE".to_string()),
    };
    let all = cli.settings();
    assert_eq!(text(&all, "config"), "my.toml");
    assert_eq!(text(&all, "allow_schema_ids"), "*");
    assert_eq!(text(&all, "database_url"), "postgres://db");
    assert_eq!(port(&all, "http_port"), 65535);
    assert_eq!(port(&all, "quic_port"), 0);
    assert_eq!(text(&all, "blobs_base_path"), "blobs");
    assert_eq!(text(&all, "private_key"), "key");
    assert!(!flag(&all, "mdns"));
    assert_eq!(list(&all, "direct_node_addresses"), vec!["127.0.0.1:1", "[::1]:2"]);
    assert!(list(&all, "allow_peer_ids").is_empty());
    assert_eq!(list(&all, "block_peer_ids"), vec![PEER]);
    assert!(list(&all, "relay_addresses").is_empty());
    assert!(flag(&all, "relay_mode"));
    assert_eq!(text(&all, "log_level"), "=TRACE");
    assert!(!all.contains("worker_pool_size"));
    assert!(!all.contains("database_max_connections"));
}

#[test]
fn allow_lists_of_the_command_line_replace_those_of_the_file() {
    let toml = "allow_schema_ids = [\"blob_v1\"]\nallow_peer_ids = \"*\"\n";
    let cli = CommandLine {
        allow_schema_ids: Some(vec!["*".to_string()]),
        allow_peer_ids: Some(vec![PEER.to_string()]),
        ..CommandLine::default()
    };
    let all = load_config(Some(toml), Figment::new(), &cli);
    assert_eq!(text(&all, "allow_schema_ids"), "*");
    assert_eq!(list(&all, "allow_peer_ids"), vec![PEER]);
}

#[test]
fn settings_of_the_environment_replace_tables() {
    let toml = "[http_port]\nnumber = 1\n";
    let environment = Figment::from(Serialized::default("http_port", 9u16));
    let all = merge_sources(&defaults(), Some(toml), environment, &CommandLine::default());
    assert_eq!(port(&all, "http_port"), 9);
}

#[test]
fn broken_file_leaves_no_settings() {
    let all = load_config(Some("http_port = "), Figment::new(), &CommandLine::default());
    assert!(all.extract_inner::<u16>("http_port").is_err());
}

#[test]
fn default_database_is_random() {
    let all = load_config(None, Figment::new(), &CommandLine::default());
    let url = text(&all, "database_url");
    let number = url
        .strip_prefix("sqlite://file:dbmem")
        .unwrap()
        .strip_suffix("?mode=memory&cache=shared")
        .unwrap();
    assert!(number.parse::<u32>().is_ok());
}
