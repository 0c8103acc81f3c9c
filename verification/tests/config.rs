use cdk_ldk_node::config::{
    choose_config_file, ChainSource, Config, ConfigError, ConfigFile, GossipSource, Network,
};

#[test]
fn defaults_stand_in_for_what_is_missing() {
    let config = Config::default();
    assert_eq!(config.payment_processor_listen_host(), "127.0.0.1");
    assert_eq!(config.payment_processor_listen_port(), 8089);
    assert_eq!(config.payment_processor_tls_dir(), None);
    assert_eq!(config.grpc_host(), "127.0.0.1");
    assert_eq!(config.grpc_port(), "50051");
    assert_eq!(config.grpc_socket_addr(), "127.0.0.1:50051");
    assert_eq!(config.bitcoin_network(), Network::Regtest);
    assert!(matches!(config.gossip_source(), GossipSource::P2P));
    match config.chain_source() {
        ChainSource::Esplora(url) => assert_eq!(url, "https://mutinynet.com/api"),
        other => panic!("unexpected chain source {:?}", other),
    }
}

#[test]
fn configured_values_are_used() {
    let mut config = Config::default();
    config.payment_processor.listen_host = Some("0.0.0.0".to_string());
    config.payment_processor.listen_port = Some(9000);
    config.payment_processor.tls_dir = Some("/etc/tls".to_string());
    config.grpc.host = Some("10.0.0.1".to_string());
    config.grpc.port = Some("6000".to_string());
    config.gossip_source.rgs_url = Some("https://rgs.example".to_string());
    assert_eq!(config.payment_processor_listen_host(), "0.0.0.0");
    assert_eq!(config.payment_processor_listen_port(), 9000);
    assert_eq!(
        config.payment_processor_tls_dir(),
        Some("/etc/tls".to_string())
    );
    assert_eq!(config.grpc_host(), "10.0.0.1");
    assert_eq!(config.grpc_port(), "6000");
    assert_eq!(config.grpc_socket_addr(), "10.0.0.1:6000");
    match config.gossip_source() {
        GossipSource::RapidGossipSync(url) => assert_eq!(url, "https://rgs.example"),
        other => panic!("unexpected gossip source {:?}", other),
    }
}

#[test]
fn chain_source_bitcoinrpc_in_any_case() {
    let mut config = Config::default();
    config.chain_source.source_type = Some("BitcoinRPC".to_string());
    match config.chain_source() {
        ChainSource::BitcoinRpc(rpc) => {
            assert_eq!(rpc.host, "127.0.0.1");
            assert_eq!(rpc.port, 18443);
            assert_eq!(rpc.user, "testuser");
            assert_eq!(rpc.password, "testpass");
        }
        other => panic!("unexpected chain source {:?}", other),
    }
    config.chain_source.bitcoinrpc.host = Some("node.local".to_string());
    config.chain_source.bitcoinrpc.port = Some(8332);
    config.chain_source.bitcoinrpc.user = Some("alice".to_string());
    config.chain_source.bitcoinrpc.password = Some("secret".to_string());
    match config.chain_source() {
        ChainSource::BitcoinRpc(rpc) => {
            assert_eq!(rpc.host, "node.local");
            assert_eq!(rpc.port, 8332);
            assert_eq!(rpc.user, "alice");
            assert_eq!(rpc.password, "secret");
        }
        other => panic!("unexpected chain source {:?}", other),
    }
}

#[test]
fn chain_source_is_esplora_for_any_other_kind() {
    let mut config = Config::default();
    config.chain_source.source_type = Some("electrum".to_string());
    config.chain_source.esplora_url = Some("https://esplora.example".to_string());
    match config.chain_source() {
        ChainSource::Esplora(url) => assert_eq!(url, "https://esplora.example"),
        other => panic!("unexpected chain source {:?}", other),
    }
}

#[test]
fn network_names_are_read_in_any_case() {
    let mut config = Config::default();
    for (name, network) in [
        ("mainnet", Network::Bitcoin),
        ("MainNet", Network::Bitcoin),
        ("bitcoin", Network::Bitcoin),
        ("BITCOIN", Network::Bitcoin),
        ("testnet", Network::Testnet),
        ("Testnet", Network::Testnet),
        ("signet", Network::Signet),
        ("SIGNET", Network::Signet),
        ("regtest", Network::Regtest),
        ("anything", Network::Regtest),
        ("", Network::Regtest),
    ] {
        config.network.bitcoin_network = Some(name.to_string());
        assert_eq!(config.bitcoin_network(), network, "{}", name);
    }
}

#[test]
fn storage_dir_is_the_configured_one() {
    let mut config = Config::default();
    config.storage.dir_path = Some("/var/lib/node".to_string());
    assert_eq!(config.storage_dir_path(), "/var/lib/node");
    assert_eq!(
        config.storage_dir_path_or("/fallback".to_string()),
        "/var/lib/node"
    );
}

#[test]
fn storage_dir_falls_back() {
    let config = Config::default();
    assert_eq!(
        config.storage_dir_path_or("/fallback".to_string()),
        "/fallback"
    );
    let dir = config.storage_dir_path();
    assert!(dir.contains(".cdk-ldk-node"));
    assert!(dir.ends_with("ldk-node"));
}

#[test]
fn listen_address_of_the_defaults() {
    let config = Config::default();
    let addr = config.ldk_node_listen_addr().expect("default address");
    assert_eq!(addr.to_string(), "127.0.0.1:8090");
}

#[test]
fn listen_address_of_configured_host_and_port() {
    let mut config = Config::default();
    config.ldk_node.host = Some("192.168.1.7".to_string());
    config.ldk_node.port = Some(9735);
    let addr = config.ldk_node_listen_addr().expect("configured address");
    assert_eq!(addr.to_string(), "192.168.1.7:9735");
    config.ldk_node.host = Some("node.example.com".to_string());
    let addr = config.ldk_node_listen_addr().expect("host name");
    assert_eq!(addr.to_string(), "node.example.com:9735");
}

#[test]
fn listen_address_that_is_none() {
    let mut config = Config::default();
    config.ldk_node.host = Some("not a host".to_string());
    assert_eq!(
        config.ldk_node_listen_addr().err(),
        Some(ConfigError::InvalidSocketAddress)
    );
}

#[test]
fn config_file_is_chosen_in_order() {
    assert_eq!(choose_config_file(true, true), ConfigFile::Home);
    assert_eq!(choose_config_file(true, false), ConfigFile::Home);
    assert_eq!(choose_config_file(false, true), ConfigFile::CurrentDir);
    assert_eq!(choose_config_file(false, false), ConfigFile::Missing);
}
