//! Settings of the node: what a configuration holds and the defaults that
//! stand in for what it leaves out.

use crate::address::{parse_socket_address, socket_address_accepted};
use crate::paths::{home_dir, join_path};
use crate::text::{lowercase, text_or, text_or_default, to_lowercase, decimal, push_decimal};
use ldk_node::lightning::ln::msgs::SocketAddress;
use vstd::prelude::*;
use vstd::string::StringExecFns;

verus! {

/// Name of the configuration file.
pub const CONFIG_FILENAME: &'static str = "config.toml";

/// Name of the directory below the user's home in which the node keeps its
/// files.
pub const HOME_DIR_NAME: &'static str = ".cdk-ldk-node";

/// Name of the directory, below [`HOME_DIR_NAME`], in which the node keeps
/// its data.
pub const STORAGE_DIR_NAME: &'static str = "ldk-node";

/// Prefix of the environment variables that override the configuration
/// file.
pub const ENV_PREFIX: &'static str = "CDK_LDK_NODE";

/// The alias under which the node announces itself.
pub const NODE_ALIAS: &'static str = "cdk-ldk-node";

pub const ENV_LN_BACKEND: &'static str = "CDK_PAYMENT_PROCESSOR_LN_BACKEND";

pub const ENV_LISTEN_HOST: &'static str = "CDK_PAYMENT_PROCESSOR_LISTEN_HOST";

pub const ENV_LISTEN_PORT: &'static str = "CDK_PAYMENT_PROCESSOR_LISTEN_PORT";

pub const ENV_PAYMENT_PROCESSOR_TLS_DIR: &'static str = "CDK_PAYMENT_PROCESSOR_TLS_DIR";

pub const ENV_GRPC_HOST: &'static str = "CDK_GRPC_HOST";

pub const ENV_GRPC_PORT: &'static str = "CDK_GRPC_PORT";

pub const ENV_CHAIN_SOURCE: &'static str = "CDK_CHAIN_SOURCE";

pub const ENV_ESPLORA_URL: &'static str = "CDK_ESPLORA_URL";

pub const ENV_BITCOIN_RPC_HOST: &'static str = "CDK_BITCOIN_RPC_HOST";

pub const ENV_BITCOIN_RPC_PORT: &'static str = "CDK_BITCOIN_RPC_PORT";

pub const ENV_BITCOIN_RPC_USER: &'static str = "CDK_BITCOIN_RPC_USER";

pub const ENV_BITCOIN_RPC_PASS: &'static str = "CDK_BITCOIN_RPC_PASS";

pub const ENV_BITCOIN_NETWORK: &'static str = "CDK_BITCOIN_NETWORK";

pub const ENV_STORAGE_DIR_PATH: &'static str = "CDK_STORAGE_DIR_PATH";

pub const ENV_LDK_NODE_HOST: &'static str = "CDK_LDK_NODE_HOST";

pub const ENV_LDK_NODE_PORT: &'static str = "CDK_LDK_NODE_PORT";

pub const ENV_GOSSIP_SOURCE_TYPE: &'static str = "CDK_GOSSIP_SOURCE_TYPE";

pub const ENV_RGS_URL: &'static str = "CDK_RGS_URL";

/// Which configuration file is read.
#[derive(Debug, Clone, Copy, PartialEq, Eq)]
pub enum ConfigFile {
    /// The one in the node's directory below the user's home.
    Home,
    /// The one in the current directory.
    CurrentDir,
    /// None: the defaults stand, and the default file is written to the
    /// node's directory for a later run.
    Missing,
}

/// Chooses the configuration file: the one below the user's home where it
/// exists, else the one in the current directory where that exists.
pub fn choose_config_file(home_file_exists: bool, current_file_exists: bool) -> (choice: ConfigFile)
    ensures
        choice == if home_file_exists {
            ConfigFile::Home
        } else if current_file_exists {
            ConfigFile::CurrentDir
        } else {
            ConfigFile::Missing
        },
{
    if home_file_exists {
        ConfigFile::Home
    } else if current_file_exists {
        ConfigFile::CurrentDir
    } else {
        ConfigFile::Missing
    }
}

/// Payment processor settings.
#[derive(Debug, Clone, Default)]
pub struct PaymentProcessorConfig {
    /// Host to listen on.
    pub listen_host: Option<String>,
    /// Port to listen on.
    pub listen_port: Option<u16>,
    /// Directory of the TLS certificates.
    pub tls_dir: Option<String>,
}

/// Access to a Bitcoin Core RPC endpoint, as configured.
#[derive(Debug, Clone, Default)]
pub struct BitcoinRpcConfigInternal {
    /// RPC host.
    pub host: Option<String>,
    /// RPC port.
    pub port: Option<u16>,
    /// RPC user name.
    pub user: Option<String>,
    /// RPC password.
    pub password: Option<String>,
}

/// Chain source settings.
#[derive(Debug, Clone, Default)]
pub struct ChainSourceConfig {
    /// Kind of chain source: `esplora` or `bitcoinrpc`.
    pub source_type: Option<String>,
    /// Esplora URL.
    pub esplora_url: Option<String>,
    /// Bitcoin RPC settings.
    pub bitcoinrpc: BitcoinRpcConfigInternal,
}

/// Network settings.
#[derive(Debug, Clone, Default)]
pub struct NetworkConfig {
    /// Bitcoin network: `mainnet`, `testnet`, `signet` or `regtest`.
    pub bitcoin_network: Option<String>,
}

/// Settings of the management interface.
#[derive(Debug, Clone, Default)]
pub struct GrpcConfig {
    /// Host of the management interface.
    pub host: Option<String>,
    /// Port of the management interface.
    pub port: Option<String>,
}

/// Storage settings.
#[derive(Debug, Clone, Default)]
pub struct StorageConfig {
    /// Directory in which the node keeps its data.
    pub dir_path: Option<String>,
}

/// Settings of the Lightning node's own listener.
#[derive(Debug, Clone, Default)]
pub struct LdkNodeConfig {
    /// Host to listen on.
    pub host: Option<String>,
    /// Port to listen on.
    pub port: Option<u16>,
}

/// Gossip source settings.
#[derive(Debug, Clone, Default)]
pub struct GossipSourceConfig {
    /// URL of a rapid gossip sync server.
    pub rgs_url: Option<String>,
}

/// All settings of the node.
#[derive(Debug, Clone, Default)]
pub struct Config {
    /// Payment processor settings.
    pub payment_processor: PaymentProcessorConfig,
    /// Chain source settings.
    pub chain_source: ChainSourceConfig,
    /// Network settings.
    pub network: NetworkConfig,
    /// Settings of the management interface.
    pub grpc: GrpcConfig,
    /// Storage settings.
    pub storage: StorageConfig,
    /// Settings of the Lightning node's own listener.
    pub ldk_node: LdkNodeConfig,
    /// Gossip source settings.
    pub gossip_source: GossipSourceConfig,
}

/// Access to a Bitcoin Core RPC endpoint.
#[derive(Debug, Clone)]
pub struct BitcoinRpcConfig {
    pub host: String,
    pub port: u16,
    pub user: String,
    pub password: String,
}

/// Where the node learns of the chain.
#[derive(Debug, Clone)]
pub enum ChainSource {
    /// An Esplora server, by URL.
    Esplora(String),
    /// A Bitcoin Core RPC endpoint.
    BitcoinRpc(BitcoinRpcConfig),
}

/// Where the node learns of the channel graph.
#[derive(Debug, Clone)]
pub enum GossipSource {
    /// From its peers.
    P2P,
    /// From a rapid gossip sync server, by URL.
    RapidGossipSync(String),
}

/// The Bitcoin network a node runs on.
#[derive(Debug, Clone, Copy, PartialEq, Eq)]
pub enum Network {
    Bitcoin,
    Testnet,
    Signet,
    Regtest,
}

/// Why a setting cannot be used.
#[derive(Debug, Clone, Copy, PartialEq, Eq)]
pub enum ConfigError {
    /// Host and port do not make up the address of a Lightning node.
    InvalidSocketAddress,
}

/// The mathematical value of a [`ChainSource`].
pub enum ChainSourceView {
    Esplora(Seq<char>),
    BitcoinRpc { host: Seq<char>, port: u16, user: Seq<char>, password: Seq<char> },
}

impl View for ChainSource {
    type V = ChainSourceView;

    open spec fn view(&self) -> ChainSourceView {
        match self {
            ChainSource::Esplora(url) => ChainSourceView::Esplora(url@),
            ChainSource::BitcoinRpc(rpc) => ChainSourceView::BitcoinRpc {
                host: rpc.host@,
                port: rpc.port,
                user: rpc.user@,
                password: rpc.password@,
            },
        }
    }
}

/// A port, or `default` where none is held.
pub open spec fn port_or_default(port: Option<u16>, default: u16) -> u16 {
    match port {
        Some(p) => p,
        None => default,
    }
}

/// The network that a configured name stands for: `mainnet` and `bitcoin`
/// in any case for the main network, `testnet` and `signet` for theirs, and
/// the regression test network for every other name and for none.
pub open spec fn network_of(name: Option<String>) -> Network {
    let lower = lowercase(text_or_default(name, "regtest"@));
    if lower == "mainnet"@ || lower == "bitcoin"@ {
        Network::Bitcoin
    } else if lower == "testnet"@ {
        Network::Testnet
    } else if lower == "signet"@ {
        Network::Signet
    } else {
        Network::Regtest
    }
}

/// Host and port as one text, with a colon between them.
pub open spec fn host_and_port(host: Seq<char>, port: Seq<char>) -> Seq<char> {
    host + seq![':'] + port
}

impl Config {
    /// The chain source that the settings ask for, as a mathematical value:
    /// Bitcoin Core RPC where the configured kind is `bitcoinrpc` in any
    /// case, Esplora otherwise; each missing part takes its default.
    pub open spec fn chain_source_spec(&self) -> ChainSourceView {
        let kind = lowercase(text_or_default(self.chain_source.source_type, "esplora"@));
        if kind == "bitcoinrpc"@ {
            ChainSourceView::BitcoinRpc {
                host: text_or_default(self.chain_source.bitcoinrpc.host, "127.0.0.1"@),
                port: port_or_default(self.chain_source.bitcoinrpc.port, 18443),
                user: text_or_default(self.chain_source.bitcoinrpc.user, "testuser"@),
                password: text_or_default(self.chain_source.bitcoinrpc.password, "testpass"@),
            }
        } else {
            ChainSourceView::Esplora(
                text_or_default(self.chain_source.esplora_url, "https://mutinynet.com/api"@),
            )
        }
    }

    /// The text of the Lightning node's listening address.
    pub open spec fn ldk_node_listen_text(&self) -> Seq<char> {
        host_and_port(
            text_or_default(self.ldk_node.host, "127.0.0.1"@),
            decimal(port_or_default(self.ldk_node.port, 8090) as nat),
        )
    }

    /// Host on which the payment processor listens.
    pub fn payment_processor_listen_host(&self) -> (host: String)
        ensures
            host@ == text_or_default(self.payment_processor.listen_host, "127.0.0.1"@),
    {
        text_or(&self.payment_processor.listen_host, "127.0.0.1")
    }

    /// Port on which the payment processor listens.
    pub fn payment_processor_listen_port(&self) -> (port: u16)
        ensures
            port == port_or_default(self.payment_processor.listen_port, 8089),
    {
        match self.payment_processor.listen_port {
            Some(port) => port,
            None => 8089,
        }
    }

    /// Directory of the payment processor's TLS certificates, if one is set.
    pub fn payment_processor_tls_dir(&self) -> (dir: Option<String>)
        ensures
            dir is Some <==> self.payment_processor.tls_dir is Some,
            dir is Some ==> dir->0@ == self.payment_processor.tls_dir->0@,
    {
        match &self.payment_processor.tls_dir {
            Some(dir) => Some(dir.clone()),
            None => None,
        }
    }

    /// The chain source that the settings ask for.
    pub fn chain_source(&self) -> (source: ChainSource)
        ensures
            source@ == self.chain_source_spec(),
    {
        let source_type = text_or(&self.chain_source.source_type, "esplora");
        let kind = to_lowercase(source_type.as_str());
        if kind == String::from_str("bitcoinrpc") {
            let host = text_or(&self.chain_source.bitcoinrpc.host, "127.0.0.1");
            let port = match self.chain_source.bitcoinrpc.port {
                Some(port) => port,
                None => 18443,
            };
            let user = text_or(&self.chain_source.bitcoinrpc.user, "testuser");
            let password = text_or(&self.chain_source.bitcoinrpc.password, "testpass");
            ChainSource::BitcoinRpc(BitcoinRpcConfig { host, port, user, password })
        } else {
            ChainSource::Esplora(
                text_or(&self.chain_source.esplora_url, "https://mutinynet.com/api"),
            )
        }
    }

    /// The Bitcoin network that the settings name.
    pub fn bitcoin_network(&self) -> (network: Network)
        ensures
            network == network_of(self.network.bitcoin_network),
    {
        let name = text_or(&self.network.bitcoin_network, "regtest");
        let lower = to_lowercase(name.as_str());
        if lower == String::from_str("mainnet") || lower == String::from_str("bitcoin") {
            Network::Bitcoin
        } else if lower == String::from_str("testnet") {
            Network::Testnet
        } else if lower == String::from_str("signet") {
            Network::Signet
        } else {
            Network::Regtest
        }
    }

    /// The directory in which the node keeps its data: the configured one,
    /// or `fallback` where none is configured.
    pub fn storage_dir_path_or(&self, fallback: String) -> (dir: String)
        ensures
            dir@ == text_or_default(self.storage.dir_path, fallback@),
    {
        match &self.storage.dir_path {
            Some(dir) => dir.clone(),
            None => fallback,
        }
    }

    /// The directory in which the node keeps its data: the configured one,
    /// or `.cdk-ldk-node/ldk-node` below the user's home directory (below
    /// the current directory where no home is known).
    pub fn storage_dir_path(&self) -> (dir: String)
        ensures
            self.storage.dir_path is Some ==> dir@ == self.storage.dir_path->0@,
    {
        let home = match home_dir() {
            Some(home) => home,
            None => String::from_str("."),
        };
        let base = join_path(home.as_str(), HOME_DIR_NAME);
        let fallback = join_path(base.as_str(), STORAGE_DIR_NAME);
        self.storage_dir_path_or(fallback)
    }

    /// The address on which the Lightning node listens: the configured host
    /// and port, `127.0.0.1` and 8090 where they are missing, read as a
    /// node address.
    pub fn ldk_node_listen_addr(&self) -> (r: Result<SocketAddress, ConfigError>)
        ensures
            r is Ok <==> socket_address_accepted(self.ldk_node_listen_text()),
            r is Err ==> r->Err_0 == ConfigError::InvalidSocketAddress,
    {
        let mut text = text_or(&self.ldk_node.host, "127.0.0.1");
        let port: u16 = match self.ldk_node.port {
            Some(port) => port,
            None => 8090,
        };
        proof {
            reveal_strlit(":");
        }
        text.append(":");
        push_decimal(&mut text, port as u64);
        assert(text@ =~= self.ldk_node_listen_text());
        match parse_socket_address(text.as_str()) {
            Ok(addr) => Ok(addr),
            Err(_) => Err(ConfigError::InvalidSocketAddress),
        }
    }

    /// The gossip source: rapid gossip sync where a URL is set, peers
    /// otherwise.
    pub fn gossip_source(&self) -> (source: GossipSource)
        ensures
            match self.gossip_source.rgs_url {
                Some(url) => source matches GossipSource::RapidGossipSync(u) && u@ == url@,
                None => source is P2P,
            },
    {
        match &self.gossip_source.rgs_url {
            Some(url) => GossipSource::RapidGossipSync(url.clone()),
            None => GossipSource::P2P,
        }
    }

    /// Host of the management interface.
    pub fn grpc_host(&self) -> (host: String)
        ensures
            host@ == text_or_default(self.grpc.host, "127.0.0.1"@),
    {
        text_or(&self.grpc.host, "127.0.0.1")
    }

    /// Port of the management interface.
    pub fn grpc_port(&self) -> (port: String)
        ensures
            port@ == text_or_default(self.grpc.port, "50051"@),
    {
        text_or(&self.grpc.port, "50051")
    }

    /// The text of the management interface's socket address: host, colon,
    /// port.
    pub fn grpc_socket_addr(&self) -> (addr: String)
        ensures
            addr@ == host_and_port(
                text_or_default(self.grpc.host, "127.0.0.1"@),
                text_or_default(self.grpc.port, "50051"@),
            ),
    {
        let mut addr = self.grpc_host();
        let port = self.grpc_port();
        proof {
            reveal_strlit(":");
        }
        addr.append(":");
        addr.append(port.as_str());
        assert(addr@ =~= host_and_port(
            text_or_default(self.grpc.host, "127.0.0.1"@),
            text_or_default(self.grpc.port, "50051"@),
        ));
        addr
    }
}

} // verus!
