//! The staged configuration builder.
//!
//! A builder accumulates an entropy source, a chain source, a storage
//! path, a network, a listening address, a gossip source and a log level,
//! then `build()` turns it into a [`Node`] exactly once. Every setter is
//! deterministic: the entropy source and the gossip source are
//! discriminated choices where a new selection supersedes the old one
//! entirely, and every other field is last-write-wins.

use vstd::prelude::*;

use crate::engine::mnemonic_parses;
use crate::engine::mnemonic_wf;
use crate::errors::BoundaryError;
use crate::errors::BuildErrorKind;
use crate::errors::ErrorKind;
use crate::errors::MalformedKind;
use crate::errors::build_error;
use crate::errors::error_wf;
use crate::errors::malformed;
use crate::node::BuildPlan;
use crate::node::LifecycleState;
use crate::node::Node;
use crate::values::LogLevel;
use crate::values::NetAddress;
use crate::values::Network;

verus! {

/// The number of seed bytes the engine's wallet keys are derived from.
pub const WALLET_KEYS_SEED_LEN: usize = 64;

/// Exactly one source of wallet entropy: a seed file on disk, raw seed
/// bytes, or a mnemonic sentence with an optional passphrase.
#[derive(Debug, PartialEq, Eq)]
pub enum EntropySource {
    SeedFile(String),
    SeedBytes(Vec<u8>),
    Bip39Mnemonic { mnemonic: String, passphrase: Option<String> },
}

/// Where the node sources its gossip data: the peer-to-peer network or a
/// rapid-gossip-sync server.
#[derive(Debug, PartialEq, Eq)]
pub enum GossipSource {
    P2PNetwork,
    RapidGossipSync(String),
}

/// A complete, validated node configuration.
#[derive(Debug)]
pub struct Config {
    pub storage_dir_path: String,
    pub network: Network,
    pub listening_address: NetAddress,
    pub default_cltv_expiry_delta: u32,
    pub onchain_wallet_sync_interval_secs: u64,
    pub wallet_sync_interval_secs: u64,
    pub fee_rate_cache_update_interval_secs: u64,
    pub log_level: LogLevel,
}

impl Config {
    /// A configuration with the given fields; the sync intervals are
    /// widened losslessly to the engine's 64 bits.
    pub fn new(
        storage_dir_path: String,
        network: Network,
        listening_address: &NetAddress,
        default_cltv_expiry_delta: u32,
        onchain_wallet_sync_interval_secs: u32,
        wallet_sync_interval_secs: u32,
        fee_rate_cache_update_interval_secs: u32,
        log_level: LogLevel,
    ) -> (r: Result<Config, BoundaryError>)
        ensures
            r matches Ok(c) ==> {
                &&& c.storage_dir_path@ == storage_dir_path@
                &&& c.network == network
                &&& c.listening_address == *listening_address
                &&& c.default_cltv_expiry_delta == default_cltv_expiry_delta
                &&& c.onchain_wallet_sync_interval_secs == onchain_wallet_sync_interval_secs as u64
                &&& c.wallet_sync_interval_secs == wallet_sync_interval_secs as u64
                &&& c.fee_rate_cache_update_interval_secs == fee_rate_cache_update_interval_secs as u64
                &&& c.log_level == log_level
            },
            r is Ok,
    {
        Ok(
            Config {
                storage_dir_path,
                network,
                listening_address: listening_address.duplicate(),
                default_cltv_expiry_delta,
                onchain_wallet_sync_interval_secs: onchain_wallet_sync_interval_secs as u64,
                wallet_sync_interval_secs: wallet_sync_interval_secs as u64,
                fee_rate_cache_update_interval_secs: fee_rate_cache_update_interval_secs as u64,
                log_level,
            },
        )
    }
}

/// The staged builder: `Empty` at creation, accumulating through the
/// setters, consumed by the first successful `build()`.
#[derive(Debug)]
pub struct Builder {
    pub entropy: Option<EntropySource>,
    pub chain_source_esplora: Option<String>,
    pub gossip_source: Option<GossipSource>,
    pub storage_dir_path: Option<String>,
    pub network: Network,
    pub listening_address: Option<NetAddress>,
    pub log_level: LogLevel,
    pub default_cltv_expiry_delta: u32,
    pub onchain_wallet_sync_interval_secs: u64,
    pub wallet_sync_interval_secs: u64,
    pub fee_rate_cache_update_interval_secs: u64,
    pub consumed: bool,
}

/// The plan carries exactly what the builder had accumulated when it was
/// built.
pub open spec fn plan_matches_builder(p: BuildPlan, b: Builder) -> bool {
    &&& (b.entropy matches Some(e) && p.entropy == e)
    &&& p.chain_source_esplora == b.chain_source_esplora
    &&& p.gossip_source == b.gossip_source
    &&& (b.storage_dir_path matches Some(s) && p.storage_dir_path == s)
    &&& p.network == b.network
    &&& p.listening_address == b.listening_address
    &&& p.log_level == b.log_level
    &&& p.default_cltv_expiry_delta == b.default_cltv_expiry_delta
    &&& p.onchain_wallet_sync_interval_secs == b.onchain_wallet_sync_interval_secs
    &&& p.wallet_sync_interval_secs == b.wallet_sync_interval_secs
    &&& p.fee_rate_cache_update_interval_secs == b.fee_rate_cache_update_interval_secs
}

impl Builder {
    /// An empty builder with the engine's default configuration: network
    /// Bitcoin, log level Debug, the engine's default expiry delta and
    /// sync intervals, and nothing else chosen yet.
    pub fn new() -> (r: Builder)
        ensures
            r.entropy is None,
            r.chain_source_esplora is None,
            r.gossip_source is None,
            r.storage_dir_path is None,
            r.network == Network::Bitcoin,
            r.listening_address is None,
            r.log_level == LogLevel::Debug,
            r.default_cltv_expiry_delta == 144,
            r.onchain_wallet_sync_interval_secs == 80,
            r.wallet_sync_interval_secs == 30,
            r.fee_rate_cache_update_interval_secs == 600,
            !r.consumed,
    {
        Builder {
            entropy: None,
            chain_source_esplora: None,
            gossip_source: None,
            storage_dir_path: None,
            network: Network::Bitcoin,
            listening_address: None,
            log_level: LogLevel::Debug,
            default_cltv_expiry_delta: 144,
            onchain_wallet_sync_interval_secs: 80,
            wallet_sync_interval_secs: 30,
            fee_rate_cache_update_interval_secs: 600,
            consumed: false,
        }
    }

    /// A builder seeded from a complete configuration, with no entropy,
    /// chain or gossip source chosen yet.
    pub fn from_config(config: &Config) -> (r: Builder)
        ensures
            r.entropy is None,
            r.chain_source_esplora is None,
            r.gossip_source is None,
            r.storage_dir_path matches Some(s) && s@ == config.storage_dir_path@,
            r.network == config.network,
            r.listening_address == Some(config.listening_address),
            r.log_level == config.log_level,
            r.default_cltv_expiry_delta == config.default_cltv_expiry_delta,
            r.onchain_wallet_sync_interval_secs == config.onchain_wallet_sync_interval_secs,
            r.wallet_sync_interval_secs == config.wallet_sync_interval_secs,
            r.fee_rate_cache_update_interval_secs == config.fee_rate_cache_update_interval_secs,
            !r.consumed,
    {
        Builder {
            entropy: None,
            chain_source_esplora: None,
            gossip_source: None,
            storage_dir_path: Some(config.storage_dir_path.clone()),
            network: config.network,
            listening_address: Some(config.listening_address.duplicate()),
            log_level: config.log_level,
            default_cltv_expiry_delta: config.default_cltv_expiry_delta,
            onchain_wallet_sync_interval_secs: config.onchain_wallet_sync_interval_secs,
            wallet_sync_interval_secs: config.wallet_sync_interval_secs,
            fee_rate_cache_update_interval_secs: config.fee_rate_cache_update_interval_secs,
            consumed: false,
        }
    }

    /// Choose a seed file as the entropy source, superseding any source
    /// chosen before.
    pub fn set_entropy_seed_path(&mut self, seed_path: String) -> (r: Result<bool, BoundaryError>)
        ensures
            r == Ok::<bool, BoundaryError>(true),
            *final(self) == (Builder {
                entropy: Some(EntropySource::SeedFile(seed_path)),
                ..*old(self)
            }),
    {
        self.entropy = Some(EntropySource::SeedFile(seed_path));
        Ok(true)
    }

    /// Choose raw seed bytes as the entropy source, superseding any source
    /// chosen before; exactly 64 bytes are accepted, as the engine
    /// requires.
    pub fn set_entropy_seed_bytes(&mut self, seed_bytes: Vec<u8>) -> (r: Result<
        bool,
        BoundaryError,
    >)
        ensures
            r is Ok <==> seed_bytes@.len() == WALLET_KEYS_SEED_LEN,
            r is Ok ==> r == Ok::<bool, BoundaryError>(true) && *final(self) == (Builder {
                entropy: Some(EntropySource::SeedBytes(seed_bytes)),
                ..*old(self)
            }),
            r matches Err(e) ==> *final(self) == *old(self) && e.kind == ErrorKind::Build(
                BuildErrorKind::InvalidSeedBytes,
            ) && error_wf(e) && e.message@ == "Given seed bytes are invalid."@,
    {
        if seed_bytes.len() != WALLET_KEYS_SEED_LEN {
            return Err(
                build_error(
                    BuildErrorKind::InvalidSeedBytes,
                    "Given seed bytes are invalid.".to_owned(),
                ),
            );
        }
        self.entropy = Some(EntropySource::SeedBytes(seed_bytes));
        Ok(true)
    }

    /// Choose a mnemonic sentence as the entropy source, superseding any
    /// source chosen before; the sentence must parse as a valid mnemonic.
    pub fn set_entropy_bip39_mnemonic(&mut self, mnemonic: String, passphrase: Option<String>) -> (
        r: Result<bool, BoundaryError>)
        ensures
            r is Ok <==> mnemonic_wf(mnemonic@),
            r is Ok ==> r == Ok::<bool, BoundaryError>(true) && *final(self) == (Builder {
                entropy: Some(EntropySource::Bip39Mnemonic { mnemonic, passphrase }),
                ..*old(self)
            }),
            r matches Err(e) ==> *final(self) == *old(self) && e.kind == ErrorKind::Malformed(
                MalformedKind::BadMnemonic,
            ) && error_wf(e),
    {
        if !mnemonic_parses(mnemonic.as_str()) {
            return Err(malformed(MalformedKind::BadMnemonic));
        }
        self.entropy = Some(EntropySource::Bip39Mnemonic { mnemonic, passphrase });
        Ok(true)
    }

    /// Source chain data from the given Esplora server; last write wins.
    pub fn set_esplora_server(&mut self, url: String) -> (r: Result<bool, BoundaryError>)
        ensures
            r == Ok::<bool, BoundaryError>(true),
            *final(self) == (Builder { chain_source_esplora: Some(url), ..*old(self) }),
    {
        self.chain_source_esplora = Some(url);
        Ok(true)
    }

    /// Source gossip from the peer-to-peer network, superseding any gossip
    /// source chosen before.
    pub fn set_gossip_source_p2p(&mut self) -> (r: Result<bool, BoundaryError>)
        ensures
            r == Ok::<bool, BoundaryError>(true),
            *final(self) == (Builder {
                gossip_source: Some(GossipSource::P2PNetwork),
                ..*old(self)
            }),
    {
        self.gossip_source = Some(GossipSource::P2PNetwork);
        Ok(true)
    }

    /// Source gossip from a rapid-gossip-sync server, superseding any
    /// gossip source chosen before.
    pub fn set_gossip_source_rgs(&mut self, rgs_server_url: String) -> (r: Result<
        bool,
        BoundaryError,
    >)
        ensures
            r == Ok::<bool, BoundaryError>(true),
            *final(self) == (Builder {
                gossip_source: Some(GossipSource::RapidGossipSync(rgs_server_url)),
                ..*old(self)
            }),
    {
        self.gossip_source = Some(GossipSource::RapidGossipSync(rgs_server_url));
        Ok(true)
    }

    /// Set the storage directory; last write wins.
    pub fn set_storage_dir_path(&mut self, storage_dir_path: String) -> (r: Result<
        bool,
        BoundaryError,
    >)
        ensures
            r == Ok::<bool, BoundaryError>(true),
            *final(self) == (Builder {
                storage_dir_path: Some(storage_dir_path),
                ..*old(self)
            }),
    {
        self.storage_dir_path = Some(storage_dir_path);
        Ok(true)
    }

    /// Set the network; last write wins.
    pub fn set_network(&mut self, network: Network) -> (r: Result<bool, BoundaryError>)
        ensures
            r == Ok::<bool, BoundaryError>(true),
            *final(self) == (Builder { network, ..*old(self) }),
    {
        self.network = network;
        Ok(true)
    }

    /// Set the listening address; last write wins.
    pub fn set_listening_address(&mut self, listening_address: &NetAddress) -> (r: Result<
        bool,
        BoundaryError,
    >)
        ensures
            r == Ok::<bool, BoundaryError>(true),
            *final(self) == (Builder {
                listening_address: Some(*listening_address),
                ..*old(self)
            }),
    {
        self.listening_address = Some(listening_address.duplicate());
        Ok(true)
    }

    /// Set the log level; last write wins.
    pub fn set_log_level(&mut self, level: LogLevel) -> (r: Result<bool, BoundaryError>)
        ensures
            r == Ok::<bool, BoundaryError>(true),
            *final(self) == (Builder { log_level: level, ..*old(self) }),
    {
        self.log_level = level;
        Ok(true)
    }

    /// Turn the builder into a node, exactly once. Fails if the builder
    /// was already consumed, if no entropy source was chosen, or if no
    /// storage path was set; otherwise the node starts life unstarted,
    /// with no event delivered and no wait in flight, and its plan carries
    /// exactly what was accumulated.
    pub fn build(&mut self) -> (r: Result<Node, BoundaryError>)
        ensures
            r is Ok <==> (!old(self).consumed && old(self).entropy is Some && old(
                self,
            ).storage_dir_path is Some),
            old(self).consumed ==> (r matches Err(e) && e.kind == ErrorKind::Build(
                BuildErrorKind::AlreadyBuilt,
            ) && error_wf(e) && *final(self) == *old(self)),
            (!old(self).consumed && old(self).entropy is None) ==> (r matches Err(e) && e.kind
                == ErrorKind::Build(BuildErrorKind::MissingEntropySource) && error_wf(e)
                && e.message@ == "no entropy source was chosen"@ && *final(self) == *old(self)),
            (!old(self).consumed && old(self).entropy is Some && old(self).storage_dir_path
                is None) ==> (r matches Err(e) && e.kind == ErrorKind::Build(
                BuildErrorKind::MissingStoragePath,
            ) && error_wf(e) && e.message@ == "no storage path was set"@ && *final(self) == *old(
                self,
            )),
            r matches Ok(n) ==> {
                &&& final(self).consumed
                &&& plan_matches_builder(n.plan, *old(self))
                &&& n.state is Unstarted
                &&& n.delivered_event is None
                &&& !n.wait_in_flight
            },
    {
        if self.consumed {
            return Err(
                build_error(
                    BuildErrorKind::AlreadyBuilt,
                    "builder was already used to build a node".to_owned(),
                ),
            );
        }
        if self.entropy.is_none() {
            return Err(
                build_error(
                    BuildErrorKind::MissingEntropySource,
                    "no entropy source was chosen".to_owned(),
                ),
            );
        }
        if self.storage_dir_path.is_none() {
            return Err(
                build_error(
                    BuildErrorKind::MissingStoragePath,
                    "no storage path was set".to_owned(),
                ),
            );
        }
        let entropy = match self.entropy.take() {
            Some(e) => e,
            None => {
                return Err(
                    build_error(
                        BuildErrorKind::MissingEntropySource,
                        "no entropy source was chosen".to_owned(),
                    ),
                );
            },
        };
        let storage_dir_path = match self.storage_dir_path.take() {
            Some(s) => s,
            None => {
                return Err(
                    build_error(
                        BuildErrorKind::MissingStoragePath,
                        "no storage path was set".to_owned(),
                    ),
                );
            },
        };
        let chain_source_esplora = self.chain_source_esplora.take();
        let gossip_source = self.gossip_source.take();
        let listening_address = self.listening_address.take();
        self.consumed = true;
        Ok(
            Node {
                plan: BuildPlan {
                    entropy,
                    chain_source_esplora,
                    gossip_source,
                    storage_dir_path,
                    network: self.network,
                    listening_address,
                    log_level: self.log_level,
                    default_cltv_expiry_delta: self.default_cltv_expiry_delta,
                    onchain_wallet_sync_interval_secs: self.onchain_wallet_sync_interval_secs,
                    wallet_sync_interval_secs: self.wallet_sync_interval_secs,
                    fee_rate_cache_update_interval_secs: self.fee_rate_cache_update_interval_secs,
                },
                state: LifecycleState::Unstarted,
                delivered_event: None,
                wait_in_flight: false,
            },
        )
    }
}

} // verus!
