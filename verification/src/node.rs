//! The node lifecycle controller and the event bridge, as one verified
//! state machine.
//!
//! The engine's own calls perform the work; this state machine makes every
//! decision: whether an operation may be attempted in the current
//! lifecycle state, how its outcome changes that state, and which
//! delivered event an acknowledgment belongs to. The thin unverified rim
//! asks it before each engine call and reports the outcome back.

use vstd::prelude::*;

use crate::builder::EntropySource;
use crate::builder::GossipSource;
use crate::errors::BoundaryError;
use crate::errors::ErrorKind;
use crate::errors::RuntimeErrorKind;
use crate::errors::error_wf;
use crate::errors::node_error;
use crate::events::Event;
use crate::values::ChannelConfig;
use crate::values::LogLevel;
use crate::values::NetAddress;
use crate::values::Network;
use crate::values::PublicKey;

verus! {

/// Where a node stands in its life: not yet started, running, or stopped
/// for good. A stopped node is not restartable; a fresh one must be built.
#[derive(Clone, Copy, Debug, PartialEq, Eq, Structural)]
pub enum LifecycleState {
    Unstarted,
    Running,
    Stopped,
}

/// Everything a validated builder chose, fixed at build time: what the
/// engine instance is to be constructed from.
#[derive(Debug)]
pub struct BuildPlan {
    pub entropy: EntropySource,
    pub chain_source_esplora: Option<String>,
    pub gossip_source: Option<GossipSource>,
    pub storage_dir_path: String,
    pub network: Network,
    pub listening_address: Option<NetAddress>,
    pub log_level: LogLevel,
    pub default_cltv_expiry_delta: u32,
    pub onchain_wallet_sync_interval_secs: u64,
    pub wallet_sync_interval_secs: u64,
    pub fee_rate_cache_update_interval_secs: u64,
}

/// The boundary's node: the build plan the engine instance was constructed
/// from, the lifecycle state, and the event bridge's bookkeeping.
#[derive(Debug)]
pub struct Node {
    pub plan: BuildPlan,
    pub state: LifecycleState,
    /// The event last delivered to the caller and not yet acknowledged.
    pub delivered_event: Option<Event>,
    /// Whether a blocking wait for the next event is already running on
    /// the worker; at most one is in flight per node.
    pub wait_in_flight: bool,
}

impl Node {
    /// The network this node was built for.
    pub fn network(&self) -> (r: Network)
        ensures
            r == self.plan.network,
    {
        self.plan.network
    }

    /// Decide whether a start may be attempted: only a node that never ran
    /// may start. Starting twice is an error, and a stopped node is not
    /// restartable.
    pub fn start_check(&self) -> (r: Result<(), BoundaryError>)
        ensures
            r is Ok <==> self.state is Unstarted,
            self.state is Running ==> (r matches Err(e) && e.kind == ErrorKind::Runtime(
                RuntimeErrorKind::AlreadyRunning,
            ) && error_wf(e) && e.message@ == "Node is already running."@),
            self.state is Stopped ==> (r matches Err(e) && e.kind == ErrorKind::Runtime(
                RuntimeErrorKind::NotRunning,
            ) && error_wf(e) && e.message@ == "Node is not running."@),
    {
        match self.state {
            LifecycleState::Unstarted => Ok(()),
            LifecycleState::Running => Err(
                node_error(RuntimeErrorKind::AlreadyRunning, "Node is already running.".to_owned()),
            ),
            LifecycleState::Stopped => Err(
                node_error(RuntimeErrorKind::NotRunning, "Node is not running.".to_owned()),
            ),
        }
    }

    /// Record the outcome of a permitted start attempt: on success the
    /// node is running; on failure nothing changes and the engine's error
    /// is passed through untouched.
    pub fn start_apply(&mut self, outcome: Option<BoundaryError>) -> (r: Result<
        bool,
        BoundaryError,
    >)
        requires
            old(self).state is Unstarted,
        ensures
            outcome is None ==> *final(self) == (Node {
                state: LifecycleState::Running,
                ..*old(self)
            }) && r == Ok::<bool, BoundaryError>(true),
            outcome matches Some(e) ==> *final(self) == *old(self) && (r matches Err(e2) && e2 == e),
    {
        match outcome {
            None => {
                self.state = LifecycleState::Running;
                Ok(true)
            },
            Some(e) => Err(e),
        }
    }

    /// Decide whether a stop may be attempted: only a running node may
    /// stop.
    pub fn stop_check(&self) -> (r: Result<(), BoundaryError>)
        ensures
            r is Ok <==> self.state is Running,
            r matches Err(e) ==> e.kind == ErrorKind::Runtime(RuntimeErrorKind::NotRunning)
                && error_wf(e) && e.message@ == "Node is not running."@,
    {
        match self.state {
            LifecycleState::Running => Ok(()),
            LifecycleState::Unstarted => Err(
                node_error(RuntimeErrorKind::NotRunning, "Node is not running.".to_owned()),
            ),
            LifecycleState::Stopped => Err(
                node_error(RuntimeErrorKind::NotRunning, "Node is not running.".to_owned()),
            ),
        }
    }

    /// Record the outcome of a permitted stop attempt: on success the node
    /// is stopped for good; on failure nothing changes and the engine's
    /// error is passed through untouched.
    pub fn stop_apply(&mut self, outcome: Option<BoundaryError>) -> (r: Result<
        bool,
        BoundaryError,
    >)
        requires
            old(self).state is Running,
        ensures
            outcome is None ==> *final(self) == (Node {
                state: LifecycleState::Stopped,
                ..*old(self)
            }) && r == Ok::<bool, BoundaryError>(true),
            outcome matches Some(e) ==> *final(self) == *old(self) && (r matches Err(e2) && e2 == e),
    {
        match outcome {
            None => {
                self.state = LifecycleState::Stopped;
                Ok(true)
            },
            Some(e) => Err(e),
        }
    }

    /// Gate for every operation the engine only serves while running:
    /// succeeds exactly on a running node, with the engine's own error
    /// otherwise.
    pub fn require_running(&self) -> (r: Result<(), BoundaryError>)
        ensures
            r is Ok <==> self.state is Running,
            r matches Err(e) ==> e.kind == ErrorKind::Runtime(RuntimeErrorKind::NotRunning)
                && error_wf(e) && e.message@ == "Node is not running."@,
    {
        self.stop_check()
    }

    /// Note which event the engine just delivered; until it is
    /// acknowledged the engine keeps redelivering the same event.
    pub fn record_delivered(&mut self, event: Option<Event>)
        ensures
            event matches Some(e) ==> *final(self) == (Node {
                delivered_event: Some(e),
                ..*old(self)
            }),
            event is None ==> *final(self) == *old(self),
    {
        match event {
            Some(e) => {
                self.delivered_event = Some(e);
            },
            None => {},
        }
    }

    /// Ask to dispatch a blocking wait for the next event: granted exactly
    /// when none is already in flight, so at most one wait runs per node.
    pub fn begin_wait(&mut self) -> (granted: bool)
        ensures
            granted == !old(self).wait_in_flight,
            *final(self) == (Node { wait_in_flight: true, ..*old(self) }),
    {
        let granted = !self.wait_in_flight;
        self.wait_in_flight = true;
        granted
    }

    /// The dispatched wait came back with an event: the wait is no longer
    /// in flight and the event counts as delivered.
    pub fn finish_wait(&mut self, event: Event)
        ensures
            *final(self) == (Node {
                wait_in_flight: false,
                delivered_event: Some(event),
                ..*old(self)
            }),
    {
        self.wait_in_flight = false;
        self.delivered_event = Some(event);
    }

    /// Acknowledge the delivered event, exactly once: yields the event the
    /// acknowledgment belongs to and forgets it. With nothing delivered
    /// since the last acknowledgment this is a no-op that yields nothing,
    /// so no unrelated event can ever be acknowledged.
    pub fn event_handled(&mut self) -> (r: Option<Event>)
        ensures
            old(self).delivered_event is None ==> r is None && *final(self) == *old(self),
            old(self).delivered_event matches Some(e) ==> r == Some(e) && *final(self) == (Node {
                delivered_event: None,
                ..*old(self)
            }),
    {
        self.delivered_event.take()
    }
}

/// The arguments of one channel-open call, converted to engine widths:
/// amounts widened losslessly, every optional kept absent or present
/// exactly as given.
#[derive(Debug)]
pub struct OpenChannelRequest {
    pub node_id: PublicKey,
    pub address: NetAddress,
    pub channel_amount_sats: u64,
    pub push_to_counterparty_msat: Option<u64>,
    pub channel_config: Option<ChannelConfig>,
    pub announce_channel: bool,
}

/// Convert the boundary arguments of a channel open for the engine: the
/// amounts are widened without change of value and an absent optional
/// stays absent.
pub fn open_channel_request(
    node_id: &PublicKey,
    address: &NetAddress,
    channel_amount_sats: u32,
    push_to_counterparty_msat: Option<u32>,
    channel_config: Option<&ChannelConfig>,
    announce_channel: bool,
) -> (r: OpenChannelRequest)
    ensures
        r.node_id == *node_id,
        r.address == *address,
        r.channel_amount_sats == channel_amount_sats as u64,
        push_to_counterparty_msat is None ==> r.push_to_counterparty_msat is None,
        push_to_counterparty_msat matches Some(x) ==> r.push_to_counterparty_msat == Some(
            x as u64,
        ),
        channel_config is None ==> r.channel_config is None,
        channel_config matches Some(c) ==> r.channel_config == Some(*c),
        r.announce_channel == announce_channel,
{
    let push_to_counterparty_msat = match push_to_counterparty_msat {
        None => None,
        Some(x) => Some(x as u64),
    };
    let channel_config = match channel_config {
        None => None,
        Some(c) => Some(*c),
    };
    OpenChannelRequest {
        node_id: node_id.duplicate(),
        address: address.duplicate(),
        channel_amount_sats: channel_amount_sats as u64,
        push_to_counterparty_msat,
        channel_config,
        announce_channel,
    }
}

} // verus!
