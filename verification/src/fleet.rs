//! The epoch controller: it owns the synthetic identities, builds one batch
//! of attestations per epoch, scores it, and advances or halts on the
//! composite score.

use vstd::prelude::*;
use crate::config::{config_valid, ConfigError, EvasionConfig, SCORE_SCALE};
use crate::node::{Attestation, EvasiveNode};
use crate::scoring::{
    composite_spec, fingerprint_score_spec, ip_score_spec, score_batch, timing_score_spec,
    FleetScore,
};

verus! {

/// Where the controller stands: advancing, or halted by detection.
#[derive(Clone, Copy, PartialEq, Eq, Structural, Debug)]
pub enum FleetState {
    /// Still undetected, about to play the given epoch.
    Running { epoch: u32 },
    /// Flagged at the given epoch; the controller never advances again.
    Detected { epoch: u32 },
}

/// The outcome of one epoch.
#[derive(Clone, Copy, PartialEq, Eq, Structural, Debug)]
pub struct EpochResult {
    /// The epoch counter after the tick.
    pub epoch: u32,
    /// The score of the epoch's batch.
    pub score: FleetScore,
    /// Did the fleet stay under the detection threshold?
    pub survived: bool,
    /// How many attestations the batch held.
    pub attestations: usize,
}

/// A point-in-time view of the controller.
#[derive(Clone, Copy, PartialEq, Eq, Structural, Debug)]
pub struct FleetStatus {
    pub epoch: u32,
    pub nodes: usize,
    pub target_epochs: u32,
}

/// The fleet coordinator.
pub struct EvasiveFleet {
    nodes: Vec<EvasiveNode>,
    config: EvasionConfig,
    state: FleetState,
}

impl EvasiveFleet {
    /// The configuration of the run.
    pub closed spec fn spec_config(&self) -> EvasionConfig {
        self.config
    }

    /// The state of the controller.
    pub closed spec fn spec_state(&self) -> FleetState {
        self.state
    }

    /// Is the controller still advancing?
    pub open spec fn is_running(&self) -> bool {
        self.spec_state() is Running
    }

    /// The current epoch counter, frozen after detection.
    pub open spec fn current_epoch(&self) -> u32 {
        match self.spec_state() {
            FleetState::Running { epoch } => epoch,
            FleetState::Detected { epoch } => epoch,
        }
    }

    /// The fleet's identities, in fleet order.
    pub closed spec fn spec_nodes(&self) -> Seq<EvasiveNode> {
        self.nodes@
    }

    /// The stable identifiers of the fleet's nodes, in fleet order.
    pub closed spec fn node_ids(&self) -> Seq<Seq<char>> {
        self.nodes@.map_values(|n: EvasiveNode| n.node_id@)
    }

    /// `batch` is one round of this fleet at `epoch`: one attestation per
    /// node, in node order, each one its node can emit at its position, and
    /// each node advanced by exactly its own attestation.
    pub open spec fn round_of(
        pre: EvasiveFleet,
        post: EvasiveFleet,
        batch: Seq<Attestation>,
        epoch: u32,
    ) -> bool {
        &&& batch.len() == pre.spec_nodes().len()
        &&& post.spec_nodes().len() == pre.spec_nodes().len()
        &&& forall|k: int|
            0 <= k < batch.len() ==> EvasiveNode::attests_for(
                #[trigger] batch[k],
                pre.spec_nodes()[k],
                epoch,
                pre.spec_config(),
                k,
            )
        &&& forall|k: int|
            0 <= k < batch.len() ==> EvasiveNode::node_advanced(
                pre.spec_nodes()[k],
                post.spec_nodes()[k],
                #[trigger] batch[k],
                epoch,
            )
    }

    /// A valid configuration, one identity per fleet slot, every identity
    /// intact.
    pub closed spec fn wf(&self) -> bool {
        &&& config_valid(self.config)
        &&& self.nodes@.len() == self.config.fleet_size
        &&& forall|i: int| 0 <= i < self.nodes@.len() ==> (#[trigger] self.nodes@[i]).wf()
    }

    /// Build a fleet: validation rejects a bad configuration before any
    /// identity exists; a good one yields a running controller at epoch zero
    /// with `fleet_size` fresh identities.
    pub fn new(config: EvasionConfig, rng: &mut rand::rngs::StdRng) -> (r: Result<
        EvasiveFleet,
        ConfigError,
    >)
        ensures
            r is Ok <==> config_valid(config),
            r matches Ok(f) ==> f.wf() && f.spec_config() == config && f.spec_state()
                == (FleetState::Running { epoch: 0u32 }) && (forall|k: int|
                0 <= k < config.fleet_size ==> #[trigger] f.node_ids()[k]
                    == crate::node::node_id_str(k as nat)) && (forall|k: int|
                0 <= k < config.fleet_size ==> EvasiveNode::fresh_for(
                    #[trigger] f.spec_nodes()[k],
                    k as u32,
                    config,
                )),
    {
        if let Err(e) = config.validate() {
            return Err(e);
        }
        let mut nodes: Vec<EvasiveNode> = Vec::new();
        let n = config.fleet_size;
        let mut i: usize = 0;
        while i < n
            invariant
                config_valid(config),
                n == config.fleet_size,
                n <= u32::MAX,
                i <= n,
                nodes@.len() == i,
                forall|k: int| 0 <= k < i ==> (#[trigger] nodes@[k]).wf(),
                forall|k: int|
                    0 <= k < i ==> (#[trigger] nodes@[k]).node_id@ == crate::node::node_id_str(
                        k as nat,
                    ),
                forall|k: int|
                    0 <= k < i ==> EvasiveNode::fresh_for(#[trigger] nodes@[k], k as u32, config),
            decreases n - i,
        {
            let node = EvasiveNode::new(i as u32, &config, rng);
            nodes.push(node);
            i = i + 1;
        }
        Ok(EvasiveFleet { nodes, config, state: FleetState::Running { epoch: 0 } })
    }

    /// One batch: every node's attestation for the current epoch, in node
    /// order, each staggered by its position.
    pub fn execute_attestation_round(&mut self, rng: &mut rand::rngs::StdRng) -> (r: Vec<
        Attestation,
    >)
        requires
            old(self).wf(),
        ensures
            final(self).wf(),
            final(self).spec_config() == old(self).spec_config(),
            final(self).spec_state() == old(self).spec_state(),
            final(self).node_ids() == old(self).node_ids(),
            r@.len() == old(self).spec_config().fleet_size,
            forall|k: int| 0 <= k < r@.len() ==> (#[trigger] r@[k]).epoch == old(
                self,
            ).current_epoch(),
            forall|k: int|
                0 <= k < r@.len() ==> (#[trigger] r@[k]).node_id@ == old(self).node_ids()[k],
            EvasiveFleet::round_of(*old(self), *final(self), r@, old(self).current_epoch()),
    {
        let ghost ids = old(self).node_ids();
        let ghost pre_fleet_nodes = old(self).spec_nodes();
        let epoch = match self.state {
            FleetState::Running { epoch } => epoch,
            FleetState::Detected { epoch } => epoch,
        };
        let n = self.nodes.len();
        let mut batch: Vec<Attestation> = Vec::new();
        let mut i: usize = 0;
        while i < n
            invariant
                n == self.nodes@.len(),
                i <= n,
                config_valid(self.config),
                self.config == old(self).spec_config(),
                self.state == old(self).spec_state(),
                n == self.config.fleet_size,
                epoch == old(self).current_epoch(),
                forall|k: int| 0 <= k < n ==> (#[trigger] self.nodes@[k]).wf(),
                batch@.len() == i,
                forall|k: int| 0 <= k < i ==> (#[trigger] batch@[k]).epoch == epoch,
                ids == old(self).node_ids(),
                self.nodes@.map_values(|nd: EvasiveNode| nd.node_id@) == ids,
                forall|k: int| 0 <= k < i ==> (#[trigger] batch@[k]).node_id@ == ids[k],
                pre_fleet_nodes == old(self).spec_nodes(),
                self.nodes@.len() == pre_fleet_nodes.len(),
                forall|k: int| i <= k < n ==> self.nodes@[k] == pre_fleet_nodes[k],
                forall|k: int|
                    0 <= k < i ==> EvasiveNode::attests_for(
                        #[trigger] batch@[k],
                        pre_fleet_nodes[k],
                        epoch,
                        old(self).spec_config(),
                        k,
                    ),
                forall|k: int|
                    0 <= k < i ==> EvasiveNode::node_advanced(
                        pre_fleet_nodes[k],
                        self.nodes@[k],
                        #[trigger] batch@[k],
                        epoch,
                    ),
            decreases n - i,
        {
            let ghost pre_nodes = self.nodes@;
            let mut node = self.nodes.remove(i);
            proof {
                assert(node == pre_nodes[i as int]);
                assert(node == pre_fleet_nodes[i as int]);
                assert(node.node_id@ == ids[i as int]);
            }
            let attestation = node.generate_attestation(epoch, &self.config, i, rng);
            self.nodes.insert(i, node);
            proof {
                assert(self.nodes@ =~= pre_nodes.update(i as int, node));
                assert(self.nodes@.map_values(|nd: EvasiveNode| nd.node_id@) =~= ids);
            }
            batch.push(attestation);
            i = i + 1;
        }
        batch
    }

    /// Score a batch with the engine.
    pub fn calculate_fleet_score(&self, attestations: &Vec<Attestation>) -> (r: FleetScore)
        requires
            attestations@.len() >= 1,
        ensures
            r.ip_score == ip_score_spec(attestations@),
            r.fingerprint_score == fingerprint_score_spec(attestations@),
            r.timing_score == timing_score_spec(attestations@),
            r.total_score == composite_spec(attestations@),
            r.total_score <= SCORE_SCALE,
    {
        score_batch(attestations)
    }

    /// One tick of the state machine: build the batch, score it, survive and
    /// advance the epoch counter by one, or freeze in the detected state.
    pub fn execute_epoch(&mut self, rng: &mut rand::rngs::StdRng) -> (r: EpochResult)
        requires
            old(self).wf(),
            old(self).is_running(),
            old(self).current_epoch() < u32::MAX,
        ensures
            final(self).wf(),
            final(self).spec_config() == old(self).spec_config(),
            final(self).node_ids() == old(self).node_ids(),
            r.attestations == old(self).spec_config().fleet_size,
            r.score.total_score <= SCORE_SCALE,
            r.score.total_score == (2 * r.score.ip_score + 2 * r.score.fingerprint_score
                + r.score.timing_score) / 5,
            r.survived == (r.score.total_score < old(self).spec_config().target_score),
            r.survived ==> final(self).spec_state() == (FleetState::Running {
                epoch: (old(self).current_epoch() + 1) as u32,
            }) && r.epoch == old(self).current_epoch() + 1,
            !r.survived ==> final(self).spec_state() == (FleetState::Detected {
                epoch: old(self).current_epoch(),
            }) && r.epoch == old(self).current_epoch(),
            exists|batch: Seq<Attestation>|
                #[trigger] EvasiveFleet::round_of(
                    *old(self),
                    *final(self),
                    batch,
                    old(self).current_epoch(),
                ) && r.score.ip_score == ip_score_spec(batch) && r.score.fingerprint_score
                    == fingerprint_score_spec(batch) && r.score.timing_score == timing_score_spec(
                    batch,
                ) && r.score.total_score == composite_spec(batch) && r.attestations == batch.len(),
    {
        let epoch = match self.state {
            FleetState::Running { epoch } => epoch,
            FleetState::Detected { epoch } => epoch,
        };
        let batch = self.execute_attestation_round(rng);
        let score = score_batch(&batch);
        let survived = score.total_score < self.config.target_score;
        if survived {
            self.state = FleetState::Running { epoch: epoch + 1 };
            proof {
                assert(EvasiveFleet::round_of(*old(self), *self, batch@, epoch));
            }
            EpochResult { epoch: epoch + 1, score, survived, attestations: batch.len() }
        } else {
            self.state = FleetState::Detected { epoch };
            proof {
                assert(EvasiveFleet::round_of(*old(self), *self, batch@, epoch));
            }
            EpochResult { epoch, score, survived, attestations: batch.len() }
        }
    }

    /// Is the controller still advancing?
    pub fn running(&self) -> (r: bool)
        ensures
            r == self.is_running(),
    {
        match self.state {
            FleetState::Running { .. } => true,
            FleetState::Detected { .. } => false,
        }
    }

    /// The current epoch counter.
    pub fn epoch(&self) -> (r: u32)
        ensures
            r == self.current_epoch(),
    {
        match self.state {
            FleetState::Running { epoch } => epoch,
            FleetState::Detected { epoch } => epoch,
        }
    }

    /// Has the fleet survived the required number of epochs without being
    /// detected?
    pub fn has_survived(&self) -> (r: bool)
        ensures
            r == (self.is_running() && self.current_epoch() >= self.spec_config().min_epochs),
    {
        match self.state {
            FleetState::Running { epoch } => epoch >= self.config.min_epochs,
            FleetState::Detected { .. } => false,
        }
    }

    /// The controller's epoch, fleet size and survival target.
    pub fn get_status(&self) -> (r: FleetStatus)
        requires
            self.wf(),
        ensures
            r.epoch == self.current_epoch(),
            r.nodes == self.spec_config().fleet_size,
            r.target_epochs == self.spec_config().min_epochs,
    {
        let epoch = match self.state {
            FleetState::Running { epoch } => epoch,
            FleetState::Detected { epoch } => epoch,
        };
        FleetStatus { epoch, nodes: self.nodes.len(), target_epochs: self.config.min_epochs }
    }
}

} // verus!
