use vstd::prelude::*;

use crate::replica::{Replica, ReplicaPhase};

verus! {

/// The role a node takes for the whole life of its process.
#[derive(Clone, Copy, Debug, PartialEq, Eq, Structural)]
pub enum NodeRole {
    Master,
    Worker,
}

/// The two designs a master can run; they do not speak to each other.
/// `Http` serves `/health` and `/`; `RawSocket` answers any bytes with `ok\n`,
/// which is what workers' registrations expect.
#[derive(Clone, Copy, Debug, PartialEq, Eq, Structural)]
pub enum MasterVariant {
    Http,
    RawSocket,
}

/// The address a master listens on when none is given.
pub open spec fn default_listen() -> Seq<char> {
    "0.0.0.0:8080"@
}

/// The master a worker registers with when none is given.
pub open spec fn default_master() -> Seq<char> {
    "127.0.0.1:8080"@
}

/// The number of replicas a worker runs when none is given.
pub const DEFAULT_REPLICAS: u16 = 1;

/// The default listen address, as a `String`.
pub fn default_listen_addr() -> (r: String)
    ensures
        r@ == default_listen(),
{
    "0.0.0.0:8080".to_owned()
}

/// The default master address, as a `String`.
pub fn default_master_addr() -> (r: String)
    ensures
        r@ == default_master(),
{
    "127.0.0.1:8080".to_owned()
}

/// A node's settings, fixed at startup.
#[derive(Clone, Debug)]
pub struct NodeConfig {
    pub role: NodeRole,
    pub variant: MasterVariant,
    pub listen: String,
    pub master: Option<String>,
    pub replicas: u16,
    /// Recorded and reported at startup; no delay is ever applied from it.
    pub sim_latency_ms: u64,
}

impl NodeConfig {
    /// The master address a worker uses: the one given, else the default.
    pub open spec fn master_spec(&self) -> Seq<char> {
        match self.master {
            Some(m) => m@,
            None => default_master(),
        }
    }

    /// The settings of a master on the default address.
    pub fn master_defaults() -> (r: NodeConfig)
        ensures
            r.role == NodeRole::Master,
            r.variant == MasterVariant::Http,
            r.listen@ == default_listen(),
            r.master is None,
            r.replicas == DEFAULT_REPLICAS,
            r.sim_latency_ms == 0,
    {
        NodeConfig {
            role: NodeRole::Master,
            variant: MasterVariant::Http,
            listen: default_listen_addr(),
            master: None,
            replicas: DEFAULT_REPLICAS,
            sim_latency_ms: 0,
        }
    }

    /// The master address that this node's replicas register with.
    pub fn master_addr(&self) -> (r: String)
        ensures
            r@ == self.master_spec(),
    {
        match &self.master {
            Some(m) => m.clone(),
            None => default_master_addr(),
        }
    }

    /// The latency to report at startup, if one was set. It is only reported.
    pub fn latency_notice(&self) -> (r: Option<u64>)
        ensures
            r.is_some() <==> self.sim_latency_ms > 0,
            r matches Some(ms) ==> ms == self.sim_latency_ms,
    {
        if self.sim_latency_ms > 0 {
            Some(self.sim_latency_ms)
        } else {
            None
        }
    }

    /// The replicas a worker starts: exactly `replicas` of them, numbered from
    /// zero, each about to connect to the same master.
    pub fn spawn_plan(&self) -> (r: Vec<Replica>)
        ensures
            r@.len() == self.replicas as int,
            forall|i: int|
                #![trigger r@[i]]
                0 <= i < r@.len() ==> {
                    &&& r@[i].index == i
                    &&& r@[i].master@ == self.master_spec()
                    &&& r@[i].phase == ReplicaPhase::Connect
                },
    {
        let master = self.master_addr();
        let mut plan: Vec<Replica> = Vec::new();
        let mut i: u16 = 0;
        while i < self.replicas
            invariant
                i <= self.replicas,
                master@ == self.master_spec(),
                plan@.len() == i as int,
                forall|j: int|
                    #![trigger plan@[j]]
                    0 <= j < plan@.len() ==> {
                        &&& plan@[j].index == j
                        &&& plan@[j].master@ == self.master_spec()
                        &&& plan@[j].phase == ReplicaPhase::Connect
                    },
            decreases self.replicas - i,
        {
            plan.push(Replica::new(i, master.clone()));
            i = i + 1;
        }
        plan
    }
}

} // verus!
