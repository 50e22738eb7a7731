//! Gas-gated contract modules: small deterministic state objects, each with
//! a verified contract over a mathematical model of its state.

pub mod audit;
pub mod clock;
pub mod firewall;
pub mod gas;
pub mod gated;
pub mod identity;
pub mod ledger;
pub mod loan;
pub mod membership;
pub mod miner;
pub mod oracle;
pub mod pension;
pub mod queue;
pub mod replication;
pub mod sharding;
pub mod threshold;
pub mod time_lock;
