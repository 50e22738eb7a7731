//! Contract handles that hold no state of their own: each accepts an opcode
//! together with a gas budget and passes the budget through the gas gate.
//! Dispatching the opcode is the host's business.

use vstd::prelude::*;
use crate::gas::{GasGate, insufficient_gas_text};

verus! {

/// Automated market maker pool management.
#[derive(Default)]
pub struct AmmPoolManager;

impl AmmPoolManager {
    /// Creates the handle.
    pub fn new() -> (r: Self)
        ensures
            r == AmmPoolManager,
    {
        AmmPoolManager
    }

    /// Admits `opcode` when `gas` is positive, and refuses it when `gas` is
    /// zero. Which opcode it is plays no part.
    pub fn execute_opcode(&self, opcode: u8, gas: u64) -> (r: Result<(), String>)
        ensures
            r.is_ok() <==> gas > 0,
            r matches Err(text) ==> text@ == insufficient_gas_text(),
    {
        GasGate::check_text(gas)
    }
}

/// Applications for authority status.
#[derive(Default)]
pub struct AuthorityApplier;

impl AuthorityApplier {
    /// Creates the handle.
    pub fn new() -> (r: Self)
        ensures
            r == AuthorityApplier,
    {
        AuthorityApplier
    }

    /// Admits `opcode` when `gas` is positive, and refuses it when `gas` is
    /// zero. Which opcode it is plays no part.
    pub fn execute_opcode(&self, opcode: u8, gas: u64) -> (r: Result<(), String>)
        ensures
            r.is_ok() <==> gas > 0,
            r matches Err(text) ==> text@ == insufficient_gas_text(),
    {
        GasGate::check_text(gas)
    }
}

/// The bridge over which bank nodes talk to each other.
#[derive(Default)]
pub struct BankNodeBridge;

impl BankNodeBridge {
    /// Creates the handle.
    pub fn new() -> (r: Self)
        ensures
            r == BankNodeBridge,
    {
        BankNodeBridge
    }

    /// Admits `opcode` when `gas` is positive, and refuses it when `gas` is
    /// zero. Which opcode it is plays no part.
    pub fn execute_opcode(&self, opcode: u8, gas: u64) -> (r: Result<(), String>)
        ensures
            r.is_ok() <==> gas > 0,
            r matches Err(text) ==> text@ == insufficient_gas_text(),
    {
        GasGate::check_text(gas)
    }
}

/// Carbon credits.
#[derive(Default)]
pub struct CarbonCredit;

impl CarbonCredit {
    /// Creates the handle.
    pub fn new() -> (r: Self)
        ensures
            r == CarbonCredit,
    {
        CarbonCredit
    }

    /// Admits `opcode` when `gas` is positive, and refuses it when `gas` is
    /// zero. Which opcode it is plays no part.
    pub fn execute_opcode(&self, opcode: u8, gas: u64) -> (r: Result<(), String>)
        ensures
            r.is_ok() <==> gas > 0,
            r matches Err(text) ==> text@ == insufficient_gas_text(),
    {
        GasGate::check_text(gas)
    }
}

/// Compliance audits.
#[derive(Default)]
pub struct ComplianceAuditor;

impl ComplianceAuditor {
    /// Creates the handle.
    pub fn new() -> (r: Self)
        ensures
            r == ComplianceAuditor,
    {
        ComplianceAuditor
    }

    /// Admits `opcode` when `gas` is positive, and refuses it when `gas` is
    /// zero. Which opcode it is plays no part.
    pub fn execute_opcode(&self, opcode: u8, gas: u64) -> (r: Result<(), String>)
        ensures
            r.is_ok() <==> gas > 0,
            r matches Err(text) ==> text@ == insufficient_gas_text(),
    {
        GasGate::check_text(gas)
    }
}

/// Trial runs of consensus operations.
#[derive(Default)]
pub struct ConsensusTester;

impl ConsensusTester {
    /// Creates the handle.
    pub fn new() -> (r: Self)
        ensures
            r == ConsensusTester,
    {
        ConsensusTester
    }

    /// Admits `opcode` when `gas` is positive, and refuses it when `gas` is
    /// zero. Which opcode it is plays no part.
    pub fn execute_opcode(&self, opcode: u8, gas: u64) -> (r: Result<(), String>)
        ensures
            r.is_ok() <==> gas > 0,
            r matches Err(text) ==> text@ == insufficient_gas_text(),
    {
        GasGate::check_text(gas)
    }
}

/// Transfers of assets between chains.
#[derive(Default)]
pub struct CrossChainBridge;

impl CrossChainBridge {
    /// Creates the handle.
    pub fn new() -> (r: Self)
        ensures
            r == CrossChainBridge,
    {
        CrossChainBridge
    }

    /// Admits `opcode` when `gas` is positive, and refuses it when `gas` is
    /// zero. Which opcode it is plays no part.
    pub fn execute_opcode(&self, opcode: u8, gas: u64) -> (r: Result<(), String>)
        ensures
            r.is_ok() <==> gas > 0,
            r matches Err(text) ==> text@ == insufficient_gas_text(),
    {
        GasGate::check_text(gas)
    }
}

/// Messages between chains.
#[derive(Default)]
pub struct CrossChainProtocol;

impl CrossChainProtocol {
    /// Creates the handle.
    pub fn new() -> (r: Self)
        ensures
            r == CrossChainProtocol,
    {
        CrossChainProtocol
    }

    /// Admits `opcode` when `gas` is positive, and refuses it when `gas` is
    /// zero. Which opcode it is plays no part.
    pub fn execute_opcode(&self, opcode: u8, gas: u64) -> (r: Result<(), String>)
        ensures
            r.is_ok() <==> gas > 0,
            r matches Err(text) ==> text@ == insufficient_gas_text(),
    {
        GasGate::check_text(gas)
    }
}

/// Data from outside, fed to the network.
#[derive(Default)]
pub struct DataFeedOracle;

impl DataFeedOracle {
    /// Creates the handle.
    pub fn new() -> (r: Self)
        ensures
            r == DataFeedOracle,
    {
        DataFeedOracle
    }

    /// Admits `opcode` when `gas` is positive, and refuses it when `gas` is
    /// zero. Which opcode it is plays no part.
    pub fn execute_opcode(&self, opcode: u8, gas: u64) -> (r: Result<(), String>)
        ensures
            r.is_ok() <==> gas > 0,
            r matches Err(text) ==> text@ == insufficient_gas_text(),
    {
        GasGate::check_text(gas)
    }
}

/// The market on which data assets are traded.
#[derive(Default)]
pub struct DataMarketplace;

impl DataMarketplace {
    /// Creates the handle.
    pub fn new() -> (r: Self)
        ensures
            r == DataMarketplace,
    {
        DataMarketplace
    }

    /// Admits `opcode` when `gas` is positive, and refuses it when `gas` is
    /// zero. Which opcode it is plays no part.
    pub fn execute_opcode(&self, opcode: u8, gas: u64) -> (r: Result<(), String>)
        ensures
            r.is_ok() <==> gas > 0,
            r matches Err(text) ==> text@ == insufficient_gas_text(),
    {
        GasGate::check_text(gas)
    }
}

} // verus!
