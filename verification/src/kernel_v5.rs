//! The errors and codec identity of a V5 kernel transaction.
use crate::decision_v5::{BrokerOrderStatusV5, DecisionV5Error};
use vstd::prelude::*;

verus! {

/// Why a kernel transaction could not produce a result.
#[derive(Debug)]
pub enum KernelTransactionError {
    Contract(DecisionV5Error),
    UnsupportedStrategy(String),
    UnsupportedCheckpoint,
    Checkpoint(String),
    InvalidTime,
    InvalidQuantity,
    Kernel(String),
    MissingDeferredCommand,
    UnexpectedBrokerReturn,
}

impl From<DecisionV5Error> for KernelTransactionError {
    fn from(value: DecisionV5Error) -> (r: Self) {
        KernelTransactionError::Contract(value)
    }
}

impl vstd::std_specs::convert::FromSpecImpl<DecisionV5Error> for KernelTransactionError {
    open spec fn obeys_from_spec() -> bool {
        true
    }

    open spec fn from_spec(v: DecisionV5Error) -> Self {
        KernelTransactionError::Contract(v)
    }
}

/// Identity of the checkpoint codec a factory currently writes.
#[derive(Clone, Debug, Eq, PartialEq)]
pub struct KernelCheckpointCodec {
    pub profile: String,
    pub version: u32,
}

/// The name a kernel reads for a Broker order status.
pub open spec fn spec_order_status_str(status: BrokerOrderStatusV5) -> Seq<char> {
    match status {
        BrokerOrderStatusV5::DurablyAccepted => "accepted"@,
        BrokerOrderStatusV5::Dispatched => "dispatched"@,
        BrokerOrderStatusV5::Resting => "pending"@,
        BrokerOrderStatusV5::PartiallyFilled => "partial"@,
        BrokerOrderStatusV5::Filled => "filled"@,
        BrokerOrderStatusV5::CancellationRequested => "cancellation_requested"@,
        BrokerOrderStatusV5::Cancelled => "cancelled"@,
        BrokerOrderStatusV5::Expired => "expired"@,
        BrokerOrderStatusV5::Rejected => "rejected"@,
        BrokerOrderStatusV5::RecoveryRequired => "recovery_required"@,
    }
}

/// The name a kernel reads for a Broker order status.
pub fn order_status_str(status: BrokerOrderStatusV5) -> (r: &'static str)
    ensures
        r@ == spec_order_status_str(status),
{
    match status {
        BrokerOrderStatusV5::DurablyAccepted => "accepted",
        BrokerOrderStatusV5::Dispatched => "dispatched",
        BrokerOrderStatusV5::Resting => "pending",
        BrokerOrderStatusV5::PartiallyFilled => "partial",
        BrokerOrderStatusV5::Filled => "filled",
        BrokerOrderStatusV5::CancellationRequested => "cancellation_requested",
        BrokerOrderStatusV5::Cancelled => "cancelled",
        BrokerOrderStatusV5::Expired => "expired",
        BrokerOrderStatusV5::Rejected => "rejected",
        BrokerOrderStatusV5::RecoveryRequired => "recovery_required",
    }
}

} // verus!
