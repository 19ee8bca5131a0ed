//! What the execution engine produces, and what the host is told of it.

use vstd::prelude::*;
use crate::error::DecodeError;
use crate::units::{be_bytes, to_external_value, NativeAmount, UNIT_RATIO};

verus! {

/// A block that the execution engine produced.
#[derive(Debug, Clone, PartialEq, Eq)]
pub struct Block {
    /// The hash that identifies the block.
    pub hash: [u8; 32],
    pub height: u32,
    /// The serialized block.
    pub payload: Vec<u8>,
}

/// Value that leaves the ledger, recorded while a block was produced.
#[derive(Debug, Clone, PartialEq, Eq)]
pub struct Withdrawal {
    /// The identity that receives the value outside the ledger.
    pub destination: [u8; 20],
    pub amount: NativeAmount,
    /// What the withdrawer attached.
    pub data: Vec<u8>,
}

/// What a withdrawal holds.
pub struct WithdrawalView {
    pub destination: Seq<u8>,
    pub amount: nat,
    pub data: Seq<u8>,
}

impl View for Withdrawal {
    type V = WithdrawalView;

    open spec fn view(&self) -> WithdrawalView {
        WithdrawalView { destination: self.destination@, amount: self.amount@, data: self.data@ }
    }
}

/// An instruction to the host to move value out.
#[derive(Debug, Clone, PartialEq, Eq)]
pub struct Voucher {
    pub destination: [u8; 20],
    /// The value in the external unit, in 32 bytes, most significant first,
    /// and after it the data of the withdrawal.
    pub payload: Vec<u8>,
}

/// What a voucher holds.
pub struct VoucherView {
    pub destination: Seq<u8>,
    pub payload: Seq<u8>,
}

impl View for Voucher {
    type V = VoucherView;

    open spec fn view(&self) -> VoucherView {
        VoucherView { destination: self.destination@, payload: self.payload@ }
    }
}

/// The voucher that stands for a withdrawal.
pub open spec fn voucher_view(withdrawal: WithdrawalView) -> VoucherView {
    VoucherView {
        destination: withdrawal.destination,
        payload: be_bytes(withdrawal.amount * (UNIT_RATIO as nat), 32) + withdrawal.data,
    }
}

/// The vouchers that stand for withdrawals, one for each and in their order.
pub open spec fn voucher_views(withdrawals: Seq<Withdrawal>) -> Seq<VoucherView> {
    Seq::new(withdrawals.len(), |i: int| voucher_view(withdrawals[i]@))
}

/// The views of vouchers, in their order.
pub open spec fn views_of(vouchers: Seq<Voucher>) -> Seq<VoucherView> {
    Seq::new(vouchers.len(), |i: int| vouchers[i]@)
}

impl Withdrawal {
    /// The voucher that stands for this withdrawal.
    pub fn to_voucher(&self) -> (voucher: Voucher)
        ensures
            voucher@ == voucher_view(self@),
    {
        let value = to_external_value(self.amount);
        let mut payload: Vec<u8> = Vec::new();
        payload.extend_from_slice(value.as_slice());
        payload.extend_from_slice(self.data.as_slice());
        assert(payload@ =~= value@ + self.data@);
        Voucher { destination: self.destination, payload }
    }
}

/// Translates withdrawals into vouchers, one for each and in their order.
pub fn vouchers_for(withdrawals: &Vec<Withdrawal>) -> (vouchers: Vec<Voucher>)
    ensures
        views_of(vouchers@) == voucher_views(withdrawals@),
{
    let mut vouchers: Vec<Voucher> = Vec::new();
    let mut i: usize = 0;
    while i < withdrawals.len()
        invariant
            i <= withdrawals@.len(),
            vouchers@.len() == i,
            forall|j: int| 0 <= j < i ==> (#[trigger] vouchers@[j])@ == voucher_view(withdrawals@[j]@),
        decreases withdrawals@.len() - i,
    {
        vouchers.push(withdrawals[i].to_voucher());
        i += 1;
    }
    assert(views_of(vouchers@) =~= voucher_views(withdrawals@));
    vouchers
}

/// Why a call is rejected.
#[derive(Debug, Clone, PartialEq, Eq)]
pub enum RejectReason {
    /// The envelope could not be decoded.
    Decode(DecodeError),
    /// The execution engine refused the request, for the reason it gave.
    Execution(String),
}

/// The outcome of a call, as the host sees it.
#[derive(Debug, Clone, PartialEq, Eq)]
pub enum Response {
    Accept { vouchers: Vec<Voucher> },
    Reject { reason: RejectReason },
}

/// What the execution engine answers to a call.
#[derive(Debug, Clone, PartialEq, Eq)]
pub enum EngineOutcome {
    Produced { block: Block, withdrawals: Vec<Withdrawal> },
    Refused { reason: String },
}

/// What the store answers to a commit.
#[derive(Debug, Clone, PartialEq, Eq)]
pub enum StoreOutcome {
    Committed,
    Failed { reason: String },
}

} // verus!
