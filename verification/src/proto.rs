//! Messages of the management interface.

use vstd::prelude::*;

verus! {

/// What the node says of itself.
#[derive(Debug, Clone, Default, PartialEq, Eq)]
pub struct GetInfoResponse {
    pub node_id: String,
    pub alias: String,
    pub listening_addresses: Vec<String>,
    pub announcement_addresses: Vec<String>,
    pub num_peers: u64,
    pub num_connected_peers: u64,
    pub num_active_channels: u64,
    pub num_inactive_channels: u64,
}

/// The balances of the node.
#[derive(Debug, Clone, Copy, Default, PartialEq, Eq)]
pub struct ListBalanceResponse {
    pub total_onchain_balance_sats: u64,
    pub spendable_onchain_balance_sats: u64,
    pub total_lightning_balance_sats: u64,
}

/// One channel of the node.
#[derive(Debug, Clone, Default, PartialEq, Eq)]
pub struct ChannelInfo {
    pub channel_id: String,
    pub counterparty_node_id: String,
    pub balance_msat: u64,
    pub outbound_capacity_msat: u64,
    pub inbound_capacity_msat: u64,
    pub is_usable: bool,
    pub is_public: bool,
    pub short_channel_id: String,
}

/// The channels of the node.
#[derive(Debug, Clone, Default, PartialEq, Eq)]
pub struct ListChannelsResponse {
    pub channels: Vec<ChannelInfo>,
}

/// How a payment made through the management interface ended.
#[derive(Debug, Clone, Default, PartialEq, Eq)]
pub struct PaymentResponse {
    pub payment_hash: String,
    pub payment_preimage: String,
    pub fee_msats: u64,
    pub success: bool,
    pub failure_reason: Option<String>,
}

/// The mathematical value of a [`PaymentResponse`].
pub struct PaymentResponseView {
    pub payment_hash: Seq<char>,
    pub payment_preimage: Seq<char>,
    pub fee_msats: u64,
    pub success: bool,
    pub failure_reason: Option<Seq<char>>,
}

impl View for PaymentResponse {
    type V = PaymentResponseView;

    open spec fn view(&self) -> PaymentResponseView {
        PaymentResponseView {
            payment_hash: self.payment_hash@,
            payment_preimage: self.payment_preimage@,
            fee_msats: self.fee_msats,
            success: self.success,
            failure_reason: match self.failure_reason {
                Some(reason) => Some(reason@),
                None => None,
            },
        }
    }
}

/// A new BOLT11 invoice.
#[derive(Debug, Clone, Default, PartialEq, Eq)]
pub struct CreateInvoiceResponse {
    pub payment_hash: String,
    pub invoice: String,
    pub expiry_time: u64,
}

/// A new BOLT12 offer.
#[derive(Debug, Clone, Default, PartialEq, Eq)]
pub struct CreateOfferResponse {
    pub offer_id: String,
    pub offer: String,
    pub expiry_time: u64,
}

} // verus!
