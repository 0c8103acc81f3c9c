use cdk_ldk_node::proto::{
    ChannelInfo, GetInfoResponse, ListBalanceResponse, ListChannelsResponse, PaymentResponse,
};
use cdk_ldk_node::utils::{
    format_balance_info, format_channels_info, format_node_info, format_payment_response,
};

#[test]
fn payment_that_succeeded() {
    let payment = PaymentResponse {
        payment_hash: "abcd".to_string(),
        payment_preimage: "1234".to_string(),
        fee_msats: 1500,
        success: true,
        failure_reason: None,
    };
    assert_eq!(
        format_payment_response(&payment),
        "Payment succeeded!\nPayment hash: abcd\nPayment preimage: 1234\nFee paid (msats): 1500\n"
    );
}

#[test]
fn payment_that_failed_with_a_reason() {
    let payment = PaymentResponse {
        payment_hash: "abcd".to_string(),
        payment_preimage: String::new(),
        fee_msats: 0,
        success: false,
        failure_reason: Some("Payment failed".to_string()),
    };
    assert_eq!(
        format_payment_response(&payment),
        "Payment failed: Payment failed\n"
    );
}

#[test]
fn payment_that_failed_without_a_reason() {
    let payment = PaymentResponse {
        success: false,
        ..PaymentResponse::default()
    };
    assert_eq!(
        format_payment_response(&payment),
        "Payment failed: Unknown reason\n"
    );
}

#[test]
fn node_info_lists_every_property() {
    let info = GetInfoResponse {
        node_id: "02abc".to_string(),
        alias: "cdk-ldk-node".to_string(),
        listening_addresses: vec!["127.0.0.1:8090".to_string(), "[::1]:8090".to_string()],
        announcement_addresses: vec!["node.example.com:9735".to_string()],
        num_peers: 3,
        num_connected_peers: 2,
        num_active_channels: 4,
        num_inactive_channels: 1,
    };
    assert_eq!(
        format_node_info(&info),
        "Node Information:\n\
         ----------------\n\
         Node ID: 02abc\n\
         Alias: cdk-ldk-node\n\
         Listening Addresses: 127.0.0.1:8090, [::1]:8090\n\
         Announcement Addresses: node.example.com:9735\n\
         Connected peer count: 2\n\
         Peer count: 3\n\
         Connected channel count: 4\n\
         Inactive channel count: 1\n"
    );
}

#[test]
fn node_info_without_addresses() {
    let info = GetInfoResponse::default();
    assert_eq!(
        format_node_info(&info),
        "Node Information:\n\
         ----------------\n\
         Node ID: \n\
         Alias: \n\
         Listening Addresses: \n\
         Announcement Addresses: \n\
         Connected peer count: 0\n\
         Peer count: 0\n\
         Connected channel count: 0\n\
         Inactive channel count: 0\n"
    );
}

#[test]
fn balance_info_has_three_lines() {
    let balance = ListBalanceResponse {
        total_onchain_balance_sats: 100_000,
        spendable_onchain_balance_sats: 90_000,
        total_lightning_balance_sats: 2_500_000,
    };
    assert_eq!(
        format_balance_info(&balance),
        "Total onchain balance (sats): 100000\n\
         Spendable onchain balance (sats): 90000\n\
         Total lightning balance (sats): 2500000\n"
    );
}

#[test]
fn no_channels() {
    let response = ListChannelsResponse { channels: vec![] };
    assert_eq!(
        format_channels_info(&response),
        "Lightning Channels:\n-----------------\nNo channels found.\n"
    );
}

#[test]
fn channels_are_numbered_from_one() {
    let response = ListChannelsResponse {
        channels: vec![
            ChannelInfo {
                channel_id: "chan-a".to_string(),
                counterparty_node_id: "03peer".to_string(),
                balance_msat: 1_000,
                outbound_capacity_msat: 900,
                inbound_capacity_msat: 5_000,
                is_usable: true,
                is_public: false,
                short_channel_id: "812x1x0".to_string(),
            },
            ChannelInfo {
                channel_id: "chan-b".to_string(),
                counterparty_node_id: "02other".to_string(),
                balance_msat: 0,
                outbound_capacity_msat: 0,
                inbound_capacity_msat: 0,
                is_usable: false,
                is_public: true,
                short_channel_id: String::new(),
            },
        ],
    };
    assert_eq!(
        format_channels_info(&response),
        "Lightning Channels:\n\
         -----------------\n\
         Channel #1:\n\
         \x20 ID: chan-a\n\
         \x20 Counterparty: 03peer\n\
         \x20 Balance: 1000 msats\n\
         \x20 Outbound Capacity: 900 msats\n\
         \x20 Inbound Capacity: 5000 msats\n\
         \x20 Usable: true\n\
         \x20 Public: false\n\
         \x20 Short Channel ID: 812x1x0\n\
         \n\
         Channel #2:\n\
         \x20 ID: chan-b\n\
         \x20 Counterparty: 02other\n\
         \x20 Balance: 0 msats\n\
         \x20 Outbound Capacity: 0 msats\n\
         \x20 Inbound Capacity: 0 msats\n\
         \x20 Usable: false\n\
         \x20 Public: true\n\
         \n"
    );
}

#[test]
fn the_tenth_channel_has_a_two_digit_number() {
    let channel = ChannelInfo::default();
    let response = ListChannelsResponse {
        channels: vec![channel; 10],
    };
    let text = format_channels_info(&response);
    assert!(text.contains("Channel #9:\n"));
    assert!(text.contains("Channel #10:\n"));
    assert!(!text.contains("Channel #11:\n"));
    assert!(!text.contains("Channel #0:\n"));
}
