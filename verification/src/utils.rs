//! Text for display of what the management interface answers.

use crate::proto::{
    ChannelInfo, GetInfoResponse, ListBalanceResponse, ListChannelsResponse, PaymentResponse,
};
use crate::text::{
    bool_text, decimal, joined, push_bool, push_decimal, push_joined, text_or_default, views,
};
use vstd::prelude::*;
use vstd::string::StringExecFns;

verus! {

/// The text that reports a payment: on success three lines with hash,
/// preimage and fee, on failure one line with the reason.
pub open spec fn payment_response_text(payment: PaymentResponse) -> Seq<char> {
    if payment.success {
        "Payment succeeded!\n"@ + "Payment hash: "@ + payment.payment_hash@ + "\n"@
            + "Payment preimage: "@ + payment.payment_preimage@ + "\n"@ + "Fee paid (msats): "@
            + decimal(payment.fee_msats as nat) + "\n"@
    } else {
        "Payment failed: "@ + text_or_default(payment.failure_reason, "Unknown reason"@) + "\n"@
    }
}

/// The text that reports a payment.
pub fn format_payment_response(payment: &PaymentResponse) -> (output: String)
    ensures
        output@ == payment_response_text(*payment),
{
    let mut output = String::new();
    if payment.success {
        output.append("Payment succeeded!\n");
        output.append("Payment hash: ");
        output.append(payment.payment_hash.as_str());
        output.append("\n");
        output.append("Payment preimage: ");
        output.append(payment.payment_preimage.as_str());
        output.append("\n");
        output.append("Fee paid (msats): ");
        push_decimal(&mut output, payment.fee_msats);
        output.append("\n");
    } else {
        output.append("Payment failed: ");
        match &payment.failure_reason {
            Some(reason) => output.append(reason.as_str()),
            None => output.append("Unknown reason"),
        }
        output.append("\n");
    }
    assert(output@ =~= payment_response_text(*payment));
    output
}

/// The text that describes the node: a heading and one line for each of
/// identity, alias, addresses and the counts of peers and channels.
pub open spec fn node_info_text(info: GetInfoResponse) -> Seq<char> {
    "Node Information:\n"@ + "----------------\n"@ + "Node ID: "@ + info.node_id@ + "\n"@
        + "Alias: "@ + info.alias@ + "\n"@ + "Listening Addresses: "@ + joined(
        views(info.listening_addresses@),
        ", "@,
    ) + "\n"@ + "Announcement Addresses: "@ + joined(views(info.announcement_addresses@), ", "@)
        + "\n"@ + "Connected peer count: "@ + decimal(info.num_connected_peers as nat) + "\n"@
        + "Peer count: "@ + decimal(info.num_peers as nat) + "\n"@ + "Connected channel count: "@
        + decimal(info.num_active_channels as nat) + "\n"@ + "Inactive channel count: "@ + decimal(
        info.num_inactive_channels as nat,
    ) + "\n"@
}

/// The text that describes the node.
pub fn format_node_info(info: &GetInfoResponse) -> (output: String)
    ensures
        output@ == node_info_text(*info),
{
    let mut output = String::new();
    output.append("Node Information:\n");
    output.append("----------------\n");
    output.append("Node ID: ");
    output.append(info.node_id.as_str());
    output.append("\n");
    output.append("Alias: ");
    output.append(info.alias.as_str());
    output.append("\n");
    output.append("Listening Addresses: ");
    push_joined(&mut output, &info.listening_addresses, ", ");
    output.append("\n");
    output.append("Announcement Addresses: ");
    push_joined(&mut output, &info.announcement_addresses, ", ");
    output.append("\n");
    output.append("Connected peer count: ");
    push_decimal(&mut output, info.num_connected_peers);
    output.append("\n");
    output.append("Peer count: ");
    push_decimal(&mut output, info.num_peers);
    output.append("\n");
    output.append("Connected channel count: ");
    push_decimal(&mut output, info.num_active_channels);
    output.append("\n");
    output.append("Inactive channel count: ");
    push_decimal(&mut output, info.num_inactive_channels);
    output.append("\n");
    assert(output@ =~= node_info_text(*info));
    output
}

/// The text that reports the balances: one line each for the total and the
/// spendable on-chain balance and for the Lightning balance.
pub open spec fn balance_info_text(balance: ListBalanceResponse) -> Seq<char> {
    "Total onchain balance (sats): "@ + decimal(balance.total_onchain_balance_sats as nat) + "\n"@
        + "Spendable onchain balance (sats): "@ + decimal(
        balance.spendable_onchain_balance_sats as nat,
    ) + "\n"@ + "Total lightning balance (sats): "@ + decimal(
        balance.total_lightning_balance_sats as nat,
    ) + "\n"@
}

/// The text that reports the balances.
pub fn format_balance_info(balance: &ListBalanceResponse) -> (output: String)
    ensures
        output@ == balance_info_text(*balance),
{
    let mut output = String::new();
    output.append("Total onchain balance (sats): ");
    push_decimal(&mut output, balance.total_onchain_balance_sats);
    output.append("\n");
    output.append("Spendable onchain balance (sats): ");
    push_decimal(&mut output, balance.spendable_onchain_balance_sats);
    output.append("\n");
    output.append("Total lightning balance (sats): ");
    push_decimal(&mut output, balance.total_lightning_balance_sats);
    output.append("\n");
    assert(output@ =~= balance_info_text(*balance));
    output
}

/// The line that gives a channel's short id; nothing where it has none.
pub open spec fn short_channel_id_text(channel: ChannelInfo) -> Seq<char> {
    if channel.short_channel_id@.len() == 0 {
        Seq::empty()
    } else {
        "  Short Channel ID: "@ + channel.short_channel_id@ + "\n"@
    }
}

/// The text that describes one channel, listed under `number`: a heading,
/// an indented line for each property, and an empty line.
pub open spec fn channel_text(channel: ChannelInfo, number: nat) -> Seq<char> {
    "Channel #"@ + decimal(number) + ":\n"@ + "  ID: "@ + channel.channel_id@ + "\n"@
        + "  Counterparty: "@ + channel.counterparty_node_id@ + "\n"@ + "  Balance: "@ + decimal(
        channel.balance_msat as nat,
    ) + " msats\n"@ + "  Outbound Capacity: "@ + decimal(channel.outbound_capacity_msat as nat)
        + " msats\n"@ + "  Inbound Capacity: "@ + decimal(channel.inbound_capacity_msat as nat)
        + " msats\n"@ + "  Usable: "@ + bool_text(channel.is_usable) + "\n"@ + "  Public: "@
        + bool_text(channel.is_public) + "\n"@ + short_channel_id_text(channel) + "\n"@
}

/// The texts of `channels` one after the other, numbered from one.
pub open spec fn channel_list_text(channels: Seq<ChannelInfo>) -> Seq<char>
    decreases channels.len(),
{
    if channels.len() == 0 {
        Seq::empty()
    } else {
        channel_list_text(channels.drop_last()) + channel_text(channels.last(), channels.len())
    }
}

/// The text that lists the channels: a heading, then each channel, or a
/// line that says there are none.
pub open spec fn channels_info_text(response: ListChannelsResponse) -> Seq<char> {
    "Lightning Channels:\n"@ + "-----------------\n"@ + if response.channels@.len() == 0 {
        "No channels found.\n"@
    } else {
        channel_list_text(response.channels@)
    }
}

fn push_channel(output: &mut String, channel: &ChannelInfo, number: u64)
    ensures
        final(output)@ == old(output)@ + channel_text(*channel, number as nat),
{
    let ghost start = output@;
    output.append("Channel #");
    push_decimal(output, number);
    output.append(":\n");
    let ghost t1 = "Channel #"@ + decimal(number as nat) + ":\n"@;
    assert(output@ =~= start + t1);
    output.append("  ID: ");
    output.append(channel.channel_id.as_str());
    output.append("\n");
    let ghost t2 = t1 + "  ID: "@ + channel.channel_id@ + "\n"@;
    assert(output@ =~= start + t2);
    output.append("  Counterparty: ");
    output.append(channel.counterparty_node_id.as_str());
    output.append("\n");
    let ghost t3 = t2 + "  Counterparty: "@ + channel.counterparty_node_id@ + "\n"@;
    assert(output@ =~= start + t3);
    output.append("  Balance: ");
    push_decimal(output, channel.balance_msat);
    output.append(" msats\n");
    let ghost t4 = t3 + "  Balance: "@ + decimal(channel.balance_msat as nat) + " msats\n"@;
    assert(output@ =~= start + t4);
    output.append("  Outbound Capacity: ");
    push_decimal(output, channel.outbound_capacity_msat);
    output.append(" msats\n");
    let ghost t5 = t4 + "  Outbound Capacity: "@ + decimal(channel.outbound_capacity_msat as nat)
        + " msats\n"@;
    assert(output@ =~= start + t5);
    output.append("  Inbound Capacity: ");
    push_decimal(output, channel.inbound_capacity_msat);
    output.append(" msats\n");
    let ghost t6 = t5 + "  Inbound Capacity: "@ + decimal(channel.inbound_capacity_msat as nat)
        + " msats\n"@;
    assert(output@ =~= start + t6);
    output.append("  Usable: ");
    push_bool(output, channel.is_usable);
    output.append("\n");
    let ghost t7 = t6 + "  Usable: "@ + bool_text(channel.is_usable) + "\n"@;
    assert(output@ =~= start + t7);
    output.append("  Public: ");
    push_bool(output, channel.is_public);
    output.append("\n");
    let ghost t8 = t7 + "  Public: "@ + bool_text(channel.is_public) + "\n"@;
    assert(output@ =~= start + t8);
    if !channel.short_channel_id.as_str().is_empty() {
        output.append("  Short Channel ID: ");
        output.append(channel.short_channel_id.as_str());
        output.append("\n");
    }
    let ghost t9 = t8 + short_channel_id_text(*channel);
    assert(output@ =~= start + t9);
    output.append("\n");
    assert(output@ =~= start + (t9 + "\n"@));
    assert(t9 + "\n"@ == channel_text(*channel, number as nat));
}

/// The text that lists the channels.
pub fn format_channels_info(response: &ListChannelsResponse) -> (output: String)
    ensures
        output@ == channels_info_text(*response),
{
    let mut output = String::new();
    output.append("Lightning Channels:\n");
    output.append("-----------------\n");
    if response.channels.len() == 0 {
        output.append("No channels found.\n");
    } else {
        let ghost head = output@;
        let mut i: usize = 0;
        while i < response.channels.len()
            invariant
                i <= response.channels.len(),
                output@ == head + channel_list_text(response.channels@.take(i as int)),
            decreases response.channels.len() - i,
        {
            let ghost before = output@;
            push_channel(&mut output, &response.channels[i], (i + 1) as u64);
            proof {
                let next = response.channels@.take(i + 1);
                assert(next.drop_last() =~= response.channels@.take(i as int));
                assert(next.last() == response.channels@[i as int]);
                assert(output@ =~= head + channel_list_text(next));
            }
            i = i + 1;
        }
        proof {
            assert(response.channels@.take(response.channels.len() as int)
                =~= response.channels@);
        }
    }
    assert(output@ =~= channels_info_text(*response));
    output
}

} // verus!
