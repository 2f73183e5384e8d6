use vstd::prelude::*;
use vstd::string::StringExecFns;

use crate::codec::{
    bytes_of_hex, decode_hex_field, decode_optional_hex_field, encode_hex, encode_optional_hex,
    hex_of, is_hex,
};
use crate::error::{has_context, SdkError};
use crate::shutdown::ShutdownOutcome;

verus! {

/// The hex text of an optional byte field.
pub open spec fn opt_hex(b: Option<Vec<u8>>) -> Option<Seq<char>> {
    match b {
        Some(v) => Some(hex_of(v@)),
        None => None,
    }
}

pub open spec fn opt_view(s: Option<String>) -> Option<Seq<char>> {
    match s {
        Some(v) => Some(v@),
        None => None,
    }
}

#[derive(Clone, Debug)]
pub struct GetInfoResponse {
    pub pubkey: String,
    pub alias: String,
    pub color: String,
    pub network: String,
    pub block_height: u32,
}

impl GetInfoResponse {
    /// The node's info: its id as hex, its alias (empty when it has none),
    /// its color as `#` and hex.
    pub fn from_node_info(
        id: &[u8],
        alias: Option<String>,
        color: &[u8],
        network: String,
        block_height: u32,
    ) -> (r: GetInfoResponse)
        ensures
            r.pubkey@ == hex_of(id@),
            alias is Some ==> r.alias@ == alias->Some_0@,
            alias is None ==> r.alias@ == Seq::<char>::empty(),
            r.color@ == seq!['#'] + hex_of(color@),
            r.network@ == network@,
            r.block_height == block_height,
    {
        let mut c = <String as StringExecFns>::from_str("#");
        proof {
            reveal_strlit("#");
        }
        let digits = encode_hex(color);
        c.append(digits.as_str());
        let alias = match alias {
            Some(a) => a,
            None => String::new(),
        };
        GetInfoResponse { pubkey: encode_hex(id), alias, color: c, network, block_height }
    }
}

/// How a shutdown went.
#[derive(Clone, Debug)]
pub struct ShutdownResponse {
    pub outcome: ShutdownOutcome,
}

#[derive(Clone, Debug)]
pub struct MakeInvoiceRequest {
    pub amount_msat: u64,
    pub description: String,
    pub label: String,
    pub expiry: Option<u64>,
    pub fallbacks: Option<Vec<String>>,
    pub preimage: Option<String>,
    pub cltv: Option<u32>,
    pub deschashonly: Option<bool>,
}

impl MakeInvoiceRequest {
    /// The preimage as bytes; text that is not hex is `InvalidArgument`.
    pub fn decoded_preimage(&self) -> (r: Result<Option<Vec<u8>>, SdkError>)
        ensures
            self.preimage is None ==> r == Ok::<Option<Vec<u8>>, SdkError>(None),
            self.preimage is Some && is_hex(self.preimage->Some_0@) ==> r is Ok && r->Ok_0 is Some
                && r->Ok_0->Some_0@ == bytes_of_hex(self.preimage->Some_0@),
            self.preimage is Some && !is_hex(self.preimage->Some_0@) ==> r is Err
                && r->Err_0.is_invalid_argument() && has_context(
                r->Err_0.message(),
                "preimage contains invalid hex value"@,
            ),
    {
        decode_optional_hex_field(&self.preimage, "preimage contains invalid hex value")
    }
}

#[derive(Clone, Debug)]
pub struct MakeInvoiceResponse {
    pub bolt11: String,
    pub payment_hash: String,
    pub payment_secret: String,
    pub expires_at: u64,
    pub created_index: Option<u64>,
    pub warning_capacity: Option<String>,
    pub warning_offline: Option<String>,
    pub warning_deadends: Option<String>,
    pub warning_private_unused: Option<String>,
    pub warning_mpp: Option<String>,
}

/// The warnings a node may attach to a new invoice.
#[derive(Clone, Debug)]
pub struct InvoiceWarnings {
    pub capacity: Option<String>,
    pub offline: Option<String>,
    pub deadends: Option<String>,
    pub private_unused: Option<String>,
    pub mpp: Option<String>,
}

impl MakeInvoiceResponse {
    /// A new invoice, with its hash and secret as hex.
    pub fn from_invoice(
        bolt11: String,
        payment_hash: &[u8],
        payment_secret: &[u8],
        expires_at: u64,
        created_index: Option<u64>,
        warnings: InvoiceWarnings,
    ) -> (r: MakeInvoiceResponse)
        ensures
            r.bolt11@ == bolt11@,
            r.payment_hash@ == hex_of(payment_hash@),
            r.payment_secret@ == hex_of(payment_secret@),
            r.expires_at == expires_at,
            r.created_index == created_index,
            r.warning_capacity == warnings.capacity,
            r.warning_offline == warnings.offline,
            r.warning_deadends == warnings.deadends,
            r.warning_private_unused == warnings.private_unused,
            r.warning_mpp == warnings.mpp,
    {
        MakeInvoiceResponse {
            bolt11,
            payment_hash: encode_hex(payment_hash),
            payment_secret: encode_hex(payment_secret),
            expires_at,
            created_index,
            warning_capacity: warnings.capacity,
            warning_offline: warnings.offline,
            warning_deadends: warnings.deadends,
            warning_private_unused: warnings.private_unused,
            warning_mpp: warnings.mpp,
        }
    }
}

#[derive(Clone, Debug)]
pub struct PayRequest {
    pub bolt11: String,
}

#[derive(Clone, Debug)]
pub struct PayResponse {
    pub preimage: String,
}

impl PayResponse {
    pub fn from_preimage(preimage: &[u8]) -> (r: PayResponse)
        ensures
            r.preimage@ == hex_of(preimage@),
    {
        PayResponse { preimage: encode_hex(preimage) }
    }
}

#[derive(Clone, Debug)]
pub struct TlvEntry {
    pub ty: u64,
    pub value: String,
}

impl TlvEntry {
    /// The value as bytes; text that is not hex is `InvalidArgument`.
    pub fn decoded_value(&self) -> (r: Result<Vec<u8>, SdkError>)
        ensures
            is_hex(self.value@) ==> r is Ok && r->Ok_0@ == bytes_of_hex(self.value@),
            !is_hex(self.value@) ==> r is Err && r->Err_0.is_invalid_argument() && has_context(
                r->Err_0.message(),
                "TLV entry value contains invalid hex value"@,
            ),
    {
        decode_hex_field(self.value.as_str(), "TLV entry value contains invalid hex value")
    }
}

/// Whether every entry's value is hex.
pub open spec fn tlvs_are_hex(tlvs: Seq<TlvEntry>) -> bool {
    forall|i: int| 0 <= i < tlvs.len() ==> is_hex(#[trigger] tlvs[i].value@)
}

#[derive(Clone, Debug)]
pub struct KeySendRequest {
    pub destination: String,
    pub amount_msat: Option<u64>,
    pub label: Option<String>,
    pub extra_tlvs: Option<Vec<TlvEntry>>,
}

impl KeySendRequest {
    /// The destination node id as bytes; text that is not hex is
    /// `InvalidArgument`.
    pub fn decoded_destination(&self) -> (r: Result<Vec<u8>, SdkError>)
        ensures
            is_hex(self.destination@) ==> r is Ok && r->Ok_0@ == bytes_of_hex(self.destination@),
            !is_hex(self.destination@) ==> r is Err && r->Err_0.is_invalid_argument() && has_context(
                r->Err_0.message(),
                "destination contains invalid hex value"@,
            ),
    {
        decode_hex_field(self.destination.as_str(), "destination contains invalid hex value")
    }

    /// The extra TLV entries as type and bytes, in order.  Any value that is
    /// not hex makes the whole list `InvalidArgument`.
    pub fn decoded_tlvs(&self) -> (r: Result<Option<Vec<(u64, Vec<u8>)>>, SdkError>)
        ensures
            self.extra_tlvs is None ==> r is Ok && r->Ok_0 is None,
            self.extra_tlvs is Some && tlvs_are_hex(self.extra_tlvs->Some_0@) ==> r is Ok
                && r->Ok_0 is Some && r->Ok_0->Some_0@.len() == self.extra_tlvs->Some_0@.len()
                && forall|i: int|
                0 <= i < r->Ok_0->Some_0@.len() ==> (#[trigger] r->Ok_0->Some_0@[i]).0
                    == self.extra_tlvs->Some_0@[i].ty && r->Ok_0->Some_0@[i].1@ == bytes_of_hex(
                    self.extra_tlvs->Some_0@[i].value@,
                ),
            self.extra_tlvs is Some && !tlvs_are_hex(self.extra_tlvs->Some_0@) ==> r is Err
                && r->Err_0.is_invalid_argument() && has_context(
                r->Err_0.message(),
                "TLV entry value contains invalid hex value"@,
            ),
    {
        match &self.extra_tlvs {
            None => Ok(None),
            Some(tlvs) => {
                let mut out: Vec<(u64, Vec<u8>)> = Vec::new();
                let mut i: usize = 0;
                while i < tlvs.len()
                    invariant
                        self.extra_tlvs is Some && self.extra_tlvs->Some_0@ == tlvs@,
                        i <= tlvs@.len(),
                        out@.len() == i,
                        forall|j: int| 0 <= j < i ==> is_hex(#[trigger] tlvs@[j].value@),
                        forall|j: int|
                            0 <= j < i ==> (#[trigger] out@[j]).0 == tlvs@[j].ty && out@[j].1@
                                == bytes_of_hex(tlvs@[j].value@),
                    decreases tlvs@.len() - i,
                {
                    match tlvs[i].decoded_value() {
                        Ok(v) => {
                            out.push((tlvs[i].ty, v));
                        },
                        Err(e) => {
                            return Err(e);
                        },
                    }
                    i = i + 1;
                }
                Ok(Some(out))
            },
        }
    }
}

#[derive(Clone, Debug)]
pub struct KeySendResponse {
    pub payment_preimage: String,
}

impl KeySendResponse {
    pub fn from_preimage(preimage: &[u8]) -> (r: KeySendResponse)
        ensures
            r.payment_preimage@ == hex_of(preimage@),
    {
        KeySendResponse { payment_preimage: encode_hex(preimage) }
    }
}

#[derive(Clone, Debug)]
pub struct ListFundsRequest {
    pub spent: Option<bool>,
}

#[derive(Clone, Debug)]
pub struct ListFundsOutput {
    pub txid: String,
    pub output: u32,
    pub amount_msat: Option<u64>,
    pub scriptpubkey: String,
    pub address: Option<String>,
    pub redeemscript: Option<String>,
    pub status: i32,
    pub reserved: bool,
    pub blockheight: Option<u32>,
}

impl ListFundsOutput {
    /// An on-chain output, with its binary fields as hex.
    pub fn from_output(
        txid: &[u8],
        output: u32,
        amount_msat: Option<u64>,
        scriptpubkey: &[u8],
        address: Option<String>,
        redeemscript: Option<Vec<u8>>,
        status: i32,
        reserved: bool,
        blockheight: Option<u32>,
    ) -> (r: ListFundsOutput)
        ensures
            r.txid@ == hex_of(txid@),
            r.output == output,
            r.amount_msat == amount_msat,
            r.scriptpubkey@ == hex_of(scriptpubkey@),
            r.address == address,
            opt_view(r.redeemscript) == opt_hex(redeemscript),
            r.status == status,
            r.reserved == reserved,
            r.blockheight == blockheight,
    {
        ListFundsOutput {
            txid: encode_hex(txid),
            output,
            amount_msat,
            scriptpubkey: encode_hex(scriptpubkey),
            address,
            redeemscript: encode_optional_hex(&redeemscript),
            status,
            reserved,
            blockheight,
        }
    }
}

#[derive(Clone, Debug)]
pub struct ListFundsChannel {
    pub peer_id: String,
    pub our_amount_msat: Option<u64>,
    pub amount_msat: Option<u64>,
    pub funding_txid: String,
    pub funding_output: u32,
    pub connected: bool,
    pub state: i32,
    pub channel_id: Option<String>,
    pub short_channel_id: Option<String>,
}

impl ListFundsChannel {
    /// A channel, with its binary fields as hex.
    pub fn from_channel(
        peer_id: &[u8],
        our_amount_msat: Option<u64>,
        amount_msat: Option<u64>,
        funding_txid: &[u8],
        funding_output: u32,
        connected: bool,
        state: i32,
        channel_id: Option<Vec<u8>>,
        short_channel_id: Option<String>,
    ) -> (r: ListFundsChannel)
        ensures
            r.peer_id@ == hex_of(peer_id@),
            r.our_amount_msat == our_amount_msat,
            r.amount_msat == amount_msat,
            r.funding_txid@ == hex_of(funding_txid@),
            r.funding_output == funding_output,
            r.connected == connected,
            r.state == state,
            opt_view(r.channel_id) == opt_hex(channel_id),
            r.short_channel_id == short_channel_id,
    {
        ListFundsChannel {
            peer_id: encode_hex(peer_id),
            our_amount_msat,
            amount_msat,
            funding_txid: encode_hex(funding_txid),
            funding_output,
            connected,
            state,
            channel_id: encode_optional_hex(&channel_id),
            short_channel_id,
        }
    }
}

#[derive(Clone, Debug)]
pub struct ListFundsResponse {
    pub outputs: Vec<ListFundsOutput>,
    pub channels: Vec<ListFundsChannel>,
}

#[derive(Clone, Debug)]
pub struct ConnectPeerRequest {
    pub id: String,
    pub host: Option<String>,
    pub port: Option<u16>,
}

#[derive(Clone, Debug)]
pub struct ConnectPeerResponse {
    pub id: String,
}

impl ConnectPeerResponse {
    pub fn from_id(id: &[u8]) -> (r: ConnectPeerResponse)
        ensures
            r.id@ == hex_of(id@),
    {
        ConnectPeerResponse { id: encode_hex(id) }
    }
}

#[derive(Clone, Debug)]
pub struct FundChannelRequest {
    pub id: String,
    pub amount_msat: Option<u64>,
    pub announce: Option<bool>,
    pub minconf: Option<u32>,
}

impl FundChannelRequest {
    /// The peer id as bytes; text that is not hex is `InvalidArgument`.
    pub fn decoded_id(&self) -> (r: Result<Vec<u8>, SdkError>)
        ensures
            is_hex(self.id@) ==> r is Ok && r->Ok_0@ == bytes_of_hex(self.id@),
            !is_hex(self.id@) ==> r is Err && r->Err_0.is_invalid_argument() && has_context(
                r->Err_0.message(),
                "channel id contains invalid hex value"@,
            ),
    {
        decode_hex_field(self.id.as_str(), "channel id contains invalid hex value")
    }
}

#[derive(Clone, Debug)]
pub struct FundChannelResponse {
    pub txid: String,
}

impl FundChannelResponse {
    pub fn from_txid(txid: &[u8]) -> (r: FundChannelResponse)
        ensures
            r.txid@ == hex_of(txid@),
    {
        FundChannelResponse { txid: encode_hex(txid) }
    }
}

#[derive(Clone, Copy, Debug, PartialEq, Eq, Structural)]
pub enum NewAddressType {
    Bech32,
    P2tr,
    All,
}

#[derive(Clone, Debug)]
pub struct NewAddressRequest {
    pub address_type: Option<NewAddressType>,
}

#[derive(Clone, Debug)]
pub struct NewAddressResponse {
    pub p2tr: Option<String>,
    pub bech32: Option<String>,
}

#[derive(Clone, Copy, Debug, PartialEq, Eq, Structural)]
pub enum ListInvoicesIndex {
    Created,
    Updated,
}

#[derive(Clone, Debug)]
pub struct ListInvoicesRequest {
    pub label: Option<String>,
    pub invstring: Option<String>,
    pub payment_hash: Option<String>,
    pub offer_id: Option<String>,
    pub index: Option<ListInvoicesIndex>,
    pub start: Option<u64>,
    pub limit: Option<u32>,
}

impl ListInvoicesRequest {
    /// The payment hash as bytes; text that is not hex is `InvalidArgument`.
    pub fn decoded_payment_hash(&self) -> (r: Result<Option<Vec<u8>>, SdkError>)
        ensures
            self.payment_hash is None ==> r == Ok::<Option<Vec<u8>>, SdkError>(None),
            self.payment_hash is Some && is_hex(self.payment_hash->Some_0@) ==> r is Ok
                && r->Ok_0 is Some && r->Ok_0->Some_0@ == bytes_of_hex(self.payment_hash->Some_0@),
            self.payment_hash is Some && !is_hex(self.payment_hash->Some_0@) ==> r is Err
                && r->Err_0.is_invalid_argument() && has_context(
                r->Err_0.message(),
                "payment hash contains invalid hex value"@,
            ),
    {
        decode_optional_hex_field(&self.payment_hash, "payment hash contains invalid hex value")
    }
}

#[derive(Clone, Debug)]
pub struct ListInvoicesInvoicePaidOutpoint {
    pub txid: Option<String>,
    pub outnum: Option<u32>,
}

impl ListInvoicesInvoicePaidOutpoint {
    pub fn from_outpoint(txid: Option<Vec<u8>>, outnum: Option<u32>) -> (r:
        ListInvoicesInvoicePaidOutpoint)
        ensures
            opt_view(r.txid) == opt_hex(txid),
            r.outnum == outnum,
    {
        ListInvoicesInvoicePaidOutpoint { txid: encode_optional_hex(&txid), outnum }
    }
}

#[derive(Clone, Debug)]
pub struct ListInvoicesInvoice {
    pub label: String,
    pub description: Option<String>,
    pub payment_hash: String,
    pub status: i32,
    pub expires_at: u64,
    pub amount_msat: Option<u64>,
    pub bolt11: Option<String>,
    pub bolt12: Option<String>,
    pub local_offer_id: Option<String>,
    pub invreq_payer_note: Option<String>,
    pub created_index: Option<u64>,
    pub updated_index: Option<u64>,
    pub pay_index: Option<u64>,
    pub amount_received_msat: Option<u64>,
    pub paid_at: Option<u64>,
    pub paid_outpoint: Option<ListInvoicesInvoicePaidOutpoint>,
    pub payment_preimage: Option<String>,
}

impl ListInvoicesInvoice {
    /// Encodes the binary fields of an invoice as the node reported it:
    /// `payment_hash`, `local_offer_id` and `payment_preimage` become hex,
    /// every other field is kept.
    pub fn with_binary_fields(
        self,
        payment_hash: &[u8],
        local_offer_id: Option<Vec<u8>>,
        payment_preimage: Option<Vec<u8>>,
    ) -> (r: ListInvoicesInvoice)
        ensures
            r.payment_hash@ == hex_of(payment_hash@),
            opt_view(r.local_offer_id) == opt_hex(local_offer_id),
            opt_view(r.payment_preimage) == opt_hex(payment_preimage),
            r.label == self.label,
            r.description == self.description,
            r.status == self.status,
            r.expires_at == self.expires_at,
            r.amount_msat == self.amount_msat,
            r.bolt11 == self.bolt11,
            r.bolt12 == self.bolt12,
            r.invreq_payer_note == self.invreq_payer_note,
            r.created_index == self.created_index,
            r.updated_index == self.updated_index,
            r.pay_index == self.pay_index,
            r.amount_received_msat == self.amount_received_msat,
            r.paid_at == self.paid_at,
            r.paid_outpoint == self.paid_outpoint,
    {
        ListInvoicesInvoice {
            payment_hash: encode_hex(payment_hash),
            local_offer_id: encode_optional_hex(&local_offer_id),
            payment_preimage: encode_optional_hex(&payment_preimage),
            ..self
        }
    }
}

#[derive(Clone, Debug)]
pub struct ListInvoicesResponse {
    pub invoices: Vec<ListInvoicesInvoice>,
}

#[derive(Clone, Copy, Debug, PartialEq, Eq, Structural)]
pub enum ListPaymentsStatus {
    Pending,
    Complete,
    Failed,
}

#[derive(Clone, Debug)]
pub struct ListPaymentsRequest {
    pub bolt11: Option<String>,
    pub payment_hash: Option<String>,
    pub status: Option<ListPaymentsStatus>,
}

impl ListPaymentsRequest {
    /// The payment hash as bytes; text that is not hex is `InvalidArgument`.
    pub fn decoded_payment_hash(&self) -> (r: Result<Option<Vec<u8>>, SdkError>)
        ensures
            self.payment_hash is None ==> r == Ok::<Option<Vec<u8>>, SdkError>(None),
            self.payment_hash is Some && is_hex(self.payment_hash->Some_0@) ==> r is Ok
                && r->Ok_0 is Some && r->Ok_0->Some_0@ == bytes_of_hex(self.payment_hash->Some_0@),
            self.payment_hash is Some && !is_hex(self.payment_hash->Some_0@) ==> r is Err
                && r->Err_0.is_invalid_argument() && has_context(
                r->Err_0.message(),
                "payment hash contains invalid hex value"@,
            ),
    {
        decode_optional_hex_field(&self.payment_hash, "payment hash contains invalid hex value")
    }
}

#[derive(Clone, Debug)]
pub struct ListPaymentsPayment {
    pub payment_hash: String,
    pub status: i32,
    pub destination: Option<String>,
    pub created_at: u64,
    pub completed_at: Option<u64>,
    pub label: Option<String>,
    pub bolt11: Option<String>,
    pub description: Option<String>,
    pub bolt12: Option<String>,
    pub amount_msat: Option<u64>,
    pub amount_sent_msat: Option<u64>,
    pub preimage: Option<String>,
    pub number_of_parts: Option<u64>,
    pub erroronion: Option<String>,
}

impl ListPaymentsPayment {
    /// Encodes the binary fields of a payment as the node reported it:
    /// `payment_hash`, `destination`, `preimage` and `erroronion` become
    /// hex, every other field is kept.
    pub fn with_binary_fields(
        self,
        payment_hash: &[u8],
        destination: Option<Vec<u8>>,
        preimage: Option<Vec<u8>>,
        erroronion: Option<Vec<u8>>,
    ) -> (r: ListPaymentsPayment)
        ensures
            r.payment_hash@ == hex_of(payment_hash@),
            opt_view(r.destination) == opt_hex(destination),
            opt_view(r.preimage) == opt_hex(preimage),
            opt_view(r.erroronion) == opt_hex(erroronion),
            r.status == self.status,
            r.created_at == self.created_at,
            r.completed_at == self.completed_at,
            r.label == self.label,
            r.bolt11 == self.bolt11,
            r.description == self.description,
            r.bolt12 == self.bolt12,
            r.amount_msat == self.amount_msat,
            r.amount_sent_msat == self.amount_sent_msat,
            r.number_of_parts == self.number_of_parts,
    {
        ListPaymentsPayment {
            payment_hash: encode_hex(payment_hash),
            destination: encode_optional_hex(&destination),
            preimage: encode_optional_hex(&preimage),
            erroronion: encode_optional_hex(&erroronion),
            ..self
        }
    }
}

#[derive(Clone, Debug)]
pub struct ListPaymentsResponse {
    pub payments: Vec<ListPaymentsPayment>,
}

#[derive(Clone, Debug)]
pub struct SignMessageRequest {
    pub message: String,
}

#[derive(Clone, Debug)]
pub struct SignMessageResponse {
    pub signature: Vec<u8>,
    pub recid: Vec<u8>,
    pub zbase: String,
}

#[derive(Clone, Copy, Debug, PartialEq, Eq, Structural)]
pub enum AmountOrAll {
    Amount { msat: u64 },
    All,
}

#[derive(Clone, Debug)]
pub struct WithdrawRequest {
    pub destination: String,
    pub amount: Option<AmountOrAll>,
    pub minconf: Option<u32>,
}

#[derive(Clone, Debug)]
pub struct WithdrawResponse {
    pub tx: String,
    pub txid: String,
    pub psbt: String,
}

impl WithdrawResponse {
    pub fn from_withdrawal(tx: &[u8], txid: &[u8], psbt: String) -> (r: WithdrawResponse)
        ensures
            r.tx@ == hex_of(tx@),
            r.txid@ == hex_of(txid@),
            r.psbt@ == psbt@,
    {
        WithdrawResponse { tx: encode_hex(tx), txid: encode_hex(txid), psbt }
    }
}

#[derive(Clone, Debug)]
pub struct CloseRequest {
    pub id: String,
    pub unilateral_timeout: Option<u32>,
    pub destination: Option<String>,
    pub fee_negotiation_step: Option<String>,
    pub force_lease_closed: Option<bool>,
}

#[derive(Clone, Debug)]
pub struct CloseResponse {
    pub item_type: i32,
    pub tx: Option<String>,
    pub txid: Option<String>,
}

impl CloseResponse {
    pub fn from_close(item_type: i32, tx: Option<Vec<u8>>, txid: Option<Vec<u8>>) -> (r:
        CloseResponse)
        ensures
            r.item_type == item_type,
            opt_view(r.tx) == opt_hex(tx),
            opt_view(r.txid) == opt_hex(txid),
    {
        CloseResponse {
            item_type,
            tx: encode_optional_hex(&tx),
            txid: encode_optional_hex(&txid),
        }
    }
}

} // verus!
