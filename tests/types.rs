use glalby::types::InvoiceWarnings;
use glalby::{
    CloseResponse, ConnectPeerResponse, FundChannelRequest, FundChannelResponse, GetInfoResponse,
    KeySendRequest, KeySendResponse, ListFundsChannel, ListFundsOutput, ListInvoicesInvoice,
    ListInvoicesInvoicePaidOutpoint, ListInvoicesRequest, ListPaymentsPayment, ListPaymentsRequest,
    MakeInvoiceRequest, MakeInvoiceResponse, PayResponse, SdkError, TlvEntry, WithdrawResponse,
};

fn message_of(e: SdkError) -> String {
    match e {
        SdkError::InvalidArgument(m) => m,
        SdkError::GreenlightApi(m) => panic!("expected InvalidArgument, got api error {}", m),
    }
}

#[test]
fn get_info_renders_ids_and_color() {
    let info = GetInfoResponse::from_node_info(&[0x02, 0xff], None, &[0x11, 0x22, 0x33], "bitcoin".to_string(), 7);
    assert_eq!(info.pubkey, "02ff");
    assert_eq!(info.alias, "");
    assert_eq!(info.color, "#112233");
    assert_eq!(info.network, "bitcoin");
    assert_eq!(info.block_height, 7);
}

#[test]
fn make_invoice_preimage_decoding() {
    let mut req = MakeInvoiceRequest {
        amount_msat: 1000,
        description: "d".to_string(),
        label: "l".to_string(),
        expiry: None,
        fallbacks: None,
        preimage: None,
        cltv: None,
        deschashonly: None,
    };
    assert_eq!(req.decoded_preimage().unwrap(), None);
    req.preimage = Some("00Ff".to_string());
    assert_eq!(req.decoded_preimage().unwrap(), Some(vec![0, 255]));
    req.preimage = Some("xyz0".to_string());
    let m = message_of(req.decoded_preimage().unwrap_err());
    assert!(m.starts_with("preimage contains invalid hex value: "));
}

#[test]
fn make_invoice_response_encodes_hashes() {
    let w = InvoiceWarnings { capacity: Some("low".to_string()), offline: None, deadends: None, private_unused: None, mpp: None };
    let r = MakeInvoiceResponse::from_invoice("lnbc1".to_string(), &[1], &[2, 3], 99, Some(4), w);
    assert_eq!(r.bolt11, "lnbc1");
    assert_eq!(r.payment_hash, "01");
    assert_eq!(r.payment_secret, "0203");
    assert_eq!(r.expires_at, 99);
    assert_eq!(r.created_index, Some(4));
    assert_eq!(r.warning_capacity.as_deref(), Some("low"));
}

#[test]
fn keysend_decoding() {
    let req = KeySendRequest {
        destination: "02AB".to_string(),
        amount_msat: Some(5),
        label: None,
        extra_tlvs: Some(vec![
            TlvEntry { ty: 5482373484, value: "0102".to_string() },
            TlvEntry { ty: 7, value: "".to_string() },
        ]),
    };
    assert_eq!(req.decoded_destination().unwrap(), vec![2, 0xab]);
    assert_eq!(req.decoded_tlvs().unwrap(), Some(vec![(5482373484, vec![1, 2]), (7, vec![])]));
    let none = KeySendRequest { extra_tlvs: None, ..req.clone() };
    assert_eq!(none.decoded_tlvs().unwrap(), None);
}

#[test]
fn keysend_rejects_bad_hex() {
    let req = KeySendRequest {
        destination: "0g".to_string(),
        amount_msat: None,
        label: None,
        extra_tlvs: Some(vec![TlvEntry { ty: 1, value: "00".to_string() }, TlvEntry { ty: 2, value: "0".to_string() }]),
    };
    assert!(message_of(req.decoded_destination().unwrap_err()).starts_with("destination contains invalid hex value: "));
    assert!(message_of(req.decoded_tlvs().unwrap_err()).starts_with("TLV entry value contains invalid hex value: "));
    let e = TlvEntry { ty: 1, value: "zz".to_string() };
    assert!(matches!(e.decoded_value(), Err(SdkError::InvalidArgument(_))));
}

#[test]
fn fund_channel_id_decoding() {
    let mut req = FundChannelRequest { id: "abcd".to_string(), amount_msat: Some(1), announce: None, minconf: None };
    assert_eq!(req.decoded_id().unwrap(), vec![0xab, 0xcd]);
    req.id = "abc".to_string();
    assert!(message_of(req.decoded_id().unwrap_err()).starts_with("channel id contains invalid hex value: "));
}

#[test]
fn payment_hash_decoding() {
    let li = ListInvoicesRequest { label: None, invstring: None, payment_hash: Some("ff".to_string()), offer_id: None, index: None, start: None, limit: None };
    assert_eq!(li.decoded_payment_hash().unwrap(), Some(vec![255]));
    let lp = ListPaymentsRequest { bolt11: None, payment_hash: Some("f".to_string()), status: None };
    assert!(message_of(lp.decoded_payment_hash().unwrap_err()).starts_with("payment hash contains invalid hex value: "));
    let lp = ListPaymentsRequest { bolt11: None, payment_hash: None, status: None };
    assert_eq!(lp.decoded_payment_hash().unwrap(), None);
}

#[test]
fn small_responses_encode_bytes() {
    assert_eq!(PayResponse::from_preimage(&[0xde, 0xad]).preimage, "dead");
    assert_eq!(KeySendResponse::from_preimage(&[0xbe, 0xef]).payment_preimage, "beef");
    assert_eq!(ConnectPeerResponse::from_id(&[3]).id, "03");
    assert_eq!(FundChannelResponse::from_txid(&[0x10]).txid, "10");
    let w = WithdrawResponse::from_withdrawal(&[1], &[2], "psbt".to_string());
    assert_eq!((w.tx.as_str(), w.txid.as_str(), w.psbt.as_str()), ("01", "02", "psbt"));
    let c = CloseResponse::from_close(2, Some(vec![0xaa]), None);
    assert_eq!((c.item_type, c.tx.as_deref(), c.txid.as_deref()), (2, Some("aa"), None));
}

#[test]
fn list_funds_entries_encode_bytes() {
    let o = ListFundsOutput::from_output(&[1, 2], 0, Some(10), &[0x51], None, Some(vec![0xee]), 1, false, Some(800));
    assert_eq!(o.txid, "0102");
    assert_eq!(o.scriptpubkey, "51");
    assert_eq!(o.redeemscript.as_deref(), Some("ee"));
    assert_eq!(o.blockheight, Some(800));
    let c = ListFundsChannel::from_channel(&[3], Some(1), Some(2), &[4], 1, true, 2, None, Some("1x2x3".to_string()));
    assert_eq!(c.peer_id, "03");
    assert_eq!(c.funding_txid, "04");
    assert_eq!(c.channel_id, None);
    assert_eq!(c.short_channel_id.as_deref(), Some("1x2x3"));
}

#[test]
fn invoice_and_payment_binary_fields() {
    let inv = ListInvoicesInvoice {
        label: "l".to_string(),
        description: None,
        payment_hash: String::new(),
        status: 1,
        expires_at: 5,
        amount_msat: None,
        bolt11: None,
        bolt12: None,
        local_offer_id: None,
        invreq_payer_note: None,
        created_index: None,
        updated_index: None,
        pay_index: None,
        amount_received_msat: None,
        paid_at: None,
        paid_outpoint: Some(ListInvoicesInvoicePaidOutpoint::from_outpoint(Some(vec![9]), Some(1))),
        payment_preimage: None,
    };
    let inv = inv.with_binary_fields(&[0xab], Some(vec![0xcd]), None);
    assert_eq!(inv.payment_hash, "ab");
    assert_eq!(inv.local_offer_id.as_deref(), Some("cd"));
    assert_eq!(inv.paid_outpoint.unwrap().txid.as_deref(), Some("09"));
    let pay = ListPaymentsPayment {
        payment_hash: String::new(),
        status: 0,
        destination: None,
        created_at: 1,
        completed_at: None,
        label: None,
        bolt11: None,
        description: None,
        bolt12: None,
        amount_msat: None,
        amount_sent_msat: None,
        preimage: None,
        number_of_parts: None,
        erroronion: None,
    };
    let pay = pay.with_binary_fields(&[1], Some(vec![2]), Some(vec![3]), None);
    assert_eq!((pay.payment_hash.as_str(), pay.destination.as_deref(), pay.preimage.as_deref(), pay.erroronion.as_deref()), ("01", Some("02"), Some("03"), None));
}
