use qubic_wire::assets::{
    Asset, AssetType, Issuance, Ownership, Possession, RequestIssuedAsset, RespondIssuedAsset,
};
use qubic_wire::client::{ClientState, ConnPhase, Received};
use qubic_wire::errors::WireError;
use qubic_wire::identity::QubicId;
use qubic_wire::packed::{I16, I32, I64, U16, U32, U64};
use qubic_wire::queries::{
    paginate, resolve_tick_range, transfers_for_identity, PaginationParams, QueryError,
    TransferQueryParams,
};
use qubic_wire::records::{block_height_of, Computors, Entity, RespondEntity, SystemInfo, TickInfo};
use qubic_wire::registry::{decode_envelope, encode_envelope, kind_of_tag, tag_of, MessageType};
use qubic_wire::text::AssetName;
use qubic_wire::transaction::{
    transaction_from_base64, Transaction, TransactionData, TransactionWithData,
};
use base64::Engine;

fn id_of_byte(b: u8) -> QubicId {
    let mut raw = [0u8; 32];
    raw[0] = b;
    QubicId::from_bytes(raw)
}

#[test]
fn packed_u16_round_trip() {
    for x in [0u16, 1, 0x1234, u16::MAX] {
        let p = U16::from_native(x);
        assert_eq!(p.to_native(), x);
        let mut bytes = Vec::new();
        p.write_to(&mut bytes);
        assert_eq!(bytes.len(), 2);
        assert_eq!(bytes, vec![(x & 0xff) as u8, (x >> 8) as u8]);
    }
}

#[test]
fn packed_u32_scenario() {
    let p = U32::from_native(1_000_000);
    let mut bytes = Vec::new();
    p.write_to(&mut bytes);
    assert_eq!(bytes, vec![0x40, 0x42, 0x0F, 0x00]);
    assert_eq!(U32::read_from(&bytes, 0).to_native(), 1_000_000);
}

#[test]
fn packed_u64_round_trip() {
    for x in [0u64, 1, 0xdead_beef_0102_0304, u64::MAX] {
        let p = U64::from_native(x);
        assert_eq!(p.to_native(), x);
        let mut bytes = Vec::new();
        p.write_to(&mut bytes);
        assert_eq!(bytes.len(), 8);
        assert_eq!(U64::read_from(&bytes, 0).to_native(), x);
    }
}

#[test]
fn packed_signed_round_trips() {
    for x in [i16::MIN, -1, 0, 1, i16::MAX] {
        assert_eq!(I16::from_native(x).to_native(), x);
    }
    for x in [i32::MIN, -1, 0, 1, i32::MAX] {
        assert_eq!(I32::from_native(x).to_native(), x);
    }
    for x in [i64::MIN, -1, 0, 1, i64::MAX] {
        let p = I64::from_native(x);
        assert_eq!(p.to_native(), x);
        let mut bytes = Vec::new();
        p.write_to(&mut bytes);
        assert_eq!(bytes.len(), 8);
        assert_eq!(I64::read_from(&bytes, 0).to_native(), x);
    }
}

#[test]
fn packed_render_decimal() {
    assert_eq!(U32::from_native(1_000_000).render(), "1000000");
    assert_eq!(U16::from_native(0).render(), "0");
    assert_eq!(I64::from_native(-42).render(), "-42");
    assert_eq!(I64::from_native(i64::MIN).render(), "-9223372036854775808");
    assert_eq!(U64::from_native(u64::MAX).render(), "18446744073709551615");
}

#[test]
fn asset_name_parse_and_render() {
    let name = AssetName::<7>::parse("QX").unwrap();
    let mut bytes = Vec::new();
    name.write_to(&mut bytes);
    assert_eq!(bytes, vec![0x51, 0x58, 0, 0, 0, 0, 0]);
    assert_eq!(name.render(), "QX");
}

#[test]
fn asset_name_too_long() {
    let r = AssetName::<7>::parse("ABCDEFGH");
    assert_eq!(
        r,
        Err(WireError::LengthError {
            expected: 7,
            found: 8
        })
    );
}

#[test]
fn asset_name_non_ascii() {
    let r = AssetName::<7>::parse("Qü");
    assert_eq!(r, Err(WireError::EncodingError));
}

#[test]
fn asset_name_full_round_trip() {
    let name = AssetName::<7>::parse("ABCDEFG").unwrap();
    assert_eq!(name.render(), "ABCDEFG");
}

#[test]
fn asset_name_render_skips_embedded_zeros() {
    let bytes = vec![0x51u8, 0, 0x58, 0, 0, 0, 0];
    let name = AssetName::<7>::read_from(&bytes, 0);
    assert_eq!(name.render(), "QX");
}

#[test]
fn identity_parse_and_render_key() {
    let all_a = "A".repeat(60);
    let id = QubicId::parse(&all_a).unwrap();
    let mut bytes = Vec::new();
    id.write_to(&mut bytes);
    assert_eq!(bytes, vec![0u8; 32]);
    assert_eq!(id.render_key(), "A".repeat(56));
}

#[test]
fn identity_text_round_trip() {
    let id = id_of_byte(7);
    let text = format!("{}AAAA", id.render_key());
    let back = QubicId::parse(&text).unwrap();
    assert_eq!(back, id);
}

#[test]
fn identity_rejects_malformed_text() {
    assert_eq!(QubicId::parse("SHORT"), Err(WireError::InvalidIdentity));
    let lower = "a".repeat(60);
    assert_eq!(QubicId::parse(&lower), Err(WireError::InvalidIdentity));
    // All-Z limbs decode to values past 64 bits.
    let all_z = "Z".repeat(60);
    assert_eq!(QubicId::parse(&all_z), Err(WireError::InvalidIdentity));
}

#[test]
fn asset_type_size_uniform_across_variants() {
    let issuance = Issuance {
        name: AssetName::<7>::parse("QX").unwrap(),
        number_of_decimal_places: 2,
        unit_of_measurement: [0; 7],
    };
    let ownership = Ownership {
        padding: 0,
        managing_contract_index: U16::from_native(1),
        issuance_index: U32::from_native(9),
        number_of_units: I64::from_native(-5),
    };
    let possession = Possession {
        padding: 0,
        managing_contract_index: U16::from_native(1),
        issuance_index: U32::from_native(9),
        number_of_units: I64::from_native(5),
    };
    let variants = [
        AssetType::Empty,
        AssetType::Issuance(issuance),
        AssetType::Ownership(ownership),
        AssetType::Possession(possession),
    ];
    for v in variants {
        let mut bytes = Vec::new();
        v.write_to(&mut bytes);
        assert_eq!(bytes.len(), 16);
    }
}

#[test]
fn asset_type_round_trip() {
    let issuance = Issuance {
        name: AssetName::<7>::parse("QX").unwrap(),
        number_of_decimal_places: 2,
        unit_of_measurement: [1, 2, 3, 4, 5, 6, 7],
    };
    let v = AssetType::Issuance(issuance);
    let mut bytes = Vec::new();
    v.write_to(&mut bytes);
    let back = AssetType::read_from(&bytes, 0).unwrap();
    assert_eq!(back, v);
}

#[test]
fn asset_type_unknown_discriminant() {
    let bytes = vec![9u8; 16];
    assert_eq!(AssetType::read_from(&bytes, 0), Err(WireError::DecodeError));
}

#[test]
fn respond_issued_asset_round_trip() {
    let record = RespondIssuedAsset {
        asset: Asset {
            public_key: id_of_byte(3),
            asset_type: AssetType::Ownership(Ownership {
                padding: 0,
                managing_contract_index: U16::from_native(1),
                issuance_index: U32::from_native(2),
                number_of_units: I64::from_native(1000),
            }),
        },
        tick: 777,
    };
    let bytes = record.encode();
    assert_eq!(bytes.len(), 52);
    let back = RespondIssuedAsset::read_from(&bytes, 0).unwrap();
    assert_eq!(back, record);
}

#[test]
fn request_issued_asset_encodes_key() {
    let req = RequestIssuedAsset {
        public_key: id_of_byte(5),
    };
    let bytes = req.encode();
    assert_eq!(bytes.len(), 32);
    assert_eq!(bytes[0], 5);
}

fn sample_transaction(input_type: u16, payload: Vec<u8>) -> Transaction {
    Transaction {
        from: id_of_byte(1),
        to: id_of_byte(2),
        amount: 42,
        tick: 9_000,
        input_type,
        input_size: payload.len() as u16,
        payload,
    }
}

#[test]
fn transaction_round_trip() {
    let tx = sample_transaction(0, vec![]);
    let bytes = tx.encode();
    assert_eq!(bytes.len(), 80);
    let back = Transaction::decode(&bytes).unwrap();
    assert_eq!(back, tx);
}

#[test]
fn transaction_size_mismatch_fails() {
    // Declared input_size says 3 payload bytes but the buffer carries none.
    let tx = sample_transaction(0, vec![]);
    let mut bytes = tx.encode();
    bytes[78] = 3;
    assert_eq!(Transaction::decode(&bytes), Err(WireError::DecodeError));
}

#[test]
fn transaction_issue_asset_payload_too_small() {
    // Input type of an asset issuance, but only a 3-byte payload.
    let tx = sample_transaction(1, vec![0xAA, 0xBB, 0xCC]);
    let bytes = tx.encode();
    assert_eq!(bytes.len(), 83);
    assert_eq!(Transaction::decode(&bytes), Err(WireError::DecodeError));
}

#[test]
fn transaction_unknown_input_type_is_kept_raw() {
    let tx = sample_transaction(999, vec![1, 2, 3, 4]);
    let bytes = tx.encode();
    let back = Transaction::decode(&bytes).unwrap();
    match back.transaction_data() {
        TransactionData::Unknown(t, data) => {
            assert_eq!(t, 999);
            assert_eq!(data, vec![1, 2, 3, 4]);
        }
        other => panic!("expected a raw payload, got {:?}", other),
    }
}

#[test]
fn transaction_with_data_round_trip() {
    let tx = sample_transaction(0, vec![]);
    let signed = TransactionWithData {
        raw_transaction: tx,
        data: TransactionData::Unknown(0, vec![]),
        signature: [7u8; 64],
    };
    let bytes = signed.encode();
    assert_eq!(bytes.len(), 144);
    let back = TransactionWithData::decode(&bytes).unwrap();
    assert_eq!(back.raw_transaction, signed.raw_transaction);
    assert_eq!(back.signature, signed.signature);
}

#[test]
fn transaction_from_base64_round_trip() {
    let tx = sample_transaction(0, vec![]);
    let signed = TransactionWithData {
        raw_transaction: tx,
        data: TransactionData::Unknown(0, vec![]),
        signature: [9u8; 64],
    };
    let text = base64::engine::general_purpose::STANDARD.encode(signed.encode());
    let back = transaction_from_base64(&text).unwrap();
    assert_eq!(back.raw_transaction, signed.raw_transaction);
    assert_eq!(back.signature, signed.signature);
}

#[test]
fn transaction_from_base64_rejects_bad_text() {
    assert_eq!(
        transaction_from_base64("!!!not-base64!!!"),
        Err(WireError::DecodeError)
    );
}

#[test]
fn fee_constructors_set_fixed_fees() {
    let input = qubic_wire::assets::IssueAssetInput {
        name: AssetName::<8>::parse("TOKEN").unwrap(),
        number_of_units: 1000,
        unit_of_measurement: 0,
        number_of_decimal_places: 2,
    };
    let tx = Transaction::issue_asset(id_of_byte(1), 5, &input);
    assert_eq!(tx.amount, qubic_wire::assets::ISSUE_ASSET_FEE);
    assert_eq!(tx.input_size, 25);
    let transfer = qubic_wire::assets::TransferAssetOwnershipAndPossessionInput {
        issuer: id_of_byte(1),
        possessor: id_of_byte(2),
        new_owner: id_of_byte(3),
        asset_name: AssetName::<8>::parse("TOKEN").unwrap(),
        number_of_units: 10,
    };
    let tx2 = Transaction::transfer_asset_ownership(id_of_byte(1), 5, &transfer);
    assert_eq!(tx2.amount, qubic_wire::assets::TRANSFER_FEE);
    assert_eq!(tx2.input_size, 112);
}

#[test]
fn registry_tags_are_coherent() {
    let kinds = [
        MessageType::BroadcastTransaction,
        MessageType::RequestCurrentTickInfo,
        MessageType::RespondCurrentTickInfo,
        MessageType::RequestEntity,
        MessageType::RespondEntity,
        MessageType::EndResponse,
        MessageType::RequestIssuedAsset,
        MessageType::RespondIssuedAsset,
        MessageType::RequestComputors,
        MessageType::RespondComputors,
    ];
    for k in kinds {
        assert_eq!(kind_of_tag(tag_of(k)), Some(k));
    }
    assert_eq!(kind_of_tag(0xFFFF), None);
}

#[test]
fn envelope_round_trip() {
    let payload = vec![0u8; 32];
    let env = encode_envelope(MessageType::RequestEntity, &payload);
    assert_eq!(env.len(), 38);
    let (kind, body) = decode_envelope(&env).unwrap();
    assert_eq!(kind, MessageType::RequestEntity);
    assert_eq!(body, payload);
}

#[test]
fn envelope_unknown_tag_is_protocol_mismatch() {
    let mut env = vec![0xFF, 0xFF];
    env.extend_from_slice(&0u32.to_le_bytes());
    assert_eq!(decode_envelope(&env), Err(WireError::ProtocolMismatch));
}

#[test]
fn envelope_length_disagreement_is_protocol_mismatch() {
    let payload = vec![0u8; 32];
    let mut env = encode_envelope(MessageType::RequestEntity, &payload);
    env[2] = 5; // declared length no longer matches the buffer
    assert_eq!(decode_envelope(&env), Err(WireError::ProtocolMismatch));
}

#[test]
fn envelope_size_table_is_enforced() {
    // A RequestEntity payload must be exactly 32 bytes.
    let payload = vec![0u8; 31];
    let env = encode_envelope(MessageType::RequestEntity, &payload);
    assert_eq!(decode_envelope(&env), Err(WireError::ProtocolMismatch));
}

fn entity_response_bytes(key_byte: u8, incoming: u64, outgoing: u64, tick: u32) -> Vec<u8> {
    let mut b = Vec::new();
    let mut key = [0u8; 32];
    key[0] = key_byte;
    b.extend_from_slice(&key);
    b.extend_from_slice(&incoming.to_le_bytes());
    b.extend_from_slice(&outgoing.to_le_bytes());
    b.extend_from_slice(&[0u8; 16]);
    b.extend_from_slice(&tick.to_le_bytes());
    b.extend_from_slice(&0i32.to_le_bytes());
    b
}

#[test]
fn unknown_tag_kills_connection_and_reconnect_restores_it() {
    let mut client = ClientState::new();
    let _env = client.begin_request_entity(&id_of_byte(1)).unwrap();
    let mut bad = vec![0xFF, 0xFF];
    bad.extend_from_slice(&0u32.to_le_bytes());
    assert_eq!(client.receive(&bad), Err(WireError::ProtocolMismatch));
    assert!(client.needs_reconnect());
    // Any further use is refused until the connection is reestablished.
    assert_eq!(
        client.begin_request_entity(&id_of_byte(1)),
        Err(WireError::ConnectionError)
    );
    client.reconnected();
    assert!(client.begin_request_entity(&id_of_byte(1)).is_ok());
}

#[test]
fn sequential_balance_fetches_arrive_in_order() {
    let mut client = ClientState::new();

    // First exchange: identity A.
    let env_a = client.begin_request_entity(&id_of_byte(0xAA)).unwrap();
    assert_eq!(client.phase, ConnPhase::Awaiting(MessageType::RespondEntity));
    let mut raw_a = [0u8; 32];
    raw_a[0] = 0xAA;
    assert_eq!(&env_a[6..38], &raw_a[..]);
    let reply_a = encode_envelope(
        MessageType::RespondEntity,
        &entity_response_bytes(0xAA, 500, 100, 1),
    );
    let got_a = client.receive(&reply_a).unwrap();
    match got_a {
        Received::Record(kind, payload) => {
            assert_eq!(kind, MessageType::RespondEntity);
            let entity = RespondEntity::decode(&payload).unwrap();
            assert_eq!(entity.entity.public_key, id_of_byte(0xAA));
            assert_eq!(entity.entity.balance(), 400);
        }
        other => panic!("expected a record, got {:?}", other),
    }
    assert_eq!(client.phase, ConnPhase::Idle);

    // Second exchange: identity B; its reply is attributed to B, never to A.
    let _env_b = client.begin_request_entity(&id_of_byte(0xBB)).unwrap();
    let reply_b = encode_envelope(
        MessageType::RespondEntity,
        &entity_response_bytes(0xBB, 9, 4, 2),
    );
    match client.receive(&reply_b).unwrap() {
        Received::Record(kind, payload) => {
            assert_eq!(kind, MessageType::RespondEntity);
            let entity = RespondEntity::decode(&payload).unwrap();
            assert_eq!(entity.entity.public_key, id_of_byte(0xBB));
            assert_eq!(entity.entity.balance(), 5);
        }
        other => panic!("expected a record, got {:?}", other),
    }
    assert_eq!(client.phase, ConnPhase::Idle);
}

#[test]
fn second_request_while_awaiting_is_refused() {
    let mut client = ClientState::new();
    let _ = client.begin_request_entity(&id_of_byte(1)).unwrap();
    assert_eq!(
        client.begin_request_entity(&id_of_byte(2)),
        Err(WireError::ConnectionError)
    );
}

#[test]
fn unexpected_response_kind_is_protocol_mismatch() {
    let mut client = ClientState::new();
    let _ = client.begin_request_entity(&id_of_byte(1)).unwrap();
    let wrong = encode_envelope(MessageType::RespondSystemInfo, &vec![0u8; 20]);
    assert_eq!(client.receive(&wrong), Err(WireError::ProtocolMismatch));
    assert!(client.needs_reconnect());
}

#[test]
fn timeout_invalidates_connection() {
    let mut client = ClientState::new();
    let _ = client.begin_get_current_tick_info().unwrap();
    assert_eq!(client.on_timeout(), WireError::Timeout);
    assert!(client.needs_reconnect());
}

#[test]
fn streamed_tick_transactions_end_with_marker() {
    let mut client = ClientState::new();
    let _ = client.begin_request_tick_transactions(100, 0).unwrap();
    let tx = sample_transaction(0, vec![]);
    let signed = TransactionWithData {
        raw_transaction: tx,
        data: TransactionData::Unknown(0, vec![]),
        signature: [0u8; 64],
    };
    let item = encode_envelope(MessageType::BroadcastTransaction, &signed.encode());
    match client.receive(&item).unwrap() {
        Received::Record(kind, payload) => {
            assert_eq!(kind, MessageType::BroadcastTransaction);
            assert!(TransactionWithData::decode(&payload).is_ok());
        }
        other => panic!("expected a record, got {:?}", other),
    }
    // Still awaiting: the stream is not finished.
    assert_eq!(
        client.phase,
        ConnPhase::Awaiting(MessageType::BroadcastTransaction)
    );
    let end = encode_envelope(MessageType::EndResponse, &Vec::new());
    assert_eq!(client.receive(&end).unwrap(), Received::StreamEnd);
    assert_eq!(client.phase, ConnPhase::Idle);
}

#[test]
fn tick_info_decodes_fields() {
    let mut b = Vec::new();
    b.extend_from_slice(&1_000u16.to_le_bytes());
    b.extend_from_slice(&200u16.to_le_bytes());
    b.extend_from_slice(&123_456u32.to_le_bytes());
    b.extend_from_slice(&600u16.to_le_bytes());
    b.extend_from_slice(&76u16.to_le_bytes());
    b.extend_from_slice(&123_000u32.to_le_bytes());
    let t = TickInfo::decode(&b).unwrap();
    assert_eq!(t.tick_duration, 1_000);
    assert_eq!(t.epoch, 200);
    assert_eq!(t.tick, 123_456);
    assert_eq!(t.number_of_aligned_votes, 600);
    assert_eq!(t.number_of_misaligned_votes, 76);
    assert_eq!(t.initial_tick, 123_000);
    let h = block_height_of(&t);
    assert_eq!(h.tick, 123_456);
    assert_eq!(h.duration, 1_000);
    assert_eq!(h.epoch, 200);
    assert_eq!(h.initial_tick, 123_000);
    assert_eq!(TickInfo::decode(&vec![0u8; 15]), Err(WireError::DecodeError));
}

#[test]
fn system_info_epoch_ticks() {
    let mut b = Vec::new();
    b.extend_from_slice(&1u16.to_le_bytes());
    b.extend_from_slice(&2u16.to_le_bytes());
    b.extend_from_slice(&500u32.to_le_bytes());
    b.extend_from_slice(&100u32.to_le_bytes());
    b.extend_from_slice(&450u32.to_le_bytes());
    b.extend_from_slice(&7u32.to_le_bytes());
    let s = SystemInfo::decode(&b).unwrap();
    assert_eq!(s.initial_tick, 100);
    assert_eq!(s.latest_created_tick, 450);
    assert_eq!(s.ticks_in_current_epoch(), 350);
}

#[test]
fn computors_decode() {
    let mut b = Vec::new();
    b.extend_from_slice(&42u16.to_le_bytes());
    for i in 0..676u32 {
        let mut key = [0u8; 32];
        key[0] = (i % 256) as u8;
        b.extend_from_slice(&key);
    }
    b.extend_from_slice(&[1u8; 64]);
    assert_eq!(b.len(), 21698);
    let c = Computors::decode(&b).unwrap();
    assert_eq!(c.epoch, 42);
    assert_eq!(c.public_keys.len(), 676);
    assert_eq!(c.public_keys[3], id_of_byte(3));
    assert_eq!(c.signature, vec![1u8; 64]);
    assert_eq!(Computors::decode(&vec![0u8; 10]), Err(WireError::DecodeError));
}

#[test]
fn entity_balance_floors_at_zero() {
    let e = Entity {
        public_key: id_of_byte(1),
        incoming_amount: 5,
        outgoing_amount: 8,
        number_of_incoming_transfers: 0,
        number_of_outgoing_transfers: 0,
        latest_incoming_transfer_tick: 0,
        latest_outgoing_transfer_tick: 0,
    };
    assert_eq!(e.balance(), 0);
}

#[test]
fn tick_range_validation() {
    let defaults = TransferQueryParams {
        start_tick: None,
        end_tick: None,
        sc_only: None,
        desc: None,
    };
    assert_eq!(resolve_tick_range(&defaults, 500), Ok((500, 500)));
    let inverted = TransferQueryParams {
        start_tick: Some(10),
        end_tick: Some(5),
        sc_only: None,
        desc: None,
    };
    assert_eq!(
        resolve_tick_range(&inverted, 500),
        Err(QueryError::RangeInverted)
    );
    let huge = TransferQueryParams {
        start_tick: Some(0),
        end_tick: Some(100_000_001),
        sc_only: None,
        desc: None,
    };
    assert_eq!(
        resolve_tick_range(&huge, 500),
        Err(QueryError::RangeTooLarge)
    );
}

#[test]
fn pagination_rules() {
    let params = |page, page_size| PaginationParams { page, page_size };
    assert_eq!(
        paginate(&params(Some(0), Some(10)), 100),
        Err(QueryError::ZeroPage)
    );
    assert_eq!(
        paginate(&params(Some(1), Some(201)), 100),
        Err(QueryError::PageSizeTooLarge)
    );
    assert_eq!(
        paginate(&params(Some(3), Some(50)), 100),
        Err(QueryError::PageOutOfRange)
    );
    let sel = paginate(&params(Some(2), Some(50)), 101).unwrap();
    assert_eq!(sel.offset, 50);
    assert_eq!(sel.total_pages, 3);
    let defaults = paginate(&params(None, None), 120).unwrap();
    assert_eq!(defaults.current_page, 1);
    assert_eq!(defaults.page_size, 50);
    assert_eq!(defaults.offset, 0);
    assert_eq!(defaults.total_pages, 3);
}

#[test]
fn transfers_filter_by_identity() {
    let a = id_of_byte(0xAA);
    let make = |from: u8, to: u8| TransactionWithData {
        raw_transaction: Transaction {
            from: id_of_byte(from),
            to: id_of_byte(to),
            amount: 1,
            tick: 1,
            input_type: 0,
            input_size: 0,
            payload: vec![],
        },
        data: TransactionData::Unknown(0, vec![]),
        signature: [0u8; 64],
    };
    let txs = vec![make(0xAA, 1), make(2, 3), make(4, 0xAA), make(5, 6)];
    let mine = transfers_for_identity(txs, &a);
    assert_eq!(mine.len(), 2);
    assert_eq!(mine[0].raw_transaction.from, a);
    assert_eq!(mine[1].raw_transaction.to, a);
}

#[test]
fn fees_output_decodes_fields() {
    let mut b = Vec::new();
    b.extend_from_slice(&1_000_000_000u32.to_le_bytes());
    b.extend_from_slice(&1_000_000u32.to_le_bytes());
    b.extend_from_slice(&5_000u32.to_le_bytes());
    let f = qubic_wire::assets::FeesOutput::read_from(&b, 0);
    assert_eq!(f.asset_issuance_fee, 1_000_000_000);
    assert_eq!(f.transfer_fee, 1_000_000);
    assert_eq!(f.trade_fee, 5_000);
    let mut round = Vec::new();
    f.write_to(&mut round);
    assert_eq!(round, b);
}

#[test]
fn issue_asset_input_round_trip() {
    let input = qubic_wire::assets::IssueAssetInput {
        name: AssetName::<8>::parse("COIN").unwrap(),
        number_of_units: -77,
        unit_of_measurement: 3,
        number_of_decimal_places: -2,
    };
    let bytes = input.encode();
    assert_eq!(bytes.len(), 25);
    let back = qubic_wire::assets::IssueAssetInput::read_from(&bytes, 0);
    assert_eq!(back, input);
}

#[test]
fn transfer_ownership_input_round_trip() {
    let input = qubic_wire::assets::TransferAssetOwnershipAndPossessionInput {
        issuer: id_of_byte(1),
        possessor: id_of_byte(2),
        new_owner: id_of_byte(3),
        asset_name: AssetName::<8>::parse("COIN").unwrap(),
        number_of_units: 12345,
    };
    let bytes = input.encode();
    assert_eq!(bytes.len(), 112);
    let back =
        qubic_wire::assets::TransferAssetOwnershipAndPossessionInput::read_from(&bytes, 0);
    assert_eq!(back, input);
}

#[test]
fn outputs_round_trip() {
    let issued = qubic_wire::assets::IssueAssetOutput {
        issued_number_of_units: 99,
    };
    let mut b = Vec::new();
    issued.write_to(&mut b);
    assert_eq!(
        qubic_wire::assets::IssueAssetOutput::read_from(&b, 0),
        issued
    );
    let transferred = qubic_wire::assets::TranferAssetOwnershipAndPossessionOutput {
        transferred_number_of_units: -1,
    };
    let mut b2 = Vec::new();
    transferred.write_to(&mut b2);
    assert_eq!(
        qubic_wire::assets::TranferAssetOwnershipAndPossessionOutput::read_from(&b2, 0),
        transferred
    );
}

#[test]
fn envelope_short_buffer_is_protocol_mismatch() {
    assert_eq!(
        decode_envelope(&vec![1u8, 2, 3]),
        Err(WireError::ProtocolMismatch)
    );
}

#[test]
fn respond_records_round_trip() {
    let owned = qubic_wire::assets::RespondOwnedAsset {
        asset: Asset {
            public_key: id_of_byte(1),
            asset_type: AssetType::Empty,
        },
        issuance_asset: Asset {
            public_key: id_of_byte(2),
            asset_type: AssetType::Empty,
        },
        tick: 5,
    };
    let b = owned.encode();
    assert_eq!(b.len(), 100);
    assert_eq!(
        qubic_wire::assets::RespondOwnedAsset::read_from(&b, 0).unwrap(),
        owned
    );
    let possessed = qubic_wire::assets::RespondPossessedAsset {
        asset: Asset {
            public_key: id_of_byte(1),
            asset_type: AssetType::Empty,
        },
        ownership_asset: Asset {
            public_key: id_of_byte(2),
            asset_type: AssetType::Empty,
        },
        issuance_asset: Asset {
            public_key: id_of_byte(3),
            asset_type: AssetType::Empty,
        },
        tick: 6,
    };
    let b2 = possessed.encode();
    assert_eq!(b2.len(), 148);
    assert_eq!(
        qubic_wire::assets::RespondPossessedAsset::read_from(&b2, 0).unwrap(),
        possessed
    );
}
