use attestation_core::codec::{evidence_round_trip, runtime_data_json, to_grpc_tee, Tee};

const ALL_TEES: [Tee; 9] = [
    Tee::AzSnpVtpm,
    Tee::AzTdxVtpm,
    Tee::Cca,
    Tee::Csv,
    Tee::Sample,
    Tee::Sev,
    Tee::Sgx,
    Tee::Snp,
    Tee::Tdx,
];

#[test]
fn tee_mapping_is_total_and_injective() {
    let mut wires = Vec::new();
    for t in ALL_TEES {
        wires.push(to_grpc_tee(t));
    }
    for i in 0..wires.len() {
        for j in (i + 1)..wires.len() {
            assert_ne!(wires[i], wires[j]);
        }
    }
}

#[test]
fn evidence_round_trip_empty_blob() {
    assert_eq!(evidence_round_trip(&[]), Vec::<u8>::new());
}

#[test]
fn evidence_round_trip_nonempty_blobs() {
    assert_eq!(evidence_round_trip(b"RAW"), b"RAW".to_vec());
    let mut blob = Vec::new();
    let mut b: u8 = 0;
    loop {
        blob.push(b);
        if b == 255 {
            break;
        }
        b += 1;
    }
    assert_eq!(evidence_round_trip(&blob), blob);
}

#[test]
fn runtime_data_is_deterministic_across_calls() {
    let a = runtime_data_json("\"PK1\"", "nonce-123");
    let b = runtime_data_json("\"PK1\"", "nonce-123");
    assert_eq!(a, b);
}

#[test]
fn runtime_data_exact_text_and_key_order() {
    assert_eq!(
        runtime_data_json("\"PK1\"", "nonce-123"),
        "{\"nonce\":\"nonce-123\",\"tee-pubkey\":\"PK1\"}"
    );
}

#[test]
fn runtime_data_escapes_the_nonce() {
    assert_eq!(
        runtime_data_json("{}", "a\"b\\c\nd\u{1}e"),
        "{\"nonce\":\"a\\\"b\\\\c\\nd\\u0001e\",\"tee-pubkey\":{}}"
    );
}

#[test]
fn runtime_data_matches_the_reference_serializer() {
    let nonce = "weird\" \\ \n \t \r \u{8} \u{c} \u{7} \u{1f} nonce";
    let mut object = serde_json::Map::new();
    object.insert(
        "nonce".to_string(),
        serde_json::Value::String(nonce.to_string()),
    );
    object.insert(
        "tee-pubkey".to_string(),
        serde_json::Value::String("PK1".to_string()),
    );
    let expected = serde_json::to_string(&serde_json::Value::Object(object)).unwrap();
    assert_eq!(runtime_data_json("\"PK1\"", nonce), expected);
}
