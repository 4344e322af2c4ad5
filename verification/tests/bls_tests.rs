use bls_agg::prim::{g1_identity, g1_point_eq, G1Point, G2Point, Scalar};
use bls_agg::scheme::{
    aggregate_signatures, generate_keys, generate_keys_with_seed, public_key_of, sign, verify,
    verify_aggregated,
};

fn three_pairs() -> (Vec<Scalar>, Vec<G2Point>) {
    let (sk1, pk1) = generate_keys();
    let (sk2, pk2) = generate_keys();
    let (sk3, pk3) = generate_keys();
    (vec![sk1, sk2, sk3], vec![pk1, pk2, pk3])
}

#[test]
fn sign_and_verify_roundtrip() {
    let (sk, pk) = generate_keys();
    let message = b"a message to sign";
    let sig = sign(message, &sk);
    assert!(verify(message, &sig, &pk));
}

#[test]
fn sign_and_verify_roundtrip_seeded() {
    let (sk, pk) = generate_keys_with_seed(42);
    let message = b"a message to sign";
    let sig = sign(message, &sk);
    assert!(verify(message, &sig, &pk));
}

#[test]
fn verify_rejects_signature_over_other_message() {
    let (sk, pk) = generate_keys();
    let m1 = b"first message 01";
    let m2 = b"second message 2";
    let sig_m2 = sign(m2, &sk);
    assert!(!verify(m1, &sig_m2, &pk));
}

#[test]
fn verify_rejects_other_signers_key() {
    let (sk1, _pk1) = generate_keys();
    let (_sk2, pk2) = generate_keys();
    let message = b"a message to sign";
    let sig = sign(message, &sk1);
    assert!(!verify(message, &sig, &pk2));
}

#[test]
fn public_key_of_matches_generated_pair() {
    let (sk, pk) = generate_keys();
    let message = b"a message to sign";
    let sig = sign(message, &sk);
    assert!(verify(message, &sig, &pk));
    let rebuilt = public_key_of(&sk);
    assert!(verify(message, &sig, &rebuilt));
}

#[test]
fn seeded_generation_is_reproducible() {
    let (sk_a, _pk_a) = generate_keys_with_seed(7);
    let (_sk_b, pk_b) = generate_keys_with_seed(7);
    let message = b"a message to sign";
    let sig = sign(message, &sk_a);
    assert!(verify(message, &sig, &pk_b));
}

#[test]
fn aggregation_is_order_independent() {
    let (sks, _pks) = three_pairs();
    let m1 = b"first message 01";
    let m2 = b"second message 2";
    let m3 = b"third message 03";
    let forward = vec![sign(m1, &sks[0]), sign(m2, &sks[1]), sign(m3, &sks[2])];
    let backward = vec![sign(m3, &sks[2]), sign(m1, &sks[0]), sign(m2, &sks[1])];
    let agg_forward = aggregate_signatures(&forward);
    let agg_backward = aggregate_signatures(&backward);
    assert!(g1_point_eq(&agg_forward, &agg_backward));
}

#[test]
fn aggregation_is_incremental() {
    let (sks, _pks) = three_pairs();
    let m1 = b"first message 01";
    let m2 = b"second message 2";
    let m3 = b"third message 03";
    let s1 = sign(m1, &sks[0]);
    let s2 = sign(m2, &sks[1]);
    let s3 = sign(m3, &sks[2]);
    let all_at_once = aggregate_signatures(&[s1.clone(), s2.clone(), s3.clone()]);
    let first_two = aggregate_signatures(&[s1, s2]);
    let folded = aggregate_signatures(&[first_two, s3]);
    assert!(g1_point_eq(&all_at_once, &folded));
}

#[test]
fn aggregate_differs_from_single_signature() {
    let (sks, _pks) = three_pairs();
    let m1 = b"first message 01";
    let m2 = b"second message 2";
    let s1 = sign(m1, &sks[0]);
    let s2 = sign(m2, &sks[1]);
    let agg = aggregate_signatures(&[s1.clone(), s2]);
    assert!(!g1_point_eq(&agg, &s1));
}

#[test]
fn aggregate_verification_accepts_honest_data() {
    let (sks, pks) = three_pairs();
    let m1 = b"first message 01".to_vec();
    let m2 = b"second message 2".to_vec();
    let m3 = b"third message 03".to_vec();
    let sigs = vec![sign(&m1, &sks[0]), sign(&m2, &sks[1]), sign(&m3, &sks[2])];
    let agg = aggregate_signatures(&sigs);
    let messages: Vec<&[u8]> = vec![&m1, &m2, &m3];
    assert!(verify_aggregated(&messages, &agg, &pks));
}

#[test]
fn aggregate_verification_rejects_swapped_keys() {
    let (sks, pks) = three_pairs();
    let m1 = b"first message 01".to_vec();
    let m2 = b"second message 2".to_vec();
    let m3 = b"third message 03".to_vec();
    let sigs = vec![sign(&m1, &sks[0]), sign(&m2, &sks[1]), sign(&m3, &sks[2])];
    let agg = aggregate_signatures(&sigs);
    let messages: Vec<&[u8]> = vec![&m1, &m2, &m3];
    let swapped = vec![pks[1].clone(), pks[0].clone(), pks[2].clone()];
    assert!(!verify_aggregated(&messages, &agg, &swapped));
}

#[test]
fn swapping_keys_under_equal_messages_still_accepts() {
    let (sks, pks) = three_pairs();
    let shared = b"the same message".to_vec();
    let m3 = b"third message 03".to_vec();
    let sigs = vec![
        sign(&shared, &sks[0]),
        sign(&shared, &sks[1]),
        sign(&m3, &sks[2]),
    ];
    let agg = aggregate_signatures(&sigs);
    let messages: Vec<&[u8]> = vec![&shared, &shared, &m3];
    let swapped = vec![pks[1].clone(), pks[0].clone(), pks[2].clone()];
    assert!(verify_aggregated(&messages, &agg, &swapped));
}

#[test]
fn empty_aggregate_is_the_identity() {
    let empty: Vec<G1Point> = Vec::new();
    let agg = aggregate_signatures(&empty);
    assert!(g1_point_eq(&agg, &g1_identity()));
    let no_messages: Vec<&[u8]> = Vec::new();
    let no_keys: Vec<G2Point> = Vec::new();
    assert!(verify_aggregated(&no_messages, &agg, &no_keys));
}

#[test]
fn identity_aggregate_rejects_nonempty_honest_lists() {
    let (sks, pks) = three_pairs();
    let m1 = b"first message 01".to_vec();
    let _sig = sign(&m1, &sks[0]);
    let messages: Vec<&[u8]> = vec![&m1];
    let keys = vec![pks[0].clone()];
    assert!(!verify_aggregated(&messages, &g1_identity(), &keys));
}

#[test]
fn messages_sharing_a_prefix_collide() {
    let (sk, pk) = generate_keys();
    let m1 = b"sixteen bytes!!! and then some tail";
    let m2 = b"sixteen bytes!!! with another tail entirely";
    let sig_m1 = sign(m1, &sk);
    assert!(verify(m2, &sig_m1, &pk));
}

#[test]
fn short_message_collides_with_zero_padded_form() {
    let (sk, pk) = generate_keys();
    let short = b"abc";
    let padded = b"abc\0\0\0\0\0\0\0\0\0\0\0\0\0";
    assert_eq!(padded.len(), 16);
    let sig_short = sign(short, &sk);
    assert!(verify(padded, &sig_short, &pk));
}

#[test]
fn empty_message_signs_to_the_identity() {
    let (sk, pk) = generate_keys();
    let sig = sign(b"", &sk);
    assert!(g1_point_eq(&sig, &g1_identity()));
    assert!(verify(b"", &g1_identity(), &pk));
}

#[test]
fn scenario_three_signers() {
    let (sk1, pk1) = generate_keys();
    let (sk2, pk2) = generate_keys();
    let (sk3, pk3) = generate_keys();

    let message1 = b"Hello, Arkworks!".to_vec();
    let message2 = b"Another message!".to_vec();
    let message3 = b"Final message!".to_vec();

    let sig1 = sign(&message1, &sk1);
    let sig2 = sign(&message2, &sk2);
    let sig3 = sign(&message3, &sk3);

    assert!(verify(&message1, &sig1, &pk1));
    assert!(verify(&message2, &sig2, &pk2));
    assert!(verify(&message3, &sig3, &pk3));

    let aggregated = aggregate_signatures(&[sig1.clone(), sig2, sig3]);
    let messages: Vec<&[u8]> = vec![&message1, &message2, &message3];
    let public_keys = vec![pk1.clone(), pk2, pk3];
    assert!(verify_aggregated(&messages, &aggregated, &public_keys));

    let mut flipped = message1.clone();
    flipped[0] ^= 0x01;
    assert!(!verify(&flipped, &sig1, &pk1));
    assert!(verify_aggregated(&messages, &aggregated, &public_keys));
}
