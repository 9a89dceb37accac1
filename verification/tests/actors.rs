use ring_vrf::actors::ring_context;
use ring_vrf::actors::vrf_input_point;
use ring_vrf::actors::Prover;
use ring_vrf::actors::Verifier;
use ring_vrf::actors::RING_SIZE;
use ring_vrf::envelope::IetfVrfSignature;
use ring_vrf::envelope::RingVrfSignature;
use ring_vrf::error::Error;
use ring_vrf::keys::derive_secret;
use ring_vrf::keys::input_from_data;
use ring_vrf::keys::output_of;
use ring_vrf::keys::public_of;
use ring_vrf::keys::ticket_id;
use ring_vrf::keys::Public;
use ring_vrf::ring::commitment_of;
use ring_vrf::ring::verifier_key;
use ring_vrf::ring::RingContext;

fn ring_of(size: usize) -> Vec<Public> {
    (0..size).map(|i| public_of(&derive_secret(&(i as u64).to_le_bytes()))).collect()
}

fn context(size: usize) -> RingContext {
    RingContext::new(size, [0; 32]).unwrap()
}

#[test]
fn standard_context_has_size_1023_and_the_zero_seed() {
    let ctx = ring_context();
    assert_eq!(RING_SIZE, 1023);
    assert_eq!(ctx.max_size(), 1023);
    assert_eq!(ctx.seed(), [0; 32]);
}

#[test]
fn input_point_of_the_actors_is_the_hash_of_the_data() {
    assert_eq!(vrf_input_point(b"foo"), Ok(input_from_data(b"foo").unwrap()));
}

#[test]
fn prover_has_the_secret_of_its_slot_seed() {
    let prover = Prover::new(ring_of(4), 3);
    assert_eq!(prover.prover_idx, 3);
    assert_eq!(prover.ring, ring_of(4));
    assert_eq!(
        public_of(&prover.secret),
        public_of(&derive_secret(&[3, 0, 0, 0, 0, 0, 0, 0]))
    );
    assert_eq!(public_of(&prover.secret), prover.ring[3]);
}

#[test]
fn verifier_keeps_the_commitment_of_its_ring() {
    let ctx = context(8);
    let ring = ring_of(8);
    let verifier = Verifier::new(&ctx, ring.clone()).unwrap();
    assert_eq!(verifier.ring, ring);
    assert_eq!(verifier.commitment, commitment_of(&verifier_key(&ctx, &ring).unwrap()));
}

#[test]
fn verifier_of_a_ring_over_the_context_size_is_refused() {
    let ctx = context(4);
    assert_eq!(Verifier::new(&ctx, ring_of(5)).err(), Some(Error::RingTooLarge));
}

#[test]
fn anonymous_and_direct_signatures_verify_as_in_the_walkthrough() {
    let ctx = context(16);
    let ring = ring_of(16);
    let prover = Prover::new(ring.clone(), 3);
    let verifier = Verifier::new(&ctx, ring).unwrap();

    let ring_signature = prover.ring_vrf_sign(&ctx, b"foo", b"bar").unwrap();
    assert_eq!(verifier.ring_vrf_verify(&ctx, b"foo", b"bar", &ring_signature), Ok(true));

    let ietf_signature = prover.ietf_vrf_sign(b"foo", b"hello").unwrap();
    assert_eq!(verifier.ietf_vrf_verify(b"foo", b"hello", &ietf_signature, 3), Ok(true));

    let ring_output = RingVrfSignature::decode(&ring_signature).unwrap().output;
    let ietf_output = IetfVrfSignature::decode(&ietf_signature).unwrap().output;
    assert_eq!(ring_output, ietf_output);
    assert_eq!(ticket_id(&ring_output), ticket_id(&ietf_output));
    assert_eq!(ring_output, output_of(&prover.secret, &input_from_data(b"foo").unwrap()));
}

#[test]
fn tampered_signatures_verify_as_false() {
    let ctx = context(8);
    let ring = ring_of(8);
    let prover = Prover::new(ring.clone(), 5);
    let verifier = Verifier::new(&ctx, ring).unwrap();

    let ring_signature = prover.ring_vrf_sign(&ctx, b"foo", b"bar").unwrap();
    assert_eq!(verifier.ring_vrf_verify(&ctx, b"foo", b"baz", &ring_signature), Ok(false));
    assert_eq!(verifier.ring_vrf_verify(&ctx, b"fop", b"bar", &ring_signature), Ok(false));

    let ietf_signature = prover.ietf_vrf_sign(b"foo", b"bar").unwrap();
    assert_eq!(verifier.ietf_vrf_verify(b"foo", b"baz", &ietf_signature, 5), Ok(false));
    assert_eq!(verifier.ietf_vrf_verify(b"fop", b"bar", &ietf_signature, 5), Ok(false));
    assert_eq!(verifier.ietf_vrf_verify(b"foo", b"bar", &ietf_signature, 4), Ok(false));

    let other = prover.ietf_vrf_sign(b"other", b"bar").unwrap();
    let mut swapped = ietf_signature.clone();
    swapped[..32].copy_from_slice(&other[..32]);
    assert_eq!(verifier.ietf_vrf_verify(b"foo", b"bar", &swapped, 5), Ok(false));
    let other = prover.ring_vrf_sign(&ctx, b"other", b"bar").unwrap();
    let mut swapped = ring_signature.clone();
    swapped[..32].copy_from_slice(&other[..32]);
    assert_eq!(verifier.ring_vrf_verify(&ctx, b"foo", b"bar", &swapped), Ok(false));
}

#[test]
fn signature_for_another_ring_verifies_as_false() {
    let ctx = context(8);
    let ring = ring_of(8);
    let prover = Prover::new(ring.clone(), 5);
    let mut other_ring = ring.clone();
    other_ring[0] = public_of(&derive_secret(b"newcomer"));
    let verifier = Verifier::new(&ctx, other_ring).unwrap();
    let signature = prover.ring_vrf_sign(&ctx, b"foo", b"bar").unwrap();
    assert_eq!(verifier.ring_vrf_verify(&ctx, b"foo", b"bar", &signature), Ok(false));
}

#[test]
fn unreadable_signatures_are_decode_errors() {
    let ctx = context(8);
    let ring = ring_of(8);
    let prover = Prover::new(ring.clone(), 5);
    let verifier = Verifier::new(&ctx, ring).unwrap();
    let ring_signature = prover.ring_vrf_sign(&ctx, b"foo", b"bar").unwrap();
    let ietf_signature = prover.ietf_vrf_sign(b"foo", b"bar").unwrap();
    assert_eq!(
        verifier.ring_vrf_verify(&ctx, b"foo", b"bar", &ring_signature[..783]),
        Err(Error::Decode)
    );
    assert_eq!(verifier.ring_vrf_verify(&ctx, b"foo", b"bar", &ietf_signature), Err(Error::Decode));
    assert_eq!(verifier.ring_vrf_verify(&ctx, b"foo", b"bar", &[]), Err(Error::Decode));
    assert_eq!(
        verifier.ietf_vrf_verify(b"foo", b"bar", &ietf_signature[..95], 5),
        Err(Error::Decode)
    );
    assert_eq!(verifier.ietf_vrf_verify(b"foo", b"bar", &[0u8; 96], 5), Err(Error::Decode));
    assert_eq!(verifier.ietf_vrf_verify(b"foo", b"bar", &[0u8; 96], 99), Err(Error::Decode));
}

#[test]
fn signer_index_beyond_the_ring_is_refused() {
    let ctx = context(8);
    let ring = ring_of(8);
    let prover = Prover::new(ring.clone(), 5);
    let verifier = Verifier::new(&ctx, ring).unwrap();
    let signature = prover.ietf_vrf_sign(b"foo", b"bar").unwrap();
    assert_eq!(
        verifier.ietf_vrf_verify(b"foo", b"bar", &signature, 8),
        Err(Error::IndexOutOfBounds)
    );
}

#[test]
fn prover_outside_its_ring_cannot_sign_anonymously() {
    let ctx = context(8);
    let prover = Prover::new(ring_of(8), 8);
    assert_eq!(prover.ring_vrf_sign(&ctx, b"foo", b"bar"), Err(Error::IndexOutOfBounds));
    assert!(prover.ietf_vrf_sign(b"foo", b"bar").is_ok());
    let prover = Prover::new(ring_of(9), 2);
    assert_eq!(prover.ring_vrf_sign(&ctx, b"foo", b"bar"), Err(Error::RingTooLarge));
    let prover = Prover::new(ring_of(9), 20);
    assert_eq!(prover.ring_vrf_sign(&ctx, b"foo", b"bar"), Err(Error::RingTooLarge));
}

#[test]
fn anonymous_signatures_differ_but_carry_one_output() {
    let ctx = context(8);
    let ring = ring_of(8);
    let prover = Prover::new(ring.clone(), 1);
    let first = prover.ring_vrf_sign(&ctx, b"foo", b"bar").unwrap();
    let second = prover.ring_vrf_sign(&ctx, b"foo", b"bar").unwrap();
    assert_ne!(first, second);
    assert_eq!(&first[..32], &second[..32]);
    assert_eq!(prover.ietf_vrf_sign(b"foo", b"bar"), prover.ietf_vrf_sign(b"foo", b"bar"));
}

#[test]
fn prover_whose_slot_holds_the_key_of_another_cannot_sign_anonymously() {
    let ctx = context(8);
    let mut ring = ring_of(8);
    ring.swap(2, 3);
    let prover = Prover::new(ring.clone(), 2);
    assert_eq!(prover.ring_vrf_sign(&ctx, b"foo", b"bar"), Err(Error::KeyMismatch));
    let prover = Prover::new(ring, 4);
    assert!(prover.ring_vrf_sign(&ctx, b"foo", b"bar").is_ok());
}
