use ring_vrf::error::Error;
use ring_vrf::keys::derive_secret;
use ring_vrf::keys::input_from_data;
use ring_vrf::keys::output_of;
use ring_vrf::keys::public_of;
use ring_vrf::keys::Public;
use ring_vrf::ring::commitment_of;
use ring_vrf::ring::padding_point;
use ring_vrf::ring::prover_key;
use ring_vrf::ring::rebuild_verifier_key;
use ring_vrf::ring::ring_prove;
use ring_vrf::ring::ring_verify;
use ring_vrf::ring::try_ring_prove;
use ring_vrf::ring::verifier_key;
use ring_vrf::ring::KzgVerifierKey;
use ring_vrf::ring::RingCommitment;
use ring_vrf::ring::RingContext;
use ring_vrf::ring::RingProof;
use ring_vrf::ring::MAX_RING_SIZE;

fn seed_of(index: usize) -> [u8; 8] {
    (index as u64).to_le_bytes()
}

fn ring_of(size: usize) -> Vec<Public> {
    (0..size).map(|i| public_of(&derive_secret(&seed_of(i)))).collect()
}

fn context(size: usize) -> RingContext {
    RingContext::new(size, [7; 32]).unwrap()
}

#[test]
fn context_of_size_zero_is_refused() {
    assert_eq!(RingContext::new(0, [0; 32]).err(), Some(Error::InvalidRingSize));
}

#[test]
fn context_over_the_largest_size_is_refused() {
    assert_eq!(MAX_RING_SIZE, 536870655);
    assert_eq!(RingContext::new(MAX_RING_SIZE + 1, [0; 32]).err(), Some(Error::InvalidRingSize));
    assert_eq!(RingContext::new(usize::MAX, [0; 32]).err(), Some(Error::InvalidRingSize));
}

#[test]
fn context_keeps_its_size_and_seed() {
    let ctx = RingContext::new(1, [9; 32]).unwrap();
    assert_eq!(ctx.max_size(), 1);
    assert_eq!(ctx.seed(), [9; 32]);
}

#[test]
fn prover_key_of_a_ring_over_the_context_size_is_refused() {
    let ctx = context(4);
    let ring = ring_of(5);
    assert_eq!(prover_key(&ctx, &ring, 0).err(), Some(Error::RingTooLarge));
    assert_eq!(prover_key(&ctx, &ring, 7).err(), Some(Error::RingTooLarge));
}

#[test]
fn prover_key_with_an_index_beyond_the_ring_is_refused() {
    let ctx = context(8);
    let ring = ring_of(5);
    assert_eq!(prover_key(&ctx, &ring, 5).err(), Some(Error::IndexOutOfBounds));
    assert_eq!(prover_key(&ctx, &ring, usize::MAX).err(), Some(Error::IndexOutOfBounds));
    let empty: Vec<Public> = Vec::new();
    assert_eq!(prover_key(&ctx, &empty, 0).err(), Some(Error::IndexOutOfBounds));
    let key = prover_key(&ctx, &ring, 4).ok().unwrap();
    assert_eq!(key.index(), 4);
    assert_eq!(key.ring_len(), 5);
}

#[test]
fn verifier_key_of_a_ring_over_the_context_size_is_refused() {
    let ctx = context(4);
    assert_eq!(verifier_key(&ctx, &ring_of(5)), Err(Error::RingTooLarge));
    assert!(verifier_key(&ctx, &ring_of(4)).is_ok());
    assert!(verifier_key(&ctx, &Vec::new()).is_ok());
}

#[test]
fn honest_ring_proofs_verify_for_every_member() {
    let ctx = context(8);
    let ring = ring_of(8);
    let key = verifier_key(&ctx, &ring).unwrap();
    let input = input_from_data(b"foobar").unwrap();
    for index in 0..ring.len() {
        let secret = derive_secret(&seed_of(index));
        let output = output_of(&secret, &input);
        let prover = prover_key(&ctx, &ring, index).ok().unwrap();
        let proof = ring_prove(&secret, &input, &output, b"additional data", &prover);
        assert!(ring_verify(&ctx, &input, &output, b"additional data", &proof, &key));
    }
}

#[test]
fn ring_shorter_than_the_context_size_is_proved_and_verified() {
    let ctx = context(8);
    let ring = ring_of(3);
    let key = verifier_key(&ctx, &ring).unwrap();
    let input = input_from_data(b"foobar").unwrap();
    let secret = derive_secret(&seed_of(2));
    let output = output_of(&secret, &input);
    let prover = prover_key(&ctx, &ring, 2).ok().unwrap();
    let proof = ring_prove(&secret, &input, &output, b"aux", &prover);
    assert!(ring_verify(&ctx, &input, &output, b"aux", &proof, &key));
}

#[test]
fn ring_filled_with_the_padding_point_has_the_key_of_the_shorter_ring() {
    let ctx = context(8);
    let short = ring_of(3);
    let mut padded = short.clone();
    while padded.len() < 8 {
        padded.push(padding_point());
    }
    assert_eq!(verifier_key(&ctx, &padded), verifier_key(&ctx, &short));
    assert_ne!(verifier_key(&ctx, &ring_of(4)), verifier_key(&ctx, &short));
    let input = input_from_data(b"foobar").unwrap();
    let secret = derive_secret(&seed_of(1));
    let output = output_of(&secret, &input);
    let prover = prover_key(&ctx, &short, 1).ok().unwrap();
    let proof = ring_prove(&secret, &input, &output, b"aux", &prover);
    let padded_key = verifier_key(&ctx, &padded).unwrap();
    assert!(ring_verify(&ctx, &input, &output, b"aux", &proof, &padded_key));
}

#[test]
fn secret_that_is_not_at_the_index_is_refused() {
    let ctx = context(8);
    let ring = ring_of(8);
    let input = input_from_data(b"foobar").unwrap();
    let secret = derive_secret(&seed_of(3));
    let output = output_of(&secret, &input);
    let prover = prover_key(&ctx, &ring, 4).ok().unwrap();
    assert_eq!(
        try_ring_prove(&secret, &input, &output, b"aux", &prover),
        Err(Error::KeyMismatch)
    );
    let outsider = derive_secret(b"outsider");
    let output = output_of(&outsider, &input);
    let prover = prover_key(&ctx, &ring, 3).ok().unwrap();
    assert_eq!(
        try_ring_prove(&outsider, &input, &output, b"aux", &prover),
        Err(Error::KeyMismatch)
    );
}

#[test]
fn secret_at_the_index_proves_as_the_unchecked_call() {
    let ctx = context(8);
    let ring = ring_of(8);
    let key = verifier_key(&ctx, &ring).unwrap();
    let input = input_from_data(b"foobar").unwrap();
    let secret = derive_secret(&seed_of(3));
    let output = output_of(&secret, &input);
    let prover = prover_key(&ctx, &ring, 3).ok().unwrap();
    assert_eq!(prover.member(), ring[3]);
    let proof = try_ring_prove(&secret, &input, &output, b"aux", &prover).unwrap();
    assert!(ring_verify(&ctx, &input, &output, b"aux", &proof, &key));
    let unchecked = ring_prove(&secret, &input, &output, b"aux", &prover);
    assert_eq!(&proof.to_bytes()[..160], &unchecked.to_bytes()[..160]);
}

#[test]
fn member_chosen_against_the_accumulator_base_is_refused_at_its_index() {
    let ctx = context(8);
    let mut ring = ring_of(8);
    let mut negated =
        hex::decode("6e5574f9077fb76c885c36196a832dbadd64142d305be5487724967acf9595a0").unwrap();
    negated[31] ^= 0x80;
    ring[2] = Public::from_bytes(&negated).unwrap();
    assert!(verifier_key(&ctx, &ring).is_ok());
    let input = input_from_data(b"foobar").unwrap();
    let secret = derive_secret(&seed_of(2));
    let output = output_of(&secret, &input);
    let prover = prover_key(&ctx, &ring, 2).ok().unwrap();
    assert_eq!(
        try_ring_prove(&secret, &input, &output, b"aux", &prover),
        Err(Error::KeyMismatch)
    );
    let key = verifier_key(&ctx, &ring).unwrap();
    let secret = derive_secret(&seed_of(3));
    let output = output_of(&secret, &input);
    let prover = prover_key(&ctx, &ring, 3).ok().unwrap();
    let proof = try_ring_prove(&secret, &input, &output, b"aux", &prover).unwrap();
    assert!(ring_verify(&ctx, &input, &output, b"aux", &proof, &key));
}

#[test]
fn ring_proof_binds_output_aux_data_input_and_ring() {
    let ctx = context(8);
    let ring = ring_of(8);
    let key = verifier_key(&ctx, &ring).unwrap();
    let input = input_from_data(b"foobar").unwrap();
    let secret = derive_secret(&seed_of(3));
    let output = output_of(&secret, &input);
    let prover = prover_key(&ctx, &ring, 3).ok().unwrap();
    let proof = ring_prove(&secret, &input, &output, b"additional data", &prover);
    assert!(ring_verify(&ctx, &input, &output, b"additional data", &proof, &key));

    assert!(!ring_verify(&ctx, &input, &output, b"additional datb", &proof, &key));
    let other_output = output_of(&derive_secret(&seed_of(4)), &input);
    assert!(!ring_verify(&ctx, &input, &other_output, b"additional data", &proof, &key));
    let other_input = input_from_data(b"foobaz").unwrap();
    assert!(!ring_verify(&ctx, &other_input, &output, b"additional data", &proof, &key));

    let mut reordered = ring.clone();
    reordered.swap(0, 1);
    let reordered_key = verifier_key(&ctx, &reordered).unwrap();
    assert_ne!(reordered_key, key);
    assert!(!ring_verify(&ctx, &input, &output, b"additional data", &proof, &reordered_key));

    let mut replaced = ring.clone();
    replaced[7] = public_of(&derive_secret(b"newcomer"));
    let replaced_key = verifier_key(&ctx, &replaced).unwrap();
    assert!(!ring_verify(&ctx, &input, &output, b"additional data", &proof, &replaced_key));
}

#[test]
fn ring_proof_fails_under_a_context_of_another_seed() {
    let ctx = context(8);
    let other = RingContext::new(8, [8; 32]).unwrap();
    let ring = ring_of(8);
    let input = input_from_data(b"foobar").unwrap();
    let secret = derive_secret(&seed_of(3));
    let output = output_of(&secret, &input);
    let prover = prover_key(&ctx, &ring, 3).ok().unwrap();
    let proof = ring_prove(&secret, &input, &output, b"aux", &prover);
    let other_key = verifier_key(&other, &ring).unwrap();
    assert!(!ring_verify(&other, &input, &output, b"aux", &proof, &other_key));
    assert_ne!(other.constant_component(), ctx.constant_component());
}

#[test]
fn two_slots_with_one_key_give_proofs_that_both_verify() {
    let ctx = context(8);
    let mut ring = ring_of(8);
    let secret = derive_secret(&seed_of(2));
    ring[5] = public_of(&secret);
    let key = verifier_key(&ctx, &ring).unwrap();
    let input = input_from_data(b"foobar").unwrap();
    let output = output_of(&secret, &input);
    let at_two = prover_key(&ctx, &ring, 2).ok().unwrap();
    let at_five = prover_key(&ctx, &ring, 5).ok().unwrap();
    let first = ring_prove(&secret, &input, &output, b"aux", &at_two);
    let second = ring_prove(&secret, &input, &output, b"aux", &at_five);
    assert!(ring_verify(&ctx, &input, &output, b"aux", &first, &key));
    assert!(ring_verify(&ctx, &input, &output, b"aux", &second, &key));
    assert_eq!(first.to_bytes().len(), second.to_bytes().len());
}

#[test]
fn ring_proofs_of_one_slot_differ_as_much_as_proofs_of_two_slots() {
    let ctx = context(8);
    let mut ring = ring_of(8);
    let secret = derive_secret(&seed_of(2));
    ring[5] = public_of(&secret);
    let input = input_from_data(b"foobar").unwrap();
    let output = output_of(&secret, &input);
    let at_two = prover_key(&ctx, &ring, 2).ok().unwrap();
    let at_five = prover_key(&ctx, &ring, 5).ok().unwrap();
    let first = ring_prove(&secret, &input, &output, b"aux", &at_two).to_bytes();
    let again = ring_prove(&secret, &input, &output, b"aux", &at_two).to_bytes();
    let other = ring_prove(&secret, &input, &output, b"aux", &at_five).to_bytes();
    assert_ne!(first, again);
    assert_ne!(first, other);
    let same_slot: Vec<bool> = first.iter().zip(again.iter()).map(|(a, b)| a == b).collect();
    let other_slot: Vec<bool> = first.iter().zip(other.iter()).map(|(a, b)| a == b).collect();
    assert_eq!(&same_slot[..160], &[true; 160][..]);
    assert_eq!(&other_slot[..160], &[true; 160][..]);
    assert!(same_slot[160..].iter().any(|same| !same));
    assert!(other_slot[160..].iter().any(|same| !same));
}

#[test]
fn verifier_key_is_the_same_when_derived_again() {
    let ctx = context(8);
    let again = context(8);
    let ring = ring_of(6);
    let key = verifier_key(&ctx, &ring).unwrap();
    assert_eq!(verifier_key(&ctx, &ring), Ok(key));
    assert_eq!(verifier_key(&again, &ring), Ok(key));
    assert_eq!(key.kzg, ctx.constant_component());
}

#[test]
fn rebuilt_verifier_key_verifies_as_the_derived_one() {
    let ctx = context(8);
    let ring = ring_of(8);
    let key = verifier_key(&ctx, &ring).unwrap();
    let rebuilt = rebuild_verifier_key(commitment_of(&key), ctx.constant_component());
    assert_eq!(rebuilt, key);
    let input = input_from_data(b"foobar").unwrap();
    let secret = derive_secret(&seed_of(3));
    let output = output_of(&secret, &input);
    let prover = prover_key(&ctx, &ring, 3).ok().unwrap();
    let proof = ring_prove(&secret, &input, &output, b"aux", &prover);
    assert!(ring_verify(&ctx, &input, &output, b"aux", &proof, &key));
    assert!(ring_verify(&ctx, &input, &output, b"aux", &proof, &rebuilt));
    assert!(!ring_verify(&ctx, &input, &output, b"auy", &proof, &key));
    assert!(!ring_verify(&ctx, &input, &output, b"auy", &proof, &rebuilt));
}

#[test]
fn verifier_key_rebuilt_from_exchanged_bytes_verifies() {
    let ctx = context(8);
    let ring = ring_of(8);
    let key = verifier_key(&ctx, &ring).unwrap();
    let commitment = RingCommitment::from_bytes(&commitment_of(&key).to_bytes()).unwrap();
    let constant = KzgVerifierKey::from_bytes(&ctx.constant_component().to_bytes()).unwrap();
    let rebuilt = rebuild_verifier_key(commitment, constant);
    let input = input_from_data(b"foobar").unwrap();
    let secret = derive_secret(&seed_of(0));
    let output = output_of(&secret, &input);
    let prover = prover_key(&ctx, &ring, 0).ok().unwrap();
    let proof = ring_prove(&secret, &input, &output, b"aux", &prover);
    assert!(ring_verify(&ctx, &input, &output, b"aux", &proof, &rebuilt));
}

#[test]
fn padding_point_is_the_same_for_every_context() {
    let small = RingContext::new(512, [1; 32]).unwrap();
    let large = RingContext::new(1023, [2; 32]).unwrap();
    assert_eq!(small.padding_point(), large.padding_point());
    assert_eq!(small.padding_point(), padding_point());
    assert_eq!(
        padding_point().to_bytes(),
        hex::decode("92ca79e61dd90c1573a8693f199bf6e1e86835cc715cdcf93f5ef222560023aa").unwrap()
    );
}

#[test]
fn ring_proof_encoding_round_trips() {
    let ctx = context(8);
    let ring = ring_of(8);
    let input = input_from_data(b"foobar").unwrap();
    let secret = derive_secret(&seed_of(3));
    let output = output_of(&secret, &input);
    let prover = prover_key(&ctx, &ring, 3).ok().unwrap();
    let proof = ring_prove(&secret, &input, &output, b"aux", &prover);
    let bytes = proof.to_bytes();
    assert_eq!(bytes.len(), 752);
    assert_eq!(RingProof::from_bytes(&bytes), Ok(proof));
}

#[test]
fn ring_proof_that_is_truncated_or_malformed_is_refused() {
    assert_eq!(RingProof::from_bytes(&[0u8; 751]), Err(Error::Decode));
    assert_eq!(RingProof::from_bytes(&[0u8; 753]), Err(Error::Decode));
    assert_eq!(RingProof::from_bytes(&[0u8; 752]), Err(Error::Decode));
    assert_eq!(RingProof::from_bytes(&[0xffu8; 752]), Err(Error::Decode));
}

#[test]
fn commitment_encoding_round_trips() {
    let ctx = context(8);
    let commitment = commitment_of(&verifier_key(&ctx, &ring_of(8)).unwrap());
    let bytes = commitment.to_bytes();
    assert_eq!(bytes.len(), 144);
    assert_eq!(RingCommitment::from_bytes(&bytes), Ok(commitment));
    assert_eq!(RingCommitment::from_bytes(&bytes[..143]), Err(Error::Decode));
    assert_eq!(RingCommitment::from_bytes(&[0xffu8; 144]), Err(Error::Decode));
}

#[test]
fn constant_component_encoding_round_trips() {
    let ctx = context(8);
    let constant = ctx.constant_component();
    let bytes = constant.to_bytes();
    assert_eq!(bytes.len(), 240);
    assert_eq!(KzgVerifierKey::from_bytes(&bytes), Ok(constant));
    assert_eq!(KzgVerifierKey::from_bytes(&bytes[..239]), Err(Error::Decode));
    assert_eq!(KzgVerifierKey::from_bytes(&[0xffu8; 240]), Err(Error::Decode));
}

#[test]
fn ring_proof_starts_with_the_published_pedersen_proof() {
    let ctx = context(8);
    let secret = derive_secret(&[1]);
    let mut ring = ring_of(8);
    ring[6] = public_of(&secret);
    let input = input_from_data(b"").unwrap();
    let output = output_of(&secret, &input);
    let prover = prover_key(&ctx, &ring, 6).ok().unwrap();
    let proof = ring_prove(&secret, &input, &output, b"", &prover).to_bytes();
    assert_eq!(
        &proof[..160],
        &hex::decode(
            "3b21abd58807bb6d93797001adaacd7113ec320dcf32d1226494e18a57931fc4\
             8123054bfdb6918e0aa25c3337e6509eea262282fd26853bf7cd6db234583f5e\
             ac57ce6a53a887fc59b6aa73d8ff0e718b49bd9407a627ae0e9b9e7c5d0d175b\
             0d379b65fb1e6b2adcbf80618c08e31fd526f06c2defa159158f5de146104c0f\
             e2ca83136143e0cac3f7ee863edd3879ed753b995b1ff8d58305d3b1f323630b"
        )
        .unwrap()[..]
    );
    let key = verifier_key(&ctx, &ring).unwrap();
    assert!(ring_verify(&ctx, &input, &output, b"", &RingProof::from_bytes(&proof).unwrap(), &key));
}

#[test]
fn ring_proof_fails_on_the_proof_domain_of_another_size() {
    let ctx = context(8);
    let wider = RingContext::new(300, [7; 32]).unwrap();
    let ring = ring_of(8);
    let key = verifier_key(&ctx, &ring).unwrap();
    let input = input_from_data(b"foobar").unwrap();
    let secret = derive_secret(&seed_of(3));
    let output = output_of(&secret, &input);
    let prover = prover_key(&ctx, &ring, 3).ok().unwrap();
    let proof = ring_prove(&secret, &input, &output, b"aux", &prover);
    assert!(ring_verify(&ctx, &input, &output, b"aux", &proof, &key));
    assert!(!ring_verify(&wider, &input, &output, b"aux", &proof, &key));
    let wider_key = verifier_key(&wider, &ring).unwrap();
    assert!(!ring_verify(&wider, &input, &output, b"aux", &proof, &wider_key));
    assert_ne!(wider_key.commitment, key.commitment);
}

#[test]
fn contexts_of_sizes_with_one_proof_domain_verify_alike() {
    let ctx = context(8);
    let other = context(9);
    let ring = ring_of(8);
    let key = verifier_key(&ctx, &ring).unwrap();
    assert_eq!(verifier_key(&other, &ring), Ok(key));
    let input = input_from_data(b"foobar").unwrap();
    let secret = derive_secret(&seed_of(3));
    let output = output_of(&secret, &input);
    let prover = prover_key(&ctx, &ring, 3).ok().unwrap();
    let proof = ring_prove(&secret, &input, &output, b"aux", &prover);
    assert!(ring_verify(&other, &input, &output, b"aux", &proof, &key));
}

#[test]
fn ring_proof_with_a_second_encoding_of_a_point_is_read_as_the_first() {
    let ctx = context(8);
    let ring = ring_of(8);
    let input = input_from_data(b"foobar").unwrap();
    let secret = derive_secret(&seed_of(3));
    let output = output_of(&secret, &input);
    let prover = prover_key(&ctx, &ring, 3).ok().unwrap();
    let bytes = ring_prove(&secret, &input, &output, b"aux", &prover).to_bytes();

    let mut first = bytes.clone();
    for byte in first[64..96].iter_mut() {
        *byte = 0;
    }
    first[64] = 1;
    let mut second = first.clone();
    second[95] = 0x80;

    let proof = RingProof::from_bytes(&second).unwrap();
    assert_eq!(proof.to_bytes(), first);
    assert_eq!(RingProof::from_bytes(&first), Ok(proof));
    let key = verifier_key(&ctx, &ring).unwrap();
    assert!(!ring_verify(&ctx, &input, &output, b"aux", &proof, &key));
}

#[test]
fn ring_proof_with_a_flipped_bit_is_refused_or_verifies_as_false() {
    let ctx = context(8);
    let ring = ring_of(8);
    let key = verifier_key(&ctx, &ring).unwrap();
    let input = input_from_data(b"foobar").unwrap();
    let secret = derive_secret(&seed_of(3));
    let output = output_of(&secret, &input);
    let prover = prover_key(&ctx, &ring, 3).ok().unwrap();
    let bytes = ring_prove(&secret, &input, &output, b"aux", &prover).to_bytes();
    let mut read = 0;
    for byte in (0..bytes.len()).step_by(5) {
        let mut flipped = bytes.clone();
        flipped[byte] ^= 1 << (byte % 8);
        match RingProof::from_bytes(&flipped) {
            Ok(proof) => {
                read += 1;
                assert!(!ring_verify(&ctx, &input, &output, b"aux", &proof, &key));
            }
            Err(e) => assert_eq!(e, Error::Decode),
        }
    }
    assert!(read > 0);
}
