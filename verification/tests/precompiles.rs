use std::time::Instant;

use moonbeam_node::bytes::u64_to_be_bytes;
use moonbeam_node::precompiles::{
    Address, Dispatched, ExitError, ExitSucceed, MoonbeamPrecompiles, PrecompileKind, Sacrifice,
};

#[test]
fn test_invalid_input_length() -> Result<(), ExitError> {
    let cost: u64 = 1;

    // should fail with input of 15 byte length
    let input: [u8; 15] = [0; 15];
    let result = Sacrifice::execute(&input, Some(cost));
    assert_eq!(result, Err(ExitError::InvalidInput));
    assert_eq!(
        ExitError::InvalidInput.message(),
        "input length for Sacrifice must be exactly 16 bytes"
    );

    // should fail with input of 17 byte length
    let input: [u8; 17] = [0; 17];
    let result = Sacrifice::execute(&input, Some(cost));
    assert_eq!(result, Err(ExitError::InvalidInput));

    Ok(())
}

#[test]
fn test_gas_consumption() -> Result<(), ExitError> {
    let mut input: [u8; 16] = [0; 16];
    input[..8].copy_from_slice(&123456_u64.to_be_bytes());

    let out = Sacrifice::execute(&input, None)?;
    assert_eq!(out.status, ExitSucceed::Returned);
    assert_eq!(out.output, Vec::<u8>::new());
    assert_eq!(out.gas_used, 123456);
    assert_eq!(out.delay_millis, 0);

    Ok(())
}

#[test]
fn test_oog() -> Result<(), ExitError> {
    let mut input: [u8; 16] = [0; 16];
    input[..8].copy_from_slice(&100_u64.to_be_bytes());

    assert_eq!(Sacrifice::execute(&input, Some(99)), Err(ExitError::OutOfGas));

    Ok(())
}

#[test]
fn test_sleep() {
    let mut input: [u8; 16] = [0; 16];
    input[8..].copy_from_slice(&10_u64.to_be_bytes()); // should be 10ms

    let start = Instant::now();

    let out = Sacrifice::execute(&input, Some(99)).unwrap();
    assert_eq!(out.status, ExitSucceed::Returned);
    assert_eq!(out.output, Vec::<u8>::new());
    assert_eq!(out.gas_used, 0);
    assert_eq!(out.delay_millis, 10);

    // the caller blocks for the requested delay
    while start.elapsed().as_millis() <= u128::from(out.delay_millis) {}

    assert!(start.elapsed().as_millis() > 10);
    assert!(start.elapsed().as_millis() < 20); // give plenty of room, but put some bound on it
}

#[test]
fn dispatch_covers_exactly_the_reserved_set() {
    let expected = [
        (1, PrecompileKind::ECRecover),
        (2, PrecompileKind::Sha256),
        (3, PrecompileKind::Ripemd160),
        (4, PrecompileKind::Identity),
        (5, PrecompileKind::Modexp),
        (6, PrecompileKind::Bn128Add),
        (7, PrecompileKind::Bn128Mul),
        (8, PrecompileKind::Bn128Pairing),
        (255, PrecompileKind::Dispatch),
        (511, PrecompileKind::Sacrifice),
    ];
    for (a, kind) in expected {
        let address = Address::from_low_u64_be(a);
        assert_eq!(MoonbeamPrecompiles::lookup(&address), Some(kind));
    }
    for a in [0u64, 9, 10, 100, 254, 256, 510, 512, 1000, u64::MAX] {
        let address = Address::from_low_u64_be(a);
        assert_eq!(MoonbeamPrecompiles::lookup(&address), None);
    }
}

#[test]
fn dispatch_requires_zero_high_bytes() {
    // address 1, except that one of the 12 high bytes is set
    let mut bytes = vec![0u8; 20];
    bytes[19] = 1;
    bytes[0] = 1;
    let address = Address::from_bytes(bytes).unwrap();
    assert_eq!(MoonbeamPrecompiles::lookup(&address), None);
}

#[test]
fn address_must_hold_twenty_bytes() {
    assert!(Address::from_bytes(vec![0u8; 19]).is_none());
    assert!(Address::from_bytes(vec![0u8; 21]).is_none());
    assert!(Address::from_bytes(vec![0u8; 20]).is_some());
}

#[test]
fn execute_runs_sacrifice_and_names_the_rest() {
    let mut input: [u8; 16] = [0; 16];
    input[..8].copy_from_slice(&42_u64.to_be_bytes());

    let sacrifice_address = Address::from_low_u64_be(511);
    match MoonbeamPrecompiles::execute(&sacrifice_address, &input, None) {
        Some(Dispatched::Handled(Ok(out))) => {
            assert_eq!(out.gas_used, 42);
            assert_eq!(out.delay_millis, 0);
        },
        _ => panic!("the resource-consumption contract must run at address 511"),
    }

    let sha_address = Address::from_low_u64_be(2);
    match MoonbeamPrecompiles::execute(&sha_address, &input, None) {
        Some(Dispatched::External(kind)) => assert_eq!(kind, PrecompileKind::Sha256),
        _ => panic!("address 2 must dispatch to the hashing precompile"),
    }

    let free_address = Address::from_low_u64_be(9);
    assert!(MoonbeamPrecompiles::execute(&free_address, &input, None).is_none());
}

#[test]
fn big_endian_encoding_round_trips() {
    assert_eq!(u64_to_be_bytes(123456), 123456_u64.to_be_bytes().to_vec());
    assert_eq!(u64_to_be_bytes(0), vec![0u8; 8]);
    assert_eq!(u64_to_be_bytes(u64::MAX), vec![0xFFu8; 8]);

    let mut input: [u8; 16] = [0; 16];
    input[..8].copy_from_slice(&100_u64.to_be_bytes());
    input[8..].copy_from_slice(&7_u64.to_be_bytes());
    let out = Sacrifice::execute(&input, None).unwrap();
    assert_eq!(out.gas_used, 100);
    assert_eq!(out.delay_millis, 7);
}
