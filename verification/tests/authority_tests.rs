use tokenico::{derive_authority, Address};

fn addr(n: u64) -> Address {
    Address { w0: n, w1: 0, w2: 0, w3: 0 }
}

#[test]
fn address_byte_round_trip() {
    let a = Address {
        w0: 0x0807060504030201,
        w1: 0x100f0e0d0c0b0a09,
        w2: 0x1817161514131211,
        w3: 0x201f1e1d1c1b1a19,
    };
    let bytes = a.to_bytes();
    assert_eq!(bytes.len(), 32);
    // Little-endian within each limb, limbs in order.
    let expected: Vec<u8> = (1..=32).collect();
    assert_eq!(bytes, expected);
    assert_eq!(Address::from_bytes(&bytes), a);
}

#[test]
fn derivation_is_stable() {
    let program_id = addr(42);
    let first = derive_authority(&program_id).unwrap();
    let second = derive_authority(&program_id).unwrap();
    assert_eq!(first, second);
}

#[test]
fn derivation_depends_on_program_id() {
    let a = derive_authority(&addr(1)).unwrap();
    let b = derive_authority(&addr(2)).unwrap();
    assert_ne!(a.address, b.address);
}

#[test]
fn derived_address_is_not_the_program_id() {
    let program_id = addr(5);
    let authority = derive_authority(&program_id).unwrap();
    assert_ne!(authority.address, program_id);
}
