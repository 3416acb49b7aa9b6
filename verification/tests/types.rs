use primis_staking::{Identity, PrimisError};

#[test]
fn identities_with_the_same_bytes_are_equal() {
    let mut bytes = [0u8; 32];
    bytes[0] = 200;
    bytes[17] = 3;
    assert_eq!(Identity::new(bytes), Identity::new(bytes));
    assert!(Identity::new(bytes) == Identity { bytes });
}

#[test]
fn identities_differ_where_one_byte_differs() {
    for position in 0..32 {
        let mut bytes = [9u8; 32];
        bytes[position] = 10;
        assert!(Identity::new(bytes) != Identity::new([9u8; 32]));
    }
}

#[test]
fn identity_gives_its_bytes_back() {
    let mut bytes = [0u8; 32];
    for (position, byte) in bytes.iter_mut().enumerate() {
        *byte = position as u8;
    }
    assert_eq!(Identity::new(bytes).to_bytes(), bytes);
}

#[test]
fn error_messages() {
    assert_eq!(
        PrimisError::BelowMinimumStake.message(),
        "Stake amount is below minimum of 10 SOL"
    );
    assert_eq!(PrimisError::InsufficientStake.message(), "Insufficient stake balance");
    assert_eq!(PrimisError::NoStake.message(), "No active stake found");
    assert_eq!(PrimisError::VaultPaused.message(), "Vault is currently paused");
    assert_eq!(PrimisError::Unauthorized.message(), "Unauthorized action");
}
