use upgrade_program::error::UpgradeError;

const ALL: [UpgradeError; 6] = [
    UpgradeError::AlreadyInUse,
    UpgradeError::NotInitialized,
    UpgradeError::WrongAdmin,
    UpgradeError::WrongSeeds,
    UpgradeError::WrongSignature,
    UpgradeError::InvalidSignature,
];

#[test]
fn error_codes_follow_declaration_order() {
    assert_eq!(UpgradeError::AlreadyInUse.code(), 0);
    assert_eq!(UpgradeError::NotInitialized.code(), 1);
    assert_eq!(UpgradeError::WrongAdmin.code(), 2);
    assert_eq!(UpgradeError::WrongSeeds.code(), 3);
    assert_eq!(UpgradeError::WrongSignature.code(), 4);
    assert_eq!(UpgradeError::InvalidSignature.code(), 5);
}

#[test]
fn error_is_found_again_by_its_code() {
    for error in ALL {
        assert_eq!(UpgradeError::from_code(error.code()), Some(error));
    }
    assert_eq!(UpgradeError::from_code(6), None);
    assert_eq!(UpgradeError::from_code(u32::MAX), None);
}

#[test]
fn error_messages() {
    assert_eq!(UpgradeError::AlreadyInUse.message(), "Already in use");
    assert_eq!(UpgradeError::NotInitialized.message(), "Not initialized");
    assert_eq!(UpgradeError::WrongAdmin.message(), "Wrong admin");
    assert_eq!(UpgradeError::WrongSeeds.message(), "Wrong seeds");
    assert_eq!(UpgradeError::WrongSignature.message(), "Wrong signature public key");
    assert_eq!(UpgradeError::InvalidSignature.message(), "Invalid signature");
}
