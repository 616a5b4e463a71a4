use counter_dapp::CustomError;

#[test]
fn each_error_has_its_message() {
    assert_eq!(CustomError::Unauthorized.message(), "Only the authority can modify this counter.");
    assert_eq!(CustomError::Overflow.message(), "Counter overflow.");
    assert_eq!(
        CustomError::AddressAlreadyInitialized.message(),
        "A counter already exists at this address."
    );
    assert_eq!(
        CustomError::AddressNotInitialized.message(),
        "No counter exists at this address yet."
    );
    assert_eq!(
        CustomError::AddressMismatch.message(),
        "The address is not the one derived for this wallet."
    );
}

#[test]
fn errors_are_told_apart() {
    let all = [
        CustomError::Unauthorized,
        CustomError::Overflow,
        CustomError::AddressAlreadyInitialized,
        CustomError::AddressNotInitialized,
        CustomError::AddressMismatch,
    ];
    for (i, a) in all.iter().enumerate() {
        for (j, b) in all.iter().enumerate() {
            assert_eq!(a == b, i == j);
            assert_eq!(a.message() == b.message(), i == j);
        }
    }
}

#[test]
fn each_error_has_its_code() {
    assert_eq!(CustomError::Unauthorized.code(), 6000);
    assert_eq!(CustomError::Overflow.code(), 6001);
    assert_eq!(CustomError::AddressAlreadyInitialized.code(), 6002);
    assert_eq!(CustomError::AddressNotInitialized.code(), 6003);
    assert_eq!(CustomError::AddressMismatch.code(), 6004);
}
