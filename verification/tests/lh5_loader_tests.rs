use ceres_pc1500::lh5_loader::{parse_lh5, validate_load_parameters, Lh5LoadError};

#[test]
fn test_read_valid_lh5() {
    let bytes = [
        0x00, 0x40, // load_address = 0x4000
        0x03, 0x00, // code_length = 3
        0xB5, 0x42, 0xFD,
    ];
    let (addr, code) = parse_lh5(&bytes).unwrap();
    assert_eq!(addr, 0x4000);
    assert_eq!(code, vec![0xB5, 0x42, 0xFD]);
}

#[test]
fn test_file_too_small() {
    assert!(matches!(parse_lh5(&[0x00, 0x40]), Err(Lh5LoadError::FileTooSmall)));
}

#[test]
fn test_invalid_format() {
    let bytes = [
        0x00, 0x40, // load_address = 0x4000
        0x0A, 0x00, // code_length = 10
        0xB5, 0x42, 0xFD,
    ];
    assert!(matches!(parse_lh5(&bytes), Err(Lh5LoadError::InvalidFormat)));
}

#[test]
fn test_validate_valid() {
    assert!(validate_load_parameters(0x4000, 100).is_ok());
    assert!(validate_load_parameters(0x4800, 512).is_ok());
    assert!(validate_load_parameters(0x3800, 100).is_ok());
}

#[test]
fn test_validate_invalid_address() {
    assert!(matches!(
        validate_load_parameters(0x1000, 10),
        Err(Lh5LoadError::InvalidLoadAddress)
    ));
    assert!(matches!(
        validate_load_parameters(0x37FF, 10),
        Err(Lh5LoadError::InvalidLoadAddress)
    ));
}

#[test]
fn test_validate_code_too_large() {
    assert!(validate_load_parameters(0x3800, 0x2800).is_ok());
    assert!(matches!(
        validate_load_parameters(0x3800, 0x2801),
        Err(Lh5LoadError::CodeTooLarge)
    ));
}

#[test]
fn parse_rejects_bytes_past_the_announced_length() {
    let bytes = [0x10, 0x48, 0x02, 0x00, 0x01, 0x02, 0x03, 0x04];
    assert!(matches!(parse_lh5(&bytes), Err(Lh5LoadError::InvalidFormat)));
    let exact = [0x10, 0x48, 0x02, 0x00, 0x01, 0x02];
    let (addr, code) = parse_lh5(&exact).unwrap();
    assert_eq!(addr, 0x4810);
    assert_eq!(code, vec![0x01, 0x02]);
}

#[test]
fn validate_rejects_address_past_user_memory() {
    assert!(matches!(
        validate_load_parameters(0x6000, 0),
        Err(Lh5LoadError::InvalidLoadAddress)
    ));
    assert!(validate_load_parameters(0x5FFF, 1).is_ok());
    assert!(matches!(
        validate_load_parameters(0x5FFF, 2),
        Err(Lh5LoadError::CodeTooLarge)
    ));
}
