use maikor_asm::tokens::Token::{Address, Byte, ExtRegister, IndirectRegister, Register, Word};
use maikor_asm::tokens::{check_known_invalid_values, create_token, to_args_str};
use maikor_asm::ParseError;
use maikor_platform::op_params::{INDIRECT, PRE_DEC, PRE_INC};
use maikor_platform::registers::id;

#[test]
fn test_addresses() {
    assert_eq!(create_token("$1", false).unwrap(), Address(1));
    assert_eq!(create_token("$1234", false).unwrap(), Address(1234));
}

#[test]
fn test_hex_addresses() {
    assert_eq!(create_token("$x1", false).unwrap(), Address(1));
    assert_eq!(create_token("$x4d2", false).unwrap(), Address(1234));
}

#[test]
fn test_registers() {
    assert_eq!(create_token("AL", false).unwrap(), Register(id::AL));
    assert_eq!(create_token("CL", false).unwrap(), Register(id::CL));
    assert_eq!(
        create_token("-CL", false).unwrap(),
        Register(id::CL | PRE_DEC)
    );
}

#[test]
fn test_ext_registers() {
    assert_eq!(
        create_token("+AX", false).unwrap(),
        ExtRegister(id::AX + PRE_INC)
    );
    assert_eq!(create_token("BX", false).unwrap(), ExtRegister(id::BX));
}

#[test]
fn test_byte() {
    assert_eq!(create_token("2", true).unwrap(), Word(2));
    assert_eq!(create_token("189", true).unwrap(), Word(189));
    assert_eq!(create_token("2", false).unwrap(), Byte(2));
    assert_eq!(create_token("189", false).unwrap(), Byte(189));
}

#[test]
fn test_hex_byte() {
    assert_eq!(create_token("x2", true).unwrap(), Word(2));
    assert_eq!(create_token("xbD", true).unwrap(), Word(189));
    assert_eq!(create_token("x2", false).unwrap(), Byte(2));
    assert_eq!(create_token("xbD", false).unwrap(), Byte(189));
}

#[test]
fn test_word() {
    assert_eq!(create_token("256", false).unwrap(), Word(256));
    assert_eq!(create_token("12045", false).unwrap(), Word(12045));
    assert_eq!(create_token("256", true).unwrap(), Word(256));
    assert_eq!(create_token("12045", true).unwrap(), Word(12045));
}

#[test]
fn test_hex_word() {
    assert_eq!(create_token("x100", true).unwrap(), Word(256));
    assert_eq!(create_token("x2f0d", true).unwrap(), Word(12045));
    assert_eq!(create_token("x100", false).unwrap(), Word(256));
    assert_eq!(create_token("x2f0d", false).unwrap(), Word(12045));
}

#[test]
fn check_to_args_str() {
    assert_eq!("", to_args_str(&[]));
    assert_eq!("AI", to_args_str(&[Address(0), IndirectRegister(0)]));
    assert_eq!(
        "EAIWBR",
        to_args_str(&[
            ExtRegister(0),
            Address(0),
            IndirectRegister(0),
            Word(0),
            Byte(0),
            Register(0)
        ])
    );
}

#[test]
fn indirect_token_keeps_mode_byte() {
    assert_eq!(create_token("(BX)", false).unwrap(), IndirectRegister(id::BX | INDIRECT));
}

#[test]
fn known_invalid_shapes() {
    assert!(matches!(check_known_invalid_values("x123456"), Err(ParseError::AddressTooBig(0, _))));
    assert!(matches!(check_known_invalid_values("1234567"), Err(ParseError::NumberTooBig(0, _))));
    assert!(matches!(check_known_invalid_values("(al)"), Err(ParseError::InvalidRegister(0, _, _))));
    assert!(check_known_invalid_values("(ax)").is_ok());
    assert!(check_known_invalid_values("12345").is_ok());
    assert!(create_token("(AL)", false).is_err());
}

#[test]
fn token_bytes() {
    assert_eq!(Word(0x1234).to_bytes(), vec![0x12, 0x34]);
    assert_eq!(Address(5311).to_bytes(), vec![20, 191]);
    assert_eq!(Byte(7).to_bytes(), vec![7]);
    assert_eq!(IndirectRegister(0x89).to_bytes(), vec![0x89]);
}
