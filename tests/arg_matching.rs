use maikor_asm::arg_matching::Argument::{Address, Byte, ExtReg, IndirectReg, Register, Word};
use maikor_asm::arg_matching::{arg_list_to_letters, get_op_code, Argument};
use maikor_asm::ParseError;
use maikor_platform::op_params::{IND_OFFSET_EXT_REG, IND_OFFSET_NUM, IND_OFFSET_REG, PRE_DEC};
use maikor_platform::ops;

#[test]
fn test_to_bytes() {
    assert_eq!(Address(0).to_bytes(), vec![0, 0]);
    assert_eq!(Address(1).to_bytes(), vec![0, 1]);
    assert_eq!(Address(256).to_bytes(), vec![1, 0]);
    assert_eq!(Address(5311).to_bytes(), vec![20, 191]);
    assert_eq!(Address(0).to_bytes(), vec![0, 0]);
    assert_eq!(Address(1).to_bytes(), vec![0, 1]);
    assert_eq!(Address(256).to_bytes(), vec![1, 0]);
    assert_eq!(Address(5311).to_bytes(), vec![20, 191]);
    assert_eq!(Byte(0).to_bytes(), vec![0]);
    assert_eq!(Byte(1).to_bytes(), vec![1]);
    assert_eq!(Word(0).to_bytes(), vec![0, 0]);
    assert_eq!(Word(1).to_bytes(), vec![0, 1]);
    assert_eq!(Word(256).to_bytes(), vec![1, 0]);
    assert_eq!(Register(0).to_bytes(), vec![0]);
    assert_eq!(Register(2).to_bytes(), vec![2]);
    assert_eq!(Register(6 | PRE_DEC).to_bytes(), vec![6 | PRE_DEC]);
    assert_eq!(
        IndirectReg(9 | IND_OFFSET_REG, Some(2), None).to_bytes(),
        vec![9 | IND_OFFSET_REG]
    );
    assert_eq!(
        IndirectReg(9 | IND_OFFSET_REG, Some(2), None).to_offset_bytes(),
        vec![2]
    );
    assert_eq!(
        IndirectReg(10 | IND_OFFSET_EXT_REG, Some(11), None).to_bytes(),
        vec![10 | IND_OFFSET_EXT_REG]
    );
    assert_eq!(
        IndirectReg(10 | IND_OFFSET_EXT_REG, Some(11), None).to_offset_bytes(),
        vec![11]
    );
    assert_eq!(
        IndirectReg(9 | IND_OFFSET_NUM, None, Some(15)).to_bytes(),
        vec![9 | IND_OFFSET_NUM]
    );
    assert_eq!(
        IndirectReg(9 | IND_OFFSET_NUM, None, Some(15)).to_offset_bytes(),
        vec![0, 15]
    );
    assert_eq!(
        IndirectReg(9 | IND_OFFSET_NUM, None, Some(567)).to_bytes(),
        vec![9 | IND_OFFSET_NUM]
    );
    assert_eq!(
        IndirectReg(9 | IND_OFFSET_NUM, None, Some(567)).to_offset_bytes(),
        vec![2, 55]
    );
    assert_eq!(ExtReg(9).to_bytes(), vec![9]);
    assert_eq!(ExtReg(9 | PRE_DEC).to_bytes(), vec![9 | PRE_DEC]);
}

#[test]
fn offset_bytes_only_for_indirect() {
    assert_eq!(Word(300).to_offset_bytes(), Vec::<u8>::new());
    assert_eq!(ExtReg(9).to_offset_bytes(), Vec::<u8>::new());
    assert_eq!(IndirectReg(0x89, None, None).to_offset_bytes(), Vec::<u8>::new());
}

#[test]
fn letters_follow_operands() {
    let args: Vec<Argument> = vec![
        ExtReg(9),
        Address(0),
        IndirectReg(0x89, None, None),
        Word(0),
        Byte(0),
        Register(0),
    ];
    assert_eq!(arg_list_to_letters(&args), "EAIWBR");
    assert_eq!(arg_list_to_letters(&[]), "");
}

#[test]
fn op_code_lookup() {
    assert_eq!(get_op_code(3, "ADD.B", "RB").unwrap(), ops::ADD_REG_NUM_BYTE);
    assert_eq!(get_op_code(3, "MCPY", "AAR").unwrap(), ops::MEM_CPY_ADDR_ADDR_REG);
    assert_eq!(get_op_code(3, "NOP", "").unwrap(), ops::NOP);
}

#[test]
fn op_code_errors() {
    assert!(matches!(get_op_code(4, "INC", "R"), Err(ParseError::InvalidOpName(4, _))));
    assert!(matches!(get_op_code(4, "INC.B", ""), Err(ParseError::MissingArguments(4, _, _))));
    assert!(matches!(get_op_code(4, "INC.B", "E"), Err(ParseError::InvalidArguments(4, _, _, _))));
    assert!(matches!(get_op_code(4, "NOP", "R"), Err(ParseError::InvalidArguments(4, _, _, _))));
}
