use maikor_asm::arg_matching::Argument;
use maikor_asm::parsers::ArgToken::{Address, Number, Register};
use maikor_asm::parsers::{
    detect_indirect, detect_offset, detect_ppid, detect_register, parse_argument, parse_register,
    Offset,
};
use maikor_asm::registers::{ID, PP};
use maikor_asm::{detect_num, ParseError};
use maikor_platform::op_params::{
    INDIRECT, IND_OFFSET_EXT_REG, IND_OFFSET_NUM, IND_OFFSET_REG, IND_POST_INC, IND_PRE_DEC,
    POST_INC, PRE_DEC,
};

#[test]
fn test_conversion() {
    assert_eq!(Number(0).to_argument(false), Argument::Word(0));
    assert_eq!(Number(0).to_argument(true), Argument::Byte(0));
    assert_eq!(Number(100).to_argument(false), Argument::Word(100));
    assert_eq!(Number(100).to_argument(true), Argument::Byte(100));
    assert_eq!(Number(300).to_argument(false), Argument::Word(300));
    assert_eq!(Number(300).to_argument(true), Argument::Word(300));
    assert_eq!(Number(1000).to_argument(false), Argument::Word(1000));
    assert_eq!(Number(1000).to_argument(true), Argument::Word(1000));
    assert_eq!(Address(0).to_argument(false), Argument::Address(0));
    assert_eq!(Address(100).to_argument(false), Argument::Address(100));
    assert_eq!(Address(1000).to_argument(false), Argument::Address(1000));
    assert_eq!(Address(10000).to_argument(false), Argument::Address(10000));
    assert_eq!(Address(0).to_argument(true), Argument::Address(0));
    assert_eq!(Address(100).to_argument(true), Argument::Address(100));
    assert_eq!(Address(1000).to_argument(true), Argument::Address(1000));
    assert_eq!(Address(10000).to_argument(true), Argument::Address(10000));
    assert_eq!(
        Register(0, None, None).to_argument(false),
        Argument::Register(0)
    );
    assert_eq!(
        Register(1, None, None).to_argument(false),
        Argument::Register(1)
    );
    assert_eq!(
        Register(8, None, None).to_argument(false),
        Argument::Register(8)
    );
    assert_eq!(
        Register(9, None, None).to_argument(false),
        Argument::ExtReg(9)
    );
    assert_eq!(
        Register(12, None, None).to_argument(false),
        Argument::ExtReg(12)
    );
    assert_eq!(
        Register(9 | INDIRECT, None, None).to_argument(false),
        Argument::IndirectReg(9 | INDIRECT, None, None)
    );
    assert_eq!(
        Register(9 | INDIRECT, None, None).to_argument(false),
        Argument::IndirectReg(9 | INDIRECT, None, None)
    );
    assert_eq!(
        Register(9 | INDIRECT, None, Some(15)).to_argument(false),
        Argument::IndirectReg(9 | INDIRECT, None, Some(15))
    );
    assert_eq!(
        Register(9 | INDIRECT, Some(1), None).to_argument(false),
        Argument::IndirectReg(9 | INDIRECT, Some(1), None)
    );
}

#[test]
fn indirect_byte_register_is_indirect() {
    assert_eq!(
        Register(1 | INDIRECT, None, None).to_argument(true),
        Argument::IndirectReg(1 | INDIRECT, None, None)
    );
    assert_eq!(
        Register(1 | PRE_DEC, None, None).to_argument(true),
        Argument::Register(1 | PRE_DEC)
    );
}

#[test]
fn test_parse_argument() {
    assert_eq!(parse_argument(0, "605").unwrap(), Number(605));
    assert_eq!(parse_argument(0, "xF11").unwrap(), Number(3857));
    assert_eq!(parse_argument(0, "$100").unwrap(), Address(100));
    assert_eq!(parse_argument(0, "$xF").unwrap(), Address(15));
    assert_eq!(parse_argument(0, "aL").unwrap(), Register(1, None, None));
    assert_eq!(
        parse_argument(0, "(Bx)").unwrap(),
        Register(10 | INDIRECT, None, None)
    );
    assert_eq!(
        parse_argument(0, "-ch").unwrap(),
        Register(4 | PRE_DEC, None, None)
    );
    assert_eq!(
        parse_argument(0, "(dx)+").unwrap(),
        Register(12 | IND_POST_INC, None, None)
    );
    assert_eq!(
        parse_argument(0, "(ax+563)").unwrap(),
        Register(9 | IND_OFFSET_NUM, None, Some(563))
    );
    assert_eq!(
        parse_argument(0, "(ax+dh)").unwrap(),
        Register(9 | IND_OFFSET_REG, Some(6), None)
    );
    assert_eq!(
        parse_argument(0, "(ax+bx)").unwrap(),
        Register(9 | IND_OFFSET_EXT_REG, Some(10), None)
    );

    assert!(parse_argument(0, "a").is_err());
    assert!(parse_argument(0, "78021").is_err());
    assert!(parse_argument(0, "xFFFF1").is_err());
    assert!(parse_argument(0, "$121231").is_err());
    assert!(parse_argument(0, "(dx").is_err());
    assert!(parse_argument(0, "(dx+141351)").is_err());
    assert!(parse_argument(0, "(dx+a)").is_err());
    assert!(parse_argument(0, "(-dx+a)").is_err());
    assert!(parse_argument(0, "((dx)+al)").is_err());
    assert!(parse_argument(0, "(dx+10)-").is_err());
}

#[test]
fn argument_errors_by_kind() {
    assert!(matches!(parse_argument(5, "78021"), Err(ParseError::NumberTooBig(5, _))));
    assert!(matches!(parse_argument(5, "xFG"), Err(ParseError::NumberHexFormat(5, _, _))));
    assert!(matches!(parse_argument(5, "b12"), Err(ParseError::NumberFormat(5, _, _))));
    assert!(matches!(parse_argument(5, "-40000"), Err(ParseError::SignedNumberNumRange(5, _))));
    assert!(matches!(parse_argument(5, "'ab'"), Err(ParseError::InvalidCharacter(5, _))));
    assert!(matches!(parse_argument(5, "qq"), Err(ParseError::InvalidRegister(5, _, _))));
    assert!(matches!(parse_argument(5, "(dx+qq)"), Err(ParseError::InvalidOffset(5, _))));
    assert!(matches!(parse_argument(5, "$121231"), Err(ParseError::AddressTooBig(5, _))));
    assert_eq!(parse_argument(5, " al, ").unwrap(), Register(1, None, None));
}

#[test]
fn test_register() {
    assert_eq!(parse_register(0, "AH ").unwrap(), (Register(0, None, None)));
    assert_eq!(parse_register(0, "AX").unwrap(), (Register(9, None, None)));
    assert_eq!(
        parse_register(0, "(AX )").unwrap(),
        (Register(9 | INDIRECT, None, None))
    );
    assert_eq!(
        parse_register(0, "- ( AX)").unwrap(),
        (Register(9 | IND_PRE_DEC, None, None))
    );
    assert_eq!(
        parse_register(0, "CL +").unwrap(),
        (Register(5 | POST_INC, None, None))
    );
    assert_eq!(
        parse_register(0, "( DX + 10)").unwrap(),
        (Register(12 | IND_OFFSET_NUM, None, Some(10)))
    );
    assert_eq!(
        parse_register(0, "(DX + BH )").unwrap(),
        (Register(12 | IND_OFFSET_REG, Some(2), None))
    );
    assert_eq!(
        parse_register(0, "( CX + AX)").unwrap(),
        (Register(11 | IND_OFFSET_EXT_REG, Some(9), None))
    );
}

#[test]
fn two_ppid_decorations_are_rejected() {
    assert!(matches!(parse_register(0, "-AL+"), Err(ParseError::InvalidRegister(0, _, _))));
    assert!(matches!(parse_register(0, "+AL-"), Err(ParseError::InvalidRegister(0, _, _))));
    assert!(matches!(parse_register(0, "AL+-"), Err(ParseError::InvalidRegister(0, _, _))));
    assert!(matches!(parse_register(0, "--AL"), Err(ParseError::InvalidRegister(0, _, _))));
    assert!(matches!(parse_register(0, "-(AX)+"), Err(ParseError::InvalidRegister(0, _, _))));
}

#[test]
fn offset_needs_parentheses() {
    assert!(matches!(parse_register(0, "ax+5"), Err(ParseError::InvalidRegister(0, _, _))));
}

#[test]
fn test_register_detection() {
    assert_eq!(detect_register(0, "ah", "ah").unwrap(), 0);
    assert_eq!(detect_register(0, "al", "al").unwrap(), 1);
    assert_eq!(detect_register(0, "bh", "bh").unwrap(), 2);
    assert_eq!(detect_register(0, "bl", "bl").unwrap(), 3);
    assert_eq!(detect_register(0, "ch", "ch").unwrap(), 4);
    assert_eq!(detect_register(0, "cl", "cl").unwrap(), 5);
    assert_eq!(detect_register(0, "dh", "dh").unwrap(), 6);
    assert_eq!(detect_register(0, "dl", "dl").unwrap(), 7);
    assert_eq!(detect_register(0, "flg", "flg").unwrap(), 8);
    assert_eq!(detect_register(0, "ax", "ax").unwrap(), 9);
    assert_eq!(detect_register(0, "bx", "bx").unwrap(), 10);
    assert_eq!(detect_register(0, "cx", "cx").unwrap(), 11);
    assert_eq!(detect_register(0, "dx", "dx").unwrap(), 12);

    assert!(detect_register(0, "", "").is_err());
    assert!(detect_register(0, "", "a").is_err());
    assert!(detect_register(0, "", "al)").is_err());
    assert!(detect_register(0, "", "h").is_err());
    assert!(detect_register(0, "", "x").is_err());
    assert!(detect_register(0, "", "yh").is_err());
}

#[test]
fn test_indirect_detection() {
    assert_eq!(detect_indirect(0, "(al)", "(al)").unwrap(), (true, "al"));
    assert_eq!(detect_indirect(0, "(ax)", "(ax)").unwrap(), (true, "ax"));
    assert_eq!(
        detect_indirect(0, "(al+ax)", "(al+ax)").unwrap(),
        (true, "al+ax")
    );
    assert_eq!(
        detect_indirect(0, "(ax+500)", "(ax+500)").unwrap(),
        (true, "ax+500")
    );

    assert_eq!(detect_indirect(0, "al)", "al)").unwrap(), (false, "al)"));

    assert!(detect_indirect(0, "(", "(").is_err());
    assert!(detect_indirect(0, "(al+500", "(al+500").is_err());
}

#[test]
fn test_ppid_detection() {
    assert_eq!(detect_ppid("-al"), (Some((PP::Pre, ID::Dec)), "al"));
    assert_eq!(detect_ppid("+ax"), (Some((PP::Pre, ID::Inc)), "ax"));
    assert_eq!(detect_ppid("bx-"), (Some((PP::Post, ID::Dec)), "bx"));
    assert_eq!(detect_ppid("dh+"), (Some((PP::Post, ID::Inc)), "dh"));
    assert_eq!(detect_ppid("-(ax)"), (Some((PP::Pre, ID::Dec)), "(ax)"));
    assert_eq!(detect_ppid("+(bx)"), (Some((PP::Pre, ID::Inc)), "(bx)"));
    assert_eq!(detect_ppid("(cx)-"), (Some((PP::Post, ID::Dec)), "(cx)"));
    assert_eq!(detect_ppid("(cx)+"), (Some((PP::Post, ID::Inc)), "(cx)"));

    assert_eq!(detect_ppid("cx"), (None, "cx"));
    assert_eq!(detect_ppid("(bx)"), (None, "(bx)"));
    assert_eq!(detect_ppid("(ax+al)"), (None, "(ax+al)"));
}

#[test]
fn test_offset_detection() {
    assert_eq!(
        detect_offset(0, "", "100").unwrap(),
        Offset {
            num: Some(100),
            ..Offset::default()
        }
    );
    assert_eq!(
        detect_offset(0, "", "x100").unwrap(),
        Offset {
            num: Some(256),
            ..Offset::default()
        }
    );
    assert_eq!(
        detect_offset(0, "", "-124").unwrap(),
        Offset {
            num: Some(65412),
            ..Offset::default()
        }
    );
    assert_eq!(
        detect_offset(0, "", "bl").unwrap(),
        Offset {
            reg: Some(3),
            ..Offset::default()
        }
    );
    assert_eq!(
        detect_offset(0, "", "dx").unwrap(),
        Offset {
            ext_reg: Some(12),
            ..Offset::default()
        }
    );

    assert!(detect_offset(0, "", "(ax)").is_err());
    assert!(detect_offset(0, "", "90000").is_err());
    assert!(detect_offset(0, "", "xFFFFF").is_err());
    assert!(detect_offset(0, "", "-ax").is_err());
    assert!(detect_offset(0, "", "al+").is_err());
}

#[test]
fn offset_register_accessor() {
    assert_eq!(Offset::new(Some(3), None, None).reg(), Some(3));
    assert_eq!(Offset::new(None, Some(12), None).reg(), Some(12));
    assert_eq!(Offset::new(None, None, Some(7)).reg(), None);
}

#[test]
fn test_num_detection() {
    assert_eq!(detect_num(0, "", "0").unwrap().unwrap(), 0);
    assert_eq!(detect_num(0, "", "x0").unwrap().unwrap(), 0);
    assert_eq!(detect_num(0, "", "b0").unwrap().unwrap(), 0);
    assert_eq!(detect_num(0, "", "1").unwrap().unwrap(), 1);
    assert_eq!(detect_num(0, "", "-1").unwrap().unwrap(), 65535);
    assert_eq!(detect_num(0, "", "x1").unwrap().unwrap(), 1);
    assert_eq!(detect_num(0, "", "b1").unwrap().unwrap(), 1);
    assert_eq!(detect_num(0, "", "'A'").unwrap().unwrap(), 65);
    assert_eq!(detect_num(0, "", "'\''").unwrap().unwrap(), 39);
}

#[test]
fn number_literal_edges() {
    assert_eq!(detect_num(0, "", "65535").unwrap(), Some(65535));
    assert!(matches!(detect_num(1, "", "65536"), Err(ParseError::NumberTooBig(1, _))));
    assert_eq!(detect_num(0, "", "xFFFF").unwrap(), Some(65535));
    assert_eq!(detect_num(0, "", "b1111011").unwrap(), Some(123));
    assert_eq!(detect_num(0, "", "-32768").unwrap(), Some(32768));
    assert_eq!(detect_num(0, "", "32767").unwrap(), Some(32767));
    assert_eq!(detect_num(0, "", "-0").unwrap(), Some(0));
    assert!(matches!(detect_num(1, "", "-32769"), Err(ParseError::SignedNumberNumRange(1, _))));
    assert!(matches!(detect_num(1, "", "-"), Err(ParseError::SignedNumberNumFormat(1, _, _))));
    assert!(matches!(detect_num(1, "", ""), Err(ParseError::NumberFormat(1, _, _))));
    assert!(matches!(detect_num(1, "", "x"), Err(ParseError::NumberHexFormat(1, _, _))));
    assert!(matches!(detect_num(1, "", "'é'"), Err(ParseError::InvalidCharacter(1, _))));
    assert_eq!(detect_num(0, "", "'\\''").unwrap(), Some(39));
    assert_eq!(detect_num(0, "", "al").unwrap(), None);
}

#[test]
fn two_decorations_are_register_errors_on_either_side() {
    for text in ["-AL+", "+AX-", "-(AX)+", "+(BX)-", "--AL", "AL+-"] {
        assert!(
            matches!(parse_argument(3, text), Err(ParseError::InvalidRegister(3, _, _))),
            "{text}"
        );
    }
    assert_eq!(parse_argument(3, "-12").unwrap(), Number(65524));
}
