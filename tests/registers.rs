use maikor_asm::registers::{RegisterMode, ID, PP};
use maikor_platform::op_params::{
    INDIRECT, IND_OFFSET_EXT_REG, IND_OFFSET_NUM, IND_OFFSET_REG, IND_POST_DEC, IND_POST_INC,
    IND_PRE_DEC, IND_PRE_INC, POST_DEC, POST_INC, PRE_DEC, PRE_INC, REGISTER,
};

fn mode(indirect: bool, ppid: Option<(PP, ID)>) -> RegisterMode {
    RegisterMode {
        is_indirect: indirect,
        is_offset_reg: false,
        is_offset_num: false,
        is_offset_ext_reg: false,
        ppid,
    }
}

#[test]
fn mode_bits_match_platform() {
    assert_eq!(mode(false, None).to_bits(), REGISTER);
    assert_eq!(mode(false, Some((PP::Post, ID::Inc))).to_bits(), POST_INC);
    assert_eq!(mode(false, Some((PP::Post, ID::Dec))).to_bits(), POST_DEC);
    assert_eq!(mode(false, Some((PP::Pre, ID::Inc))).to_bits(), PRE_INC);
    assert_eq!(mode(false, Some((PP::Pre, ID::Dec))).to_bits(), PRE_DEC);
    assert_eq!(mode(true, None).to_bits(), INDIRECT);
    assert_eq!(mode(true, Some((PP::Post, ID::Inc))).to_bits(), IND_POST_INC);
    assert_eq!(mode(true, Some((PP::Post, ID::Dec))).to_bits(), IND_POST_DEC);
    assert_eq!(mode(true, Some((PP::Pre, ID::Inc))).to_bits(), IND_PRE_INC);
    assert_eq!(mode(true, Some((PP::Pre, ID::Dec))).to_bits(), IND_PRE_DEC);
    let offset_reg = RegisterMode { is_offset_reg: true, ..mode(true, None) };
    let offset_ext = RegisterMode { is_offset_ext_reg: true, ..mode(true, None) };
    let offset_num = RegisterMode { is_offset_num: true, ..mode(true, None) };
    assert_eq!(offset_reg.to_bits(), IND_OFFSET_REG);
    assert_eq!(offset_ext.to_bits(), IND_OFFSET_EXT_REG);
    assert_eq!(offset_num.to_bits(), IND_OFFSET_NUM);
}

#[test]
fn mode_decodes_back() {
    for bits in [
        REGISTER,
        POST_INC,
        POST_DEC,
        PRE_INC,
        PRE_DEC,
        INDIRECT,
        IND_POST_INC,
        IND_POST_DEC,
        IND_PRE_INC,
        IND_PRE_DEC,
        IND_OFFSET_REG,
        IND_OFFSET_EXT_REG,
        IND_OFFSET_NUM,
    ] {
        let decoded = RegisterMode::from_bits(bits | 9).unwrap();
        assert_eq!(decoded.to_bits(), bits);
    }
    assert_eq!(
        RegisterMode::from_bits(IND_PRE_DEC | 12),
        Some(mode(true, Some((PP::Pre, ID::Dec))))
    );
}

#[test]
fn unused_mode_patterns_decode_to_none() {
    assert_eq!(RegisterMode::from_bits(0x10), None);
    assert_eq!(RegisterMode::from_bits(0x25), None);
    assert_eq!(RegisterMode::from_bits(0x3C), None);
}
