use maikor_asm::arg_patterns::{entry_exec, family_rows, ENTRY_COUNT};
use maikor_asm::opcodes;
use maikor_platform::ops;

fn table() -> Vec<(String, Vec<(String, u8)>)> {
    let mut all = vec![];
    for e in 0..ENTRY_COUNT {
        let (name, family, codes) = entry_exec(e);
        let rows = family_rows(family)
            .into_iter()
            .map(|(pattern, k)| (pattern.into_iter().collect::<String>(), codes[k]))
            .collect();
        all.push((name.into_iter().collect::<String>(), rows));
    }
    all
}

#[test]
fn check_all_ops_found() {
    let ops = ops::ALL.to_vec();
    for (op_name, matches) in table() {
        for (key, op_code) in matches {
            if !ops.iter().any(|val| *val == op_code) {
                panic!("Unknown op found in the table: {:02X}, op name: {op_name}, arg pattern: {key}", op_code);
            }
        }
    }
}

#[test]
fn check_all_ops_used() {
    let mut ops = ops::ALL.to_vec();
    for (_, matches) in table() {
        for (_, op_code) in matches {
            if let Some(idx) = ops.iter().position(|val| *val == op_code) {
                ops.remove(idx);
            }
        }
    }
    if !ops.is_empty() {
        panic!(
            "Following ops not in the table: \n{:?}",
            ops.iter()
                .map(|op| maikor_platform::op_desc(*op).unwrap())
                .collect::<Vec<&'static str>>()
        );
    }
}

#[test]
fn check_no_duplicate_arg_patterns() {
    for (op_name, matches) in table() {
        let mut patterns: Vec<String> = vec![];
        for (key, _) in matches {
            assert!(!patterns.contains(&key), "{op_name} contains {key} twice");
            patterns.push(key);
        }
    }
}

#[test]
fn mnemonics_are_unique() {
    let names: Vec<String> = table().into_iter().map(|(n, _)| n).collect();
    for (i, n) in names.iter().enumerate() {
        assert!(!names[i + 1..].contains(n), "{n} twice");
    }
}

#[test]
fn each_opcode_has_one_mnemonic() {
    let all = table();
    for (i, (name, rows)) in all.iter().enumerate() {
        for (_, code) in rows {
            for (other, other_rows) in all[i + 1..].iter() {
                assert!(
                    !other_rows.iter().any(|(_, c)| c == code),
                    "{:02X} under {name} and {other}",
                    code
                );
            }
        }
    }
}

#[test]
fn opcode_set_matches_platform() {
    for b in 0..=255u8 {
        assert_eq!(opcodes::is_opcode_exec(b), ops::ALL.contains(&b), "{:02X}", b);
    }
}

#[test]
fn opcode_numbers_match_platform() {
    assert_eq!(opcodes::NOP, ops::NOP);
    assert_eq!(opcodes::HALT, ops::HALT);
    assert_eq!(opcodes::CALL_ADDR, ops::CALL_ADDR);
    assert_eq!(opcodes::CALL_REG, ops::CALL_REG);
    assert_eq!(opcodes::RET, ops::RET);
    assert_eq!(opcodes::RETI, ops::RETI);
    assert_eq!(opcodes::SWAP_REG_REG_BYTE, ops::SWAP_REG_REG_BYTE);
    assert_eq!(opcodes::SWAP_REG_REG_WORD, ops::SWAP_REG_REG_WORD);
    assert_eq!(opcodes::MEM_CPY_ADDR_ADDR_BYTE, ops::MEM_CPY_ADDR_ADDR_BYTE);
    assert_eq!(opcodes::MEM_CPY_ADDR_REG_BYTE, ops::MEM_CPY_ADDR_REG_BYTE);
    assert_eq!(opcodes::MEM_CPY_REG_ADDR_BYTE, ops::MEM_CPY_REG_ADDR_BYTE);
    assert_eq!(opcodes::MEM_CPY_REG_REG_BYTE, ops::MEM_CPY_REG_REG_BYTE);
    assert_eq!(opcodes::MEM_CPY_ADDR_ADDR_REG, ops::MEM_CPY_ADDR_ADDR_REG);
    assert_eq!(opcodes::MEM_CPY_ADDR_REG_REG, ops::MEM_CPY_ADDR_REG_REG);
    assert_eq!(opcodes::MEM_CPY_REG_ADDR_REG, ops::MEM_CPY_REG_ADDR_REG);
    assert_eq!(opcodes::MEM_CPY_REG_REG_REG, ops::MEM_CPY_REG_REG_REG);
    assert_eq!(opcodes::CPY_REG_REG_BYTE, ops::CPY_REG_REG_BYTE);
    assert_eq!(opcodes::CPY_REG_REG_WORD, ops::CPY_REG_REG_WORD);
    assert_eq!(opcodes::CPY_ADDR_REG_BYTE, ops::CPY_ADDR_REG_BYTE);
    assert_eq!(opcodes::CPY_ADDR_REG_WORD, ops::CPY_ADDR_REG_WORD);
    assert_eq!(opcodes::CPY_REG_ADDR_BYTE, ops::CPY_REG_ADDR_BYTE);
    assert_eq!(opcodes::CPY_REG_ADDR_WORD, ops::CPY_REG_ADDR_WORD);
    assert_eq!(opcodes::CPY_ADDR_ADDR_BYTE, ops::CPY_ADDR_ADDR_BYTE);
    assert_eq!(opcodes::CPY_ADDR_ADDR_WORD, ops::CPY_ADDR_ADDR_WORD);
    assert_eq!(opcodes::CPY_REG_NUM_BYTE, ops::CPY_REG_NUM_BYTE);
    assert_eq!(opcodes::CPY_REG_NUM_WORD, ops::CPY_REG_NUM_WORD);
    assert_eq!(opcodes::CPY_ADDR_NUM_BYTE, ops::CPY_ADDR_NUM_BYTE);
    assert_eq!(opcodes::CPY_ADDR_NUM_WORD, ops::CPY_ADDR_NUM_WORD);
    assert_eq!(opcodes::CMP_REG_ADDR_BYTE, ops::CMP_REG_ADDR_BYTE);
    assert_eq!(opcodes::CMP_REG_ADDR_WORD, ops::CMP_REG_ADDR_WORD);
    assert_eq!(opcodes::CMPS_REG_ADDR_BYTE, ops::CMPS_REG_ADDR_BYTE);
    assert_eq!(opcodes::CMPS_REG_ADDR_WORD, ops::CMPS_REG_ADDR_WORD);
    assert_eq!(opcodes::ADD_REG_REG_BYTE, ops::ADD_REG_REG_BYTE);
    assert_eq!(opcodes::ADD_REG_REG_WORD, ops::ADD_REG_REG_WORD);
    assert_eq!(opcodes::ADD_REG_NUM_BYTE, ops::ADD_REG_NUM_BYTE);
    assert_eq!(opcodes::ADD_REG_NUM_WORD, ops::ADD_REG_NUM_WORD);
    assert_eq!(opcodes::ADD_REG_ADDR_BYTE, ops::ADD_REG_ADDR_BYTE);
    assert_eq!(opcodes::ADD_REG_ADDR_WORD, ops::ADD_REG_ADDR_WORD);
    assert_eq!(opcodes::ADD_ADDR_REG_BYTE, ops::ADD_ADDR_REG_BYTE);
    assert_eq!(opcodes::ADD_ADDR_REG_WORD, ops::ADD_ADDR_REG_WORD);
    assert_eq!(opcodes::ADD_ADDR_NUM_BYTE, ops::ADD_ADDR_NUM_BYTE);
    assert_eq!(opcodes::ADD_ADDR_NUM_WORD, ops::ADD_ADDR_NUM_WORD);
    assert_eq!(opcodes::ADD_ADDR_ADDR_BYTE, ops::ADD_ADDR_ADDR_BYTE);
    assert_eq!(opcodes::ADD_ADDR_ADDR_WORD, ops::ADD_ADDR_ADDR_WORD);
    assert_eq!(opcodes::INC_REG_BYTE, ops::INC_REG_BYTE);
    assert_eq!(opcodes::INC_REG_WORD, ops::INC_REG_WORD);
    assert_eq!(opcodes::INC_ADDR_BYTE, ops::INC_ADDR_BYTE);
    assert_eq!(opcodes::INC_ADDR_WORD, ops::INC_ADDR_WORD);
    assert_eq!(opcodes::SUB_REG_REG_BYTE, ops::SUB_REG_REG_BYTE);
    assert_eq!(opcodes::SUB_REG_REG_WORD, ops::SUB_REG_REG_WORD);
    assert_eq!(opcodes::SUB_REG_NUM_BYTE, ops::SUB_REG_NUM_BYTE);
    assert_eq!(opcodes::SUB_REG_NUM_WORD, ops::SUB_REG_NUM_WORD);
    assert_eq!(opcodes::SUB_REG_ADDR_BYTE, ops::SUB_REG_ADDR_BYTE);
    assert_eq!(opcodes::SUB_REG_ADDR_WORD, ops::SUB_REG_ADDR_WORD);
    assert_eq!(opcodes::SUB_ADDR_REG_BYTE, ops::SUB_ADDR_REG_BYTE);
    assert_eq!(opcodes::SUB_ADDR_REG_WORD, ops::SUB_ADDR_REG_WORD);
    assert_eq!(opcodes::SUB_ADDR_NUM_BYTE, ops::SUB_ADDR_NUM_BYTE);
    assert_eq!(opcodes::SUB_ADDR_NUM_WORD, ops::SUB_ADDR_NUM_WORD);
    assert_eq!(opcodes::SUB_ADDR_ADDR_BYTE, ops::SUB_ADDR_ADDR_BYTE);
    assert_eq!(opcodes::SUB_ADDR_ADDR_WORD, ops::SUB_ADDR_ADDR_WORD);
    assert_eq!(opcodes::DEC_REG_BYTE, ops::DEC_REG_BYTE);
    assert_eq!(opcodes::DEC_REG_WORD, ops::DEC_REG_WORD);
    assert_eq!(opcodes::DEC_ADDR_BYTE, ops::DEC_ADDR_BYTE);
    assert_eq!(opcodes::DEC_ADDR_WORD, ops::DEC_ADDR_WORD);
    assert_eq!(opcodes::NOT_REG_BYTE, ops::NOT_REG_BYTE);
    assert_eq!(opcodes::NOT_REG_WORD, ops::NOT_REG_WORD);
    assert_eq!(opcodes::OR_REG_REG_BYTE, ops::OR_REG_REG_BYTE);
    assert_eq!(opcodes::OR_REG_REG_WORD, ops::OR_REG_REG_WORD);
    assert_eq!(opcodes::OR_REG_NUM_BYTE, ops::OR_REG_NUM_BYTE);
    assert_eq!(opcodes::OR_REG_NUM_WORD, ops::OR_REG_NUM_WORD);
    assert_eq!(opcodes::XOR_REG_REG_BYTE, ops::XOR_REG_REG_BYTE);
    assert_eq!(opcodes::XOR_REG_REG_WORD, ops::XOR_REG_REG_WORD);
    assert_eq!(opcodes::XOR_REG_NUM_BYTE, ops::XOR_REG_NUM_BYTE);
    assert_eq!(opcodes::XOR_REG_NUM_WORD, ops::XOR_REG_NUM_WORD);
    assert_eq!(opcodes::AND_REG_REG_BYTE, ops::AND_REG_REG_BYTE);
    assert_eq!(opcodes::AND_REG_REG_WORD, ops::AND_REG_REG_WORD);
    assert_eq!(opcodes::AND_REG_NUM_BYTE, ops::AND_REG_NUM_BYTE);
    assert_eq!(opcodes::AND_REG_NUM_WORD, ops::AND_REG_NUM_WORD);
    assert_eq!(opcodes::JRF_BYTE, ops::JRF_BYTE);
    assert_eq!(opcodes::JRB_BYTE, ops::JRB_BYTE);
    assert_eq!(opcodes::ASL_REG_NUM_BYTE, ops::ASL_REG_NUM_BYTE);
    assert_eq!(opcodes::ASL_REG_NUM_WORD, ops::ASL_REG_NUM_WORD);
    assert_eq!(opcodes::ASL_REG_REG_BYTE, ops::ASL_REG_REG_BYTE);
    assert_eq!(opcodes::ASL_REG_REG_WORD, ops::ASL_REG_REG_WORD);
    assert_eq!(opcodes::ASL_ADDR_BYTE, ops::ASL_ADDR_BYTE);
    assert_eq!(opcodes::ASL_ADDR_WORD, ops::ASL_ADDR_WORD);
    assert_eq!(opcodes::ASR_REG_NUM_BYTE, ops::ASR_REG_NUM_BYTE);
    assert_eq!(opcodes::ASR_REG_NUM_WORD, ops::ASR_REG_NUM_WORD);
    assert_eq!(opcodes::ASR_REG_REG_BYTE, ops::ASR_REG_REG_BYTE);
    assert_eq!(opcodes::ASR_REG_REG_WORD, ops::ASR_REG_REG_WORD);
    assert_eq!(opcodes::ASR_ADDR_BYTE, ops::ASR_ADDR_BYTE);
    assert_eq!(opcodes::ASR_ADDR_WORD, ops::ASR_ADDR_WORD);
    assert_eq!(opcodes::LSR_REG_NUM_BYTE, ops::LSR_REG_NUM_BYTE);
    assert_eq!(opcodes::LSR_REG_NUM_WORD, ops::LSR_REG_NUM_WORD);
    assert_eq!(opcodes::LSR_REG_REG_BYTE, ops::LSR_REG_REG_BYTE);
    assert_eq!(opcodes::LSR_REG_REG_WORD, ops::LSR_REG_REG_WORD);
    assert_eq!(opcodes::LSR_ADDR_BYTE, ops::LSR_ADDR_BYTE);
    assert_eq!(opcodes::LSR_ADDR_WORD, ops::LSR_ADDR_WORD);
    assert_eq!(opcodes::ROL_REG_NUM_BYTE, ops::ROL_REG_NUM_BYTE);
    assert_eq!(opcodes::ROL_REG_NUM_WORD, ops::ROL_REG_NUM_WORD);
    assert_eq!(opcodes::ROL_REG_REG_BYTE, ops::ROL_REG_REG_BYTE);
    assert_eq!(opcodes::ROL_REG_REG_WORD, ops::ROL_REG_REG_WORD);
    assert_eq!(opcodes::ROL_ADDR_BYTE, ops::ROL_ADDR_BYTE);
    assert_eq!(opcodes::ROL_ADDR_WORD, ops::ROL_ADDR_WORD);
    assert_eq!(opcodes::ROR_REG_NUM_BYTE, ops::ROR_REG_NUM_BYTE);
    assert_eq!(opcodes::ROR_REG_NUM_WORD, ops::ROR_REG_NUM_WORD);
    assert_eq!(opcodes::ROR_REG_REG_BYTE, ops::ROR_REG_REG_BYTE);
    assert_eq!(opcodes::ROR_REG_REG_WORD, ops::ROR_REG_REG_WORD);
    assert_eq!(opcodes::ROR_ADDR_BYTE, ops::ROR_ADDR_BYTE);
    assert_eq!(opcodes::ROR_ADDR_WORD, ops::ROR_ADDR_WORD);
    assert_eq!(opcodes::PUSH_REG_BYTE, ops::PUSH_REG_BYTE);
    assert_eq!(opcodes::PUSH_REG_WORD, ops::PUSH_REG_WORD);
    assert_eq!(opcodes::PUSH_NUM_BYTE, ops::PUSH_NUM_BYTE);
    assert_eq!(opcodes::PUSH_NUM_WORD, ops::PUSH_NUM_WORD);
    assert_eq!(opcodes::POP_REG_BYTE, ops::POP_REG_BYTE);
    assert_eq!(opcodes::POP_REG_WORD, ops::POP_REG_WORD);
    assert_eq!(opcodes::MUL_REG_REG_BYTE, ops::MUL_REG_REG_BYTE);
    assert_eq!(opcodes::MUL_REG_REG_WORD, ops::MUL_REG_REG_WORD);
    assert_eq!(opcodes::MUL_REG_NUM_BYTE, ops::MUL_REG_NUM_BYTE);
    assert_eq!(opcodes::MUL_REG_NUM_WORD, ops::MUL_REG_NUM_WORD);
    assert_eq!(opcodes::MUL_REG_ADDR_BYTE, ops::MUL_REG_ADDR_BYTE);
    assert_eq!(opcodes::MUL_REG_ADDR_WORD, ops::MUL_REG_ADDR_WORD);
    assert_eq!(opcodes::MUL_ADDR_REG_BYTE, ops::MUL_ADDR_REG_BYTE);
    assert_eq!(opcodes::MUL_ADDR_REG_WORD, ops::MUL_ADDR_REG_WORD);
    assert_eq!(opcodes::MUL_ADDR_NUM_BYTE, ops::MUL_ADDR_NUM_BYTE);
    assert_eq!(opcodes::MUL_ADDR_NUM_WORD, ops::MUL_ADDR_NUM_WORD);
    assert_eq!(opcodes::MUL_ADDR_ADDR_BYTE, ops::MUL_ADDR_ADDR_BYTE);
    assert_eq!(opcodes::MUL_ADDR_ADDR_WORD, ops::MUL_ADDR_ADDR_WORD);
    assert_eq!(opcodes::MULS_REG_REG_BYTE, ops::MULS_REG_REG_BYTE);
    assert_eq!(opcodes::MULS_REG_REG_WORD, ops::MULS_REG_REG_WORD);
    assert_eq!(opcodes::MULS_REG_NUM_BYTE, ops::MULS_REG_NUM_BYTE);
    assert_eq!(opcodes::MULS_REG_NUM_WORD, ops::MULS_REG_NUM_WORD);
    assert_eq!(opcodes::MULS_REG_ADDR_BYTE, ops::MULS_REG_ADDR_BYTE);
    assert_eq!(opcodes::MULS_REG_ADDR_WORD, ops::MULS_REG_ADDR_WORD);
    assert_eq!(opcodes::MULS_ADDR_REG_BYTE, ops::MULS_ADDR_REG_BYTE);
    assert_eq!(opcodes::MULS_ADDR_REG_WORD, ops::MULS_ADDR_REG_WORD);
    assert_eq!(opcodes::MULS_ADDR_NUM_BYTE, ops::MULS_ADDR_NUM_BYTE);
    assert_eq!(opcodes::MULS_ADDR_NUM_WORD, ops::MULS_ADDR_NUM_WORD);
    assert_eq!(opcodes::MULS_ADDR_ADDR_BYTE, ops::MULS_ADDR_ADDR_BYTE);
    assert_eq!(opcodes::MULS_ADDR_ADDR_WORD, ops::MULS_ADDR_ADDR_WORD);
    assert_eq!(opcodes::DIV_REG_REG_BYTE, ops::DIV_REG_REG_BYTE);
    assert_eq!(opcodes::DIV_REG_REG_WORD, ops::DIV_REG_REG_WORD);
    assert_eq!(opcodes::DIV_REG_NUM_BYTE, ops::DIV_REG_NUM_BYTE);
    assert_eq!(opcodes::DIV_REG_NUM_WORD, ops::DIV_REG_NUM_WORD);
    assert_eq!(opcodes::DIV_REG_ADDR_BYTE, ops::DIV_REG_ADDR_BYTE);
    assert_eq!(opcodes::DIV_REG_ADDR_WORD, ops::DIV_REG_ADDR_WORD);
    assert_eq!(opcodes::DIV_ADDR_REG_BYTE, ops::DIV_ADDR_REG_BYTE);
    assert_eq!(opcodes::DIV_ADDR_REG_WORD, ops::DIV_ADDR_REG_WORD);
    assert_eq!(opcodes::DIV_ADDR_NUM_BYTE, ops::DIV_ADDR_NUM_BYTE);
    assert_eq!(opcodes::DIV_ADDR_NUM_WORD, ops::DIV_ADDR_NUM_WORD);
    assert_eq!(opcodes::DIV_ADDR_ADDR_BYTE, ops::DIV_ADDR_ADDR_BYTE);
    assert_eq!(opcodes::DIV_ADDR_ADDR_WORD, ops::DIV_ADDR_ADDR_WORD);
    assert_eq!(opcodes::DIVS_REG_REG_BYTE, ops::DIVS_REG_REG_BYTE);
    assert_eq!(opcodes::DIVS_REG_REG_WORD, ops::DIVS_REG_REG_WORD);
    assert_eq!(opcodes::DIVS_REG_NUM_BYTE, ops::DIVS_REG_NUM_BYTE);
    assert_eq!(opcodes::DIVS_REG_NUM_WORD, ops::DIVS_REG_NUM_WORD);
    assert_eq!(opcodes::DIVS_REG_ADDR_BYTE, ops::DIVS_REG_ADDR_BYTE);
    assert_eq!(opcodes::DIVS_REG_ADDR_WORD, ops::DIVS_REG_ADDR_WORD);
    assert_eq!(opcodes::DIVS_ADDR_REG_BYTE, ops::DIVS_ADDR_REG_BYTE);
    assert_eq!(opcodes::DIVS_ADDR_REG_WORD, ops::DIVS_ADDR_REG_WORD);
    assert_eq!(opcodes::DIVS_ADDR_NUM_BYTE, ops::DIVS_ADDR_NUM_BYTE);
    assert_eq!(opcodes::DIVS_ADDR_NUM_WORD, ops::DIVS_ADDR_NUM_WORD);
    assert_eq!(opcodes::DIVS_ADDR_ADDR_BYTE, ops::DIVS_ADDR_ADDR_BYTE);
    assert_eq!(opcodes::DIVS_ADDR_ADDR_WORD, ops::DIVS_ADDR_ADDR_WORD);
    assert_eq!(opcodes::JMP_ADDR, ops::JMP_ADDR);
    assert_eq!(opcodes::JMP_REG, ops::JMP_REG);
    assert_eq!(opcodes::JE_ADDR, ops::JE_ADDR);
    assert_eq!(opcodes::JE_REG, ops::JE_REG);
    assert_eq!(opcodes::JNE_ADDR, ops::JNE_ADDR);
    assert_eq!(opcodes::JNE_REG, ops::JNE_REG);
    assert_eq!(opcodes::JL_ADDR, ops::JL_ADDR);
    assert_eq!(opcodes::JL_REG, ops::JL_REG);
    assert_eq!(opcodes::JG_ADDR, ops::JG_ADDR);
    assert_eq!(opcodes::JG_REG, ops::JG_REG);
    assert_eq!(opcodes::JLE_ADDR, ops::JLE_ADDR);
    assert_eq!(opcodes::JLE_REG, ops::JLE_REG);
    assert_eq!(opcodes::JGE_ADDR, ops::JGE_ADDR);
    assert_eq!(opcodes::JGE_REG, ops::JGE_REG);
    assert_eq!(opcodes::CMP_REG_NUM_BYTE, ops::CMP_REG_NUM_BYTE);
    assert_eq!(opcodes::CMP_REG_NUM_WORD, ops::CMP_REG_NUM_WORD);
    assert_eq!(opcodes::CMP_REG_REG_BYTE, ops::CMP_REG_REG_BYTE);
    assert_eq!(opcodes::CMP_REG_REG_WORD, ops::CMP_REG_REG_WORD);
    assert_eq!(opcodes::CMPS_REG_NUM_BYTE, ops::CMPS_REG_NUM_BYTE);
    assert_eq!(opcodes::CMPS_REG_NUM_WORD, ops::CMPS_REG_NUM_WORD);
    assert_eq!(opcodes::CMPS_REG_REG_BYTE, ops::CMPS_REG_REG_BYTE);
    assert_eq!(opcodes::CMPS_REG_REG_WORD, ops::CMPS_REG_REG_WORD);
    assert_eq!(opcodes::JBC_REG_REG, ops::JBC_REG_REG);
    assert_eq!(opcodes::JBS_REG_REG, ops::JBS_REG_REG);
    assert_eq!(opcodes::JBC_ADDR_REG, ops::JBC_ADDR_REG);
    assert_eq!(opcodes::JBS_ADDR_REG, ops::JBS_ADDR_REG);
    assert_eq!(opcodes::JBC_REG_NUM, ops::JBC_REG_NUM);
    assert_eq!(opcodes::JBS_REG_NUM, ops::JBS_REG_NUM);
    assert_eq!(opcodes::JBC_ADDR_NUM, ops::JBC_ADDR_NUM);
    assert_eq!(opcodes::JBS_ADDR_NUM, ops::JBS_ADDR_NUM);
    assert_eq!(opcodes::ADDC_REG_REG_BYTE, ops::ADDC_REG_REG_BYTE);
    assert_eq!(opcodes::ADDC_REG_REG_WORD, ops::ADDC_REG_REG_WORD);
    assert_eq!(opcodes::ADDC_REG_NUM_BYTE, ops::ADDC_REG_NUM_BYTE);
    assert_eq!(opcodes::ADDC_REG_NUM_WORD, ops::ADDC_REG_NUM_WORD);
    assert_eq!(opcodes::ADDC_REG_ADDR_BYTE, ops::ADDC_REG_ADDR_BYTE);
    assert_eq!(opcodes::ADDC_REG_ADDR_WORD, ops::ADDC_REG_ADDR_WORD);
    assert_eq!(opcodes::ADDC_ADDR_REG_BYTE, ops::ADDC_ADDR_REG_BYTE);
    assert_eq!(opcodes::ADDC_ADDR_REG_WORD, ops::ADDC_ADDR_REG_WORD);
    assert_eq!(opcodes::ADDC_ADDR_NUM_BYTE, ops::ADDC_ADDR_NUM_BYTE);
    assert_eq!(opcodes::ADDC_ADDR_NUM_WORD, ops::ADDC_ADDR_NUM_WORD);
    assert_eq!(opcodes::ADDC_ADDR_ADDR_BYTE, ops::ADDC_ADDR_ADDR_BYTE);
    assert_eq!(opcodes::ADDC_ADDR_ADDR_WORD, ops::ADDC_ADDR_ADDR_WORD);
    assert_eq!(opcodes::SUBC_REG_REG_BYTE, ops::SUBC_REG_REG_BYTE);
    assert_eq!(opcodes::SUBC_REG_REG_WORD, ops::SUBC_REG_REG_WORD);
    assert_eq!(opcodes::SUBC_REG_NUM_BYTE, ops::SUBC_REG_NUM_BYTE);
    assert_eq!(opcodes::SUBC_REG_NUM_WORD, ops::SUBC_REG_NUM_WORD);
    assert_eq!(opcodes::SUBC_REG_ADDR_BYTE, ops::SUBC_REG_ADDR_BYTE);
    assert_eq!(opcodes::SUBC_REG_ADDR_WORD, ops::SUBC_REG_ADDR_WORD);
    assert_eq!(opcodes::SUBC_ADDR_REG_BYTE, ops::SUBC_ADDR_REG_BYTE);
    assert_eq!(opcodes::SUBC_ADDR_REG_WORD, ops::SUBC_ADDR_REG_WORD);
    assert_eq!(opcodes::SUBC_ADDR_NUM_BYTE, ops::SUBC_ADDR_NUM_BYTE);
    assert_eq!(opcodes::SUBC_ADDR_NUM_WORD, ops::SUBC_ADDR_NUM_WORD);
    assert_eq!(opcodes::SUBC_ADDR_ADDR_BYTE, ops::SUBC_ADDR_ADDR_BYTE);
    assert_eq!(opcodes::SUBC_ADDR_ADDR_WORD, ops::SUBC_ADDR_ADDR_WORD);
    assert_eq!(opcodes::EHALT, ops::EHALT);
    assert_eq!(opcodes::SLEEP, ops::SLEEP);
}
