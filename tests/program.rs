use maikor_asm::{parse_line_from_str, parse_program, Line, ParseError, ParsedLine};
use maikor_platform::op_params::{INDIRECT, IND_OFFSET_NUM};
use maikor_platform::ops::{
    ADD_REG_NUM_BYTE, CMP_REG_NUM_BYTE, INC_REG_BYTE, INC_REG_WORD, JE_ADDR,
    MEM_CPY_ADDR_ADDR_REG,
};
use maikor_platform::registers::id;
use maikor_platform::registers::id::AL;

#[test]
fn line_test() {
    assert_eq!(
        parse_line_from_str("inc.w bx").unwrap(),
        ParsedLine {
            line: Line {
                num: 0,
                original: "inc.w bx".to_string(),
                label: None,
                command: Some(("inc.w".to_string(), vec!["bx".to_string()])),
            },
            bytes: vec![INC_REG_WORD, id::BX as u8],
        }
    );
    assert_eq!(
        parse_line_from_str("add.b al, 30").unwrap(),
        ParsedLine {
            line: Line {
                num: 0,
                original: "add.b al, 30".to_string(),
                label: None,
                command: Some((
                    "add.b".to_string(),
                    vec!["al".to_string(), "30".to_string()]
                )),
            },
            bytes: vec![ADD_REG_NUM_BYTE, id::AL as u8, 30],
        }
    );

    assert!(parse_line_from_str("inc al").is_err());
}

#[test]
fn basic_test() {
    let lines = vec!["# test program", "INC.B AL", "CMP.B AL, 1", "JE $50"];
    let output = parse_program(&lines).unwrap();
    assert_eq!(output.lines.len(), 3);
    assert_eq!(
        output.bytes,
        vec![
            INC_REG_BYTE,
            AL as u8,
            CMP_REG_NUM_BYTE,
            AL as u8,
            1,
            JE_ADDR,
            0,
            50,
        ]
    );
}

#[test]
fn scenario_inc_byte_register() {
    let parsed = parse_line_from_str("INC.B AL").unwrap();
    assert_eq!(parsed.bytes, vec![INC_REG_BYTE, id::AL]);
}

#[test]
fn scenario_add_byte_number() {
    let parsed = parse_line_from_str("ADD.B AL, 30").unwrap();
    assert_eq!(parsed.bytes, vec![ADD_REG_NUM_BYTE, id::AL, 30]);
}

#[test]
fn scenario_jump_equal() {
    let parsed = parse_line_from_str("JE $50").unwrap();
    assert_eq!(parsed.bytes, vec![JE_ADDR, 0, 50]);
}

#[test]
fn scenario_block_copy() {
    let parsed = parse_line_from_str("MCPY $xF, $2000, AL").unwrap();
    assert_eq!(parsed.bytes, vec![MEM_CPY_ADDR_ADDR_REG, 0, 15, 7, 208, id::AL]);
}

#[test]
fn scenario_offset_number_trails() {
    let parsed = parse_line_from_str("INC.W (ax+563)").unwrap();
    assert_eq!(parsed.bytes, vec![INC_REG_WORD, id::AX | IND_OFFSET_NUM, 2, 51]);
    let copy = parse_line_from_str("CPY.W (bx+x10), (ax+cl)").unwrap();
    assert_eq!(
        copy.bytes,
        vec![
            maikor_platform::ops::CPY_REG_REG_WORD,
            id::BX | IND_OFFSET_NUM,
            id::AX | maikor_platform::op_params::IND_OFFSET_REG,
            0,
            16,
            id::CL
        ]
    );
}

#[test]
fn scenario_missing_size() {
    assert!(matches!(parse_line_from_str("inc al"), Err(ParseError::InvalidOpName(0, _))));
}

#[test]
fn scenario_word_register_in_byte_op() {
    assert!(matches!(
        parse_line_from_str("INC.B AX"),
        Err(ParseError::InvalidArguments(0, _, _, _))
    ));
}

#[test]
fn small_number_stays_word_in_word_op() {
    let parsed = parse_line_from_str("ADD.W AX, 30").unwrap();
    assert_eq!(parsed.bytes, vec![maikor_platform::ops::ADD_REG_NUM_WORD, id::AX, 0, 30]);
}

#[test]
fn comments_and_blank_lines_are_skipped() {
    let lines = vec!["", "   ", "# only a comment", "INC.B (AX) # trailing", "  "];
    let output = parse_program(&lines).unwrap();
    assert_eq!(output.lines.len(), 1);
    assert_eq!(output.lines[0].line.num, 3);
    assert_eq!(output.bytes, vec![INC_REG_BYTE, id::AX | INDIRECT]);
}

#[test]
fn label_only_line_has_no_bytes() {
    let output = parse_program(&["start:", "INC.B AL"]).unwrap();
    assert_eq!(output.lines.len(), 2);
    assert_eq!(output.lines[0].bytes, Vec::<u8>::new());
    assert_eq!(output.lines[0].line.label, Some("start:".to_string()));
    assert_eq!(output.bytes, vec![INC_REG_BYTE, id::AL]);
}

#[test]
fn first_error_stops_the_run() {
    let result = parse_program(&["INC.B AL", "INC.B AX", "FOO"]);
    assert!(matches!(result, Err(ParseError::InvalidArguments(1, _, _, _))));
    let result = parse_program(&["INC.B AL", "FOO", "INC.B AX"]);
    assert!(matches!(result, Err(ParseError::InvalidOpName(1, _))));
}

#[test]
fn empty_program() {
    let output = parse_program(&[]).unwrap();
    assert!(output.lines.is_empty());
    assert!(output.bytes.is_empty());
}

#[test]
fn address_errors_are_retagged() {
    assert!(matches!(parse_line_from_str("JMP $x1FFFF"), Err(ParseError::AddressTooBig(0, _))));
    assert!(matches!(parse_line_from_str("JMP $xZZ"), Err(ParseError::AddressHexFormat(0, _, _))));
    assert!(matches!(parse_line_from_str("JMP $b102"), Err(ParseError::AddressNumFormat(0, _, _))));
    assert!(matches!(parse_line_from_str("JMP $"), Err(ParseError::AddressNumFormat(0, _, _))));
    assert!(matches!(parse_line_from_str("JMP $AX"), Err(ParseError::General(0, _, _))));
}

#[test]
fn num_to_addr_keeps_other_errors() {
    let e = ParseError::NumberTooBig(2, "x".to_string()).num_to_addr();
    assert_eq!(e, ParseError::AddressTooBig(2, "x".to_string()));
    let e = ParseError::InvalidOffset(2, "x".to_string()).num_to_addr();
    assert_eq!(e, ParseError::InvalidOffset(2, "x".to_string()));
}

#[test]
fn program_lines_keep_source_text() {
    let lines = vec!["", "   ", "# only a comment", "loop:"];
    let output = parse_program(&lines).unwrap();
    assert_eq!(
        output,
        maikor_asm::Program {
            lines: vec![ParsedLine {
                line: Line {
                    num: 3,
                    original: "loop:".to_string(),
                    label: Some("loop:".to_string()),
                    command: None,
                },
                bytes: vec![],
            }],
            bytes: vec![],
        }
    );
    let commented = parse_program(&["INC.B AL # count"]).unwrap();
    assert_eq!(commented.lines[0].line.original, "INC.B AL # count");
    assert_eq!(
        commented.lines[0].line.command,
        Some(("INC.B".to_string(), vec!["AL".to_string()]))
    );
}

#[test]
fn error_lists_valid_patterns() {
    assert_eq!(
        parse_line_from_str("INC.B AX"),
        Err(ParseError::InvalidArguments(
            0,
            "E".to_string(),
            "INC.B".to_string(),
            "[\"R\", \"I\", \"A\"]".to_string()
        ))
    );
    assert_eq!(
        parse_line_from_str("inc al"),
        Err(ParseError::InvalidOpName(0, "INC".to_string()))
    );
    assert_eq!(
        parse_line_from_str("JRF"),
        Err(ParseError::MissingArguments(0, "JRF".to_string(), "[\"B\"]".to_string()))
    );
}

#[test]
fn first_operand_error_wins() {
    assert!(matches!(
        parse_program(&["NOP", "ADD.B qq, 99999"]),
        Err(ParseError::InvalidRegister(1, _, _))
    ));
}
