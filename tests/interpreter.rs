use maikor_asm::interpreter::interpret_line;
use maikor_asm::{Line, ParseError};

fn test_op(command: &str, input_args: &str, args: Vec<&str>) {
    let input = format!("{} {}", command, input_args);
    assert_eq!(
        interpret_line(0, &input).unwrap(),
        Line {
            num: 0,
            original: input,
            label: None,
            command: Some((
                command.to_string(),
                args.iter().map(|str| str.to_string()).collect()
            ))
        }
    );
}

#[test]
fn test_interpreting() {
    test_op("Nop", "", vec![]);
    test_op("inc.w", "ax", vec!["ax"]);
    test_op("swap.b", "aH, Al", vec!["aH", "Al"]);
    test_op("swap.w", "ax, bx", vec!["ax", "bx"]);
    test_op("add.w", "( ax + al), 19", vec!["(ax+al)", "19"]);
    test_op("muls.b", "(ax)+, bh", vec!["(ax)+", "bh"]);
    test_op("cpy.b", "-(dl), $550", vec!["-(dl)", "$550"]);
    test_op("mcpy", "$5111, cx, 12", vec!["$5111", "cx", "12"]);
}

#[test]
fn simple_test() {
    let line = interpret_line(10, "INC.B (AX)").unwrap();
    assert_eq!(line.num, 10);
    assert_eq!(line.original, "INC.B (AX)");
    assert_eq!(line.label, None);
    assert_eq!(
        line.command,
        Some((String::from("INC.B"), vec![String::from("(AX)")]))
    );
}

#[test]
fn label_lines() {
    let line = interpret_line(2, "start: JMP $10").unwrap();
    assert_eq!(line.label, Some(String::from("start:")));
    assert_eq!(line.command, Some((String::from("JMP"), vec![String::from("$10")])));
    let only = interpret_line(3, "loop:").unwrap();
    assert_eq!(only.label, Some(String::from("loop:")));
    assert_eq!(only.command, None);
}

#[test]
fn empty_and_blank_lines() {
    assert_eq!(interpret_line(0, ""), Err(ParseError::EmptyLine));
    assert_eq!(interpret_line(7, "   "), Err(ParseError::EmptyLine));
}

#[test]
fn empty_operands_between_commas() {
    let line = interpret_line(0, "ADD.B al,,5").unwrap();
    assert_eq!(
        line.command,
        Some((
            String::from("ADD.B"),
            vec![String::from("al"), String::new(), String::from("5")]
        ))
    );
}
