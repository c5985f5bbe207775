//! Assembling one instruction from its words alone: operands are separated by
//! whitespace, and numbers stay words for mnemonics that end in `W`.
use crate::arg_matching::get_op_code;
use crate::arg_patterns::opcode_for;
use crate::interpreter::{deep, split_words, words_of};
use crate::text::{chars_of, string_of, upper, upper_string};
use crate::tokens::{create_token, to_args_str, token_bytes, token_letters, token_value, Token};
use crate::ParseError;
use vstd::prelude::*;

verus! {

/// The bytes of every token, in order.
pub open spec fn tokens_bytes(list: Seq<Token>) -> Seq<u8>
    decreases list.len(),
{
    if list.len() == 0 {
        Seq::empty()
    } else {
        tokens_bytes(list.drop_last()) + token_bytes(list.last())
    }
}

/// Whether a mnemonic keeps small numbers as words: it ends in `W`.
pub open spec fn promotes(name: Seq<char>) -> bool {
    name.len() > 0 && name.last() == 'W'
}

/// The opcode and operand bytes of an instruction line, when it assembles.
pub open spec fn instruction(s: Seq<char>) -> Option<(u8, Seq<u8>)> {
    let ws = split_words(s);
    if ws.len() == 0 {
        None
    } else {
        let name = upper(ws[0]);
        let promote = promotes(name);
        let args = ws.subrange(1, ws.len() as int);
        if forall|i: int| 0 <= i < args.len() ==> (#[trigger] token_value(args[i], promote)) is Some {
            let list = args.map_values(|a: Seq<char>| token_value(a, promote)->0);
            match opcode_for(name, token_letters(list)) {
                Some(op) => Some((op, tokens_bytes(list))),
                None => None,
            }
        } else {
            None
        }
    }
}

/// Assembles one instruction: its opcode and its operand bytes.
pub fn parse_line(line: &str) -> (r: Result<(u8, Vec<u8>), ParseError>)
    ensures
        line@.len() == 0 ==> r == Err::<(u8, Vec<u8>), ParseError>(ParseError::EmptyLine),
        match instruction(line@) {
            Some((op, bytes)) => r matches Ok((o, b)) && o == op && b@ == bytes,
            None => r is Err,
        },
{
    let text = chars_of(line);
    if text.len() == 0 {
        return Err(ParseError::EmptyLine);
    }
    let words = words_of(&text);
    if words.len() == 0 {
        return Err(ParseError::EmptyLine);
    }
    let ghost ws = split_words(line@);
    assert(words[0]@ == ws[0]);
    let first = string_of(&words[0], 0, words[0].len());
    assert(words[0]@.subrange(0, words[0]@.len() as int) =~= words[0]@);
    let name = upper_string(first.as_str());
    let name_chars = chars_of(name.as_str());
    let promote_bytes = name_chars.len() > 0 && name_chars[name_chars.len() - 1] == 'W';
    assert(words@.len() == ws.len());
    let ghost args = ws.subrange(1, ws.len() as int);
    let mut list: Vec<Token> = Vec::new();
    let mut bytes: Vec<u8> = Vec::new();
    let mut i: usize = 1;
    while i < words.len()
        invariant
            line@.len() > 0,
            ws == split_words(line@),
            ws.len() > 0,
            name@ == upper(ws[0]),
            promote_bytes == promotes(upper(ws[0])),
            deep(words@) == ws,
            args == ws.subrange(1, ws.len() as int),
            1 <= i <= words@.len(),
            list@.len() == i - 1,
            forall|j: int| 0 <= j < i - 1 ==> (#[trigger] token_value(args[j], promote_bytes)) is Some,
            forall|j: int| 0 <= j < i - 1 ==> #[trigger] list@[j] == token_value(args[j], promote_bytes)->0,
            bytes@ == tokens_bytes(list@),
        decreases words@.len() - i,
    {
        let word = string_of(&words[i], 0, words[i].len());
        assert(words[i as int]@.subrange(0, words[i as int]@.len() as int) =~= words[i as int]@);
        assert(word@ == args[i - 1]);
        let token = match create_token(word.as_str(), promote_bytes) {
            Ok(t) => t,
            Err(e) => {
                assert(!(token_value(args[i - 1], promote_bytes) is Some));
                assert(!(forall|j: int|
                    0 <= j < args.len() ==> (#[trigger] token_value(args[j], promote_bytes)) is Some));
                return Err(e);
            },
        };
        let ghost before = list@;
        list.push(token);
        assert(list@.drop_last() =~= before);
        let mut b = token.to_bytes();
        bytes.append(&mut b);
        i = i + 1;
    }
    let ghost all = args.map_values(|a: Seq<char>| token_value(a, promote_bytes)->0);
    assert(list@ =~= all);
    let pattern = to_args_str(list.as_slice());
    let op = get_op_code(0, name.as_str(), pattern.as_str())?;
    Ok((op, bytes))
}

} // verus!
