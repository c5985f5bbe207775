//! Splitting a source line into label, mnemonic and raw operands.
use crate::text::{chars_of, is_space, is_space_char, string_of};
use crate::{Line, ParseError};
use vstd::prelude::*;

verus! {

/// The whitespace-separated words of `s`, left to right.
pub open spec fn split_words(s: Seq<char>) -> Seq<Seq<char>>
    decreases s.len(),
{
    if s.len() == 0 {
        Seq::empty()
    } else {
        let w = split_words(s.drop_last());
        if is_space(s.last()) {
            w
        } else if s.len() >= 2 && !is_space(s[s.len() - 2]) {
            w.drop_last().push(w.last().push(s.last()))
        } else {
            w.push(seq![s.last()])
        }
    }
}

/// The words run together, with nothing between them.
pub open spec fn joined(ws: Seq<Seq<char>>) -> Seq<char>
    decreases ws.len(),
{
    if ws.len() == 0 {
        Seq::empty()
    } else {
        joined(ws.drop_last()) + ws.last()
    }
}

/// The pieces of `s` between commas; an empty `s` is one empty piece.
pub open spec fn split_commas(s: Seq<char>) -> Seq<Seq<char>>
    decreases s.len(),
{
    if s.len() == 0 {
        seq![Seq::empty()]
    } else {
        let p = split_commas(s.drop_last());
        if s.last() == ',' {
            p.push(Seq::empty())
        } else {
            p.drop_last().push(p.last().push(s.last()))
        }
    }
}

proof fn lemma_split_commas_nonempty(s: Seq<char>)
    ensures
        split_commas(s).len() > 0,
    decreases s.len(),
{
    if s.len() > 0 {
        lemma_split_commas_nonempty(s.drop_last());
    }
}

/// The label of a line: its first word, when that ends with `:`.
pub open spec fn label_of(ws: Seq<Seq<char>>) -> Option<Seq<char>> {
    if ws.len() > 0 && ws[0].len() > 0 && ws[0].last() == ':' {
        Some(ws[0])
    } else {
        None
    }
}

/// The mnemonic and raw operands of a line: the word after the label, if
/// any, and the words after it run together and cut at commas.
pub open spec fn command_of(ws: Seq<Seq<char>>) -> Option<(Seq<char>, Seq<Seq<char>>)> {
    let k: int = if label_of(ws) is Some {
        1
    } else {
        0
    };
    if k < ws.len() {
        let rest = joined(ws.subrange(k + 1, ws.len() as int));
        Some(
            (
                ws[k],
                if rest.len() == 0 {
                    Seq::empty()
                } else {
                    split_commas(rest)
                },
            ),
        )
    } else {
        None
    }
}

pub open spec fn deep(v: Seq<Vec<char>>) -> Seq<Seq<char>> {
    v.map_values(|w: Vec<char>| w@)
}

pub(crate) fn words_of(s: &Vec<char>) -> (r: Vec<Vec<char>>)
    ensures
        deep(r@) == split_words(s@),
{
    let mut out: Vec<Vec<char>> = Vec::new();
    let mut i: usize = 0;
    while i < s.len()
        invariant
            i <= s@.len(),
            deep(out@) == split_words(s@.subrange(0, i as int)),
            i > 0 && !is_space(s@[i - 1]) ==> out@.len() > 0,
        decreases s@.len() - i,
    {
        let ghost prev = s@.subrange(0, i as int);
        let ghost next = s@.subrange(0, i + 1);
        assert(next.drop_last() =~= prev);
        let c = s[i];
        if is_space_char(c) {
        } else if i >= 1 && !is_space_char(s[i - 1]) {
            assert(next[next.len() - 2] == s@[i - 1]);
            let mut last = out.pop().unwrap();
            let ghost before = last@;
            last.push(c);
            out.push(last);
            assert(deep(out@) =~= split_words(prev).drop_last().push(before.push(c)));
        } else {
            assert(i >= 1 ==> next[next.len() - 2] == s@[i - 1]);
            let single = vec![c];
            assert(single@ =~= seq![c]);
            out.push(single);
            assert(split_words(next) == split_words(prev).push(seq![c]));
            assert(deep(out@) =~= split_words(prev).push(seq![c]));
        }
        i = i + 1;
    }
    assert(s@.subrange(0, s@.len() as int) =~= s@);
    out
}

fn join_words(ws: &Vec<Vec<char>>, from: usize) -> (r: Vec<char>)
    requires
        from <= ws@.len(),
    ensures
        r@ == joined(deep(ws@).subrange(from as int, ws@.len() as int)),
{
    let mut out: Vec<char> = Vec::new();
    let mut i: usize = from;
    while i < ws.len()
        invariant
            from <= i <= ws@.len(),
            out@ == joined(deep(ws@).subrange(from as int, i as int)),
        decreases ws@.len() - i,
    {
        let ghost next = deep(ws@).subrange(from as int, i + 1);
        assert(next.drop_last() =~= deep(ws@).subrange(from as int, i as int));
        let mut w = ws[i].clone();
        out.append(&mut w);
        i = i + 1;
    }
    out
}

fn comma_pieces(s: &Vec<char>) -> (r: Vec<String>)
    ensures
        crate::strings_view(r@) == split_commas(s@),
{
    let mut out: Vec<String> = Vec::new();
    let mut start: usize = 0;
    let mut i: usize = 0;
    assert(s@.subrange(0, 0) =~= Seq::<char>::empty());
    assert(crate::strings_view(out@) =~= Seq::<Seq<char>>::empty());
    assert(split_commas(Seq::<char>::empty()) == seq![Seq::<char>::empty()]);
    assert(crate::strings_view(out@).push(s@.subrange(0, 0)) =~= split_commas(
        s@.subrange(0, 0),
    ));
    while i < s.len()
        invariant
            start <= i <= s@.len(),
            crate::strings_view(out@).push(s@.subrange(start as int, i as int)) == split_commas(
                s@.subrange(0, i as int),
            ),
        decreases s@.len() - i,
    {
        let ghost prev = s@.subrange(0, i as int);
        let ghost next = s@.subrange(0, i + 1);
        let ghost before = crate::strings_view(out@);
        assert(next.drop_last() =~= prev);
        assert(next.last() == s@[i as int]);
        if s[i] == ',' {
            let piece = string_of(s, start, i);
            out.push(piece);
            assert(crate::strings_view(out@) =~= before.push(s@.subrange(start as int, i as int)));
            start = i + 1;
            assert(s@.subrange(start as int, i + 1) =~= Seq::<char>::empty());
            assert(split_commas(next) == split_commas(prev).push(Seq::empty()));
        } else {
            assert(s@.subrange(start as int, i + 1) =~= s@.subrange(start as int, i as int).push(
                s@[i as int],
            ));
            assert(split_commas(next) == split_commas(prev).drop_last().push(
                split_commas(prev).last().push(s@[i as int]),
            ));
            assert(split_commas(prev).drop_last() =~= before);
            assert(before.push(s@.subrange(start as int, i + 1)) =~= split_commas(prev).drop_last().push(
                split_commas(prev).last().push(s@[i as int]),
            ));
        }
        i = i + 1;
    }
    assert(s@.subrange(0, s@.len() as int) =~= s@);
    let ghost before = crate::strings_view(out@);
    out.push(string_of(s, start, s.len()));
    assert(crate::strings_view(out@) =~= before.push(s@.subrange(start as int, s@.len() as int)));
    out
}

/// Splits `trimmed` into label, mnemonic and raw operands. A text that is
/// empty once trimmed is `EmptyLine`: callers leave such lines out.
pub fn interpret_line(line_num: usize, trimmed: &str) -> (r: Result<Line, ParseError>)
    ensures
        split_words(trimmed@).len() == 0 ==> r == Err::<Line, ParseError>(ParseError::EmptyLine),
        split_words(trimmed@).len() > 0 ==> (r matches Ok(line) && line.num == line_num
            && line.original@ == trimmed@ && line.label_view() == label_of(
            split_words(trimmed@),
        ) && line.command_view() == command_of(split_words(trimmed@))),
{
    let text = chars_of(trimmed);
    let words = words_of(&text);
    if words.len() == 0 {
        return Err(ParseError::EmptyLine);
    }
    let ghost ws = split_words(trimmed@);
    let mut line = Line::new(line_num, trimmed.to_owned());
    let first = &words[0];
    let k: usize = if first.len() > 0 && first[first.len() - 1] == ':' {
        line.label = Some(string_of(first, 0, first.len()));
        1
    } else {
        0
    };
    assert(first@ == ws[0]);
    assert(first@.subrange(0, first@.len() as int) =~= first@);
    if k < words.len() {
        let rest = join_words(&words, k + 1);
        let args: Vec<String> = if rest.len() == 0 {
            Vec::new()
        } else {
            comma_pieces(&rest)
        };
        let name = &words[k];
        assert(name@.subrange(0, name@.len() as int) =~= name@);
        line.command = Some((string_of(name, 0, name.len()), args));
        assert(crate::strings_view(args@) =~= (if rest@.len() == 0 {
            Seq::empty()
        } else {
            split_commas(rest@)
        }));
    }
    Ok(line)
}

} // verus!
