//! The places where a pattern can stand: `match`, `if let`, `while let`,
//! `for`, `let` and a function's parameter.

use vstd::prelude::*;
use vstd::string::StringExecFns;
use crate::text::{decimal, push_decimal, push_natural};

verus! {

/// What [`exhaustive_match`] says of `value`: the number it holds, or that it
/// holds none.
pub open spec fn exhaustive_match_text(value: Option<i32>) -> Seq<char> {
    match value {
        Some(x) => "number: "@ + decimal(x as int) + "\n"@,
        None => "None\n"@,
    }
}

/// A `match` has an arm for every shape of its subject: one for a number that
/// is there, one for a number that is not.
pub fn exhaustive_match(value: Option<i32>) -> (line: String)
    ensures
        line@ == exhaustive_match_text(value),
{
    match value {
        Some(x) => {
            let mut line = String::from_str("number: ");
            push_decimal(&mut line, x as i64);
            line.append("\n");
            line
        },
        None => String::from_str("None\n"),
    }
}

/// What [`if_let_chain`] says: the first test that holds decides, and the
/// tests need not be about the same value.
pub open spec fn if_let_chain_text(value: Option<i32>, age: Result<isize, String>) -> Seq<char> {
    match (value, age) {
        (None, _) => "my_val was None\n"@,
        (Some(_), Ok(years)) => if years > 20 {
            "age > 20\n"@
        } else {
            "age <= 20\n"@
        },
        (Some(_), Err(_)) => "No conditions reached\n"@,
    }
}

/// A chain of `if let` tries its patterns in order, each on a subject of its
/// own, and falls back to a last branch when none matches.
pub fn if_let_chain(value: Option<i32>, age: &Result<isize, String>) -> (line: String)
    ensures
        line@ == if_let_chain_text(value, *age),
{
    if let None = value {
        String::from_str("my_val was None\n")
    } else if let Ok(age) = age {
        if *age > 20 {
            String::from_str("age > 20\n")
        } else {
            String::from_str("age <= 20\n")
        }
    } else {
        String::from_str("No conditions reached\n")
    }
}

/// `while let` goes on for as long as its pattern matches: here until `pop`
/// finds the buffer empty. The characters come out last first.
pub fn while_let_pop(buffer: &mut String) -> (popped: Vec<char>)
    ensures
        popped@ == old(buffer)@.reverse(),
        popped@.len() == old(buffer)@.len(),
        final(buffer)@.len() == 0,
{
    let mut popped: Vec<char> = Vec::new();
    loop
        invariant
            popped@.len() + buffer@.len() == old(buffer)@.len(),
            buffer@ == old(buffer)@.take(buffer@.len() as int),
            forall|i: int| 0 <= i < popped@.len() ==> popped@[i] == old(buffer)@[old(buffer)@.len() - 1 - i],
        ensures
            buffer@.len() == 0,
        decreases buffer@.len(),
    {
        match buffer.pop() {
            Some(c) => {
                popped.push(c);
            },
            None => {
                break;
            },
        }
    }
    assert(popped@ =~= old(buffer)@.reverse());
    popped
}

/// The line that reports one character taken from the buffer.
pub open spec fn popped_line(c: char) -> Seq<char> {
    "c: "@ + seq![c] + "\n"@
}

/// One [`popped_line`] for each character, in the order of `popped`.
pub open spec fn popped_text(popped: Seq<char>) -> Seq<char>
    decreases popped.len(),
{
    if popped.len() == 0 {
        Seq::empty()
    } else {
        popped_text(popped.drop_last()) + popped_line(popped.last())
    }
}

/// Reports the characters that [`while_let_pop`] took, one line each.
pub fn popped_lines(popped: &Vec<char>) -> (lines: String)
    ensures
        lines@ == popped_text(popped@),
{
    let mut lines = String::new();
    for i in 0..popped.len()
        invariant
            lines@ == popped_text(popped@.take(i as int)),
    {
        lines.append("c: ");
        lines.push(popped[i]);
        lines.append("\n");
        assert(popped@.take(i + 1).drop_last() =~= popped@.take(i as int));
    }
    assert(popped@.take(popped@.len() as int) =~= popped@);
    lines
}

/// The characters of `text`, each with its position, counted from zero.
pub open spec fn indexed(text: Seq<char>) -> Seq<(usize, char)> {
    Seq::new(text.len(), |i: int| (i as usize, text[i]))
}

/// `for` takes a pattern too: each item of an enumeration comes apart into
/// its position and its character.
pub fn for_indexed(text: &str) -> (pairs: Vec<(usize, char)>)
    ensures
        pairs@ == indexed(text@),
{
    broadcast use vstd::string::group_string_axioms;

    let mut pairs: Vec<(usize, char)> = Vec::new();
    for c in it: text.chars()
        invariant
            it.seq() == text@,
            pairs@.len() == it.index(),
            forall|j: int| 0 <= j < pairs@.len() ==> pairs@[j] == (j as usize, text@[j]),
    {
        let i = pairs.len();
        pairs.push((i, c));
    }
    assert(pairs@ =~= indexed(text@));
    pairs
}

/// The line that reports one character and its position.
pub open spec fn indexed_line(i: usize, c: char) -> Seq<char> {
    "i: "@ + decimal(i as int) + " c: "@ + seq![c] + "\n"@
}

/// One [`indexed_line`] for each pair, in the order of `pairs`.
pub open spec fn indexed_text(pairs: Seq<(usize, char)>) -> Seq<char>
    decreases pairs.len(),
{
    if pairs.len() == 0 {
        Seq::empty()
    } else {
        indexed_text(pairs.drop_last()) + indexed_line(pairs.last().0, pairs.last().1)
    }
}

/// Reports the pairs that [`for_indexed`] made, one line each.
pub fn indexed_lines(pairs: &Vec<(usize, char)>) -> (lines: String)
    ensures
        lines@ == indexed_text(pairs@),
{
    let mut lines = String::new();
    for k in 0..pairs.len()
        invariant
            lines@ == indexed_text(pairs@.take(k as int)),
    {
        let (i, c) = pairs[k];
        lines.append("i: ");
        push_natural(&mut lines, i as u64);
        lines.append(" c: ");
        lines.push(c);
        lines.append("\n");
        assert(pairs@.take(k + 1).drop_last() =~= pairs@.take(k as int));
    }
    assert(pairs@.take(pairs@.len() as int) =~= pairs@);
    lines
}

/// What [`let_triple`] says of the three characters.
pub open spec fn let_triple_text(triple: (char, char, char)) -> Seq<char> {
    "x: "@ + seq![triple.0] + " y: "@ + seq![triple.1] + " z: "@ + seq![triple.2] + "\n"@
}

/// `let` takes a pattern: one statement gives each part of a tuple a name of
/// its own.
pub fn let_triple(triple: (char, char, char)) -> (line: String)
    ensures
        line@ == let_triple_text(triple),
{
    let (x, y, z) = triple;
    let mut line = String::from_str("x: ");
    line.push(x);
    line.append(" y: ");
    line.push(y);
    line.append(" z: ");
    line.push(z);
    line.append("\n");
    line
}

/// What [`printing_stuff`] says of the pair.
pub open spec fn printing_stuff_text(pair: (char, char)) -> Seq<char> {
    "printing_stuff("@ + seq![pair.0] + ", "@ + seq![pair.1] + ")\n"@
}

/// A pattern can take a value apart through a reference: the pair that the
/// parameter points to gives its two characters a name each.
pub fn printing_stuff(pair: &(char, char)) -> (line: String)
    ensures
        line@ == printing_stuff_text(*pair),
{
    let (a, b) = *pair;
    let mut line = String::from_str("printing_stuff(");
    line.push(a);
    line.append(", ");
    line.push(b);
    line.append(")\n");
    line
}

} // verus!
