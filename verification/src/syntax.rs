//! The forms a pattern can take: literals, alternatives, ranges, structs and
//! tuples taken apart, placeholders, guards and bindings with `@`.

use vstd::prelude::*;
use vstd::string::StringExecFns;
use crate::text::{decimal, push_decimal, same_text};

verus! {

/// A shape with two measures.
#[derive(Clone, Copy, Debug, PartialEq, Eq)]
pub struct Triangle {
    pub base: isize,
    pub height: isize,
}

/// A record of four fields, one of them a [`Triangle`].
#[derive(Clone, Copy, Debug, PartialEq, Eq)]
pub struct Screen {
    pub size: isize,
    pub x: isize,
    pub y: isize,
    pub t: Triangle,
}

/// What [`match_literal`] says of `word`: each of the three known words has a
/// line of its own, every other word shares one.
pub open spec fn match_literal_text(word: Seq<char>) -> Seq<char> {
    if word == "hello"@ {
        "'hello' found\n"@
    } else if word == "world"@ {
        "'world' found\n"@
    } else if word == "rust"@ {
        "'rust' found\n"@
    } else {
        "unknown value found\n"@
    }
}

/// A literal as a pattern matches the value that equals it; `_` takes what
/// is left.
pub fn match_literal(word: &str) -> (line: String)
    ensures
        line@ == match_literal_text(word@),
{
    if same_text(word, "hello") {
        String::from_str("'hello' found\n")
    } else if same_text(word, "world") {
        String::from_str("'world' found\n")
    } else if same_text(word, "rust") {
        String::from_str("'rust' found\n")
    } else {
        String::from_str("unknown value found\n")
    }
}

/// Whether `word` is one of the three known words.
pub open spec fn known_word(word: Seq<char>) -> bool {
    word == "hello"@ || word == "world"@ || word == "rust"@
}

/// What [`match_alternatives`] says of `word`: a known word is quoted, every
/// other word gets the same line.
pub open spec fn match_alternatives_text(word: Seq<char>) -> Seq<char> {
    if known_word(word) {
        "'"@ + word + "' found\n"@
    } else {
        "unknown value found\n"@
    }
}

/// Several patterns joined by `|` share one arm, which matches when any of
/// them does.
pub fn match_alternatives(word: &str) -> (line: String)
    ensures
        line@ == match_alternatives_text(word@),
{
    if same_text(word, "hello") || same_text(word, "world") || same_text(word, "rust") {
        let mut line = String::from_str("'");
        line.append(word);
        line.append("' found\n");
        line
    } else {
        String::from_str("unknown value found\n")
    }
}

/// What [`match_range`] says of `letter`.
pub open spec fn match_range_text(letter: char) -> Seq<char> {
    if 'a' <= letter <= 'd' {
        "a-d\n"@
    } else if 'e' <= letter <= 'h' {
        "e-h\n"@
    } else {
        "unknown\n"@
    }
}

/// A range as a pattern matches every value from its first to its last, both
/// included.
pub fn match_range(letter: char) -> (line: String)
    ensures
        line@ == match_range_text(letter),
{
    match letter {
        'a'..='d' => String::from_str("a-d\n"),
        'e'..='h' => String::from_str("e-h\n"),
        _ => String::from_str("unknown\n"),
    }
}

/// The arm of [`match_alternatives`] says of every word what the three arms
/// of [`match_literal`] say of it, one literal each.
pub proof fn lemma_alternatives_agree(word: Seq<char>)
    ensures
        match_alternatives_text(word) == match_literal_text(word),
{
    reveal_strlit("hello");
    reveal_strlit("world");
    reveal_strlit("rust");
    reveal_strlit("'");
    reveal_strlit("' found\n");
    reveal_strlit("'hello' found\n");
    reveal_strlit("'world' found\n");
    reveal_strlit("'rust' found\n");
    assert(match_alternatives_text(word) =~= match_literal_text(word));
}

/// The line that names a base and a height.
pub open spec fn sides_text(base: isize, height: isize) -> Seq<char> {
    "base: "@ + decimal(base as int) + " height: "@ + decimal(height as int) + "\n"@
}

fn sides_line(base: isize, height: isize) -> (line: String)
    ensures
        line@ == sides_text(base, height),
{
    let mut line = String::from_str("base: ");
    push_decimal(&mut line, base as i64);
    line.append(" height: ");
    push_decimal(&mut line, height as i64);
    line.append("\n");
    line
}

/// A struct pattern in a `let` gives each field a name of its own.
pub fn destructure_triangle(triangle: &Triangle) -> (line: String)
    ensures
        line@ == sides_text(triangle.base, triangle.height),
{
    let Triangle { base: b, height: h } = *triangle;
    sides_line(b, h)
}

/// What [`match_triangle`] says of `triangle`. The arms are tried in the
/// order written and the first that matches decides. The second and the
/// third do not end their line.
pub open spec fn match_triangle_text(triangle: Triangle) -> Seq<char> {
    if triangle.base == 12 && triangle.height == 15 {
        "12 15 triangle\n"@
    } else if triangle.base == 5 && triangle.height == 10 {
        "5 10 triangle"@
    } else if triangle.base == 8 {
        "8 "@ + decimal(triangle.height as int) + " triangle"@
    } else {
        "other triangle\n"@
    }
}

/// A struct pattern can fix some fields to a value and bind the others.
pub fn match_triangle(triangle: &Triangle) -> (line: String)
    ensures
        line@ == match_triangle_text(*triangle),
{
    match *triangle {
        Triangle { base: 12, height: 15 } => String::from_str("12 15 triangle\n"),
        Triangle { base: 5, height: 10 } => String::from_str("5 10 triangle"),
        Triangle { base: 8, height } => {
            let mut line = String::from_str("8 ");
            push_decimal(&mut line, height as i64);
            line.append(" triangle");
            line
        },
        _ => String::from_str("other triangle\n"),
    }
}

/// The first arm that matches decides: a triangle of base 5 and height 10
/// gets the arm written for it, and a triangle of base 8 the arm that binds
/// its height, never the arm that takes whatever is left.
pub proof fn lemma_first_arm_decides(triangle: Triangle)
    ensures
        triangle.base == 5 && triangle.height == 10 ==> match_triangle_text(triangle)
            == "5 10 triangle"@,
        triangle.base == 8 ==> match_triangle_text(triangle) == "8 "@ + decimal(
            triangle.height as int,
        ) + " triangle"@,
        triangle.base == 5 && triangle.height == 10 || triangle.base == 8
            ==> match_triangle_text(triangle) != "other triangle\n"@,
{
    reveal_strlit("5 10 triangle");
    reveal_strlit("8 ");
    reveal_strlit("other triangle\n");
    assert("other triangle\n"@[0] == 'o');
    assert("5 10 triangle"@[0] == '5');
    if triangle.base == 8 {
        let line = "8 "@ + decimal(triangle.height as int) + " triangle"@;
        assert(line[0] == '8');
    }
}

/// What [`match_screen`] says of `screen`.
pub open spec fn match_screen_text(screen: Screen) -> Seq<char> {
    if screen.size == 10 && screen.x == 0 && screen.y == 0 {
        "matching screen found "@ + decimal(screen.t.base as int) + " "@ + decimal(
            screen.t.height as int,
        ) + "\n"@
    } else {
        "no matching screen found\n"@
    }
}

/// A pattern reaches into a struct within a struct: one arm tests the outer
/// fields and binds the inner ones.
pub fn match_screen(screen: &Screen) -> (line: String)
    ensures
        line@ == match_screen_text(*screen),
{
    match *screen {
        Screen { size: 10, x: 0, y: 0, t: Triangle { base, height } } => {
            let mut line = String::from_str("matching screen found ");
            push_decimal(&mut line, base as i64);
            line.append(" ");
            push_decimal(&mut line, height as i64);
            line.append("\n");
            line
        },
        _ => String::from_str("no matching screen found\n"),
    }
}

/// The line that holds two numbers.
pub open spec fn pair_text(x: i32, y: i32) -> Seq<char> {
    decimal(x as int) + " "@ + decimal(y as int) + "\n"@
}

fn pair_line(x: i32, y: i32) -> (line: String)
    ensures
        line@ == pair_text(x, y),
{
    let mut line = String::new();
    push_decimal(&mut line, x as i64);
    line.append(" ");
    push_decimal(&mut line, y as i64);
    line.append("\n");
    line
}

/// A tuple pattern gives each part of a pair a name.
pub fn destructure_pair(pair: (i32, i32)) -> (line: String)
    ensures
        line@ == pair_text(pair.0, pair.1),
{
    let (x, y) = pair;
    pair_line(x, y)
}

/// `_` matches a part without binding it: of `pair` only the second number
/// is kept, and `x` stands in the line as it came.
pub fn ignore_first(x: i32, pair: (i32, i32)) -> (line: String)
    ensures
        line@ == pair_text(x, pair.1),
{
    let (_, y) = pair;
    pair_line(x, y)
}

/// What [`match_both`] says of the two values.
pub open spec fn match_both_text(x: Option<i32>, y: Option<i32>) -> Seq<char> {
    if x is Some && y is Some {
        "both x and y and `Some`\n"@
    } else {
        "either x or y is `None`\n"@
    }
}

/// A tuple of subjects matches an arm only if every part matches its own
/// sub-pattern.
pub fn match_both(x: Option<i32>, y: Option<i32>) -> (line: String)
    ensures
        line@ == match_both_text(x, y),
{
    match (x, y) {
        (Some(_), Some(_)) => String::from_str("both x and y and `Some`\n"),
        _ => String::from_str("either x or y is `None`\n"),
    }
}

/// What [`match_rest`] says of `screen`.
pub open spec fn match_rest_text(screen: Screen) -> Seq<char> {
    "size is "@ + decimal(screen.size as int) + "\n"@
}

/// `..` in a struct pattern leaves out the fields that are not named.
pub fn match_rest(screen: &Screen) -> (line: String)
    ensures
        line@ == match_rest_text(*screen),
{
    match *screen {
        Screen { size, .. } => {
            let mut line = String::from_str("size is ");
            push_decimal(&mut line, size as i64);
            line.append("\n");
            line
        },
    }
}

/// What [`match_ends`] says of the four numbers.
pub open spec fn match_ends_text(values: (i32, i32, i32, i32)) -> Seq<char> {
    "vals are "@ + decimal(values.0 as int) + " "@ + decimal(values.3 as int) + "\n"@
}

/// `..` in a tuple pattern stands for the parts between the first and the
/// last. It can stand once in a pattern, so what it covers is never in doubt.
pub fn match_ends(values: (i32, i32, i32, i32)) -> (line: String)
    ensures
        line@ == match_ends_text(values),
{
    match values {
        (first, .., last) => {
            let mut line = String::from_str("vals are ");
            push_decimal(&mut line, first as i64);
            line.append(" ");
            push_decimal(&mut line, last as i64);
            line.append("\n");
            line
        },
    }
}

/// Whether `a` is odd.
pub open spec fn odd(a: int) -> bool {
    a % 2 == 1
}

/// What [`match_guard`] says of `x`.
pub open spec fn match_guard_text(x: Option<i32>) -> Seq<char> {
    match x {
        Some(a) => if odd(a as int) {
            "Some x is odd\n"@
        } else {
            "Some x is even\n"@
        },
        None => "None\n"@,
    }
}

/// A guard is a condition on an arm. It is tested once the pattern has
/// matched; where it fails, the arms below are tried.
pub fn match_guard(x: Option<i32>) -> (line: String)
    ensures
        line@ == match_guard_text(x),
{
    match x {
        Some(a) if a % 2 != 0 => String::from_str("Some x is odd\n"),
        Some(_) => String::from_str("Some x is even\n"),
        None => String::from_str("None\n"),
    }
}

/// An odd number takes the arm with the guard, not the arm below it that
/// matches any number.
pub proof fn lemma_guard_takes_odd(a: i32)
    requires
        odd(a as int),
    ensures
        match_guard_text(Some(a)) == "Some x is odd\n"@,
        match_guard_text(Some(a)) != "Some x is even\n"@,
{
    reveal_strlit("Some x is odd\n");
    reveal_strlit("Some x is even\n");
    assert("Some x is odd\n"@[10] == 'o');
    assert("Some x is even\n"@[10] == 'e');
}

/// What [`match_binding`] says of `triangle`.
pub open spec fn match_binding_text(triangle: Triangle) -> Seq<char> {
    if 5 <= triangle.base <= 10 {
        sides_text(triangle.base, triangle.height)
    } else {
        "no triangle found\n"@
    }
}

/// `@` binds a value to a name and tests it against a pattern in one step:
/// the base is bound only where it lies from 5 to 10.
pub fn match_binding(triangle: &Triangle) -> (line: String)
    ensures
        line@ == match_binding_text(*triangle),
{
    match *triangle {
        Triangle { base: b @ 5..=10, height: h } => sides_line(b, h),
        _ => String::from_str("no triangle found\n"),
    }
}

/// A base from 5 to 10 is bound and shown with the height; the arm that
/// takes whatever is left is not reached.
pub proof fn lemma_binding_in_range(triangle: Triangle)
    requires
        5 <= triangle.base <= 10,
    ensures
        match_binding_text(triangle) == sides_text(triangle.base, triangle.height),
        match_binding_text(triangle) != "no triangle found\n"@,
{
    reveal_strlit("base: ");
    reveal_strlit("no triangle found\n");
    let line = sides_text(triangle.base, triangle.height);
    assert(line[0] == 'b');
}

} // verus!
