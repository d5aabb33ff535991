//! Demonstrations of the places a pattern can stand and of the forms it can
//! take. Each demonstration computes the text it has to show; nothing here
//! prints.

pub mod places;
pub mod syntax;
pub mod text;
pub mod transcript;

use vstd::prelude::*;
use vstd::string::StringExecFns;
use crate::places::{
    exhaustive_match, exhaustive_match_text, for_indexed, if_let_chain, if_let_chain_text,
    indexed, indexed_lines, indexed_text, let_triple, let_triple_text, popped_lines, popped_text,
    printing_stuff, printing_stuff_text, while_let_pop,
};
use crate::transcript::{
    all_places_transcript, lemma_all_places_transcript, lemma_pattern_syntax_transcript,
    pattern_syntax_transcript,
};
use crate::syntax::{
    destructure_pair, destructure_triangle, ignore_first, match_alternatives,
    match_alternatives_text, match_binding, match_binding_text, match_both, match_both_text,
    match_ends, match_ends_text, match_guard, match_guard_text, match_literal,
    match_literal_text, match_range, match_range_text, match_rest, match_rest_text,
    match_screen, match_screen_text, match_triangle, match_triangle_text, pair_text,
    sides_text, Screen, Triangle,
};

verus! {

/// The triangle that the demonstrations take apart.
pub open spec fn sample_triangle() -> Triangle {
    Triangle { base: 5, height: 10 }
}

/// The screen that the demonstrations take apart.
pub open spec fn sample_screen() -> Screen {
    Screen { size: 10, x: 0, y: 0, t: sample_triangle() }
}

/// The text of [`all_places_patterns_can_be_used`]: one demonstration after
/// the other, each on its sample value.
pub open spec fn all_places_text() -> Seq<char> {
    exhaustive_match_text(Some(5i32))
        + if_let_chain_text(Some(5i32), Ok(5isize))
        + popped_text("name"@.reverse())
        + indexed_text(indexed("name"@))
        + let_triple_text(('a', 'b', 'c'))
        + printing_stuff_text(('a', 'b'))
}

/// Shows a pattern in each place that takes one: `match`, `if let`,
/// `while let`, `for`, `let` and a parameter.
pub fn all_places_patterns_can_be_used() -> (out: String)
    ensures
        out@ == all_places_text(),
        out@ == all_places_transcript(),
{
    proof {
        lemma_all_places_transcript();
    }
    let my_val: Option<i32> = Some(5);
    let mut out = exhaustive_match(my_val);

    let age: Result<isize, String> = Ok(5);
    let line = if_let_chain(my_val, &age);
    out.append(line.as_str());

    let mut name = String::from_str("name");
    let popped = while_let_pop(&mut name);
    let lines = popped_lines(&popped);
    out.append(lines.as_str());

    let name = String::from_str("name");
    let pairs = for_indexed(name.as_str());
    let lines = indexed_lines(&pairs);
    out.append(lines.as_str());

    let line = let_triple(('a', 'b', 'c'));
    out.append(line.as_str());

    let stuff = ('a', 'b');
    let line = printing_stuff(&stuff);
    out.append(line.as_str());
    out
}

/// Whether a pattern can fail to match is settled before anything runs: `let`
/// and `for` take only patterns that match every value, `if let` and
/// `while let` take the others too. Nothing is left to show at run time, so
/// the text is empty.
pub fn refutability_whether_a_pattern_might_fail_to_match() -> (out: String)
    ensures
        out@ == Seq::<char>::empty(),
{
    String::new()
}

/// The text of [`pattern_syntax`]: one demonstration after the other, each
/// on its sample value.
pub open spec fn pattern_syntax_text() -> Seq<char> {
    match_literal_text("hello"@)
        + match_alternatives_text("hello"@)
        + match_range_text('c')
        + sides_text(5, 10)
        + match_triangle_text(sample_triangle())
        + match_screen_text(sample_screen())
        + pair_text(4, 5)
        + pair_text(4, 2)
        + match_both_text(Some(5i32), Some(7i32))
        + match_rest_text(sample_screen())
        + match_ends_text((4, 5, 6, 7))
        + match_guard_text(Some(5i32))
        + match_binding_text(sample_triangle())
}

/// Shows each form of pattern on a sample value.
pub fn pattern_syntax() -> (out: String)
    ensures
        out@ == pattern_syntax_text(),
        out@ == pattern_syntax_transcript(),
{
    proof {
        lemma_pattern_syntax_transcript();
    }
    let x = "hello";
    let mut out = match_literal(x);
    let line = match_alternatives(x);
    out.append(line.as_str());

    let y = 'c';
    let line = match_range(y);
    out.append(line.as_str());

    let triangle = Triangle { base: 5, height: 10 };
    let line = destructure_triangle(&triangle);
    out.append(line.as_str());
    let line = match_triangle(&triangle);
    out.append(line.as_str());

    let screen = Screen { size: 10, x: 0, y: 0, t: triangle };
    let line = match_screen(&screen);
    out.append(line.as_str());

    let line = destructure_pair((4, 5));
    out.append(line.as_str());
    let line = ignore_first(4, (3, 2));
    out.append(line.as_str());

    let x: Option<i32> = Some(5);
    let y: Option<i32> = Some(7);
    let line = match_both(x, y);
    out.append(line.as_str());

    let line = match_rest(&screen);
    out.append(line.as_str());

    let line = match_ends((4, 5, 6, 7));
    out.append(line.as_str());

    let x: Option<i32> = Some(5);
    let line = match_guard(x);
    out.append(line.as_str());

    let triangle = Triangle { base: 5, height: 10 };
    let line = match_binding(&triangle);
    out.append(line.as_str());
    out
}

/// The text of [`demonstration`]: that of the first routine, then that of
/// the third. The second, which stands between them, adds nothing.
pub open spec fn demonstration_text() -> Seq<char> {
    all_places_text() + pattern_syntax_text()
}

/// Runs the three routines in order and returns all that they have to show.
pub fn demonstration() -> (out: String)
    ensures
        out@ == demonstration_text(),
        out@ == all_places_transcript() + pattern_syntax_transcript(),
{
    let mut out = all_places_patterns_can_be_used();
    let part = refutability_whether_a_pattern_might_fail_to_match();
    out.append(part.as_str());
    assert(out@ =~= all_places_text());
    let part = pattern_syntax();
    out.append(part.as_str());
    out
}

} // verus!
