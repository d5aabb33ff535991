//! The text of the routines, written out, and the proof that they show it.

use vstd::prelude::*;
use crate::places::{
    exhaustive_match_text, if_let_chain_text, indexed, indexed_line, indexed_text,
    let_triple_text, popped_text, printing_stuff_text,
};
use crate::syntax::{
    lemma_alternatives_agree, match_alternatives_text, match_binding_text, match_both_text,
    match_ends_text, match_guard_text, match_literal_text, match_range_text, match_rest_text,
    match_screen_text, match_triangle_text, pair_text, sides_text,
};
use crate::text::{decimal, digits};
use crate::{all_places_text, pattern_syntax_text, sample_screen, sample_triangle};

verus! {

/// What [`all_places_text`] comes to, written out.
pub open spec fn all_places_transcript() -> Seq<char> {
    "number: 5\nage <= 20\nc: e\nc: m\nc: a\nc: n\ni: 0 c: n\ni: 1 c: a\ni: 2 c: m\ni: 3 c: e\nx: a y: b z: c\nprinting_stuff(a, b)\n"@
}

proof fn lemma_popped_name()
    ensures
        popped_text("name"@.reverse()) == "c: e\nc: m\nc: a\nc: n\n"@,
{
    reveal_strlit("name");
    reveal_strlit("c: ");
    reveal_strlit("\n");
    reveal_strlit("c: e\nc: m\nc: a\nc: n\n");
    let popped = "name"@.reverse();
    let three = popped.drop_last();
    let two = three.drop_last();
    let one = two.drop_last();
    assert(popped_text(one.drop_last()) =~= Seq::<char>::empty());
    assert(popped_text(one) =~= seq!['c', ':', ' ', 'e', '\n']);
    assert(popped_text(two) =~= popped_text(one) + seq!['c', ':', ' ', 'm', '\n']);
    assert(popped_text(three) =~= popped_text(two) + seq!['c', ':', ' ', 'a', '\n']);
    assert(popped_text(popped) =~= popped_text(three) + seq!['c', ':', ' ', 'n', '\n']);
    assert(popped_text(popped) =~= "c: e\nc: m\nc: a\nc: n\n"@);
}

proof fn lemma_indexed_name()
    ensures
        indexed_text(indexed("name"@)) == "i: 0 c: n\ni: 1 c: a\ni: 2 c: m\ni: 3 c: e\n"@,
{
    reveal_strlit("name");
    reveal_strlit("i: ");
    reveal_strlit(" c: ");
    reveal_strlit("\n");
    reveal_strlit("i: 0 c: n\ni: 1 c: a\ni: 2 c: m\ni: 3 c: e\n");
    let pairs = indexed("name"@);
    let three = pairs.drop_last();
    let two = three.drop_last();
    let one = two.drop_last();
    assert(decimal(0) =~= seq!['0']);
    assert(decimal(1) =~= seq!['1']);
    assert(decimal(2) =~= seq!['2']);
    assert(decimal(3) =~= seq!['3']);
    assert(indexed_text(one.drop_last()) =~= Seq::<char>::empty());
    assert(indexed_line(0, 'n') =~= seq!['i', ':', ' ', '0', ' ', 'c', ':', ' ', 'n', '\n']);
    assert(indexed_line(1, 'a') =~= seq!['i', ':', ' ', '1', ' ', 'c', ':', ' ', 'a', '\n']);
    assert(indexed_line(2, 'm') =~= seq!['i', ':', ' ', '2', ' ', 'c', ':', ' ', 'm', '\n']);
    assert(indexed_line(3, 'e') =~= seq!['i', ':', ' ', '3', ' ', 'c', ':', ' ', 'e', '\n']);
    assert(indexed_text(one) =~= indexed_line(0, 'n'));
    assert(indexed_text(two) =~= indexed_text(one) + indexed_line(1, 'a'));
    assert(indexed_text(three) =~= indexed_text(two) + indexed_line(2, 'm'));
    assert(indexed_text(pairs) =~= indexed_text(three) + indexed_line(3, 'e'));
    assert(indexed_text(pairs) =~= "i: 0 c: n\ni: 1 c: a\ni: 2 c: m\ni: 3 c: e\n"@);
}

/// The routine shows the twelve lines of [`all_places_transcript`].
pub proof fn lemma_all_places_transcript()
    ensures
        all_places_text() == all_places_transcript(),
{
    lemma_popped_name();
    lemma_indexed_name();
    reveal_strlit("number: ");
    reveal_strlit("\n");
    reveal_strlit("age <= 20\n");
    reveal_strlit("x: ");
    reveal_strlit(" y: ");
    reveal_strlit(" z: ");
    reveal_strlit("printing_stuff(");
    reveal_strlit(", ");
    reveal_strlit(")\n");
    reveal_strlit("c: e\nc: m\nc: a\nc: n\n");
    reveal_strlit("i: 0 c: n\ni: 1 c: a\ni: 2 c: m\ni: 3 c: e\n");
    reveal_strlit(
        "number: 5\nage <= 20\nc: e\nc: m\nc: a\nc: n\ni: 0 c: n\ni: 1 c: a\ni: 2 c: m\ni: 3 c: e\nx: a y: b z: c\nprinting_stuff(a, b)\n",
    );
    assert(decimal(5) =~= seq!['5']);
    assert(all_places_text() =~= all_places_transcript());
}

/// What [`pattern_syntax_text`] comes to, written out. The line of the
/// triangle is not ended, so the line of the screen follows it at once.
pub open spec fn pattern_syntax_transcript() -> Seq<char> {
    "'hello' found\n'hello' found\na-d\nbase: 5 height: 10\n5 10 trianglematching screen found 5 10\n4 5\n4 2\nboth x and y and `Some`\nsize is 10\nvals are 4 7\nSome x is odd\nbase: 5 height: 10\n"@
}

proof fn lemma_sample_numbers()
    ensures
        decimal(2) == seq!['2'],
        decimal(4) == seq!['4'],
        decimal(5) == seq!['5'],
        decimal(7) == seq!['7'],
        decimal(10) == seq!['1', '0'],
{
    assert(decimal(2) =~= seq!['2']);
    assert(decimal(4) =~= seq!['4']);
    assert(decimal(5) =~= seq!['5']);
    assert(decimal(7) =~= seq!['7']);
    assert(digits(1) =~= seq!['1']);
    assert(decimal(10) =~= seq!['1', '0']);
}

proof fn lemma_sample_words()
    ensures
        match_literal_text("hello"@) + match_alternatives_text("hello"@) + match_range_text('c')
            == "'hello' found\n'hello' found\na-d\n"@,
{
    lemma_alternatives_agree("hello"@);
    reveal_strlit("'hello' found\n");
    reveal_strlit("a-d\n");
    reveal_strlit("'hello' found\n'hello' found\na-d\n");
    assert(match_literal_text("hello"@) + match_alternatives_text("hello"@) + match_range_text('c')
        =~= "'hello' found\n'hello' found\na-d\n"@);
}

proof fn lemma_sample_shapes()
    ensures
        sides_text(5, 10) + match_triangle_text(sample_triangle()) + match_screen_text(
            sample_screen(),
        ) == "base: 5 height: 10\n5 10 trianglematching screen found 5 10\n"@,
        match_binding_text(sample_triangle()) == "base: 5 height: 10\n"@,
        match_rest_text(sample_screen()) == "size is 10\n"@,
{
    lemma_sample_numbers();
    reveal_strlit("base: ");
    reveal_strlit(" height: ");
    reveal_strlit("\n");
    reveal_strlit(" ");
    reveal_strlit("5 10 triangle");
    reveal_strlit("matching screen found ");
    reveal_strlit("size is ");
    reveal_strlit("size is 10\n");
    reveal_strlit("base: 5 height: 10\n");
    reveal_strlit("base: 5 height: 10\n5 10 trianglematching screen found 5 10\n");
    assert(sides_text(5, 10) =~= "base: 5 height: 10\n"@);
    assert(match_rest_text(sample_screen()) =~= "size is 10\n"@);
    assert(sides_text(5, 10) + match_triangle_text(sample_triangle()) + match_screen_text(
        sample_screen(),
    ) =~= "base: 5 height: 10\n5 10 trianglematching screen found 5 10\n"@);
}

proof fn lemma_sample_tuples()
    ensures
        pair_text(4, 5) + pair_text(4, 2) + match_both_text(Some(5i32), Some(7i32))
            == "4 5\n4 2\nboth x and y and `Some`\n"@,
        match_ends_text((4, 5, 6, 7)) + match_guard_text(Some(5i32))
            == "vals are 4 7\nSome x is odd\n"@,
{
    lemma_sample_numbers();
    reveal_strlit(" ");
    reveal_strlit("\n");
    reveal_strlit("both x and y and `Some`\n");
    reveal_strlit("4 5\n4 2\nboth x and y and `Some`\n");
    reveal_strlit("vals are ");
    reveal_strlit("Some x is odd\n");
    reveal_strlit("vals are 4 7\nSome x is odd\n");
    assert(pair_text(4, 5) + pair_text(4, 2) + match_both_text(Some(5i32), Some(7i32))
        =~= "4 5\n4 2\nboth x and y and `Some`\n"@);
    assert(match_ends_text((4, 5, 6, 7)) + match_guard_text(Some(5i32))
        =~= "vals are 4 7\nSome x is odd\n"@);
}

/// The routine shows the twelve lines of [`pattern_syntax_transcript`].
pub proof fn lemma_pattern_syntax_transcript()
    ensures
        pattern_syntax_text() == pattern_syntax_transcript(),
{
    lemma_sample_words();
    lemma_sample_shapes();
    lemma_sample_tuples();
    reveal_strlit("'hello' found\n'hello' found\na-d\n");
    reveal_strlit("base: 5 height: 10\n5 10 trianglematching screen found 5 10\n");
    reveal_strlit("4 5\n4 2\nboth x and y and `Some`\n");
    reveal_strlit("size is 10\n");
    reveal_strlit("vals are 4 7\nSome x is odd\n");
    reveal_strlit("base: 5 height: 10\n");
    reveal_strlit(
        "'hello' found\n'hello' found\na-d\nbase: 5 height: 10\n5 10 trianglematching screen found 5 10\n4 5\n4 2\nboth x and y and `Some`\nsize is 10\nvals are 4 7\nSome x is odd\nbase: 5 height: 10\n",
    );
    let words = match_literal_text("hello"@) + match_alternatives_text("hello"@)
        + match_range_text('c');
    let shapes = sides_text(5, 10) + match_triangle_text(sample_triangle()) + match_screen_text(
        sample_screen(),
    );
    let tuples = pair_text(4, 5) + pair_text(4, 2) + match_both_text(Some(5i32), Some(7i32));
    let ends = match_ends_text((4, 5, 6, 7)) + match_guard_text(Some(5i32));
    assert(pattern_syntax_text() =~= words + shapes + tuples + match_rest_text(sample_screen())
        + ends + match_binding_text(sample_triangle()));
    assert(pattern_syntax_text() =~= pattern_syntax_transcript());
}

} // verus!
