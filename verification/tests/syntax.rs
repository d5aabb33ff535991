use patterns::syntax::{
    destructure_pair, destructure_triangle, ignore_first, match_alternatives, match_binding,
    match_both, match_ends, match_guard, match_literal, match_range, match_rest, match_screen,
    match_triangle, Screen, Triangle,
};

fn triangle(base: isize, height: isize) -> Triangle {
    Triangle { base, height }
}

fn screen(size: isize, x: isize, y: isize) -> Screen {
    Screen { size, x, y, t: triangle(5, 10) }
}

#[test]
fn match_literal_knows_three_words() {
    assert_eq!(match_literal("hello"), "'hello' found\n");
    assert_eq!(match_literal("world"), "'world' found\n");
    assert_eq!(match_literal("rust"), "'rust' found\n");
}

#[test]
fn match_literal_on_other_words() {
    assert_eq!(match_literal(""), "unknown value found\n");
    assert_eq!(match_literal("Hello"), "unknown value found\n");
    assert_eq!(match_literal("hello "), "unknown value found\n");
    assert_eq!(match_literal("hell"), "unknown value found\n");
}

#[test]
fn match_alternatives_quotes_the_word() {
    assert_eq!(match_alternatives("hello"), "'hello' found\n");
    assert_eq!(match_alternatives("world"), "'world' found\n");
    assert_eq!(match_alternatives("rust"), "'rust' found\n");
    assert_eq!(match_alternatives("rusty"), "unknown value found\n");
    assert_eq!(match_alternatives(""), "unknown value found\n");
}

#[test]
fn match_alternatives_agrees_with_match_literal() {
    for word in ["hello", "world", "rust", "", "helloworld", "r", "RUST"] {
        assert_eq!(match_alternatives(word), match_literal(word));
    }
}

#[test]
fn match_range_includes_both_ends() {
    assert_eq!(match_range('a'), "a-d\n");
    assert_eq!(match_range('c'), "a-d\n");
    assert_eq!(match_range('d'), "a-d\n");
    assert_eq!(match_range('e'), "e-h\n");
    assert_eq!(match_range('h'), "e-h\n");
}

#[test]
fn match_range_outside_the_ranges() {
    assert_eq!(match_range('`'), "unknown\n");
    assert_eq!(match_range('i'), "unknown\n");
    assert_eq!(match_range('A'), "unknown\n");
    assert_eq!(match_range('\u{e9}'), "unknown\n");
}

#[test]
fn destructure_triangle_names_both_fields() {
    assert_eq!(destructure_triangle(&triangle(5, 10)), "base: 5 height: 10\n");
    assert_eq!(destructure_triangle(&triangle(-1, 0)), "base: -1 height: 0\n");
}

#[test]
fn match_triangle_takes_the_arm_for_five_and_ten() {
    assert_eq!(match_triangle(&triangle(5, 10)), "5 10 triangle");
}

#[test]
fn match_triangle_arm_by_arm() {
    assert_eq!(match_triangle(&triangle(12, 15)), "12 15 triangle\n");
    assert_eq!(match_triangle(&triangle(8, 10)), "8 10 triangle");
    assert_eq!(match_triangle(&triangle(8, -2)), "8 -2 triangle");
    assert_eq!(match_triangle(&triangle(8, 15)), "8 15 triangle");
}

#[test]
fn match_triangle_needs_both_fields_of_an_arm() {
    assert_eq!(match_triangle(&triangle(5, 15)), "other triangle\n");
    assert_eq!(match_triangle(&triangle(12, 10)), "other triangle\n");
    assert_eq!(match_triangle(&triangle(10, 5)), "other triangle\n");
    assert_eq!(match_triangle(&triangle(0, 0)), "other triangle\n");
}

#[test]
fn match_screen_binds_the_inner_fields() {
    assert_eq!(match_screen(&screen(10, 0, 0)), "matching screen found 5 10\n");
    let other = Screen { size: 10, x: 0, y: 0, t: triangle(-7, 123) };
    assert_eq!(match_screen(&other), "matching screen found -7 123\n");
}

#[test]
fn match_screen_needs_every_outer_field() {
    assert_eq!(match_screen(&screen(11, 0, 0)), "no matching screen found\n");
    assert_eq!(match_screen(&screen(10, 1, 0)), "no matching screen found\n");
    assert_eq!(match_screen(&screen(10, 0, -1)), "no matching screen found\n");
}

#[test]
fn destructure_pair_names_both_numbers() {
    assert_eq!(destructure_pair((4, 5)), "4 5\n");
    assert_eq!(destructure_pair((-4, 50)), "-4 50\n");
}

#[test]
fn ignore_first_keeps_the_second_number() {
    assert_eq!(ignore_first(4, (3, 2)), "4 2\n");
    assert_eq!(ignore_first(4, (99, 2)), "4 2\n");
}

#[test]
fn match_both_needs_both_values() {
    assert_eq!(match_both(Some(5), Some(7)), "both x and y and `Some`\n");
    assert_eq!(match_both(Some(5), None), "either x or y is `None`\n");
    assert_eq!(match_both(None, Some(7)), "either x or y is `None`\n");
    assert_eq!(match_both(None, None), "either x or y is `None`\n");
}

#[test]
fn match_rest_reads_the_size_alone() {
    assert_eq!(match_rest(&screen(10, 0, 0)), "size is 10\n");
    assert_eq!(match_rest(&screen(-3, 8, 9)), "size is -3\n");
}

#[test]
fn match_ends_takes_the_first_and_the_last() {
    assert_eq!(match_ends((4, 5, 6, 7)), "vals are 4 7\n");
    assert_eq!(match_ends((1, 0, 0, -1)), "vals are 1 -1\n");
}

#[test]
fn match_guard_on_an_odd_five() {
    assert_eq!(match_guard(Some(5)), "Some x is odd\n");
}

#[test]
fn match_guard_falls_through_on_even_numbers() {
    assert_eq!(match_guard(Some(4)), "Some x is even\n");
    assert_eq!(match_guard(Some(0)), "Some x is even\n");
    assert_eq!(match_guard(Some(-2)), "Some x is even\n");
    assert_eq!(match_guard(Some(i32::MIN)), "Some x is even\n");
}

#[test]
fn match_guard_on_other_odd_numbers() {
    assert_eq!(match_guard(Some(1)), "Some x is odd\n");
    assert_eq!(match_guard(Some(-3)), "Some x is odd\n");
    assert_eq!(match_guard(Some(i32::MAX)), "Some x is odd\n");
}

#[test]
fn match_guard_on_an_absent_value() {
    assert_eq!(match_guard(None), "None\n");
}

#[test]
fn match_binding_on_a_base_of_seven() {
    assert_eq!(match_binding(&triangle(7, 3)), "base: 7 height: 3\n");
}

#[test]
fn match_binding_includes_both_ends_of_the_range() {
    assert_eq!(match_binding(&triangle(5, 10)), "base: 5 height: 10\n");
    assert_eq!(match_binding(&triangle(10, -1)), "base: 10 height: -1\n");
}

#[test]
fn match_binding_outside_the_range() {
    assert_eq!(match_binding(&triangle(4, 10)), "no triangle found\n");
    assert_eq!(match_binding(&triangle(11, 10)), "no triangle found\n");
    assert_eq!(match_binding(&triangle(-7, 10)), "no triangle found\n");
}

#[test]
fn shapes_compare_by_their_fields() {
    assert_eq!(triangle(5, 10), triangle(5, 10));
    assert_ne!(triangle(5, 10), triangle(10, 5));
    assert_eq!(screen(10, 0, 0), screen(10, 0, 0));
    assert_ne!(screen(10, 0, 0), screen(10, 0, 1));
}
