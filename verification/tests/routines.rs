use patterns::{
    all_places_patterns_can_be_used, demonstration, pattern_syntax,
    refutability_whether_a_pattern_might_fail_to_match,
};

const ALL_PLACES: &str = "number: 5\n\
age <= 20\n\
c: e\n\
c: m\n\
c: a\n\
c: n\n\
i: 0 c: n\n\
i: 1 c: a\n\
i: 2 c: m\n\
i: 3 c: e\n\
x: a y: b z: c\n\
printing_stuff(a, b)\n";

const PATTERN_SYNTAX: &str = "'hello' found\n\
'hello' found\n\
a-d\n\
base: 5 height: 10\n\
5 10 trianglematching screen found 5 10\n\
4 5\n\
4 2\n\
both x and y and `Some`\n\
size is 10\n\
vals are 4 7\n\
Some x is odd\n\
base: 5 height: 10\n";

#[test]
fn all_places_shows_its_twelve_lines() {
    let out = all_places_patterns_can_be_used();
    assert_eq!(out, ALL_PLACES);
    assert_eq!(out.lines().count(), 12);
}

#[test]
fn refutability_shows_nothing() {
    assert_eq!(refutability_whether_a_pattern_might_fail_to_match(), "");
}

#[test]
fn pattern_syntax_shows_its_twelve_lines() {
    let out = pattern_syntax();
    assert_eq!(out, PATTERN_SYNTAX);
    assert_eq!(out.lines().count(), 12);
}

#[test]
fn pattern_syntax_leaves_the_line_of_the_triangle_open() {
    let out = pattern_syntax();
    assert!(out.contains("5 10 trianglematching screen found 5 10\n"));
}

#[test]
fn demonstration_runs_the_routines_in_order() {
    let out = demonstration();
    assert_eq!(out, format!("{}{}", ALL_PLACES, PATTERN_SYNTAX));
}

#[test]
fn demonstration_gives_the_same_text_each_time() {
    assert_eq!(demonstration(), demonstration());
}
