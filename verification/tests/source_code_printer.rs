use build_debugger_in_rust::source_code_printer::{list_line, to_decimal, Listed, LINE_RANGE};

fn shown(text: &str) -> Listed {
    Listed::Shown(text.to_string())
}

#[test]
fn the_range_is_five_lines() {
    assert_eq!(LINE_RANGE, 5);
}

#[test]
fn decimal_of_small_and_large_numbers() {
    assert_eq!(to_decimal(0), "0");
    assert_eq!(to_decimal(7), "7");
    assert_eq!(to_decimal(10), "10");
    assert_eq!(to_decimal(99), "99");
    assert_eq!(to_decimal(100), "100");
    assert_eq!(to_decimal(4_907_650), "4907650");
    assert_eq!(to_decimal(usize::MAX), usize::MAX.to_string());
}

#[test]
fn the_current_line_is_marked() {
    assert_eq!(list_line(7, "func main() {", 7), shown("-> 7: func main() {\n"));
}

#[test]
fn the_other_lines_are_indented_by_the_width_of_the_mark() {
    assert_eq!(list_line(6, "", 7), shown("   6: \n"));
    assert_eq!(list_line(8, "\tfmt.Println(1)", 7), shown("   8: \tfmt.Println(1)\n"));
    assert_eq!(list_line(12, "}", 7), shown("   12: }\n"));
}

#[test]
fn five_lines_before_and_five_after_are_shown() {
    let listed: Vec<Listed> = (1..=30).map(|number| list_line(number, "x", 20)).collect();
    for number in 1..=30usize {
        let expected = if number < 15 {
            Listed::Before
        } else if number > 25 {
            Listed::After
        } else if number == 20 {
            shown("-> 20: x\n")
        } else {
            shown(&format!("   {}: x\n", number))
        };
        assert_eq!(listed[number - 1], expected, "line {}", number);
    }
}

#[test]
fn near_the_top_the_listing_starts_at_line_one() {
    assert_eq!(list_line(1, "a", 3), shown("   1: a\n"));
    assert_eq!(list_line(1, "a", 1), shown("-> 1: a\n"));
    assert_eq!(list_line(1, "a", 6), shown("   1: a\n"));
    assert_eq!(list_line(1, "a", 7), Listed::Before);
    assert_eq!(list_line(6, "a", 1), shown("   6: a\n"));
    assert_eq!(list_line(7, "a", 1), Listed::After);
}

#[test]
fn there_is_no_line_zero() {
    assert_eq!(list_line(0, "a", 0), Listed::Before);
    assert_eq!(list_line(0, "a", 3), Listed::Before);
    assert_eq!(list_line(1, "a", 0), shown("   1: a\n"));
    assert_eq!(list_line(5, "a", 0), shown("   5: a\n"));
    assert_eq!(list_line(6, "a", 0), Listed::After);
}

#[test]
fn the_largest_line_numbers_do_not_overflow() {
    assert_eq!(list_line(usize::MAX, "z", usize::MAX), shown(&format!("-> {}: z\n", usize::MAX)));
    assert_eq!(list_line(usize::MAX - 6, "z", usize::MAX), Listed::Before);
    assert_eq!(list_line(1, "z", usize::MAX), Listed::Before);
    assert_eq!(list_line(usize::MAX, "z", 1), Listed::After);
}
