use fxr_binary_reader::select::{decrement_selected, get_class_name, increment_selected};

#[test]
fn selection_moves_down_and_stops_at_last_row() {
    let mut s: usize = 0;
    decrement_selected(3, &mut s);
    assert_eq!(s, 1);
    decrement_selected(3, &mut s);
    decrement_selected(3, &mut s);
    assert_eq!(s, 2);
    let mut far: usize = 10;
    decrement_selected(3, &mut far);
    assert_eq!(far, 2);
    let mut empty: usize = 4;
    decrement_selected(0, &mut empty);
    assert_eq!(empty, 4);
}

#[test]
fn selection_moves_up_and_stops_at_first_row() {
    let mut s: usize = 2;
    increment_selected(3, &mut s);
    assert_eq!(s, 1);
    increment_selected(3, &mut s);
    increment_selected(3, &mut s);
    assert_eq!(s, 0);
    let mut empty: usize = 4;
    increment_selected(0, &mut empty);
    assert_eq!(empty, 4);
}

#[test]
fn class_name_drops_the_module_path() {
    assert_eq!(get_class_name("fxr_binary_reader::header::Header"), "Header");
    assert_eq!(get_class_name("Header"), "Header");
    assert_eq!(get_class_name("a::b::C<d::E>"), "E>");
    assert_eq!(get_class_name("x::"), "");
    assert_eq!(get_class_name(""), "");
}
