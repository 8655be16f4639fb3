use ym38x6::load_order::{is_preset_file, name_less, preset_load_order};

fn names(v: &[&str]) -> Vec<String> {
    v.iter().map(|s| s.to_string()).collect()
}

#[test]
fn preset_file_names() {
    assert!(is_preset_file("b1.38x6"));
    assert!(is_preset_file("a.38x6"));
    assert!(!is_preset_file(".38x6"));
    assert!(!is_preset_file("b1.38x6.bak"));
    assert!(!is_preset_file("b1.json"));
    assert!(!is_preset_file("38x6"));
}

#[test]
fn name_order_is_code_point_order() {
    assert!(name_less("a", "b"));
    assert!(name_less("b1", "b10"));
    assert!(name_less("B", "a"));
    assert!(!name_less("b10", "b1"));
    assert!(!name_less("x", "x"));
    assert!(name_less("", "a"));
}

#[test]
fn load_order_filters_and_sorts_by_name() {
    let n = names(&["z.38x6", "notes.txt", "b10.38x6", "b1.38x6", ".38x6", "a.38x6"]);
    assert_eq!(preset_load_order(&n), vec![5, 3, 2, 0]);
    assert_eq!(preset_load_order(&names(&[])), Vec::<usize>::new());
    assert_eq!(preset_load_order(&names(&["readme.md"])), Vec::<usize>::new());
}
