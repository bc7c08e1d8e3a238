use dialkey::slots_choice::slots_file_choices;

fn names(v: &[&str]) -> Vec<String> {
    v.iter().map(|s| s.to_string()).collect()
}

#[test]
fn current_book_is_added_and_sorted() {
    let r = slots_file_choices(names(&["alpha.json", "Gamma.json"]), "beta.json");
    assert_eq!(r.choices, names(&["", "alpha.json", "beta.json", "Gamma.json"]));
    assert_eq!(r.selected, 2);
}

#[test]
fn listed_book_matches_ignoring_case() {
    let r = slots_file_choices(names(&["alpha.json", "Gamma.json"]), "GAMMA.json");
    assert_eq!(r.choices, names(&["", "alpha.json", "Gamma.json"]));
    assert_eq!(r.selected, 2);
}

#[test]
fn no_book_selects_example() {
    let r = slots_file_choices(names(&["b.json", "a.json"]), "");
    assert_eq!(r.choices, names(&["", "b.json", "a.json"]));
    assert_eq!(r.selected, 0);
}

#[test]
fn adding_sorts_the_whole_list() {
    let r = slots_file_choices(names(&["b", "a", "B"]), "ab");
    assert_eq!(r.choices, names(&["", "a", "ab", "b", "B"]));
    assert_eq!(r.selected, 2);
}
