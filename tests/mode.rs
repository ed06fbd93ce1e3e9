use kirstine::mode::mode_index;

fn keys_of(data: &Vec<f64>) -> Vec<String> {
    data.iter().map(|n| n.to_string()).collect()
}

fn strings(words: &[&str]) -> Vec<String> {
    words.iter().map(|w| w.to_string()).collect()
}

#[test]
fn mode_of_dataset_with_one_repeated_value() {
    let data = vec![2.0, 5.0, 1.0, 3.0, 1.0];
    let i = mode_index(&keys_of(&data));
    assert_eq!(data[i], 1.0);
    assert_eq!(i, 2);
}

#[test]
fn single_entry_is_the_mode() {
    assert_eq!(mode_index(&strings(&["4.5"])), 0);
}

#[test]
fn mode_is_first_entry_of_largest_group() {
    assert_eq!(mode_index(&strings(&["x", "y", "y", "x", "y"])), 1);
}

#[test]
fn tie_returns_a_member_of_a_largest_group() {
    let keys = strings(&["a", "b", "b", "a", "c"]);
    let i = mode_index(&keys);
    assert!(i == 0 || i == 1);
}

#[test]
fn grouping_follows_textual_form() {
    let data = vec![0.0, -0.0, 0.1 + 0.2, -0.0, 0.3];
    let i = mode_index(&keys_of(&data));
    assert_eq!(i, 1);
    assert!(data[i] == 0.0 && data[i].is_sign_negative());
}

#[test]
fn all_distinct_keys_give_the_first() {
    assert_eq!(mode_index(&strings(&["3", "1", "2"])), 0);
}
