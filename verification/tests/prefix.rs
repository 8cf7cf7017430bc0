use mpsc_channel::longest_common_prefix;

#[test]
fn shared_prefix_of_three() {
    assert_eq!(longest_common_prefix(vec!["flower", "flow", "flight"]), "fl");
}

#[test]
fn no_shared_prefix() {
    assert_eq!(longest_common_prefix(vec!["dog", "racecar", "car"]), "");
}

#[test]
fn single_string_is_its_own_prefix() {
    assert_eq!(longest_common_prefix(vec!["alone"]), "alone");
}

#[test]
fn identical_strings() {
    assert_eq!(longest_common_prefix(vec!["same", "same", "same"]), "same");
}

#[test]
fn empty_string_empties_the_prefix() {
    assert_eq!(longest_common_prefix(vec!["abc", "", "ab"]), "");
}

#[test]
fn shorter_string_caps_the_prefix() {
    assert_eq!(longest_common_prefix(vec!["abcd", "ab", "abc"]), "ab");
}
