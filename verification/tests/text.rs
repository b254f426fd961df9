use white_list_permission::text::str_eq;

#[test]
fn equal_strings_are_equal() {
    assert!(str_eq("white_list_agent", "white_list_agent"));
    assert!(str_eq("02a1b2c3", &String::from("02a1b2c3")));
}

#[test]
fn empty_strings_are_equal() {
    assert!(str_eq("", ""));
    assert!(!str_eq("", "a"));
    assert!(!str_eq("a", ""));
}

#[test]
fn strings_of_different_length_differ() {
    assert!(!str_eq("white_list_agent", "white_list_agents"));
    assert!(!str_eq("white_list_agents", "white_list_agent"));
}

#[test]
fn strings_differing_in_one_character_differ() {
    assert!(!str_eq("white_list_agent", "white_list_agenT"));
    assert!(!str_eq("xhite_list_agent", "white_list_agent"));
    assert!(!str_eq("white_list-agent", "white_list_agent"));
}

#[test]
fn comparison_is_case_sensitive() {
    assert!(!str_eq("White_List_Agent", "white_list_agent"));
}

#[test]
fn characters_outside_ascii_are_compared_exactly() {
    assert!(str_eq("clé", "clé"));
    assert!(!str_eq("clé", "cle"));
    // A precomposed letter and the same letter built from a combining mark
    // look alike and are different character sequences.
    assert!(!str_eq("\u{e9}", "e\u{301}"));
    assert!(str_eq("鍵🔑", "鍵🔑"));
    assert!(!str_eq("鍵🔑", "鍵🔒"));
}

#[test]
fn agrees_with_the_standard_comparison() {
    let samples = ["", "a", "ab", "ba", "white_list_agent", "clé", "cle", "鍵"];
    for a in samples.iter() {
        for b in samples.iter() {
            assert_eq!(str_eq(a, b), a == b, "{:?} and {:?}", a, b);
        }
    }
}
