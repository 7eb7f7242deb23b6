use twelve_days::capitalize::capitalize;

#[test]
fn empty_line_stays_empty() {
    assert_eq!(capitalize(""), "");
}

#[test]
fn first_letter_is_uppercased() {
    assert_eq!(capitalize("hello"), "Hello");
}

#[test]
fn only_the_first_character_changes() {
    assert_eq!(capitalize("hello World aBc"), "Hello World aBc");
    assert_eq!(capitalize("Already"), "Already");
    assert_eq!(capitalize("1st place"), "1st place");
    assert_eq!(capitalize("x"), "X");
}

#[test]
fn capitalizing_twice_is_capitalizing_once() {
    for s in ["", "hello", "Hello", "éclair", "ßtraße", "ǆungla", " lead"] {
        let once = capitalize(s);
        assert_eq!(capitalize(&once), once);
    }
}

#[test]
fn expanding_uppercase_keeps_the_rest() {
    assert_eq!(capitalize("ßtraße"), "SStraße");
    assert_eq!(capitalize("ŉa"), "ʼNa");
    assert_eq!(capitalize("éclair"), "Éclair");
}
