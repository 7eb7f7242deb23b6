use twelve_days::fib::fib;
use twelve_days::fruit::is_a_fruit;
use twelve_days::rectangle::Rectangle;
use twelve_days::strings::{
    calculate_length, gives_ownership, hack_a_string, substring, takes_and_gives_back,
};

#[test]
fn fibonacci_values() {
    let got: Vec<i32> = (0..15).map(fib).collect();
    assert_eq!(got, vec![1, 1, 2, 3, 5, 8, 13, 21, 34, 55, 89, 144, 233, 377, 610]);
    assert_eq!(fib(30), 1346269);
}

#[test]
fn known_fruits_are_recognised() {
    for f in ["apple", "banana", "cherry", "pineapple", "watermelon"] {
        assert!(is_a_fruit(f));
    }
}

#[test]
fn other_words_are_not_fruits() {
    for f in ["", "Apple", "apples", "pine", "melon", "kiwi"] {
        assert!(!is_a_fruit(f));
    }
}

#[test]
fn rectangle_area_and_square() {
    let r = Rectangle { width: 20, height: 30 };
    assert_eq!(r.area(), 600);
    let s = Rectangle::square(20);
    assert_eq!(s, Rectangle { width: 20, height: 20 });
    assert_eq!(s.area(), 400);
    assert_eq!(Rectangle::square(0).area(), 0);
}

#[test]
fn substring_by_bytes() {
    let s = String::from("hello world");
    assert_eq!(substring(&s, &0, &5), "hello");
    assert_eq!(substring(&s, &6, &11), "world");
    assert_eq!(substring(&s, &3, &3), "");
    let u = String::from("héllo");
    assert_eq!(substring(&u, &1, &3), "é");
}

#[test]
fn owned_strings_move_through() {
    assert_eq!(gives_ownership(), "hello");
    assert_eq!(takes_and_gives_back(String::from("moved")), "moved");
}

#[test]
fn length_counts_bytes() {
    assert_eq!(calculate_length(&String::from("hello")), 5);
    assert_eq!(calculate_length(&String::from("")), 0);
    assert_eq!(calculate_length(&String::from("é")), 2);
}

#[test]
fn hacking_appends() {
    let mut s = String::from("my string: ");
    hack_a_string(&mut s);
    assert_eq!(s, "my string: hehe, hacked");
}
