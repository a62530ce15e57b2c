use raytrace_gl::tasks::{fizz_buzz, fizz_buzz_word, is_available, is_palindrome, reverse_string, FizzBuzz, InventoryItem};

#[test]
fn reverse_string_reverses_characters() {
    assert_eq!(reverse_string("hello"), "olleh");
    assert_eq!(reverse_string(""), "");
    assert_eq!(reverse_string("a"), "a");
    assert_eq!(reverse_string("héllo wörld"), "dlröw olléh");
}

#[test]
fn reverse_string_twice_gives_word_back() {
    for word in ["", "abc", "racecar", "ümlaut ß", "12 34"] {
        assert_eq!(reverse_string(&reverse_string(word)), word);
    }
}

#[test]
fn is_palindrome_examples() {
    assert!(is_palindrome("racecar"));
    assert!(is_palindrome(""));
    assert!(is_palindrome("x"));
    assert!(is_palindrome("abba"));
    assert!(is_palindrome("äbä"));
    assert!(!is_palindrome("hello"));
    assert!(!is_palindrome("Racecar"));
    assert!(!is_palindrome("ab"));
}

fn inventory() -> Vec<InventoryItem> {
    vec![
        InventoryItem { name: "apple".to_string(), count: 3 },
        InventoryItem { name: "pear".to_string(), count: 0 },
        InventoryItem { name: "apple".to_string(), count: 9 },
    ]
}

#[test]
fn is_available_finds_first_match() {
    let inv = inventory();
    assert_eq!(is_available(&inv, "apple"), Some(0));
    assert_eq!(is_available(&inv, "pear"), Some(1));
    assert_eq!(inv[is_available(&inv, "pear").unwrap()].count, 0);
}

#[test]
fn is_available_missing_item() {
    let inv = inventory();
    assert_eq!(is_available(&inv, "plum"), None);
    assert_eq!(is_available(&inv, "Apple"), None);
    assert_eq!(is_available(&inv, "appl"), None);
    assert_eq!(is_available(&[], "apple"), None);
}

#[test]
fn fizz_buzz_words() {
    assert_eq!(fizz_buzz_word(1), FizzBuzz::Number(1));
    assert_eq!(fizz_buzz_word(3), FizzBuzz::Fizz);
    assert_eq!(fizz_buzz_word(5), FizzBuzz::Buzz);
    assert_eq!(fizz_buzz_word(15), FizzBuzz::FizzBuzz);
    assert_eq!(fizz_buzz_word(0), FizzBuzz::FizzBuzz);
    assert_eq!(fizz_buzz_word(98), FizzBuzz::Number(98));
}

#[test]
fn fizz_buzz_sequence() {
    let lines = fizz_buzz(15);
    assert_eq!(
        lines,
        vec![
            FizzBuzz::Number(1),
            FizzBuzz::Number(2),
            FizzBuzz::Fizz,
            FizzBuzz::Number(4),
            FizzBuzz::Buzz,
            FizzBuzz::Fizz,
            FizzBuzz::Number(7),
            FizzBuzz::Number(8),
            FizzBuzz::Fizz,
            FizzBuzz::Buzz,
            FizzBuzz::Number(11),
            FizzBuzz::Fizz,
            FizzBuzz::Number(13),
            FizzBuzz::Number(14),
            FizzBuzz::FizzBuzz,
        ]
    );
    assert!(fizz_buzz(0).is_empty());
}

#[test]
fn fizz_buzz_period_fifteen() {
    for i in 1u32..100 {
        match fizz_buzz_word(i) {
            FizzBuzz::Number(_) => assert!(matches!(fizz_buzz_word(i + 15), FizzBuzz::Number(_))),
            w => assert_eq!(fizz_buzz_word(i + 15), w),
        }
    }
}
