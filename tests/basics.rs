use web_server::basics::add_one;
use web_server::basics::get_first_word;
use web_server::basics::largest_char;
use web_server::basics::largest_i32;
use web_server::basics::plus_one;
use web_server::basics::return_1_if_odd;
use web_server::basics::value_in_cents;
use web_server::basics::view_doc;
use web_server::basics::Coin;
use web_server::basics::UsState;

#[test]
fn add_one_adds_one() {
    let arg = 5;
    assert_eq!(6, add_one(arg));
    assert_eq!(add_one(-1), 0);
    assert_eq!(add_one(i32::MAX - 1), i32::MAX);
}

#[test]
fn view_doc_is_always_true() {
    assert!(view_doc(0));
    assert!(view_doc(-7));
}

#[test]
fn odd_numbers_give_one() {
    assert_eq!(return_1_if_odd(9), 1);
    assert_eq!(return_1_if_odd(4), 0);
    assert_eq!(return_1_if_odd(0), 0);
    assert_eq!(return_1_if_odd(-3), 1);
}

#[test]
fn plus_one_keeps_none() {
    assert_eq!(plus_one(Some(5)), Some(6));
    assert_eq!(plus_one(None), None);
}

#[test]
fn coins_have_their_values() {
    assert_eq!(value_in_cents(&Coin::Penny), 1);
    assert_eq!(value_in_cents(&Coin::Nickel), 5);
    assert_eq!(value_in_cents(&Coin::Dime), 10);
    assert_eq!(value_in_cents(&Coin::Quarter(UsState::Alabama)), 25);
    assert_eq!(value_in_cents(&Coin::Quarter(UsState::Alaska)), 25);
}

#[test]
fn largest_of_lists() {
    assert_eq!(largest_i32(&[34, 50, 25, 100, 65]), 100);
    assert_eq!(largest_i32(&[24, 47, 35, 345, 365]), 365);
    assert_eq!(largest_i32(&[-4]), -4);
    assert_eq!(largest_char(&['a', 'e', 'i', 'o', 'u', 'y']), 'y');
}

#[test]
fn first_word_stops_at_space() {
    assert_eq!(get_first_word(&String::from("Hello, world!")), "Hello,");
    assert_eq!(get_first_word(&String::from("single")), "single");
    assert_eq!(get_first_word(&String::from("")), "");
    assert_eq!(get_first_word(&String::from(" lead")), "");
}
