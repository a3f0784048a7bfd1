use web_server::restaurant::back_of_house::fix_incorrect_order;
use web_server::restaurant::back_of_house::Breakfast;
use web_server::restaurant::eat_at_diner;
use web_server::restaurant::hosting::add_to_waitlist;
use web_server::restaurant::Appetizer;

#[test]
fn summer_breakfast_keeps_chosen_toast() {
    let mut meal = Breakfast::summer("Rye");
    assert_eq!(meal.toast, "Rye");
    meal.toast = String::from("Wheat");
    assert_eq!(meal.toast, "Wheat");
}

#[test]
fn appetizers_are_distinct() {
    assert_ne!(Appetizer::Soup, Appetizer::Salad);
    assert_eq!(Appetizer::Soup, Appetizer::Soup);
}

#[test]
fn front_and_back_of_house_run() {
    add_to_waitlist();
    eat_at_diner();
    fix_incorrect_order();
}
