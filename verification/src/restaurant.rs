//! The restaurant's front and back of house, flattened into one module.

use vstd::prelude::*;

verus! {

/// What comes before the meal.
pub enum Appetizer {
    Soup,
    Salad,
}

/// A breakfast order. The customer picks the toast; the chef picks the
/// seasonal fruit, so that field stays private.
pub struct Breakfast {
    pub toast: String,
    seasonal_fruit: String,
}

impl Breakfast {
    /// The fruit the chef chose, as the contracts see it.
    pub closed spec fn fruit(&self) -> Seq<char> {
        self.seasonal_fruit@
    }

    /// The toast ordered, as the contracts see it.
    pub closed spec fn spec_toast(&self) -> Seq<char> {
        self.toast@
    }

    /// The summer breakfast: the requested toast with peaches.
    pub fn summer(toast: &str) -> (meal: Breakfast)
        ensures
            meal.spec_toast() == toast@,
            meal.fruit() == "peaches"@,
    {
        Breakfast { toast: toast.to_owned(), seasonal_fruit: "peaches".to_owned() }
    }

    /// A look at the fruit of the day.
    pub fn seasonal_fruit(&self) -> (fruit: &String)
        ensures
            fruit@ == self.fruit(),
    {
        &self.seasonal_fruit
    }
}

/// Puts the party on the waitlist.
pub fn add_to_waitlist() {
}

/// Seats the party at a table.
pub fn seat_at_table() {
}

/// Takes the order.
pub fn take_order() {
}

/// Serves the order.
pub fn serve_order() {
}

/// Takes the payment.
pub fn take_payment() {
}

} // verus!
