use vstd::prelude::*;

pub mod client;
pub mod listener;
pub mod mutations;
pub mod queries;
pub mod subscriptions;

verus! {

/// An identifier of the data API.
#[derive(Clone, Debug)]
pub struct Uuid(pub String);

impl Uuid {
    /// The identifier as text.
    pub fn to_string(&self) -> (r: String)
        ensures
            r@ == self.0@,
    {
        self.0.clone()
    }
}

/// A review as the data API delivers it.
#[derive(Debug)]
pub struct Review {
    pub id: Uuid,
    pub occurrence: Occurrence,
    pub display_name: Option<String>,
    pub stars: i32,
    pub text: Option<String>,
    pub created_at: Timestamp,
    pub images: Vec<Image>,
}

/// The serving of a dish that a review is about.
#[derive(Debug)]
pub struct Occurrence {
    pub id: Uuid,
    pub dish: Dish,
}

/// An image attached to a review.
#[derive(Debug)]
pub struct Image {
    pub id: Uuid,
}

#[derive(Debug)]
pub struct Dish {
    pub name_de: String,
}

/// A point in time, as the data API writes it.
#[derive(Clone, Debug)]
pub struct Timestamp(pub String);

} // verus!
