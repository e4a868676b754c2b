use vstd::prelude::*;

use crate::gql::Review;

verus! {

/// One event of the subscription to new reviews.
#[derive(Debug)]
pub struct CreateReviewSubscription {
    pub review_created: Option<Review>,
}

} // verus!
