use vstd::prelude::*;

use crate::gql::Review;

verus! {

#[derive(Debug)]
pub struct RetrieveReviewsQueryVariables {
    pub approved: bool,
}

/// The answer to a query for reviews.
#[derive(Debug)]
pub struct RetrieveReviewsQuery {
    pub reviews: Vec<Review>,
}

} // verus!
