use vstd::prelude::*;

use crate::gql::Uuid;

verus! {

#[derive(Debug)]
pub struct UpdateReviewMutationVariables {
    pub approved: bool,
    pub id: Uuid,
}

#[derive(Debug)]
pub struct LoginMutationVariables {
    pub email: String,
    pub password: String,
}

#[derive(Debug)]
pub struct DeleteReviewMutationVariables {
    pub id: Uuid,
}

/// The answer to an approval change: the review that changed.
#[derive(Debug)]
pub struct UpdateReviewMutation {
    pub update_review: Review,
}

#[derive(Debug)]
pub struct Review {
    pub id: Uuid,
}

/// The answer to a login: the token.
#[derive(Debug)]
pub struct LoginMutation {
    pub login_user: String,
}

/// The answer to a deletion: whether the server deleted the review.
#[derive(Debug)]
pub struct DeleteReviewMutation {
    pub delete_review: bool,
}

} // verus!
