use vstd::prelude::*;

use crate::gql::mutations::{DeleteReviewMutation, LoginMutation, UpdateReviewMutation};
use crate::gql::queries::RetrieveReviewsQuery;
use crate::gql::Review;

verus! {

/// The expiry (seconds since the Unix epoch) that a token's `exp` claim
/// holds, if the token decodes and has one.
pub uninterp spec fn jwt_expiry(token: Seq<char>) -> Option<u64>;

/// Relies on jsonwebtoken::dangerous::insecure_decode, which decodes a
/// token's claims without checking its signature; the result is its `exp`
/// claim, read as a `u64`.
#[verifier::external_body]
fn decode_expiry(token: &str) -> (r: Option<u64>)
    ensures
        r == jwt_expiry(token@),
{
    match jsonwebtoken::dangerous::insecure_decode::<serde_json::Value>(token) {
        Ok(data) => data.claims.get("exp").and_then(serde_json::Value::as_u64),
        Err(_) => None,
    }
}

/// Seconds from `now` until `expires_at`; none once it has passed.
pub open spec fn remaining(expires_at: u64, now: u64) -> nat {
    if expires_at > now {
        (expires_at - now) as nat
    } else {
        0
    }
}

/// The token that a credential hands out at `now`: its own while more than
/// `threshold` seconds of it remain, else none, and a login is due.
pub open spec fn served(token: Seq<char>, expires_at: u64, now: u64, threshold: u64) -> Option<
    Seq<char>,
> {
    if remaining(expires_at, now) > threshold {
        Some(token)
    } else {
        None
    }
}

/// Why no token could be had.
#[derive(Debug)]
pub enum AuthError {
    /// The login call failed.
    Login(ApiError),
    /// The token that the login returned has no readable expiry.
    UndecodableToken,
}

/// A bearer token and when it expires.
#[derive(Debug)]
pub struct Credential {
    pub token: String,
    /// Seconds since the Unix epoch.
    pub expires_at: u64,
}

impl Credential {
    /// No token: the first request logs in.
    pub fn new() -> (r: Credential)
        ensures
            r.token@.len() == 0,
            r.expires_at == 0,
    {
        Credential { token: String::new(), expires_at: 0 }
    }

    /// The cached token, while more than `threshold` seconds remain before it
    /// expires; `None` says that a login is due. Nothing is changed.
    pub fn cached(&self, now: u64, threshold: u64) -> (r: Option<String>)
        ensures
            r is Some <==> remaining(self.expires_at, now) > threshold,
            r matches Some(t) ==> served(self.token@, self.expires_at, now, threshold) == Some(
                t@,
            ),
            r is None ==> served(self.token@, self.expires_at, now, threshold) is None,
    {
        let left = self.expires_at.saturating_sub(now);
        if left > threshold {
            Some(self.token.clone())
        } else {
            None
        }
    }

    /// The credential for `token`, given the expiry read from it; an error,
    /// and no credential, when there is none.
    pub fn with_expiry(token: String, expiry: Option<u64>) -> (r: Result<Credential, AuthError>)
        ensures
            r is Ok <==> expiry is Some,
            r matches Ok(c) ==> c.token@ == token@ && expiry == Some(c.expires_at),
            r matches Err(e) ==> e is UndecodableToken,
    {
        match expiry {
            Some(expires_at) => Ok(Credential { token, expires_at }),
            None => Err(AuthError::UndecodableToken),
        }
    }

    /// The credential for a token that a login returned, expiring when its
    /// `exp` claim says; an error, and no credential, when it has none.
    pub fn from_login(token: String) -> (r: Result<Credential, AuthError>)
        ensures
            r is Ok <==> jwt_expiry(token@) is Some,
            r matches Ok(c) ==> c.token@ == token@ && jwt_expiry(token@) == Some(c.expires_at),
            r matches Err(e) ==> e is UndecodableToken,
    {
        let expiry = decode_expiry(token.as_str());
        Credential::with_expiry(token, expiry)
    }

    /// The credential that replaces a stale one once the login has answered:
    /// a failed login and a token without expiry are errors, and the caller
    /// then keeps the stale credential.
    pub fn after_login(login: Result<String, ApiError>) -> (r: Result<Credential, AuthError>)
        ensures
            login is Err ==> (r matches Err(AuthError::Login(e)) && login == Err::<
                String,
                ApiError,
            >(e)),
            login matches Ok(t) ==> (r is Ok <==> jwt_expiry(t@) is Some),
            login matches Ok(t) ==> (r matches Ok(c) ==> c.token@ == t@ && jwt_expiry(t@) == Some(
                c.expires_at,
            )),
    {
        match login {
            Ok(token) => Credential::from_login(token),
            Err(e) => Err(AuthError::Login(e)),
        }
    }
}

/// A token just obtained by a login is handed out, without a further login,
/// for as long as more than the threshold remains of it.
pub proof fn lemma_fresh_token_served(token: Seq<char>, now: u64, threshold: u64)
    requires
        jwt_expiry(token) is Some,
        remaining(jwt_expiry(token)->Some_0, now) > threshold,
    ensures
        served(token, jwt_expiry(token)->Some_0, now, threshold) == Some(token),
{
}

/// The data API's operations.
#[derive(Clone, Copy, Debug, PartialEq, Eq, Structural)]
pub enum Operation {
    Login,
    ListUnapproved,
    SetApproved,
    DeleteReview,
}

/// A failed call to the data API.
#[derive(Debug)]
pub enum ApiError {
    /// The answer carried errors.
    Rejected { operation: Operation, details: Vec<String> },
    /// The answer carried neither errors nor data.
    NoData { operation: Operation },
    /// The server answered that it did not delete the review.
    DeletionRefused { review_id: String },
}

/// The token in the answer to a login.
pub fn login_outcome(errors: Vec<String>, data: Option<LoginMutation>) -> (r: Result<String, ApiError>)
    ensures
        errors@.len() > 0 ==> (r matches Err(ApiError::Rejected { operation, details })
            && operation == Operation::Login && details@ == errors@),
        errors@.len() == 0 && data is None ==> (r matches Err(ApiError::NoData { operation })
            && operation == Operation::Login),
        errors@.len() == 0 && data is Some ==> (r matches Ok(t) && t@
            == data->Some_0.login_user@),
{
    if errors.len() > 0 {
        return Err(ApiError::Rejected { operation: Operation::Login, details: errors });
    }
    match data {
        Some(d) => Ok(d.login_user),
        None => Err(ApiError::NoData { operation: Operation::Login }),
    }
}

/// The reviews in the answer to a query for unapproved reviews.
pub fn reviews_outcome(errors: Vec<String>, data: Option<RetrieveReviewsQuery>) -> (r: Result<
    Vec<Review>,
    ApiError,
>)
    ensures
        errors@.len() > 0 ==> (r matches Err(ApiError::Rejected { operation, details })
            && operation == Operation::ListUnapproved && details@ == errors@),
        errors@.len() == 0 && data is None ==> (r matches Err(ApiError::NoData { operation })
            && operation == Operation::ListUnapproved),
        errors@.len() == 0 && data is Some ==> (r matches Ok(v) && v@ == data->Some_0.reviews@),
{
    if errors.len() > 0 {
        return Err(ApiError::Rejected { operation: Operation::ListUnapproved, details: errors });
    }
    match data {
        Some(d) => Ok(d.reviews),
        None => Err(ApiError::NoData { operation: Operation::ListUnapproved }),
    }
}

/// Whether an approval change went through: it did unless the answer
/// carried errors.
pub fn update_outcome(errors: Vec<String>, data: Option<UpdateReviewMutation>) -> (r: Result<
    (),
    ApiError,
>)
    ensures
        errors@.len() > 0 ==> (r matches Err(ApiError::Rejected { operation, details })
            && operation == Operation::SetApproved && details@ == errors@),
        errors@.len() == 0 ==> r is Ok,
{
    if errors.len() > 0 {
        return Err(ApiError::Rejected { operation: Operation::SetApproved, details: errors });
    }
    Ok(())
}

/// Whether a deletion went through: the answer must carry no errors, and
/// data that says the review was deleted.
pub fn delete_outcome(review_id: String, errors: Vec<String>, data: Option<DeleteReviewMutation>) -> (r:
    Result<(), ApiError>)
    ensures
        errors@.len() > 0 ==> (r matches Err(ApiError::Rejected { operation, details })
            && operation == Operation::DeleteReview && details@ == errors@),
        errors@.len() == 0 && data is None ==> (r matches Err(ApiError::NoData { operation })
            && operation == Operation::DeleteReview),
        errors@.len() == 0 && data is Some && !data->Some_0.delete_review ==> (r matches Err(
            ApiError::DeletionRefused { review_id: id },
        ) && id@ == review_id@),
        r is Ok <==> errors@.len() == 0 && data is Some && data->Some_0.delete_review,
{
    if errors.len() > 0 {
        return Err(ApiError::Rejected { operation: Operation::DeleteReview, details: errors });
    }
    match data {
        None => Err(ApiError::NoData { operation: Operation::DeleteReview }),
        Some(d) => {
            if d.delete_review {
                Ok(())
            } else {
                Err(ApiError::DeletionRefused { review_id })
            }
        },
    }
}

} // verus!
