//! Users: their records and the requests that fetch them.
use vstd::prelude::*;
use crate::object::Image;
use crate::request::{Method, RequestDescriptor, api, plain, plain_request, plain_request_with};

verus! {

#[derive(Clone, Debug, Default)]
pub struct User {
    pub birthdate: Option<String>,
    pub country: Option<String>,
    pub email: Option<String>,
    pub display_name: Option<String>,
    pub href: String,
    pub id: String,
    pub images: Option<Vec<Image>>,
    pub product: Option<String>,
    pub object_type: String,
    pub uri: String,
}

/// The profile of the user the session belongs to.
pub fn current_user_request() -> (r: RequestDescriptor)
    ensures
        r@ == plain(Method::Get, api("me"@)),
{
    plain_request(Method::Get, "me")
}

pub fn user_request(id: &str) -> (r: RequestDescriptor)
    ensures
        r@ == plain(Method::Get, api("users/"@ + id@ + ""@)),
{
    plain_request_with(Method::Get, "users/", id, "")
}

} // verus!
