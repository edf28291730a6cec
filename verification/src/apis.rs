//! The API's operations and their responses.

use vstd::prelude::*;

verus! {

/// The body of a successful `GET /hello`.
pub struct GetHello200Response {
    pub message: Option<String>,
}

/// The body of a successful `GET /testauth`.
pub struct GetTestauth200Response {
    pub login: Option<String>,
    pub sub: Option<String>,
}

/// The responses of `GET /hello`.
#[allow(non_camel_case_types)]
pub enum GetHelloResponse {
    /// A JSON object with a greeting message.
    Status200_AJSONObjectWithAGreetingMessage(GetHello200Response),
}

/// The responses of `GET /testauth`.
#[allow(non_camel_case_types)]
pub enum GetTestauthResponse {
    /// Successfully retrieved user information.
    Status200_SuccessfullyRetrievedUserInformation(GetTestauth200Response),
    /// Unauthorized, missing or invalid token.
    Status401_Unauthorized,
    /// Server error while retrieving user information.
    Status500_ServerErrorWhileRetrievingUserInformation,
}

/// The API's operations, as a server implements them.
pub trait Default {
    /// Returns a greeting (`GET /hello`).
    fn get_hello(&self) -> Result<GetHelloResponse, String>;

    /// Tells whether the caller is logged in (`GET /testauth`).
    fn get_testauth(&self) -> Result<GetTestauthResponse, String>;
}

} // verus!
