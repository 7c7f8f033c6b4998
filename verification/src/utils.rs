//! Small helpers of the command-line client: building API URLs and
//! classifying HTTP replies.

use vstd::prelude::*;

use crate::errors::TodoError;

verus! {

/// Build the URL of an API resource: `http://<api_url>/api/<resource>`.
pub fn make_api_url(api_url: &str, resource: &str) -> (r: String)
    ensures
        r@ == "http://"@ + api_url@ + "/api/"@ + resource@,
{
    String::from_str("http://").concat(api_url).concat("/api/").concat(resource)
}

/// Classify an HTTP reply by its status code: 200 hands the body through, 401
/// and 403 mean the client must log in first, 404 means the resource is gone,
/// and anything else is an invalid reply.
pub fn handle_response(status: u16, body: String) -> (r: Result<String, TodoError>)
    ensures
        status == 200 ==> r == Ok::<String, TodoError>(body),
        (status == 401 || status == 403) ==> (r matches Err(TodoError::HttpErrror(m)) && m@
            == "Invalid Response for Signup, UNAUTHORIZED or FORBIDDEN"@),
        status == 404 ==> (r matches Err(TodoError::HttpErrror(m)) && m@ == "Resource Not Found"@),
        !(status == 200 || status == 401 || status == 403 || status == 404) ==> (r matches Err(
            TodoError::HttpErrror(m),
        ) && m@ == "Invalid Response for Signup"@),
{
    if status == 200 {
        Ok(body)
    } else if status == 401 || status == 403 {
        Err(
            TodoError::HttpErrror(
                String::from_str("Invalid Response for Signup, UNAUTHORIZED or FORBIDDEN"),
            ),
        )
    } else if status == 404 {
        Err(TodoError::HttpErrror(String::from_str("Resource Not Found")))
    } else {
        Err(TodoError::HttpErrror(String::from_str("Invalid Response for Signup")))
    }
}

} // verus!
