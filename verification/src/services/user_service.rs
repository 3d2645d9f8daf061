//! User registration.

use vstd::prelude::*;
use vstd::string::*;

use crate::dto::CreateUserRequest;
use crate::errors::ServiceError;
use crate::text::{trim, trimmed};

verus! {

/// The message of a display name that is blank once trimmed.
pub open spec fn blank_display_name_message() -> Seq<char> {
    "display name must be between 1 and 100 characters"@
}

/// The display name to register: the requested one, trimmed; a validation
/// error where nothing but white space is left.
pub fn create_user(req: &CreateUserRequest) -> (r: Result<String, ServiceError>)
    ensures
        r is Ok <==> trimmed(req.display_name@).len() > 0,
        r matches Ok(n) ==> n@ == trimmed(req.display_name@),
        r matches Err(e) ==> e matches ServiceError::Validation(m) && m@
            == blank_display_name_message(),
{
    let name = trim(req.display_name.as_str());
    if name.as_str().is_empty() {
        return Err(
            ServiceError::Validation(
                String::from_str("display name must be between 1 and 100 characters"),
            ),
        );
    }
    Ok(name)
}

} // verus!
