use crate::error::ServiceError;
use vstd::prelude::*;

verus! {

pub open spec fn opt_view(o: Option<String>) -> Option<Seq<char>> {
    match o {
        Some(s) => Some(s@),
        None => None,
    }
}

/// The verdict on a supplied password when `required` is the configured one.
pub open spec fn gate(required: Option<Seq<char>>, provided: Option<Seq<char>>) -> Result<
    (),
    ServiceError,
> {
    match required {
        None => Ok(()),
        Some(p) => match provided {
            None => Err(ServiceError::MissingPassword),
            Some(q) => if p == q {
                Ok(())
            } else {
                Err(ServiceError::WrongPassword)
            },
        },
    }
}

/// The verdict on a listing request: listing is closed unless a listing
/// password is configured, and then the supplied one must equal it.
pub open spec fn listing_gate(required: Option<Seq<char>>, provided: Seq<char>) -> Result<
    (),
    ServiceError,
> {
    match required {
        None => Err(ServiceError::ListingClosed),
        Some(p) => if p == provided {
            Ok(())
        } else {
            Err(ServiceError::WrongPassword)
        },
    }
}

/// Checks a supplied password against the configured one, if any.
pub fn authorize(required: &Option<String>, provided: &Option<String>) -> (r: Result<
    (),
    ServiceError,
>)
    ensures
        r == gate(opt_view(*required), opt_view(*provided)),
{
    match required {
        None => Ok(()),
        Some(p) => match provided {
            None => Err(ServiceError::MissingPassword),
            Some(q) => if *p == *q {
                Ok(())
            } else {
                Err(ServiceError::WrongPassword)
            },
        },
    }
}

/// Checks the password of a listing request.
pub fn authorize_listing(required: &Option<String>, provided: &str) -> (r: Result<
    (),
    ServiceError,
>)
    ensures
        r == listing_gate(opt_view(*required), provided@),
{
    match required {
        None => Err(ServiceError::ListingClosed),
        Some(p) => {
            let q = String::from_str(provided);
            if *p == q {
                Ok(())
            } else {
                Err(ServiceError::WrongPassword)
            }
        },
    }
}

} // verus!
