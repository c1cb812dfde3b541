use vstd::prelude::*;

verus! {

/// The broad class of a failure, as the HTTP surface reports it.
#[derive(Clone, Copy, Debug, PartialEq, Eq, Structural)]
pub enum ErrorKind {
    BadRequest,
    Unauthorized,
    Conflict,
    NotFound,
    Internal,
}

/// Every way an operation on redirect records can fail.
#[derive(Clone, Copy, Debug, PartialEq, Eq, Structural)]
pub enum ServiceError {
    /// A password is configured and none was supplied.
    MissingPassword,
    /// The supplied password differs from the configured one.
    WrongPassword,
    /// Listing is closed because no listing password is configured.
    ListingClosed,
    /// The identifier names a route of the service.
    ReservedId,
    /// The identifier holds the member separator.
    SeparatorInId,
    /// The identifier is already taken.
    IdInUse,
    /// No redirect is stored under the identifier.
    UnknownId,
    /// The redirect has no edit key stored beside it.
    NoEditKey,
    /// The supplied edit key differs from the stored one.
    WrongKey,
    /// The store holds no record set at all.
    NoRecords,
    /// A member of the record set does not split into three fields.
    MalformedMember,
    /// The store failed to answer a command.
    Store,
}

pub open spec fn kind_of(e: ServiceError) -> ErrorKind {
    match e {
        ServiceError::MissingPassword => ErrorKind::BadRequest,
        ServiceError::WrongPassword => ErrorKind::Unauthorized,
        ServiceError::ListingClosed => ErrorKind::Unauthorized,
        ServiceError::ReservedId => ErrorKind::BadRequest,
        ServiceError::SeparatorInId => ErrorKind::BadRequest,
        ServiceError::IdInUse => ErrorKind::Conflict,
        ServiceError::UnknownId => ErrorKind::NotFound,
        ServiceError::NoEditKey => ErrorKind::NotFound,
        ServiceError::WrongKey => ErrorKind::Unauthorized,
        ServiceError::NoRecords => ErrorKind::NotFound,
        ServiceError::MalformedMember => ErrorKind::Internal,
        ServiceError::Store => ErrorKind::Internal,
    }
}

pub open spec fn status_of(k: ErrorKind) -> u16 {
    match k {
        ErrorKind::BadRequest => 400,
        ErrorKind::Unauthorized => 401,
        ErrorKind::Conflict => 409,
        ErrorKind::NotFound => 404,
        ErrorKind::Internal => 500,
    }
}

impl ErrorKind {
    /// The HTTP status code that reports this kind of failure.
    pub fn status(&self) -> (r: u16)
        ensures
            r == status_of(*self),
    {
        match self {
            ErrorKind::BadRequest => 400,
            ErrorKind::Unauthorized => 401,
            ErrorKind::Conflict => 409,
            ErrorKind::NotFound => 404,
            ErrorKind::Internal => 500,
        }
    }
}

impl ServiceError {
    pub fn kind(&self) -> (r: ErrorKind)
        ensures
            r == kind_of(*self),
    {
        match self {
            ServiceError::MissingPassword => ErrorKind::BadRequest,
            ServiceError::WrongPassword => ErrorKind::Unauthorized,
            ServiceError::ListingClosed => ErrorKind::Unauthorized,
            ServiceError::ReservedId => ErrorKind::BadRequest,
            ServiceError::SeparatorInId => ErrorKind::BadRequest,
            ServiceError::IdInUse => ErrorKind::Conflict,
            ServiceError::UnknownId => ErrorKind::NotFound,
            ServiceError::NoEditKey => ErrorKind::NotFound,
            ServiceError::WrongKey => ErrorKind::Unauthorized,
            ServiceError::NoRecords => ErrorKind::NotFound,
            ServiceError::MalformedMember => ErrorKind::Internal,
            ServiceError::Store => ErrorKind::Internal,
        }
    }

    /// A human-readable message for the failure.
    pub fn message(&self) -> &'static str {
        match self {
            ServiceError::MissingPassword => "No password provided when one is required.",
            ServiceError::WrongPassword => "Password incorrect.",
            ServiceError::ListingClosed => "Listing is not enabled.",
            ServiceError::ReservedId => "Sorry, that short URL is reserved!",
            ServiceError::SeparatorInId => "\u{1F9D9} is reserved... sorry...",
            ServiceError::IdInUse => "Your proposed short URL is already in use",
            ServiceError::UnknownId => "Short URL not found",
            ServiceError::NoEditKey => "No key is associated with this short URL",
            ServiceError::WrongKey => "Invalid key provided.",
            ServiceError::NoRecords => "No redirects found.",
            ServiceError::MalformedMember => "A stored redirect could not be read.",
            ServiceError::Store => "Internal server error!",
        }
    }
}

} // verus!
