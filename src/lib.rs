//! Bearer-token authentication: issuing signed, time-limited credentials,
//! verifying them, and the request gate that admits or rejects a request
//! by its `authorization` header. A small in-memory project registry sits
//! beside it as the collaborator behind the protected routes.

pub mod claims;
pub mod jwt;
pub mod key;
pub mod token;
pub mod gate;
pub mod workspace;
