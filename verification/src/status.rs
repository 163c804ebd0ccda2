//! The HTTP status codes that the operations tell apart.

use vstd::prelude::*;

verus! {

/// 200 OK.
pub const OK: u16 = 200;

/// 204 No Content.
pub const NO_CONTENT: u16 = 204;

/// 400 Bad Request.
pub const BAD_REQUEST: u16 = 400;

/// 404 Not Found.
pub const NOT_FOUND: u16 = 404;

} // verus!
