//! Status codes reported to the host.

use vstd::prelude::*;

verus! {

/// A diagnostic was asked for at an offset the engine could not resolve.
pub const TOTO_ERR_INVALID_OFFSET: i32 = -3;

/// A required argument was absent.
pub const TOTO_ERR_NULL: i32 = -2;

/// The source bytes are not UTF-8 text.
pub const TOTO_ERR_UTF8: i32 = -1;

/// The call succeeded.
pub const TOTO_NO_ERR: i32 = 0;

/// The token sequence is exhausted.
pub const TOTO_FINISHED: i32 = 1;

/// The engine reported a tokenize error.
pub const TOTO_ERR: i32 = 2;

} // verus!
