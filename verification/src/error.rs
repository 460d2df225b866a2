//! The two error kinds of the library.

use vstd::prelude::*;

verus! {

/// What can go wrong while fetching an inbox. `Transport` covers a failed
/// network call and a listing response of the wrong top-level shape; `Parse`
/// covers a message body whose fields do not conform to the expected schema,
/// an unparseable date included.
#[derive(Clone, Copy, Debug, PartialEq, Eq, Structural)]
pub enum MailError {
    Transport,
    Parse,
}

} // verus!
