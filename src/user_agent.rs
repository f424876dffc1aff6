//! The user agent the client sends.
use vstd::prelude::*;

use crate::constants::{NAME, VERSION};

verus! {

/// `<program>/<version>`.
pub open spec fn user_agent_spec() -> Seq<char> {
    NAME@ + "/"@ + VERSION@
}

/// The user agent sent with every request: `<program>/<version>`.
pub fn user_agent() -> (r: String)
    ensures
        r@ == user_agent_spec(),
{
    let mut s = String::from_str(NAME);
    s.append("/");
    s.append(VERSION);
    s
}

} // verus!
