//! The version query.

use vstd::prelude::*;

verus! {

/// The version that this package declares.
pub const APP_VERSION: &'static str = "0.1.0";

/// The text that the version query answers with.
pub open spec fn app_version() -> Seq<char> {
    APP_VERSION@
}

/// Any two answers of the version query are the same text.
pub proof fn lemma_version_is_fixed(first: Seq<char>, second: Seq<char>)
    requires
        first == app_version(),
        second == app_version(),
    ensures
        first == second,
        first == APP_VERSION@,
{
}

/// Returns the version that this package declares.
pub fn get_app_version() -> (r: String)
    ensures
        r@ == app_version(),
{
    String::from_str(APP_VERSION)
}

} // verus!
