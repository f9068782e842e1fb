//! Typed client model for a web annotation service: annotation and search
//! data types, validating builders, default-omitting encoders, and a
//! response classifier, all with verified contracts.
pub mod annotations;
pub mod builders;
pub mod decode;
pub mod encode;
pub mod errors;
pub mod json;
pub mod ops;
pub mod query;

use vstd::prelude::*;

verus! {

/// An account identifier of the form `acct:<username>@<authority>`,
/// kept as an opaque string; no pattern validation is performed.
#[derive(Debug, Clone, PartialEq)]
pub struct UserAccountID(pub String);

impl View for UserAccountID {
    type V = Seq<char>;

    open spec fn view(&self) -> Seq<char> {
        self.0@
    }
}

impl DeepView for UserAccountID {
    type V = Seq<char>;

    open spec fn deep_view(&self) -> Seq<char> {
        self.0@
    }
}

impl UserAccountID {
    pub fn new(s: &str) -> (r: UserAccountID)
        ensures
            r.0@ == s@,
    {
        UserAccountID(s.to_owned())
    }
}

} // verus!
