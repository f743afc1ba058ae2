use vstd::prelude::*;

verus! {

/// The associated identity data of a key's owner. It is shown to people and
/// plays no part in what a signature proves.
#[derive(Debug, Clone, PartialEq)]
pub struct AssociatedData {
    /// The name (real name or pseudonym) of the keyowner
    pub name: Option<String>,
    /// The preferred pronouns of the keyowner
    pub pronouns: Option<String>,
    /// The email of the keyowner
    pub email: Option<String>,
    /// A comment left by the keyowner.
    pub comment: Option<String>,
}

} // verus!
