//! Where the node's PGP key pair is kept.
use vstd::prelude::*;

verus! {

/// The armored files of the PGP key pair: its public and private halves.
#[derive(Clone, Debug)]
pub struct PgpKey {
    pub public: String,
    pub private: String,
}

impl PgpKey {
    /// A key pair with both halves empty, to be filled in by the user.
    pub fn empty() -> (r: Self)
        ensures
            r.public@ == Seq::<char>::empty(),
            r.private@ == Seq::<char>::empty(),
    {
        PgpKey { public: String::new(), private: String::new() }
    }
}

} // verus!
