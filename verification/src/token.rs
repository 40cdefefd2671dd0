//! Token metadata carried by the pool-listing API.

use vstd::prelude::*;
use vstd::string::StringExecFns;

verus! {

/// One epoch's transfer-fee schedule of a token.
#[derive(Clone, Copy, Debug, PartialEq, Eq, Structural)]
pub struct TransferFee {
    pub epoch: u64,
    pub maximum_fee: u64,
    pub transfer_fee_basis_points: u16,
}

/// A tag the token list attaches to a mint. Tags this crate does not know
/// are carried through verbatim.
#[derive(Clone, Debug)]
pub enum ApiV3TokenTag {
    HasFreeze,
    HasTransferFee,
    Token2022,
    Community,
    Unknown,
    UnrecognizedTag(String),
}

impl ApiV3TokenTag {
    /// The wire name of each known tag.
    pub open spec fn tag_string_spec(&self) -> Seq<char> {
        match self {
            ApiV3TokenTag::HasFreeze => "hasFreeze"@,
            ApiV3TokenTag::HasTransferFee => "hasTransferFee"@,
            ApiV3TokenTag::Token2022 => "token-2022"@,
            ApiV3TokenTag::Community => "community"@,
            ApiV3TokenTag::Unknown => "unknown"@,
            ApiV3TokenTag::UnrecognizedTag(x) => x@,
        }
    }

    /// The tag's wire name.
    pub fn tag_string(&self) -> (r: String)
        ensures
            r@ == self.tag_string_spec(),
    {
        match self {
            ApiV3TokenTag::HasFreeze => String::from_str("hasFreeze"),
            ApiV3TokenTag::HasTransferFee => String::from_str("hasTransferFee"),
            ApiV3TokenTag::Token2022 => String::from_str("token-2022"),
            ApiV3TokenTag::Community => String::from_str("community"),
            ApiV3TokenTag::Unknown => String::from_str("unknown"),
            ApiV3TokenTag::UnrecognizedTag(x) => x.clone(),
        }
    }

    /// The tag a wire name denotes; a name this crate does not know is
    /// carried through verbatim.
    pub fn from_tag_str(s: &String) -> (r: Self)
        ensures
            s@ == "hasFreeze"@ ==> r is HasFreeze,
            s@ == "hasTransferFee"@ ==> r is HasTransferFee,
            s@ == "token-2022"@ ==> r is Token2022,
            s@ == "community"@ ==> r is Community,
            s@ == "unknown"@ ==> r is Unknown,
            (s@ != "hasFreeze"@ && s@ != "hasTransferFee"@ && s@ != "token-2022"@ && s@
                != "community"@ && s@ != "unknown"@ ==> (r matches
                ApiV3TokenTag::UnrecognizedTag(x) && x@ == s@)),
            (r matches ApiV3TokenTag::UnrecognizedTag(x) ==> x@ == s@),
    {
        proof {
            broadcast use vstd::string::group_string_axioms;

            reveal_strlit("hasFreeze");
            reveal_strlit("hasTransferFee");
            reveal_strlit("token-2022");
            reveal_strlit("community");
            reveal_strlit("unknown");
            assert("hasFreeze"@.len() == 9);
            assert("hasTransferFee"@.len() == 14);
            assert("token-2022"@.len() == 10);
            assert("community"@.len() == 9);
            assert("unknown"@.len() == 7);
            assert("hasFreeze"@[0] != "community"@[0]);
        }
        if *s == String::from_str("hasFreeze") {
            ApiV3TokenTag::HasFreeze
        } else if *s == String::from_str("hasTransferFee") {
            ApiV3TokenTag::HasTransferFee
        } else if *s == String::from_str("token-2022") {
            ApiV3TokenTag::Token2022
        } else if *s == String::from_str("community") {
            ApiV3TokenTag::Community
        } else if *s == String::from_str("unknown") {
            ApiV3TokenTag::Unknown
        } else {
            ApiV3TokenTag::UnrecognizedTag(s.clone())
        }
    }
}

} // verus!
