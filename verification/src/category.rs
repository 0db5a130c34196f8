//! Pull categories (gacha types) and their fixed source-API codes.

use vstd::prelude::*;
use vstd::string::StringSliceAdditionalSpecFns;

verus! {

/// A distinct pull pool with its own pity state.
#[derive(Clone, Copy, Debug, PartialEq, Eq, Structural)]
pub enum GachaType {
    Beginner,
    Standard,
    Character,
    Weapon,
    Chronicled,
}

impl GachaType {
    /// The category selector the source API expects in `gacha_type=`.
    pub fn code(&self) -> (c: u16)
        ensures
            c == self.spec_code(),
    {
        match self {
            GachaType::Beginner => 100,
            GachaType::Standard => 200,
            GachaType::Character => 301,
            GachaType::Weapon => 302,
            GachaType::Chronicled => 500,
        }
    }

    pub open spec fn spec_code(&self) -> u16 {
        match self {
            GachaType::Beginner => 100,
            GachaType::Standard => 200,
            GachaType::Character => 301,
            GachaType::Weapon => 302,
            GachaType::Chronicled => 500,
        }
    }

    /// The category code as the decimal string a request URL carries.
    pub fn code_str(&self) -> (s: &'static str)
        ensures
            s.spec_bytes() == self.spec_code_str(),
    {
        match self {
            GachaType::Beginner => "100",
            GachaType::Standard => "200",
            GachaType::Character => "301",
            GachaType::Weapon => "302",
            GachaType::Chronicled => "500",
        }
    }

    pub open spec fn spec_code_str(&self) -> Seq<u8> {
        match self {
            GachaType::Beginner => "100".spec_bytes(),
            GachaType::Standard => "200".spec_bytes(),
            GachaType::Character => "301".spec_bytes(),
            GachaType::Weapon => "302".spec_bytes(),
            GachaType::Chronicled => "500".spec_bytes(),
        }
    }

    /// Whether the category runs the featured-banner win/loss/guarantee
    /// mechanic.
    pub fn has_featured_banner(&self) -> (b: bool)
        ensures
            b == self.spec_has_featured_banner(),
    {
        match self {
            GachaType::Character => true,
            GachaType::Weapon => true,
            _ => false,
        }
    }

    pub open spec fn spec_has_featured_banner(&self) -> bool {
        self is Character || self is Weapon
    }

    /// Every category, in the order the import pipeline visits them.
    pub fn all() -> (v: Vec<GachaType>)
        ensures
            v@ =~= Self::spec_all(),
    {
        let mut v: Vec<GachaType> = Vec::new();
        v.push(GachaType::Beginner);
        v.push(GachaType::Standard);
        v.push(GachaType::Character);
        v.push(GachaType::Weapon);
        v.push(GachaType::Chronicled);
        v
    }

    pub open spec fn spec_all() -> Seq<GachaType> {
        seq![
            GachaType::Beginner,
            GachaType::Standard,
            GachaType::Character,
            GachaType::Weapon,
            GachaType::Chronicled,
        ]
    }
}

} // verus!
