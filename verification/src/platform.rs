//! The closed set of supported external platforms, and platform-local
//! identifiers.

use vstd::prelude::*;

verus! {

/// An external system (messenger, social network, ...) this model can
/// represent identities from.
///
/// The set of platforms is closed: values are only the predefined variants,
/// and equality and hashing go by the variant alone. New platforms are added
/// by adding a variant; no other component needs to change.
#[derive(Clone, Copy, PartialEq, Eq, Structural, Hash, Debug)]
pub enum Platform {
    VK,
    TELEGRAM,
}

impl Platform {
    /// The platform's stable, unique display name.
    pub open spec fn spec_name(self) -> Seq<char> {
        match self {
            Platform::VK => "VK"@,
            Platform::TELEGRAM => "Telegram"@,
        }
    }

    /// Returns the platform's stable, unique display name.
    pub fn name(&self) -> (r: &'static str)
        ensures
            r@ == self.spec_name(),
    {
        match self {
            Platform::VK => "VK",
            Platform::TELEGRAM => "Telegram",
        }
    }
}

/// No two predefined platforms coincide: the two variants differ, and so do
/// their names.
pub proof fn lemma_platforms_distinct()
    ensures
        Platform::VK != Platform::TELEGRAM,
        Platform::VK.spec_name() != Platform::TELEGRAM.spec_name(),
{
    reveal_strlit("VK");
    reveal_strlit("Telegram");
    assert(Platform::VK.spec_name().len() == 2);
    assert(Platform::TELEGRAM.spec_name().len() == 8);
}

/// A platform-local identifier of any entity (user, chat or message), tagged
/// with the platform it came from.
///
/// The numeric value's meaning is platform-local: values from different
/// platforms are not comparable. Any value is accepted, since platform-side
/// id formats are out of this model's control.
#[derive(Clone, Copy, PartialEq, Eq, Structural, Debug)]
pub struct PlatformId {
    pub value: u128,
    pub platform: Platform,
}

impl PlatformId {
    /// Pairs a raw platform-assigned numeric value with its platform.
    pub fn new(value: u128, platform: Platform) -> (r: PlatformId)
        ensures
            r == (PlatformId { value, platform }),
    {
        PlatformId { value, platform }
    }
}

} // verus!
