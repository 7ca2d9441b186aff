//! The schema version that a settings document is stamped with.

use crate::decimal::{decimal, push_decimal};
use core::cmp::Ordering;
use vstd::prelude::*;
use vstd::string::StringExecFns;

verus! {

/// The generations of the settings schema, oldest first.
///
/// A stored document names its generation by a bare number, so that every
/// reader can tell how to take the rest of the document.
#[derive(Debug, Clone, Copy, PartialEq, Eq, Structural)]
pub enum SettingsVersion {
    V2,
    V3,
    V4,
    V5,
    V6,
}

/// The version that this code reads and writes: the latest one there is.
pub const CURRENT_SETTINGS_VERSION: SettingsVersion = SettingsVersion::V6;

/// A number that was found where a schema version was expected and that names
/// no known version.
#[derive(Debug, Clone, Copy, PartialEq, Eq, Structural)]
pub struct InvalidSettingsVersion {
    /// The number that was found.
    pub value: u32,
}

impl InvalidSettingsVersion {
    /// The text of the message: the offending number, then what is wrong with it.
    pub open spec fn message_text(self) -> Seq<char> {
        decimal(self.value as nat) + " is not a valid SettingsVersion"@
    }

    /// A message for the reader of a log or a failed load, naming the number.
    pub fn message(&self) -> (text: String)
        ensures
            text@ == self.message_text(),
    {
        let mut text = String::new();
        push_decimal(&mut text, self.value);
        text.append(" is not a valid SettingsVersion");
        assert(text@ =~= self.message_text());
        text
    }
}

impl SettingsVersion {
    /// The number that stands for this version in a stored document.
    pub open spec fn ordinal(self) -> nat {
        match self {
            SettingsVersion::V2 => 2,
            SettingsVersion::V3 => 3,
            SettingsVersion::V4 => 4,
            SettingsVersion::V5 => 5,
            SettingsVersion::V6 => 6,
        }
    }

    /// The version that the number `raw` stands for, if it stands for one:
    /// the version whose number it is.
    pub open spec fn of_ordinal(raw: nat) -> Option<SettingsVersion> {
        if exists|version: SettingsVersion| version.ordinal() == raw {
            Some(choose|version: SettingsVersion| version.ordinal() == raw)
        } else {
            None
        }
    }

    /// The numbers of the versions are 2 to 6, no two versions share one, and
    /// each number stands for the version that has it.
    pub proof fn lemma_of_ordinal(raw: nat)
        ensures
            2 <= raw <= 6 <==> Self::of_ordinal(raw) is Some,
            Self::of_ordinal(raw) matches Some(version) ==> version.ordinal() == raw,
            raw == 2 ==> Self::of_ordinal(raw) == Some(SettingsVersion::V2),
            raw == 3 ==> Self::of_ordinal(raw) == Some(SettingsVersion::V3),
            raw == 4 ==> Self::of_ordinal(raw) == Some(SettingsVersion::V4),
            raw == 5 ==> Self::of_ordinal(raw) == Some(SettingsVersion::V5),
            raw == 6 ==> Self::of_ordinal(raw) == Some(SettingsVersion::V6),
    {
        assert(SettingsVersion::V2.ordinal() == 2);
        assert(SettingsVersion::V3.ordinal() == 3);
        assert(SettingsVersion::V4.ordinal() == 4);
        assert(SettingsVersion::V5.ordinal() == 5);
        assert(SettingsVersion::V6.ordinal() == 6);
        assert forall|version: SettingsVersion| 2 <= #[trigger] version.ordinal() <= 6 by {}
    }

    /// What reading the number `raw` as a version gives: the version it stands
    /// for, or the number back in an error.
    pub open spec fn decoded(raw: u32) -> Result<SettingsVersion, InvalidSettingsVersion> {
        match Self::of_ordinal(raw as nat) {
            Some(version) => Ok(version),
            None => Err(InvalidSettingsVersion { value: raw }),
        }
    }

    /// Reads a version from the number found in a stored document. Only the
    /// numbers of the known versions are taken; any other comes back in the
    /// error, never replaced by a version that might seem near.
    pub fn decode(raw: u32) -> (result: Result<SettingsVersion, InvalidSettingsVersion>)
        ensures
            result == Self::decoded(raw),
            result is Ok <==> 2 <= raw <= 6,
            result matches Ok(version) ==> version.ordinal() == raw,
            result matches Err(error) ==> error.value == raw,
    {
        proof {
            Self::lemma_of_ordinal(raw as nat);
        }
        if raw == 2 {
            Ok(SettingsVersion::V2)
        } else if raw == 3 {
            Ok(SettingsVersion::V3)
        } else if raw == 4 {
            Ok(SettingsVersion::V4)
        } else if raw == 5 {
            Ok(SettingsVersion::V5)
        } else if raw == 6 {
            Ok(SettingsVersion::V6)
        } else {
            Err(InvalidSettingsVersion { value: raw })
        }
    }

    /// The number under which this version is stored.
    pub fn encode(self) -> (raw: u32)
        ensures
            raw == self.ordinal(),
            Self::decoded(raw) == Ok::<SettingsVersion, InvalidSettingsVersion>(self),
    {
        proof {
            Self::lemma_of_ordinal(self.ordinal());
        }
        match self {
            SettingsVersion::V2 => 2,
            SettingsVersion::V3 => 3,
            SettingsVersion::V4 => 4,
            SettingsVersion::V5 => 5,
            SettingsVersion::V6 => 6,
        }
    }

    /// Every version decodes from the number it encodes to.
    pub proof fn lemma_decode_inverts_encode(version: SettingsVersion)
        ensures
            2 <= version.ordinal() <= 6,
            Self::of_ordinal(version.ordinal()) == Some(version),
            Self::decoded(version.ordinal() as u32) == Ok::<
                SettingsVersion,
                InvalidSettingsVersion,
            >(version),
    {
        Self::lemma_of_ordinal(version.ordinal());
    }

    /// A number outside the known versions is refused, and comes back in the
    /// error; a number inside them gives the version with that number.
    pub proof fn lemma_decode_rejects_unknown(raw: u32)
        ensures
            !(2 <= raw <= 6) ==> Self::decoded(raw) == Err::<
                SettingsVersion,
                InvalidSettingsVersion,
            >(InvalidSettingsVersion { value: raw }),
            2 <= raw <= 6 ==> Self::decoded(raw) is Ok && Self::decoded(raw)->Ok_0.ordinal() == raw,
    {
        Self::lemma_of_ordinal(raw as nat);
    }

    /// The current version is the latest: no version comes after it.
    pub proof fn lemma_current_is_latest(version: SettingsVersion)
        ensures
            version.ordinal() <= CURRENT_SETTINGS_VERSION.ordinal(),
            CURRENT_SETTINGS_VERSION.ordinal() == 6,
    {
    }
}

impl PartialOrd for SettingsVersion {
    /// Versions are ordered as their numbers are.
    fn partial_cmp(&self, other: &Self) -> (order: Option<Ordering>) {
        let a: u32 = self.encode();
        let b: u32 = other.encode();
        if a < b {
            Some(Ordering::Less)
        } else if a == b {
            Some(Ordering::Equal)
        } else {
            Some(Ordering::Greater)
        }
    }
}

impl vstd::std_specs::cmp::PartialOrdSpecImpl for SettingsVersion {
    open spec fn obeys_partial_cmp_spec() -> bool {
        true
    }

    open spec fn partial_cmp_spec(&self, other: &Self) -> Option<Ordering> {
        if self.ordinal() < other.ordinal() {
            Some(Ordering::Less)
        } else if self.ordinal() == other.ordinal() {
            Some(Ordering::Equal)
        } else {
            Some(Ordering::Greater)
        }
    }
}

} // verus!
