//! What the settings say about relays, bridges and obfuscation.

use crate::opaque::Opaque;
use vstd::prelude::*;

verus! {

/// When a bridge, a proxy on the way to the relay, is used.
#[derive(Debug, Clone, Copy, PartialEq, Eq, Structural)]
pub enum BridgeState {
    /// A bridge is used when the relay cannot be reached without one.
    Auto,
    /// A bridge is always used.
    On,
    /// A bridge is never used.
    Off,
}

/// How a bridge is chosen. The bridge layer owns these settings.
pub type BridgeSettings = Opaque;

/// Which wrapping, if any, hides the tunnel's traffic.
#[derive(Debug, Clone, Copy, PartialEq, Eq, Structural)]
pub enum SelectedObfuscation {
    Auto,
    Off,
    Udp2Tcp,
}

/// The settings for obfuscation.
#[derive(Debug, Clone, Copy, PartialEq, Eq, Structural)]
pub struct ObfuscationSettings {
    pub selected_obfuscation: SelectedObfuscation,
}

/// Where the relay to connect through may be.
#[derive(Debug)]
pub enum LocationConstraint {
    /// Anywhere.
    Any,
    /// In the country with this code.
    Country(String),
    /// In a city, given by the codes of its country and of the city.
    City(String, String),
    /// One relay, given by the codes of its country and city and by its host name.
    Hostname(String, String, String),
}

/// A `LocationConstraint` as a value: each code is the sequence of its characters.
pub ghost enum LocationConstraintView {
    Any,
    Country(Seq<char>),
    City(Seq<char>, Seq<char>),
    Hostname(Seq<char>, Seq<char>, Seq<char>),
}

impl View for LocationConstraint {
    type V = LocationConstraintView;

    open spec fn view(&self) -> LocationConstraintView {
        match self {
            LocationConstraint::Any => LocationConstraintView::Any,
            LocationConstraint::Country(country) => LocationConstraintView::Country(country@),
            LocationConstraint::City(country, city) => LocationConstraintView::City(
                country@,
                city@,
            ),
            LocationConstraint::Hostname(country, city, host) => LocationConstraintView::Hostname(
                country@,
                city@,
                host@,
            ),
        }
    }
}

impl Clone for LocationConstraint {
    fn clone(&self) -> (copy: Self)
        ensures
            copy == *self,
    {
        match self {
            LocationConstraint::Any => LocationConstraint::Any,
            LocationConstraint::Country(country) => LocationConstraint::Country(country.clone()),
            LocationConstraint::City(country, city) => LocationConstraint::City(
                country.clone(),
                city.clone(),
            ),
            LocationConstraint::Hostname(country, city, host) => LocationConstraint::Hostname(
                country.clone(),
                city.clone(),
                host.clone(),
            ),
        }
    }
}

impl PartialEq for LocationConstraint {
    /// Two constraints are equal when they are of the same kind and name the
    /// same codes.
    fn eq(&self, other: &Self) -> (equal: bool) {
        match self {
            LocationConstraint::Any => match other {
                LocationConstraint::Any => true,
                _ => false,
            },
            LocationConstraint::Country(country) => match other {
                LocationConstraint::Country(other_country) => *country == *other_country,
                _ => false,
            },
            LocationConstraint::City(country, city) => match other {
                LocationConstraint::City(other_country, other_city) => *country == *other_country
                    && *city == *other_city,
                _ => false,
            },
            LocationConstraint::Hostname(country, city, host) => match other {
                LocationConstraint::Hostname(other_country, other_city, other_host) => *country
                    == *other_country && *city == *other_city && *host == *other_host,
                _ => false,
            },
        }
    }
}

impl vstd::std_specs::cmp::PartialEqSpecImpl for LocationConstraint {
    open spec fn obeys_eq_spec() -> bool {
        true
    }

    open spec fn eq_spec(&self, other: &Self) -> bool {
        self@ == other@
    }
}

impl Eq for LocationConstraint {

}

/// Which relays the client may connect through.
///
/// The settings read the location. What else narrows the choice belongs to
/// the relay layer and is kept as that layer encoded it. Two relay settings
/// are equal when they agree in both.
#[derive(Debug)]
pub struct RelaySettings {
    /// Where the relay may be.
    pub location: LocationConstraint,
    /// The constraints other than the location.
    pub other_constraints: Opaque,
}

/// A `RelaySettings` as a value.
pub ghost struct RelaySettingsView {
    pub location: LocationConstraintView,
    pub other_constraints: Seq<u8>,
}

impl View for RelaySettings {
    type V = RelaySettingsView;

    open spec fn view(&self) -> RelaySettingsView {
        RelaySettingsView { location: self.location@, other_constraints: self.other_constraints@ }
    }
}

impl Clone for RelaySettings {
    fn clone(&self) -> (copy: Self)
        ensures
            copy@ == self@,
    {
        RelaySettings {
            location: self.location.clone(),
            other_constraints: self.other_constraints.clone(),
        }
    }
}

impl PartialEq for RelaySettings {
    fn eq(&self, other: &Self) -> (equal: bool) {
        self.location == other.location && self.other_constraints == other.other_constraints
    }
}

impl vstd::std_specs::cmp::PartialEqSpecImpl for RelaySettings {
    open spec fn obeys_eq_spec() -> bool {
        true
    }

    open spec fn eq_spec(&self, other: &Self) -> bool {
        self@ == other@
    }
}

impl Eq for RelaySettings {

}

} // verus!
