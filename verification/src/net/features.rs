//! The changes that the protocol makes to a capability profile, one at a time.

use crate::net::capabilities::{slot_of, with_feature, Feature, Profile, ProtocolCapabilities};
use vstd::array::ArrayAdditionalExecFns;
use vstd::prelude::*;

verus! {

/// The profile with 256 colours switched on.
pub open spec fn with_colors(profile: Profile) -> Profile {
    with_feature(with_feature(profile, Feature::Xterm256, true), Feature::Ansi, true)
}

/// The features that the bits of `n` stand for: 1 ANSI colour, 2 VT100,
/// 4 UTF-8, 8 256 colours, 16 mouse tracking, 32 OSC colour palette, 64 screen
/// reader, 128 proxy, 256 true colour, 512 MNES.
pub open spec fn bit_features(n: usize) -> Set<Feature> {
    Set::new(
        |feature: Feature|
            match feature {
                Feature::Ansi => n & 1 == 1,
                Feature::Vt100 => n & 2 == 2,
                Feature::Utf8 => n & 4 == 4,
                Feature::Xterm256 => n & 8 == 8,
                Feature::MouseTracking => n & 16 == 16,
                Feature::OscColorPalette => n & 32 == 32,
                Feature::ScreenReader => n & 64 == 64,
                Feature::Proxy => n & 128 == 128,
                Feature::Truecolor => n & 256 == 256,
                Feature::Mnes => n & 512 == 512,
                _ => false,
            },
    )
}

/// The profile with the features that the bits of `n` stand for switched on.
pub open spec fn with_bits(profile: Profile, n: usize) -> Profile {
    Profile { features: profile.features.union(bit_features(n)), ..profile }
}

/// Two features with the same place are the same feature.
pub proof fn lemma_slots_differ(a: Feature, b: Feature)
    ensures
        0 <= slot_of(a) < 21,
        slot_of(a) == slot_of(b) ==> a == b,
{
}

impl ProtocolCapabilities {
    /// Tells whether the client has a feature.
    pub fn supports(&self, feature: Feature) -> (r: bool)
        ensures
            r == self@.features.contains(feature),
    {
        self.flags[feature.slot()]
    }

    /// Switches a feature on or off.
    pub fn set_feature(&mut self, feature: Feature, on: bool)
        ensures
            final(self)@ == with_feature(old(self)@, feature, on),
    {
        let i: usize = feature.slot();
        self.flags.set(i, on);
        proof {
            assert forall|f: Feature|
                self@.features.contains(f) == with_feature(old(self)@, feature, on).features.contains(
                    f,
                ) by {
                lemma_slots_differ(f, feature);
            }
            assert(self@.features =~= with_feature(old(self)@, feature, on).features);
        }
    }

    /// Switches a feature on where `on` holds, and leaves it as it is where not.
    fn add_feature(&mut self, feature: Feature, on: bool)
        ensures
            final(self)@ == (if on {
                with_feature(old(self)@, feature, true)
            } else {
                old(self)@
            }),
    {
        if on {
            self.set_feature(feature, true);
        }
    }

    /// Notes the size of the client's window.
    pub fn set_window(&mut self, width: u16, height: u16)
        ensures
            final(self)@ == (Profile { width, height, ..old(self)@ }),
    {
        self.width = width;
        self.height = height;
    }

    /// Notes the name of the client.
    pub fn set_client_name(&mut self, name: String)
        ensures
            final(self)@ == (Profile { client_name: name@, ..old(self)@ }),
    {
        self.client_name = name;
    }

    /// Notes the version of the client.
    pub fn set_client_version(&mut self, version: String)
        ensures
            final(self)@ == (Profile { client_version: version@, ..old(self)@ }),
    {
        self.client_version = version;
    }

    /// Notes that the client shows 256 colours.
    pub fn enable_colors(&mut self)
        ensures
            final(self)@ == with_colors(old(self)@),
    {
        self.set_feature(Feature::Xterm256, true);
        self.set_feature(Feature::Ansi, true);
    }

    /// Switches on the features that the bits of `n` stand for.
    pub fn apply_bits(&mut self, n: usize)
        ensures
            final(self)@ == with_bits(old(self)@, n),
    {
        self.add_feature(Feature::Ansi, n & 1 == 1);
        self.add_feature(Feature::Vt100, n & 2 == 2);
        self.add_feature(Feature::Utf8, n & 4 == 4);
        self.add_feature(Feature::Xterm256, n & 8 == 8);
        self.add_feature(Feature::MouseTracking, n & 16 == 16);
        self.add_feature(Feature::OscColorPalette, n & 32 == 32);
        self.add_feature(Feature::ScreenReader, n & 64 == 64);
        self.add_feature(Feature::Proxy, n & 128 == 128);
        self.add_feature(Feature::Truecolor, n & 256 == 256);
        self.add_feature(Feature::Mnes, n & 512 == 512);
        assert(self@.features =~= with_bits(old(self)@, n).features);
    }
}

} // verus!
