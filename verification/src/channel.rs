//! Per-channel configuration and the adapter features it may call for.

use vstd::prelude::*;
use crate::wire::{
    GS_CAN_FEATURE_FD, GS_CAN_FEATURE_LISTEN_ONLY, GS_CAN_FEATURE_LOOP_BACK, GS_CAN_MODE_FD,
    GS_CAN_MODE_LISTEN_ONLY, GS_CAN_MODE_LOOP_BACK,
};

verus! {

/// An optional capability of the adapter that a channel mode depends on.
#[derive(Clone, Copy, Debug, PartialEq, Eq)]
pub enum Feature {
    /// Listen-only operation.
    Monitor,
    /// Loopback operation.
    Loopback,
    /// CAN-FD.
    Fd,
}

impl Feature {
    /// The bit of the feature mask that announces the feature.
    pub open spec fn spec_bit(self) -> u32 {
        match self {
            Feature::Monitor => GS_CAN_FEATURE_LISTEN_ONLY,
            Feature::Loopback => GS_CAN_FEATURE_LOOP_BACK,
            Feature::Fd => GS_CAN_FEATURE_FD,
        }
    }

    /// The bit of the feature mask that announces the feature.
    #[verifier::when_used_as_spec(spec_bit)]
    pub fn bit(self) -> (bit: u32)
        ensures
            bit == self.spec_bit(),
    {
        match self {
            Feature::Monitor => GS_CAN_FEATURE_LISTEN_ONLY,
            Feature::Loopback => GS_CAN_FEATURE_LOOP_BACK,
            Feature::Fd => GS_CAN_FEATURE_FD,
        }
    }

    /// The name under which a missing feature is reported.
    pub open spec fn spec_name(self) -> &'static str {
        match self {
            Feature::Monitor => "Monitor",
            Feature::Loopback => "Loopback",
            Feature::Fd => "FD",
        }
    }

    /// The name under which a missing feature is reported.
    #[verifier::when_used_as_spec(spec_name)]
    pub fn name(self) -> (name: &'static str)
        ensures
            name == self.spec_name(),
    {
        match self {
            Feature::Monitor => "Monitor",
            Feature::Loopback => "Loopback",
            Feature::Fd => "FD",
        }
    }

    /// Whether the feature mask `features` announces the feature.
    pub open spec fn spec_supported_by(self, features: u32) -> bool {
        features & self.spec_bit() != 0
    }

    /// Whether the feature mask `features` announces the feature.
    #[verifier::when_used_as_spec(spec_supported_by)]
    pub fn supported_by(self, features: u32) -> (yes: bool)
        ensures
            yes == self.spec_supported_by(features),
    {
        (features & self.bit()) != 0
    }
}

/// Configuration of one CAN channel.
#[derive(Clone, Copy, Debug, PartialEq, Eq)]
pub struct Channel {
    /// Requested bitrate in bits per second.
    pub bitrate: u32,
    /// The channel goes on the bus when the interface starts.
    pub enabled: bool,
    /// The channel receives what it transmits.
    pub loopback: bool,
    /// The channel listens without transmitting or acknowledging.
    pub monitor: bool,
    /// The channel uses CAN-FD.
    pub fd: bool,
    /// Requested CAN-FD data-phase bitrate in bits per second.
    pub data_bitrate: u32,
}

impl Channel {
    /// The configuration of a channel nobody has touched: enabled, every mode off, no
    /// bitrate set.
    pub open spec fn spec_new() -> Channel {
        Channel {
            bitrate: 0,
            enabled: true,
            loopback: false,
            monitor: false,
            fd: false,
            data_bitrate: 0,
        }
    }

    /// The configuration of a channel nobody has touched.
    #[verifier::when_used_as_spec(spec_new)]
    pub fn new() -> (ch: Channel)
        ensures
            ch == Channel::spec_new(),
    {
        Channel {
            bitrate: 0,
            enabled: true,
            loopback: false,
            monitor: false,
            fd: false,
            data_bitrate: 0,
        }
    }

    /// The flags of the mode command that starts the channel: one bit for each of
    /// `monitor`, `loopback` and `fd` that is set.
    pub open spec fn spec_mode_flags(&self) -> u32 {
        (if self.monitor {
            GS_CAN_MODE_LISTEN_ONLY
        } else {
            0
        }) | (if self.loopback {
            GS_CAN_MODE_LOOP_BACK
        } else {
            0
        }) | (if self.fd {
            GS_CAN_MODE_FD
        } else {
            0
        })
    }

    /// The flags of the mode command that starts the channel.
    #[verifier::when_used_as_spec(spec_mode_flags)]
    pub fn mode_flags(&self) -> (flags: u32)
        ensures
            flags == self.spec_mode_flags(),
    {
        (if self.monitor {
            GS_CAN_MODE_LISTEN_ONLY
        } else {
            0
        }) | (if self.loopback {
            GS_CAN_MODE_LOOP_BACK
        } else {
            0
        }) | (if self.fd {
            GS_CAN_MODE_FD
        } else {
            0
        })
    }

    /// The first mode of the channel, in the order monitor, loopback, FD, that an
    /// adapter with the feature mask `features` cannot provide.
    pub open spec fn spec_unsupported(&self, features: u32) -> Option<Feature> {
        if self.monitor && !Feature::Monitor.spec_supported_by(features) {
            Some(Feature::Monitor)
        } else if self.loopback && !Feature::Loopback.spec_supported_by(features) {
            Some(Feature::Loopback)
        } else if self.fd && !Feature::Fd.spec_supported_by(features) {
            Some(Feature::Fd)
        } else {
            None
        }
    }

    /// The first mode of the channel that an adapter with the feature mask `features`
    /// cannot provide.
    #[verifier::when_used_as_spec(spec_unsupported)]
    pub fn unsupported(&self, features: u32) -> (missing: Option<Feature>)
        ensures
            missing == self.spec_unsupported(features),
    {
        if self.monitor && !Feature::Monitor.supported_by(features) {
            Some(Feature::Monitor)
        } else if self.loopback && !Feature::Loopback.supported_by(features) {
            Some(Feature::Loopback)
        } else if self.fd && !Feature::Fd.supported_by(features) {
            Some(Feature::Fd)
        } else {
            None
        }
    }
}

} // verus!
