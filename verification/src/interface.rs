//! The interface: channel configurations, the run state, and the rules that guard both.
//!
//! The interface never talks to the adapter itself. An operation that needs the adapter
//! checks its preconditions, updates the interface's own record, and returns the
//! commands that the caller's transport has to carry out, in order.

use vstd::prelude::*;
use crate::channel::{Channel, Feature};
use crate::error::Error;
use crate::frame::{encode, Frame, FrameView};
use crate::timing::{bit_timing, calculate_bit_timing};
use crate::wire::{BitTiming, CanMode, Command, DeviceInfo, HostFrameView, Mode};

verus! {

/// What an interface knows: what the adapter reported when it was opened,
/// whether the bus is active, and the configuration of each channel.
pub struct InterfaceState {
    /// The bus is active.
    pub running: bool,
    /// Frequency of the CAN core clock in Hz.
    pub can_clock: u32,
    /// Index of the last channel; the adapter has one channel more than this.
    pub channel_count: nat,
    /// Firmware version.
    pub sw_version: u32,
    /// Hardware version.
    pub hw_version: u32,
    /// Capability bits of the adapter.
    pub features: u32,
    /// Configuration of each channel, by index.
    pub channels: Seq<Channel>,
}

impl InterfaceState {
    /// There is a configuration for each channel, and the index of the last channel
    /// fits the byte in which the adapter reports it.
    pub open spec fn well_formed(self) -> bool {
        &&& self.channels.len() == self.channel_count + 1
        &&& self.channel_count <= u8::MAX
    }

    /// The state of an interface over a freshly opened adapter whose channels are
    /// configured as `channels`.
    pub open spec fn opened(info: DeviceInfo, channels: Seq<Channel>) -> InterfaceState {
        InterfaceState {
            running: false,
            can_clock: info.consts.fclk_can,
            channel_count: info.config.icount as nat,
            sw_version: info.config.sw_version,
            hw_version: info.config.hw_version,
            features: info.consts.feature,
            channels,
        }
    }

    /// Whether the adapter has a channel with this index.
    pub open spec fn has_channel(self, channel: int) -> bool {
        0 <= channel <= self.channel_count
    }

    /// Why a change to the configuration of `channel` that depends on the feature
    /// `needs` is refused, if it is: for want of the channel first, of the feature
    /// second, and last because the bus is active.
    pub open spec fn refusal(self, channel: int, needs: Option<Feature>) -> Option<Error> {
        if !self.has_channel(channel) {
            Some(Error::InvalidChannel)
        } else if needs is Some && !needs->0.spec_supported_by(self.features) {
            Some(Error::UnsupportedFeature(needs->0.spec_name()))
        } else if self.running {
            Some(Error::Running)
        } else {
            None
        }
    }

    /// The state with the configuration of `channel` replaced.
    pub open spec fn with_channel(self, channel: int, config: Channel) -> InterfaceState {
        InterfaceState { channels: self.channels.update(channel, config), ..self }
    }

    /// The state with the run flag replaced.
    pub open spec fn with_running(self, running: bool) -> InterfaceState {
        InterfaceState { running, ..self }
    }

    /// Result and next state of replacing the configuration of `channel` by `config`,
    /// a change that depends on the feature `needs`.
    pub open spec fn configure(self, channel: int, needs: Option<Feature>, config: Channel) -> (
        Result<(), Error>,
        InterfaceState,
    ) {
        match self.refusal(channel, needs) {
            Some(e) => (Err(e), self),
            None => (Ok(()), self.with_channel(channel, config)),
        }
    }

    /// Result and next state of `Interface::set_monitor`.
    pub open spec fn set_monitor(self, channel: int, enabled: bool) -> (
        Result<(), Error>,
        InterfaceState,
    ) {
        self.configure(
            channel,
            Some(Feature::Monitor),
            Channel { monitor: enabled, ..self.channels[channel] },
        )
    }

    /// Result and next state of `Interface::set_enabled`.
    pub open spec fn set_enabled(self, channel: int, enabled: bool) -> (
        Result<(), Error>,
        InterfaceState,
    ) {
        self.configure(channel, None, Channel { enabled, ..self.channels[channel] })
    }

    /// Result and next state of `Interface::set_loopback`.
    pub open spec fn set_loopback(self, channel: int, enabled: bool) -> (
        Result<(), Error>,
        InterfaceState,
    ) {
        self.configure(
            channel,
            Some(Feature::Loopback),
            Channel { loopback: enabled, ..self.channels[channel] },
        )
    }

    /// Result and next state of `Interface::set_fd`.
    pub open spec fn set_fd(self, channel: int, enabled: bool) -> (
        Result<(), Error>,
        InterfaceState,
    ) {
        self.configure(channel, Some(Feature::Fd), Channel { fd: enabled, ..self.channels[channel] })
    }

    /// Result and next state of `Interface::set_bitrate`: where the change is not
    /// refused and the bitrate has a timing, the command that programs the timing, and
    /// the requested bitrate on record.
    pub open spec fn set_bitrate(self, channel: int, bitrate: u32) -> (
        Result<Command, Error>,
        InterfaceState,
    ) {
        match self.refusal(channel, None) {
            Some(e) => (Err(e), self),
            None => match bit_timing(self.can_clock, bitrate) {
                None => (Err(Error::InvalidBitrate(bitrate)), self),
                Some(timing) => (
                    Ok(Command::SetBitTiming { channel: channel as u16, timing }),
                    self.with_channel(channel, Channel { bitrate, ..self.channels[channel] }),
                ),
            },
        }
    }

    /// Result and next state of `Interface::set_data_bitrate`: as for the nominal
    /// bitrate, but only on an adapter that speaks CAN-FD.
    pub open spec fn set_data_bitrate(self, channel: int, bitrate: u32) -> (
        Result<Command, Error>,
        InterfaceState,
    ) {
        match self.refusal(channel, Some(Feature::Fd)) {
            Some(e) => (Err(e), self),
            None => match bit_timing(self.can_clock, bitrate) {
                None => (Err(Error::InvalidBitrate(bitrate)), self),
                Some(timing) => (
                    Ok(Command::SetDataBitTiming { channel: channel as u16, timing }),
                    self.with_channel(
                        channel,
                        Channel { data_bitrate: bitrate, ..self.channels[channel] },
                    ),
                ),
            },
        }
    }

    /// Result of `Interface::set_bit_timing`, which leaves the state as it is: the
    /// command that programs the given registers, with no propagation segment.
    pub open spec fn set_bit_timing(
        self,
        channel: int,
        brp: u32,
        phase_seg1: u32,
        phase_seg2: u32,
        sjw: u32,
    ) -> Result<Command, Error> {
        match self.refusal(channel, None) {
            Some(e) => Err(e),
            None => Ok(
                Command::SetBitTiming {
                    channel: channel as u16,
                    timing: BitTiming { prop_seg: 0, phase_seg1, phase_seg2, sjw, brp },
                },
            ),
        }
    }

    /// The first mode that the adapter cannot provide, going through the channels from
    /// `from` on by index.
    pub open spec fn first_unsupported(self, from: int) -> Option<Feature>
        decreases self.channels.len() - from,
    {
        if from < 0 || from >= self.channels.len() {
            None
        } else {
            match self.channels[from].spec_unsupported(self.features) {
                Some(feature) => Some(feature),
                None => self.first_unsupported(from + 1),
            }
        }
    }

    /// The mode command for one channel: a start command carries the channel's mode
    /// flags, a reset command none.
    pub open spec fn mode_command(self, mode: CanMode, channel: int) -> Command {
        Command::SetMode {
            channel: channel as u16,
            mode: Mode {
                mode: mode.spec_code(),
                flags: if mode is Start {
                    self.channels[channel].spec_mode_flags()
                } else {
                    0
                },
            },
        }
    }

    /// The mode commands for the enabled ones among the first `n` channels, by index.
    pub open spec fn mode_commands(self, mode: CanMode, n: int) -> Seq<Command>
        decreases n,
    {
        if n <= 0 {
            Seq::empty()
        } else if self.channels[n - 1].enabled {
            self.mode_commands(mode, n - 1).push(self.mode_command(mode, n - 1))
        } else {
            self.mode_commands(mode, n - 1)
        }
    }

    /// Result and next state of `Interface::start`. Where a channel, enabled or not,
    /// has a mode that the adapter cannot provide, nothing is commanded and nothing
    /// changes. Otherwise every enabled channel gets a start command, transfers begin,
    /// and the bus is active.
    pub open spec fn start(self) -> (Result<Seq<Command>, Error>, InterfaceState) {
        match self.first_unsupported(0) {
            Some(feature) => (Err(Error::UnsupportedFeature(feature.spec_name())), self),
            None => (
                Ok(
                    self.mode_commands(CanMode::Start, self.channels.len() as int).push(
                        Command::StartTransfers,
                    ),
                ),
                self.with_running(true),
            ),
        }
    }

    /// Result and next state of `Interface::stop`. While the bus is active every
    /// enabled channel gets a reset command, transfers end, and the bus is no longer
    /// active.
    pub open spec fn stop(self) -> (Result<Seq<Command>, Error>, InterfaceState) {
        if !self.running {
            (Err(Error::NotRunning), self)
        } else {
            (
                Ok(
                    self.mode_commands(CanMode::Reset, self.channels.len() as int).push(
                        Command::StopTransfers,
                    ),
                ),
                self.with_running(false),
            )
        }
    }

    /// Result of `Interface::send`: the wire frame to transmit, while the bus is active.
    pub open spec fn send(self, f: FrameView) -> Result<HostFrameView, Error> {
        if !self.running {
            Err(Error::NotRunning)
        } else {
            Ok(encode(f))
        }
    }
}

/// Whether the outcome of an operation that returns commands is the one the state
/// machine prescribes.
pub open spec fn same_commands(
    got: Result<Vec<Command>, Error>,
    want: Result<Seq<Command>, Error>,
) -> bool {
    match (got, want) {
        (Ok(g), Ok(w)) => g@ == w,
        (Err(g), Err(w)) => g == w,
        _ => false,
    }
}

/// A CAN interface over one adapter.
#[derive(Debug)]
pub struct Interface {
    running: bool,
    can_clock: u32,
    channel_count: usize,
    sw_version: u32,
    hw_version: u32,
    features: u32,
    channels: Vec<Channel>,
}

impl View for Interface {
    type V = InterfaceState;

    closed spec fn view(&self) -> InterfaceState {
        InterfaceState {
            running: self.running,
            can_clock: self.can_clock,
            channel_count: self.channel_count as nat,
            sw_version: self.sw_version,
            hw_version: self.hw_version,
            features: self.features,
            channels: self.channels@,
        }
    }
}

impl Interface {
    #[verifier::type_invariant]
    spec fn inv(&self) -> bool {
        self@.well_formed()
    }

    /// Creates the interface for an adapter that the transport has opened, or fails
    /// with `DeviceNotFound` where it found none. The bus is not active, and every
    /// channel is enabled with all modes off and no bitrate set.
    pub fn new(device: Option<DeviceInfo>) -> (res: Result<Interface, Error>)
        ensures
            match device {
                Some(info) => res matches Ok(iface) && iface@ == InterfaceState::opened(
                    info,
                    Seq::new(info.config.icount as nat + 1, |i: int| Channel::spec_new()),
                ) && iface@.well_formed(),
                None => res matches Err(e) && e == Error::DeviceNotFound,
            },
    {
        let info = match device {
            Some(info) => info,
            None => {
                return Err(Error::DeviceNotFound);
            },
        };
        let channel_count = info.config.icount as usize;
        let mut channels: Vec<Channel> = Vec::new();
        while channels.len() <= channel_count
            invariant
                channel_count <= u8::MAX,
                channels.len() <= channel_count + 1,
                forall|i: int| 0 <= i < channels.len() ==> channels@[i] == Channel::spec_new(),
            decreases channel_count + 1 - channels.len(),
        {
            channels.push(Channel::new());
        }
        assert(channels@ =~= Seq::new(
            info.config.icount as nat + 1,
            |i: int| Channel::spec_new(),
        ));
        Ok(
            Interface {
                running: false,
                can_clock: info.consts.fclk_can,
                channel_count,
                sw_version: info.config.sw_version,
                hw_version: info.config.hw_version,
                features: info.consts.feature,
                channels,
            },
        )
    }

    /// Creates the interface for an opened adapter with channel configurations kept
    /// from a previous run. Fails with `DeviceNotFound` where the transport found
    /// no adapter, and with `InvalidChannel` where there is not exactly one
    /// configuration for each channel. Modes are taken as they are, whether or not the
    /// adapter can provide them: `start` checks them.
    pub fn with_channels(device: Option<DeviceInfo>, channels: Vec<Channel>) -> (res: Result<
        Interface,
        Error,
    >)
        ensures
            match device {
                Some(info) => if channels@.len() == info.config.icount + 1 {
                    res matches Ok(iface) && iface@ == InterfaceState::opened(info, channels@)
                        && iface@.well_formed()
                } else {
                    res matches Err(e) && e == Error::InvalidChannel
                },
                None => res matches Err(e) && e == Error::DeviceNotFound,
            },
    {
        let info = match device {
            Some(info) => info,
            None => {
                return Err(Error::DeviceNotFound);
            },
        };
        let channel_count = info.config.icount as usize;
        if channels.len() != channel_count + 1 {
            return Err(Error::InvalidChannel);
        }
        Ok(
            Interface {
                running: false,
                can_clock: info.consts.fclk_can,
                channel_count,
                sw_version: info.config.sw_version,
                hw_version: info.config.hw_version,
                features: info.consts.feature,
                channels,
            },
        )
    }

    /// Computes `InterfaceState::refusal`.
    fn check(&self, channel: usize, needs: Option<Feature>) -> (res: Result<(), Error>)
        ensures
            self@.well_formed(),
            match self@.refusal(channel as int, needs) {
                Some(e) => res == Err::<(), Error>(e),
                None => res == Ok::<(), Error>(()),
            },
    {
        proof {
            use_type_invariant(self);
        }
        if channel > self.channel_count {
            return Err(Error::InvalidChannel);
        }
        match needs {
            Some(feature) => {
                if !feature.supported_by(self.features) {
                    return Err(Error::UnsupportedFeature(feature.name()));
                }
            },
            None => {},
        }
        if self.running {
            return Err(Error::Running);
        }
        Ok(())
    }

    /// Replaces the configuration of a channel that exists.
    fn store(&mut self, channel: usize, config: Channel)
        requires
            old(self)@.has_channel(channel as int),
        ensures
            final(self)@ == old(self)@.with_channel(channel as int, config),
    {
        proof {
            use_type_invariant(&*self);
        }
        self.channels[channel] = config;
    }

    /// Sets the nominal bitrate of a channel, in bits per second. Returns the command
    /// that programs the timing found for it; the bitrate on record is the requested
    /// one, whatever the timing realises.
    ///
    /// Fails with `InvalidChannel`, `Running` or `InvalidBitrate`, in this order of
    /// precedence, and then changes nothing.
    pub fn set_bitrate(&mut self, channel: usize, bitrate: u32) -> (res: Result<Command, Error>)
        ensures
            res == old(self)@.set_bitrate(channel as int, bitrate).0,
            final(self)@ == old(self)@.set_bitrate(channel as int, bitrate).1,
    {
        match self.check(channel, None) {
            Err(e) => {
                return Err(e);
            },
            Ok(()) => {},
        }
        let timing = match calculate_bit_timing(self.can_clock, bitrate) {
            Err(e) => {
                return Err(e);
            },
            Ok(timing) => timing,
        };
        let mut config = self.channels[channel];
        config.bitrate = bitrate;
        self.store(channel, config);
        Ok(Command::SetBitTiming { channel: channel as u16, timing })
    }

    /// Sets the CAN-FD data-phase bitrate of a channel, in bits per second. Returns
    /// the command that programs the timing found for it; the bitrate on record is the
    /// requested one.
    ///
    /// Fails with `InvalidChannel`, `UnsupportedFeature("FD")`, `Running` or
    /// `InvalidBitrate`, in this order of precedence, and then changes nothing.
    pub fn set_data_bitrate(&mut self, channel: usize, bitrate: u32) -> (res: Result<
        Command,
        Error,
    >)
        ensures
            res == old(self)@.set_data_bitrate(channel as int, bitrate).0,
            final(self)@ == old(self)@.set_data_bitrate(channel as int, bitrate).1,
    {
        match self.check(channel, Some(Feature::Fd)) {
            Err(e) => {
                return Err(e);
            },
            Ok(()) => {},
        }
        let timing = match calculate_bit_timing(self.can_clock, bitrate) {
            Err(e) => {
                return Err(e);
            },
            Ok(timing) => timing,
        };
        let mut config = self.channels[channel];
        config.data_bitrate = bitrate;
        self.store(channel, config);
        Ok(Command::SetDataBitTiming { channel: channel as u16, timing })
    }

    /// Returns the command that programs the given timing registers on a channel. The
    /// propagation segment is left at zero. Nothing is put on record.
    ///
    /// Fails with `InvalidChannel` or `Running`, in this order of precedence.
    pub fn set_bit_timing(
        &mut self,
        channel: usize,
        brp: u32,
        phase_seg1: u32,
        phase_seg2: u32,
        sjw: u32,
    ) -> (res: Result<Command, Error>)
        ensures
            res == old(self)@.set_bit_timing(channel as int, brp, phase_seg1, phase_seg2, sjw),
            final(self)@ == old(self)@,
    {
        match self.check(channel, None) {
            Err(e) => {
                return Err(e);
            },
            Ok(()) => {},
        }
        let timing = BitTiming { prop_seg: 0, phase_seg1, phase_seg2, sjw, brp };
        Ok(Command::SetBitTiming { channel: channel as u16, timing })
    }

    /// Turns listen-only mode of a channel on or off. In this mode the adapter sends
    /// no frames, no error frames and no acknowledgements.
    ///
    /// Fails with `InvalidChannel`, `UnsupportedFeature("Monitor")` or `Running`, in
    /// this order of precedence, and then changes nothing.
    pub fn set_monitor(&mut self, channel: usize, enabled: bool) -> (res: Result<(), Error>)
        ensures
            res == old(self)@.set_monitor(channel as int, enabled).0,
            final(self)@ == old(self)@.set_monitor(channel as int, enabled).1,
    {
        match self.check(channel, Some(Feature::Monitor)) {
            Err(e) => {
                return Err(e);
            },
            Ok(()) => {},
        }
        let mut config = self.channels[channel];
        config.monitor = enabled;
        self.store(channel, config);
        Ok(())
    }

    /// Says whether a channel goes on the bus when the interface starts.
    ///
    /// Fails with `InvalidChannel` or `Running`, in this order of precedence, and then
    /// changes nothing.
    pub fn set_enabled(&mut self, channel: usize, enabled: bool) -> (res: Result<(), Error>)
        ensures
            res == old(self)@.set_enabled(channel as int, enabled).0,
            final(self)@ == old(self)@.set_enabled(channel as int, enabled).1,
    {
        match self.check(channel, None) {
            Err(e) => {
                return Err(e);
            },
            Ok(()) => {},
        }
        let mut config = self.channels[channel];
        config.enabled = enabled;
        self.store(channel, config);
        Ok(())
    }

    /// Turns loopback mode of a channel on or off. In this mode the adapter receives
    /// the frames it sends as if another node had sent them.
    ///
    /// Fails with `InvalidChannel`, `UnsupportedFeature("Loopback")` or `Running`, in
    /// this order of precedence, and then changes nothing.
    pub fn set_loopback(&mut self, channel: usize, enabled: bool) -> (res: Result<(), Error>)
        ensures
            res == old(self)@.set_loopback(channel as int, enabled).0,
            final(self)@ == old(self)@.set_loopback(channel as int, enabled).1,
    {
        match self.check(channel, Some(Feature::Loopback)) {
            Err(e) => {
                return Err(e);
            },
            Ok(()) => {},
        }
        let mut config = self.channels[channel];
        config.loopback = enabled;
        self.store(channel, config);
        Ok(())
    }

    /// Turns CAN-FD on a channel on or off.
    ///
    /// Fails with `InvalidChannel`, `UnsupportedFeature("FD")` or `Running`, in this
    /// order of precedence, and then changes nothing.
    pub fn set_fd(&mut self, channel: usize, enabled: bool) -> (res: Result<(), Error>)
        ensures
            res == old(self)@.set_fd(channel as int, enabled).0,
            final(self)@ == old(self)@.set_fd(channel as int, enabled).1,
    {
        match self.check(channel, Some(Feature::Fd)) {
            Err(e) => {
                return Err(e);
            },
            Ok(()) => {},
        }
        let mut config = self.channels[channel];
        config.fd = enabled;
        self.store(channel, config);
        Ok(())
    }

    /// Whether the adapter speaks CAN-FD.
    pub fn supports_fd(&self) -> (yes: bool)
        ensures
            yes == Feature::Fd.spec_supported_by(self@.features),
    {
        Feature::Fd.supported_by(self.features)
    }

    /// The number of channels of the adapter.
    pub fn channels(&self) -> (n: usize)
        ensures
            n == self@.channel_count + 1,
            n == self@.channels.len(),
    {
        proof {
            use_type_invariant(self);
        }
        self.channel_count + 1
    }

    /// The configuration of a channel, or `InvalidChannel` where the adapter has no
    /// such channel.
    pub fn channel(&self, channel: usize) -> (res: Result<Channel, Error>)
        ensures
            self@.well_formed(),
            res == if self@.has_channel(channel as int) {
                Ok::<Channel, Error>(self@.channels[channel as int])
            } else {
                Err::<Channel, Error>(Error::InvalidChannel)
            },
    {
        proof {
            use_type_invariant(self);
        }
        if channel > self.channel_count {
            return Err(Error::InvalidChannel);
        }
        Ok(self.channels[channel])
    }

    /// Whether the bus is active.
    pub fn is_running(&self) -> (yes: bool)
        ensures
            yes == self@.running,
    {
        self.running
    }

    /// Computes `InterfaceState::first_unsupported` over all channels.
    fn find_unsupported(&self) -> (missing: Option<Feature>)
        ensures
            missing == self@.first_unsupported(0),
    {
        let mut i: usize = 0;
        while i < self.channels.len()
            invariant
                i <= self.channels.len(),
                self@.first_unsupported(0) == self@.first_unsupported(i as int),
            decreases self.channels.len() - i,
        {
            match self.channels[i].unsupported(self.features) {
                Some(feature) => {
                    return Some(feature);
                },
                None => {},
            }
            i += 1;
        }
        None
    }

    /// Computes `InterfaceState::mode_commands` over all channels.
    fn mode_commands(&self, mode: CanMode) -> (cmds: Vec<Command>)
        ensures
            cmds@ == self@.mode_commands(mode, self@.channels.len() as int),
    {
        proof {
            use_type_invariant(self);
        }
        let mut cmds: Vec<Command> = Vec::new();
        let mut i: usize = 0;
        while i < self.channels.len()
            invariant
                i <= self.channels.len(),
                self.channels.len() <= u8::MAX + 1,
                cmds@ == self@.mode_commands(mode, i as int),
            decreases self.channels.len() - i,
        {
            let config = self.channels[i];
            if config.enabled {
                let flags = match mode {
                    CanMode::Start => config.mode_flags(),
                    CanMode::Reset => 0,
                };
                cmds.push(
                    Command::SetMode { channel: i as u16, mode: Mode { mode: mode.code(), flags } },
                );
            }
            i += 1;
        }
        cmds
    }

    /// Puts the interface on the bus. Returns the commands to carry out: a start
    /// command with its mode flags for every enabled channel, by index, then the start
    /// of transfers. From then on `send` is allowed and the setters are not. Should the
    /// transport fail on one of the commands, `stop` returns those that take every
    /// enabled channel off the bus again.
    ///
    /// Fails with `UnsupportedFeature` where a channel, enabled or not, has a mode
    /// that the adapter cannot provide, naming the first such mode by channel and then
    /// in the order monitor, loopback, FD. Nothing is commanded and nothing changes
    /// then.
    pub fn start(&mut self) -> (res: Result<Vec<Command>, Error>)
        ensures
            same_commands(res, old(self)@.start().0),
            final(self)@ == old(self)@.start().1,
    {
        match self.find_unsupported() {
            Some(feature) => {
                return Err(Error::UnsupportedFeature(feature.name()));
            },
            None => {},
        }
        let mut cmds = self.mode_commands(CanMode::Start);
        cmds.push(Command::StartTransfers);
        proof {
            use_type_invariant(&*self);
        }
        self.running = true;
        Ok(cmds)
    }

    /// Takes the interface off the bus. Returns the commands to carry out: a reset
    /// command for every enabled channel, by index, then the end of transfers. From
    /// then on the setters are allowed and `send` is not.
    ///
    /// Fails with `NotRunning` where the bus is not active, and changes nothing then.
    pub fn stop(&mut self) -> (res: Result<Vec<Command>, Error>)
        ensures
            same_commands(res, old(self)@.stop().0),
            final(self)@ == old(self)@.stop().1,
    {
        if !self.running {
            return Err(Error::NotRunning);
        }
        let mut cmds = self.mode_commands(CanMode::Reset);
        cmds.push(Command::StopTransfers);
        proof {
            use_type_invariant(&*self);
        }
        self.running = false;
        Ok(cmds)
    }

    /// Returns the command that transmits a frame, or fails with `NotRunning` where
    /// the bus is not active.
    pub fn send(&self, f: Frame) -> (res: Result<Command, Error>)
        ensures
            match self@.send(f@) {
                Ok(wire) => res matches Ok(Command::Send(hf)) && hf@ == wire,
                Err(e) => res matches Err(err) && err == e,
            },
    {
        if !self.running {
            return Err(Error::NotRunning);
        }
        Ok(Command::Send(f.to_host_frame()))
    }
}

/// A channel index beyond the last channel is refused as `InvalidChannel` by every
/// setter, whatever the run state and the features of the adapter, and the state stays
/// as it is. The index just after the last channel is such an index.
pub proof fn lemma_channel_bounds(
    s: InterfaceState,
    channel: int,
    bitrate: u32,
    enabled: bool,
    timing: BitTiming,
)
    requires
        channel > s.channel_count,
    ensures
        s.set_bitrate(channel, bitrate) == (Err::<Command, Error>(Error::InvalidChannel), s),
        s.set_bitrate(s.channel_count as int + 1, bitrate) == (
            Err::<Command, Error>(Error::InvalidChannel),
            s,
        ),
        s.set_data_bitrate(channel, bitrate) == (Err::<Command, Error>(Error::InvalidChannel), s),
        s.set_bit_timing(channel, timing.brp, timing.phase_seg1, timing.phase_seg2, timing.sjw)
            == Err::<Command, Error>(Error::InvalidChannel),
        s.set_monitor(channel, enabled) == (Err::<(), Error>(Error::InvalidChannel), s),
        s.set_enabled(channel, enabled) == (Err::<(), Error>(Error::InvalidChannel), s),
        s.set_loopback(channel, enabled) == (Err::<(), Error>(Error::InvalidChannel), s),
        s.set_fd(channel, enabled) == (Err::<(), Error>(Error::InvalidChannel), s),
{
}

/// On a channel that exists, a setter whose mode the adapter cannot provide fails with
/// `UnsupportedFeature` and the name of the mode, whether it turns the mode on or off
/// and whatever the run state, and the state stays as it is.
pub proof fn lemma_setters_need_feature(
    s: InterfaceState,
    channel: int,
    bitrate: u32,
    enabled: bool,
)
    requires
        s.has_channel(channel),
    ensures
        !Feature::Monitor.spec_supported_by(s.features) ==> s.set_monitor(channel, enabled) == (
            Err::<(), Error>(Error::UnsupportedFeature("Monitor")),
            s,
        ),
        !Feature::Loopback.spec_supported_by(s.features) ==> s.set_loopback(channel, enabled) == (
            Err::<(), Error>(Error::UnsupportedFeature("Loopback")),
            s,
        ),
        !Feature::Fd.spec_supported_by(s.features) ==> s.set_fd(channel, enabled) == (
            Err::<(), Error>(Error::UnsupportedFeature("FD")),
            s,
        ),
        !Feature::Fd.spec_supported_by(s.features) ==> s.set_data_bitrate(channel, bitrate) == (
            Err::<Command, Error>(Error::UnsupportedFeature("FD")),
            s,
        ),
{
}

/// Where no channel from `from` on has a mode that the adapter cannot provide,
/// `first_unsupported` finds none; where it finds one, some channel from `from` on has
/// it as its first such mode and no channel between has any.
pub proof fn lemma_first_unsupported(s: InterfaceState, from: int)
    requires
        0 <= from,
    ensures
        match s.first_unsupported(from) {
            Some(feature) => exists|i: int|
                {
                    &&& from <= i < s.channels.len()
                    &&& #[trigger] s.channels[i].spec_unsupported(s.features) == Some(feature)
                    &&& forall|j: int|
                        from <= j < i ==> (#[trigger] s.channels[j]).spec_unsupported(s.features)
                            is None
                },
            None => forall|i: int|
                from <= i < s.channels.len() ==> (#[trigger] s.channels[i]).spec_unsupported(
                    s.features,
                ) is None,
        },
    decreases s.channels.len() - from,
{
    if from < s.channels.len() {
        lemma_first_unsupported(s, from + 1);
        if s.channels[from].spec_unsupported(s.features) is None {
            let feature = s.first_unsupported(from + 1);
            if feature is Some {
                let i = choose|i: int|
                    {
                        &&& from + 1 <= i < s.channels.len()
                        &&& #[trigger] s.channels[i].spec_unsupported(s.features) == feature
                        &&& forall|j: int|
                            from + 1 <= j < i ==> (#[trigger] s.channels[j]).spec_unsupported(
                                s.features,
                            ) is None
                    };
                assert(s.channels[i].spec_unsupported(s.features) == feature);
            }
        } else {
            assert(s.channels[from].spec_unsupported(s.features) == s.first_unsupported(from));
        }
    }
}

/// Where some channel, enabled or not, has monitor, loopback or FD turned on and the
/// adapter lacks the feature, `start` fails with `UnsupportedFeature`, commands nothing
/// and leaves the state as it is.
pub proof fn lemma_start_needs_features(s: InterfaceState, channel: int)
    requires
        0 <= channel < s.channels.len(),
        ({
            ||| s.channels[channel].monitor && !Feature::Monitor.spec_supported_by(s.features)
            ||| s.channels[channel].loopback && !Feature::Loopback.spec_supported_by(s.features)
            ||| s.channels[channel].fd && !Feature::Fd.spec_supported_by(s.features)
        }),
    ensures
        s.first_unsupported(0) matches Some(feature) && s.start() == (
            Err::<Seq<Command>, Error>(Error::UnsupportedFeature(feature.spec_name())),
            s,
        ),
{
    lemma_first_unsupported(s, 0);
    assert(s.channels[channel].spec_unsupported(s.features) is Some);
}

/// While the bus is active, every setter called for a channel that exists and a mode
/// that the adapter provides fails with `Running` and leaves the state as it is; while
/// it is not active, `send` and `stop` fail with `NotRunning`.
pub proof fn lemma_run_state_gates(
    s: InterfaceState,
    channel: int,
    bitrate: u32,
    enabled: bool,
    timing: BitTiming,
    f: FrameView,
)
    requires
        s.has_channel(channel),
    ensures
        s.running ==> {
            &&& s.set_bitrate(channel, bitrate) == (Err::<Command, Error>(Error::Running), s)
            &&& s.set_bit_timing(
                channel,
                timing.brp,
                timing.phase_seg1,
                timing.phase_seg2,
                timing.sjw,
            ) == Err::<Command, Error>(Error::Running)
            &&& s.set_enabled(channel, enabled) == (Err::<(), Error>(Error::Running), s)
            &&& Feature::Monitor.spec_supported_by(s.features) ==> s.set_monitor(channel, enabled)
                == (Err::<(), Error>(Error::Running), s)
            &&& Feature::Loopback.spec_supported_by(s.features) ==> s.set_loopback(
                channel,
                enabled,
            ) == (Err::<(), Error>(Error::Running), s)
            &&& Feature::Fd.spec_supported_by(s.features) ==> s.set_fd(channel, enabled) == (
                Err::<(), Error>(Error::Running),
                s,
            )
            &&& Feature::Fd.spec_supported_by(s.features) ==> s.set_data_bitrate(channel, bitrate)
                == (Err::<Command, Error>(Error::Running), s)
        },
        !s.running ==> {
            &&& s.send(f) == Err::<HostFrameView, Error>(Error::NotRunning)
            &&& s.stop() == (Err::<Seq<Command>, Error>(Error::NotRunning), s)
        },
{
}

} // verus!
