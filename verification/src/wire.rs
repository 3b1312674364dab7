//! Records exchanged with the adapter, as plain values.

use vstd::prelude::*;

verus! {

/// Bit of the wire identifier that marks an extended (29-bit) arbitration ID.
pub const GSUSB_EXT_FLAG: u32 = 0x8000_0000;

/// Bit of the wire identifier that marks a remote transmission request.
pub const GSUSB_RTR_FLAG: u32 = 0x4000_0000;

/// Bit of the wire identifier that marks an error frame.
pub const GSUSB_ERR_FLAG: u32 = 0x2000_0000;

/// The 29 low bits of the wire identifier, which carry the arbitration ID.
pub const GSUSB_ID_MASK: u32 = 0x1FFF_FFFF;

/// Echo identifier of a frame that came from the bus rather than from this host.
pub const GSUSB_RX_ECHO_ID: u32 = 0xFFFF_FFFF;

/// Echo identifier the host puts on every frame it transmits.
pub const GSUSB_TX_ECHO_ID: u32 = 1;

/// Flag byte: the frame is a CAN-FD frame.
pub const GS_CAN_FLAG_FD: u8 = 0x02;

/// Flag byte: the data phase used the faster bitrate.
pub const GS_CAN_FLAG_BRS: u8 = 0x04;

/// Flag byte: the sender was error-passive.
pub const GS_CAN_FLAG_ESI: u8 = 0x08;

/// Feature bit: the adapter can listen without acknowledging.
pub const GS_CAN_FEATURE_LISTEN_ONLY: u32 = 0x001;

/// Feature bit: the adapter can loop transmitted frames back.
pub const GS_CAN_FEATURE_LOOP_BACK: u32 = 0x002;

/// Feature bit: the adapter speaks CAN-FD.
pub const GS_CAN_FEATURE_FD: u32 = 0x100;

/// Mode flag: listen-only.
pub const GS_CAN_MODE_LISTEN_ONLY: u32 = 0x001;

/// Mode flag: loopback.
pub const GS_CAN_MODE_LOOP_BACK: u32 = 0x002;

/// Mode flag: CAN-FD.
pub const GS_CAN_MODE_FD: u32 = 0x100;

/// Number of payload bytes in a wire frame.
pub const HOST_FRAME_DATA_LEN: usize = 64;

/// What the adapter reports about itself.
#[derive(Clone, Copy, Debug, PartialEq, Eq)]
pub struct DeviceConfig {
    /// Index of the last channel; an adapter with one channel reports 0.
    pub icount: u8,
    /// Firmware version.
    pub sw_version: u32,
    /// Hardware version.
    pub hw_version: u32,
}

/// Clock and capabilities of the adapter's CAN core.
#[derive(Clone, Copy, Debug, PartialEq, Eq)]
pub struct BitTimingConsts {
    /// Capability bits, `GS_CAN_FEATURE_*`.
    pub feature: u32,
    /// Frequency of the CAN core clock in Hz.
    pub fclk_can: u32,
}

/// What the transport learned about the adapter when it opened it.
#[derive(Clone, Copy, Debug, PartialEq, Eq)]
pub struct DeviceInfo {
    /// The adapter's description of itself.
    pub config: DeviceConfig,
    /// Clock and capabilities of its CAN core.
    pub consts: BitTimingConsts,
}

/// Timing registers of one channel.
#[derive(Clone, Copy, Debug, PartialEq, Eq)]
pub struct BitTiming {
    /// Propagation segment, in time quanta.
    pub prop_seg: u32,
    /// Phase segment 1, in time quanta.
    pub phase_seg1: u32,
    /// Phase segment 2, in time quanta.
    pub phase_seg2: u32,
    /// Synchronization jump width, in time quanta.
    pub sjw: u32,
    /// Clock prescaler.
    pub brp: u32,
}

/// The two mode commands a channel understands.
#[derive(Clone, Copy, Debug, PartialEq, Eq)]
pub enum CanMode {
    /// Take the channel off the bus.
    Reset,
    /// Put the channel on the bus.
    Start,
}

impl CanMode {
    /// The number that stands for the command on the wire.
    pub open spec fn spec_code(self) -> u32 {
        match self {
            CanMode::Reset => 0,
            CanMode::Start => 1,
        }
    }

    /// The number that stands for the command on the wire.
    #[verifier::when_used_as_spec(spec_code)]
    pub fn code(self) -> (c: u32)
        ensures
            c == self.spec_code(),
    {
        match self {
            CanMode::Reset => 0,
            CanMode::Start => 1,
        }
    }
}

/// A mode command with its flags.
#[derive(Clone, Copy, Debug, PartialEq, Eq)]
pub struct Mode {
    /// `CanMode::code` of the command.
    pub mode: u32,
    /// Mode flags, `GS_CAN_MODE_*`.
    pub flags: u32,
}

/// A frame as the adapter sends and receives it.
#[derive(Clone, Copy, Debug, PartialEq, Eq)]
pub struct HostFrame {
    /// Tag by which the host recognises its own frames; `GSUSB_RX_ECHO_ID` on frames from the bus.
    pub echo_id: u32,
    /// Arbitration ID in the low 29 bits, `GSUSB_*_FLAG` bits above them.
    pub can_id: u32,
    /// Data length code.
    pub can_dlc: u8,
    /// Channel the frame belongs to.
    pub channel: u8,
    /// Flag byte, `GS_CAN_FLAG_*`.
    pub flags: u8,
    /// Unused.
    pub reserved: u8,
    /// Payload, zero after the last meaningful byte.
    pub data: [u8; 64],
}

/// A wire frame with its payload as a sequence.
pub struct HostFrameView {
    pub echo_id: u32,
    pub can_id: u32,
    pub can_dlc: u8,
    pub channel: u8,
    pub flags: u8,
    pub reserved: u8,
    pub data: Seq<u8>,
}

impl View for HostFrame {
    type V = HostFrameView;

    open spec fn view(&self) -> HostFrameView {
        HostFrameView {
            echo_id: self.echo_id,
            can_id: self.can_id,
            can_dlc: self.can_dlc,
            channel: self.channel,
            flags: self.flags,
            reserved: self.reserved,
            data: self.data@,
        }
    }
}

/// A request to the transport that owns the adapter.
#[derive(Clone, Copy, Debug, PartialEq, Eq)]
pub enum Command {
    /// Program the nominal bit timing of a channel.
    SetBitTiming { channel: u16, timing: BitTiming },
    /// Program the data-phase bit timing of a channel.
    SetDataBitTiming { channel: u16, timing: BitTiming },
    /// Send a mode command to a channel.
    SetMode { channel: u16, mode: Mode },
    /// Begin moving frames between host and adapter.
    StartTransfers,
    /// Stop moving frames.
    StopTransfers,
    /// Transmit one frame.
    Send(HostFrame),
}

} // verus!
