//! CAN frames as callers see them, and the codec between them and wire frames.

use vstd::prelude::*;
use std::time::Duration;
use crate::wire::{
    HostFrame, HostFrameView, GSUSB_ERR_FLAG, GSUSB_EXT_FLAG, GSUSB_ID_MASK, GSUSB_RTR_FLAG,
    GSUSB_RX_ECHO_ID, GSUSB_TX_ECHO_ID, GS_CAN_FLAG_BRS, GS_CAN_FLAG_ESI, GS_CAN_FLAG_FD,
    HOST_FRAME_DATA_LEN,
};

verus! {

/// The largest data length code.
pub const MAX_DLC: u8 = 15;

/// A CAN frame.
#[derive(Clone, Debug, PartialEq, Eq)]
pub struct Frame {
    /// Arbitration ID, at most 29 bits wide.
    pub can_id: u32,
    /// Data length code; [`Frame::data_len`] gives the number of payload bytes it stands for.
    pub can_dlc: u8,
    /// Channel the frame is sent on or was received from.
    pub channel: u8,
    /// Payload.
    pub data: Vec<u8>,
    /// The arbitration ID is an extended (29-bit) one rather than a standard (11-bit) one.
    pub ext: bool,
    /// The frame is a CAN-FD frame.
    pub fd: bool,
    /// CAN-FD: the data phase used the faster bitrate.
    pub brs: bool,
    /// CAN-FD: the sender was error-passive.
    pub esi: bool,
    /// The frame was sent by this host and echoed back by the adapter.
    pub loopback: bool,
    /// The frame reports a bus error.
    pub err: bool,
    /// The frame is a remote transmission request.
    pub rtr: bool,
    /// Time of reception, counted from the start of the interface; `None` on frames
    /// that did not come through the receive path.
    pub timestamp: Option<Duration>,
}

/// A frame with its payload as a sequence.
pub struct FrameView {
    pub can_id: u32,
    pub can_dlc: u8,
    pub channel: u8,
    pub data: Seq<u8>,
    pub ext: bool,
    pub fd: bool,
    pub brs: bool,
    pub esi: bool,
    pub loopback: bool,
    pub err: bool,
    pub rtr: bool,
    pub timestamp: Option<Duration>,
}

impl View for Frame {
    type V = FrameView;

    open spec fn view(&self) -> FrameView {
        FrameView {
            can_id: self.can_id,
            can_dlc: self.can_dlc,
            channel: self.channel,
            data: self.data@,
            ext: self.ext,
            fd: self.fd,
            brs: self.brs,
            esi: self.esi,
            loopback: self.loopback,
            err: self.err,
            rtr: self.rtr,
            timestamp: self.timestamp,
        }
    }
}

/// The number of payload bytes that a data length code stands for: the code itself up
/// to 8, then the CAN-FD lengths 12, 16, 20, 24, 32, 48 and 64. Codes above 15 do not
/// exist; the function gives them 64.
pub open spec fn dlc_len(dlc: u8) -> nat {
    if dlc <= 8 {
        dlc as nat
    } else if dlc == 9 {
        12
    } else if dlc == 10 {
        16
    } else if dlc == 11 {
        20
    } else if dlc == 12 {
        24
    } else if dlc == 13 {
        32
    } else if dlc == 14 {
        48
    } else {
        64
    }
}

/// The payload as it fills the buffer of a wire frame: cut after 64 bytes, zero after
/// its last byte.
pub open spec fn padded(data: Seq<u8>) -> Seq<u8> {
    Seq::new(
        HOST_FRAME_DATA_LEN as nat,
        |i: int|
            if i < data.len() {
                data[i]
            } else {
                0u8
            },
    )
}

/// The identifier field of the wire frame: the arbitration ID with a flag bit set for
/// each of `ext`, `rtr` and `err`.
pub open spec fn wire_id(f: FrameView) -> u32 {
    let id = if f.ext {
        f.can_id | GSUSB_EXT_FLAG
    } else {
        f.can_id
    };
    let id = if f.rtr {
        id | GSUSB_RTR_FLAG
    } else {
        id
    };
    if f.err {
        id | GSUSB_ERR_FLAG
    } else {
        id
    }
}

/// The wire frame that transmits `f`.
pub open spec fn encode(f: FrameView) -> HostFrameView {
    HostFrameView {
        echo_id: GSUSB_TX_ECHO_ID,
        can_id: wire_id(f),
        can_dlc: f.can_dlc,
        channel: f.channel,
        flags: if f.fd {
            GS_CAN_FLAG_FD
        } else {
            0
        },
        reserved: 0,
        data: padded(f.data),
    }
}

/// The frame that the wire frame `hf` carries. It is marked as a loopback frame unless
/// its echo identifier is the one reserved for frames from the bus, its payload is as
/// long as its data length code says, and it has no timestamp yet.
pub open spec fn decode(hf: HostFrameView) -> FrameView {
    FrameView {
        can_id: hf.can_id & GSUSB_ID_MASK,
        can_dlc: hf.can_dlc,
        channel: hf.channel,
        data: hf.data.take(dlc_len(hf.can_dlc) as int),
        ext: hf.can_id & GSUSB_EXT_FLAG != 0,
        fd: hf.flags & GS_CAN_FLAG_FD != 0,
        brs: hf.flags & GS_CAN_FLAG_BRS != 0,
        esi: hf.flags & GS_CAN_FLAG_ESI != 0,
        loopback: hf.echo_id != GSUSB_RX_ECHO_ID,
        err: hf.can_id & GSUSB_ERR_FLAG != 0,
        rtr: hf.can_id & GSUSB_RTR_FLAG != 0,
        timestamp: None,
    }
}

/// What setting flag bits above an identifier does to the bits that decoding reads.
proof fn lemma_flag_bits(id: u32, e: u32, r: u32, x: u32)
    by (bit_vector)
    requires
        e == 0 || e == 0x8000_0000u32,
        r == 0 || r == 0x4000_0000u32,
        x == 0 || x == 0x2000_0000u32,
    ensures
        id | 0u32 == id,
        (((id | e) | r) | x) & 0x1FFF_FFFFu32 == id & 0x1FFF_FFFFu32,
        id <= 0x1FFF_FFFFu32 ==> id & 0x1FFF_FFFFu32 == id,
        id <= 0x1FFF_FFFFu32 ==> ((((id | e) | r) | x) & 0x8000_0000u32 != 0 <==> e != 0),
        id <= 0x1FFF_FFFFu32 ==> ((((id | e) | r) | x) & 0x4000_0000u32 != 0 <==> r != 0),
        id <= 0x1FFF_FFFFu32 ==> ((((id | e) | r) | x) & 0x2000_0000u32 != 0 <==> x != 0),
{
}

/// Decoding what encoding produced gives back the frame as far as the wire carries it:
/// the identifier cut to 29 bits, code, channel and the FD flag as they were, and the
/// payload filled up with zeros or cut to the length the code stands for. An identifier
/// of at most 29 bits comes back whole, with `ext`, `rtr` and `err` as they were, and a
/// payload of exactly the length the code stands for comes back unchanged. The wire
/// carries neither `brs` nor `esi` nor a timestamp, and a frame that the host encoded
/// is decoded as one of its own.
pub proof fn lemma_round_trip(f: FrameView)
    ensures
        ({
            let g = decode(encode(f));
            &&& g.can_id == f.can_id & GSUSB_ID_MASK
            &&& g.can_dlc == f.can_dlc
            &&& g.channel == f.channel
            &&& g.fd == f.fd
            &&& g.data == padded(f.data).take(dlc_len(f.can_dlc) as int)
            &&& f.can_id <= GSUSB_ID_MASK ==> {
                &&& g.can_id == f.can_id
                &&& g.ext == f.ext
                &&& g.rtr == f.rtr
                &&& g.err == f.err
            }
            &&& f.data.len() == dlc_len(f.can_dlc) ==> g.data == f.data
            &&& !g.brs
            &&& !g.esi
            &&& g.loopback
            &&& g.timestamp is None
        }),
{
    let e = if f.ext {
        GSUSB_EXT_FLAG
    } else {
        0
    };
    let r = if f.rtr {
        GSUSB_RTR_FLAG
    } else {
        0
    };
    let x = if f.err {
        GSUSB_ERR_FLAG
    } else {
        0
    };
    lemma_flag_bits(f.can_id, e, r, x);
    lemma_flag_bits(f.can_id | e, 0, 0, 0);
    lemma_flag_bits((f.can_id | e) | r, 0, 0, 0);
    assert(wire_id(f) == ((f.can_id | e) | r) | x);
    assert(2u8 & 2u8 != 0 && 0u8 & 2u8 == 0 && 2u8 & 4u8 == 0 && 0u8 & 4u8 == 0 && 2u8 & 8u8 == 0
        && 0u8 & 8u8 == 0) by (bit_vector);
    let g = decode(encode(f));
    if f.data.len() == dlc_len(f.can_dlc) {
        assert(g.data =~= f.data);
    }
}

/// A payload no longer than its data length code stands for comes back from encoding
/// and decoding with the same code, unchanged in its own bytes and followed by zeros up
/// to the length the code stands for.
pub proof fn lemma_round_trip_payload(f: FrameView)
    requires
        f.data.len() <= dlc_len(f.can_dlc),
    ensures
        ({
            let g = decode(encode(f));
            &&& g.can_dlc == f.can_dlc
            &&& g.data.len() == dlc_len(f.can_dlc)
            &&& forall|i: int| 0 <= i < f.data.len() ==> g.data[i] == f.data[i]
            &&& forall|i: int| f.data.len() <= i < dlc_len(f.can_dlc) ==> g.data[i] == 0u8
        }),
{
}

/// Among the codes that exist, a larger code stands for a longer payload, and none for
/// more than a wire frame holds.
pub proof fn lemma_dlc_len_increases(a: u8, b: u8)
    requires
        a < b <= MAX_DLC,
    ensures
        dlc_len(a) < dlc_len(b) <= HOST_FRAME_DATA_LEN,
{
}

/// Computes [`dlc_len`].
pub fn dlc_to_len(dlc: u8) -> (len: usize)
    requires
        dlc <= MAX_DLC,
    ensures
        len == dlc_len(dlc),
        len <= HOST_FRAME_DATA_LEN,
{
    if dlc <= 8 {
        dlc as usize
    } else if dlc == 9 {
        12
    } else if dlc == 10 {
        16
    } else if dlc == 11 {
        20
    } else if dlc == 12 {
        24
    } else if dlc == 13 {
        32
    } else if dlc == 14 {
        48
    } else {
        64
    }
}

impl Frame {
    /// The payload as it fills the buffer of a wire frame.
    pub fn data_as_array(&self) -> (buf: [u8; 64])
        ensures
            buf@ == padded(self.data@),
    {
        let mut buf = [0u8;64];
        let len = if self.data.len() < HOST_FRAME_DATA_LEN {
            self.data.len()
        } else {
            HOST_FRAME_DATA_LEN
        };
        let mut i: usize = 0;
        while i < len
            invariant
                i <= len <= HOST_FRAME_DATA_LEN,
                len <= self.data.len(),
                buf@.len() == HOST_FRAME_DATA_LEN,
                forall|k: int| 0 <= k < i ==> buf@[k] == self.data@[k],
                forall|k: int| i <= k < HOST_FRAME_DATA_LEN ==> buf@[k] == 0u8,
            decreases len - i,
        {
            buf[i] = self.data[i];
            i += 1;
        }
        assert(buf@ =~= padded(self.data@));
        buf
    }

    /// The wire frame that transmits this frame: the echo identifier is the host's own,
    /// the flag bits for `ext`, `rtr` and `err` are set in the identifier, the FD bit in
    /// the flag byte; code, channel and payload are copied.
    pub fn to_host_frame(&self) -> (hf: HostFrame)
        ensures
            hf@ == encode(self@),
    {
        let mut can_id = if self.ext {
            self.can_id | GSUSB_EXT_FLAG
        } else {
            self.can_id
        };
        can_id = if self.rtr {
            can_id | GSUSB_RTR_FLAG
        } else {
            can_id
        };
        can_id = if self.err {
            can_id | GSUSB_ERR_FLAG
        } else {
            can_id
        };
        HostFrame {
            echo_id: GSUSB_TX_ECHO_ID,
            can_id,
            can_dlc: self.can_dlc,
            channel: self.channel,
            flags: if self.fd {
                GS_CAN_FLAG_FD
            } else {
                0
            },
            reserved: 0,
            data: self.data_as_array(),
        }
    }

    /// A frame with every field zero or false, 64 bytes of payload, and no timestamp.
    pub fn default() -> (f: Frame)
        ensures
            f@ == (FrameView {
                can_id: 0,
                can_dlc: 0,
                channel: 0,
                data: Seq::new(HOST_FRAME_DATA_LEN as nat, |i: int| 0u8),
                ext: false,
                fd: false,
                brs: false,
                esi: false,
                loopback: false,
                err: false,
                rtr: false,
                timestamp: None,
            }),
    {
        let mut data: Vec<u8> = Vec::new();
        while data.len() < HOST_FRAME_DATA_LEN
            invariant
                data.len() <= HOST_FRAME_DATA_LEN,
                forall|k: int| 0 <= k < data.len() ==> data@[k] == 0u8,
            decreases HOST_FRAME_DATA_LEN - data.len(),
        {
            data.push(0);
        }
        assert(data@ =~= Seq::new(HOST_FRAME_DATA_LEN as nat, |i: int| 0u8));
        Frame {
            can_id: 0,
            can_dlc: 0,
            channel: 0,
            data,
            ext: false,
            fd: false,
            brs: false,
            esi: false,
            loopback: false,
            err: false,
            rtr: false,
            timestamp: None,
        }
    }

    /// The frame that a wire frame carries. The data length code must be one that
    /// exists.
    pub fn from_host_frame(hf: HostFrame) -> (f: Frame)
        requires
            hf.can_dlc <= MAX_DLC,
        ensures
            f@ == decode(hf@),
            f.loopback <==> hf.echo_id != GSUSB_RX_ECHO_ID,
    {
        let len = dlc_to_len(hf.can_dlc);
        let mut data: Vec<u8> = Vec::new();
        let mut i: usize = 0;
        while i < len
            invariant
                i <= len <= HOST_FRAME_DATA_LEN,
                data@ == hf.data@.take(i as int),
            decreases len - i,
        {
            data.push(hf.data[i]);
            i += 1;
            assert(hf.data@.take(i as int) =~= hf.data@.take(i - 1).push(hf.data@[i - 1]));
        }
        Frame {
            can_id: hf.can_id & GSUSB_ID_MASK,
            can_dlc: hf.can_dlc,
            channel: hf.channel,
            data,
            ext: (hf.can_id & GSUSB_EXT_FLAG) != 0,
            fd: (hf.flags & GS_CAN_FLAG_FD) != 0,
            brs: (hf.flags & GS_CAN_FLAG_BRS) != 0,
            esi: (hf.flags & GS_CAN_FLAG_ESI) != 0,
            loopback: hf.echo_id != GSUSB_RX_ECHO_ID,
            err: (hf.can_id & GSUSB_ERR_FLAG) != 0,
            rtr: (hf.can_id & GSUSB_RTR_FLAG) != 0,
            timestamp: None,
        }
    }

    /// The number of payload bytes that the frame's data length code stands for. The
    /// code must be one that exists.
    pub fn data_len(&self) -> (len: usize)
        requires
            self.can_dlc <= MAX_DLC,
        ensures
            len == dlc_len(self.can_dlc),
    {
        dlc_to_len(self.can_dlc)
    }
}

} // verus!
