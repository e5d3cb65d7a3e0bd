//! Channel identities and the per-channel G weights of the loudness formula.

use vstd::prelude::*;

use crate::arith::ONE_BITS;
use crate::frame::{Frame, MAX_CHANNELS};

verus! {

/// Bit pattern of 1.41, the weight of the surround channels.
pub const SURROUND_WEIGHT_BITS: u64 = 0x3FF6_8F5C_28F5_C28F;

/// The five channels of a frame, in channel order.
#[derive(Copy, Clone, Debug)]
pub enum Channel {
    Left,
    Right,
    Center,
    LeftSurround,
    RightSurround,
}

impl Channel {
    /// The G weight of this channel: 1.0 for the front channels and 1.41
    /// for the surround channels.
    pub open spec fn weight_spec(self) -> u64 {
        match self {
            Channel::Left => ONE_BITS,
            Channel::Right => ONE_BITS,
            Channel::Center => ONE_BITS,
            Channel::LeftSurround => SURROUND_WEIGHT_BITS,
            Channel::RightSurround => SURROUND_WEIGHT_BITS,
        }
    }

    pub fn weight(&self) -> (r: u64)
        ensures
            r == self.weight_spec(),
    {
        match self {
            Channel::Left => ONE_BITS,
            Channel::Right => ONE_BITS,
            Channel::Center => ONE_BITS,
            Channel::LeftSurround => SURROUND_WEIGHT_BITS,
            Channel::RightSurround => SURROUND_WEIGHT_BITS,
        }
    }

    /// How many channels there are.
    pub fn count() -> (n: usize)
        ensures
            n == MAX_CHANNELS,
    {
        MAX_CHANNELS
    }
}

/// The canonical G weights `[1.0, 1.0, 1.0, 1.41, 1.41]` as a frame view.
pub open spec fn channel_g_weights() -> Seq<u64> {
    seq![ONE_BITS, ONE_BITS, ONE_BITS, SURROUND_WEIGHT_BITS, SURROUND_WEIGHT_BITS]
}

/// The canonical G weights `[1.0, 1.0, 1.0, 1.41, 1.41]` as a frame.
pub fn default_g_weights() -> (r: Frame)
    ensures
        r@ == channel_g_weights(),
        r.wf(),
{
    let mut v: Vec<u64> = Vec::new();
    v.push(ONE_BITS);
    v.push(ONE_BITS);
    v.push(ONE_BITS);
    v.push(SURROUND_WEIGHT_BITS);
    v.push(SURROUND_WEIGHT_BITS);
    let r = Frame::new(v);
    proof {
        assert(r@ =~= channel_g_weights());
    }
    r
}

} // verus!
