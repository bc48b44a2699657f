//! The parameters of a flock.

use vstd::prelude::*;
use crate::scalar::Scalar;

verus! {

/// The pattern of `100`.
pub const HUNDRED_BITS: u64 = 0x4059_0000_0000_0000;

/// The pattern of `8`.
pub const EIGHT_BITS: u64 = 0x4020_0000_0000_0000;

/// The pattern of `4`.
pub const FOUR_BITS: u64 = 0x4010_0000_0000_0000;

/// The pattern of `500`.
pub const FIVE_HUNDRED_BITS: u64 = 0x407f_4000_0000_0000;

/// The pattern of `300`.
pub const THREE_HUNDRED_BITS: u64 = 0x4072_c000_0000_0000;

/// What tunes the three rules and bounds the world. A flock holds one, and
/// takes another only as a whole.
#[derive(Clone, Copy, Debug)]
pub struct BoidConfig {
    /// The radius within which an agent is pushed away from its neighbours.
    pub separation: Scalar,
    /// What the summed velocities of the others are divided by.
    pub alignment: Scalar,
    /// What the summed positions of the others are divided by.
    pub cohesion: Scalar,
    /// The greatest speed that the rules alone may give an agent.
    pub limit: Scalar,
    /// The world reaches from 0 to `width` along x.
    pub width: Scalar,
    /// The world reaches from 0 to `height` along y.
    pub height: Scalar,
}

impl BoidConfig {
    /// The parameters that [`BoidConfig::default`] gives: a radius of 100,
    /// divisors of 100 and 8, a speed limit of 4, a world of 500 by 300.
    pub open spec fn default_value() -> BoidConfig {
        BoidConfig {
            separation: Scalar { bits: HUNDRED_BITS },
            alignment: Scalar { bits: HUNDRED_BITS },
            cohesion: Scalar { bits: EIGHT_BITS },
            limit: Scalar { bits: FOUR_BITS },
            width: Scalar { bits: FIVE_HUNDRED_BITS },
            height: Scalar { bits: THREE_HUNDRED_BITS },
        }
    }

    /// The parameters as given.
    pub fn new(
        separation: Scalar,
        alignment: Scalar,
        cohesion: Scalar,
        limit: Scalar,
        width: Scalar,
        height: Scalar,
    ) -> (r: BoidConfig)
        ensures
            r == (BoidConfig { separation, alignment, cohesion, limit, width, height }),
    {
        BoidConfig { separation, alignment, cohesion, limit, width, height }
    }
}

impl Default for BoidConfig {
    /// A radius of 100, divisors of 100 and 8, a speed limit of 4, a world
    /// of 500 by 300.
    fn default() -> (r: BoidConfig)
        ensures
            r == BoidConfig::default_value(),
    {
        BoidConfig {
            separation: Scalar::from_bits(HUNDRED_BITS),
            alignment: Scalar::from_bits(HUNDRED_BITS),
            cohesion: Scalar::from_bits(EIGHT_BITS),
            limit: Scalar::from_bits(FOUR_BITS),
            width: Scalar::from_bits(FIVE_HUNDRED_BITS),
            height: Scalar::from_bits(THREE_HUNDRED_BITS),
        }
    }
}

} // verus!
