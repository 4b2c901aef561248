//! The words for the player when a round is over.

use crate::random::roll_range;
use vstd::prelude::*;

verus! {

/// A score below this is in the low tier.
pub const MIDDLE_TIER_FROM: i16 = 5;

/// A score from this on is in the high tier.
pub const HIGH_TIER_FROM: i16 = 20;

/// Number of messages to choose from in each tier.
pub const POOL_SIZE: u8 = 3;

/// How good a final score is.
#[derive(Clone, Copy, Debug, PartialEq, Eq, Structural)]
pub enum Tier {
    /// Below 5.
    Low,
    /// From 5, below 20.
    Middle,
    /// 20 and above.
    High,
}

impl Tier {
    /// The tier of a score.
    pub open spec fn of_score(score: int) -> Tier {
        if score < MIDDLE_TIER_FROM {
            Tier::Low
        } else if score < HIGH_TIER_FROM {
            Tier::Middle
        } else {
            Tier::High
        }
    }

    /// The tier of a score.
    pub fn for_score(score: i16) -> (tier: Tier)
        ensures
            tier == Tier::of_score(score as int),
    {
        if score < MIDDLE_TIER_FROM {
            Tier::Low
        } else if score < HIGH_TIER_FROM {
            Tier::Middle
        } else {
            Tier::High
        }
    }
}

/// The text of the message at place `pick` of a tier's pool. A pick beyond
/// the pool counts as its last place.
pub open spec fn text_of(tier: Tier, pick: int) -> Seq<char> {
    match tier {
        Tier::Low => if pick == 0 {
            "Forgot to read the rules? :D"@
        } else if pick == 1 {
            "Not really trying, are you? -_-"@
        } else {
            "Congrats for saving your energy!"@
        },
        Tier::Middle => if pick == 0 {
            "Great! Let's try for greater!"@
        } else if pick == 1 {
            "It's easy! But there's always more to achieve, right? :)"@
        } else {
            "You're good with these purple cubes, aren't you?"@
        },
        Tier::High => if pick == 0 {
            "Wow! That's amazing!"@
        } else if pick == 1 {
            "You're aiming for the sky!"@
        } else {
            "Stunning! Don't forget to take a break!"@
        },
    }
}

/// The message shown after a round: a tier and a place in its pool.
#[derive(Clone, Copy, Debug, PartialEq, Eq, Structural)]
pub struct Message {
    pub tier: Tier,
    pub pick: u8,
}

impl Message {
    /// The message for a final score and a pick from the pool.
    pub open spec fn of_score(score: int, pick: u8) -> Message {
        Message { tier: Tier::of_score(score), pick }
    }

    /// The place exists in the pool.
    pub open spec fn wf(self) -> bool {
        self.pick < POOL_SIZE
    }

    /// The message for a final score and a pick from the pool.
    pub fn for_score(score: i16, pick: u8) -> (message: Message)
        ensures
            message == Message::of_score(score as int, pick),
    {
        Message { tier: Tier::for_score(score), pick }
    }

    /// The words of the message. A pick beyond the pool counts as its last
    /// place.
    pub fn text(&self) -> (text: &'static str)
        ensures
            text@ == text_of(self.tier, self.pick as int),
    {
        match self.tier {
            Tier::Low => if self.pick == 0 {
                "Forgot to read the rules? :D"
            } else if self.pick == 1 {
                "Not really trying, are you? -_-"
            } else {
                "Congrats for saving your energy!"
            },
            Tier::Middle => if self.pick == 0 {
                "Great! Let's try for greater!"
            } else if self.pick == 1 {
                "It's easy! But there's always more to achieve, right? :)"
            } else {
                "You're good with these purple cubes, aren't you?"
            },
            Tier::High => if self.pick == 0 {
                "Wow! That's amazing!"
            } else if self.pick == 1 {
                "You're aiming for the sky!"
            } else {
                "Stunning! Don't forget to take a break!"
            },
        }
    }
}

/// The instruction shown beside the message.
pub fn instruction() -> (text: &'static str)
    ensures
        text@ == "Left arrow - Restart | Right arrow - Menu"@,
{
    "Left arrow - Restart | Right arrow - Menu"
}

/// Draws a place in a tier's pool, each with the same chance. Which one
/// depends on the generator; whatever comes back is a place of the pool.
pub fn draw_pick(rng: &mut rand::rngs::StdRng) -> (pick: u8)
    ensures
        pick < POOL_SIZE,
{
    roll_range(rng, 0, POOL_SIZE as u64) as u8
}

} // verus!
