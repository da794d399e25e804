//! Discord premium (Nitro) and guild boost capabilities. Tiers are enums and the
//! rules they gate (upload limits) are methods on them.
use vstd::prelude::*;

verus! {

/// Free-tier default, and the fallback when a tier is unknown: 10 MiB.
pub const BASE_ATTACHMENT_LIMIT_BYTES: u64 = 10485760;

/// The current user's Nitro tier, from `premium_type`. `NoNitro` is the free
/// tier.
#[derive(Clone, Copy, Debug, Eq, PartialEq, Structural)]
pub enum PremiumTier {
    NoNitro,
    NitroClassic,
    Nitro,
    NitroBasic,
}

impl Default for PremiumTier {
    fn default() -> (r: Self)
        ensures
            r == PremiumTier::NoNitro,
    {
        PremiumTier::NoNitro
    }
}

pub open spec fn premium_tier_spec(premium_type: u64) -> PremiumTier {
    if premium_type == 1 {
        PremiumTier::NitroClassic
    } else if premium_type == 2 {
        PremiumTier::Nitro
    } else if premium_type == 3 {
        PremiumTier::NitroBasic
    } else {
        PremiumTier::NoNitro
    }
}

pub open spec fn premium_limit_spec(tier: PremiumTier) -> u64 {
    match tier {
        PremiumTier::Nitro => 524288000,
        PremiumTier::NitroClassic => 52428800,
        PremiumTier::NitroBasic => 52428800,
        PremiumTier::NoNitro => BASE_ATTACHMENT_LIMIT_BYTES,
    }
}

impl PremiumTier {
    /// Unknown values fall back to `None` so a new tier cannot unlock
    /// features that were not reasoned about.
    pub fn from_premium_type(premium_type: u64) -> (r: Self)
        ensures
            r == premium_tier_spec(premium_type),
    {
        match premium_type {
            1 => PremiumTier::NitroClassic,
            2 => PremiumTier::Nitro,
            3 => PremiumTier::NitroBasic,
            _ => PremiumTier::NoNitro,
        }
    }

    pub fn has_nitro(self) -> (r: bool)
        ensures
            r == (self != PremiumTier::NoNitro),
    {
        !matches!(self, PremiumTier::NoNitro)
    }

    /// Per-file upload limit: 500 MiB for Nitro, 50 MiB for Classic and
    /// Basic, the 10 MiB base otherwise.
    pub fn attachment_limit_bytes(self) -> (r: u64)
        ensures
            r == premium_limit_spec(self),
    {
        match self {
            PremiumTier::Nitro => 524288000,
            PremiumTier::NitroClassic | PremiumTier::NitroBasic => 52428800,
            PremiumTier::NoNitro => BASE_ATTACHMENT_LIMIT_BYTES,
        }
    }
}

/// A guild's boost level, from `premium_tier`. `Unboosted` is level zero.
#[derive(Clone, Copy, Debug, Eq, PartialEq, Structural)]
pub enum GuildBoostTier {
    Unboosted,
    Tier1,
    Tier2,
    Tier3,
}

impl Default for GuildBoostTier {
    fn default() -> (r: Self)
        ensures
            r == GuildBoostTier::Unboosted,
    {
        GuildBoostTier::Unboosted
    }
}

pub open spec fn boost_tier_spec(premium_tier: u64) -> GuildBoostTier {
    if premium_tier == 1 {
        GuildBoostTier::Tier1
    } else if premium_tier == 2 {
        GuildBoostTier::Tier2
    } else if premium_tier == 3 {
        GuildBoostTier::Tier3
    } else {
        GuildBoostTier::Unboosted
    }
}

pub open spec fn boost_level_spec(tier: GuildBoostTier) -> u8 {
    match tier {
        GuildBoostTier::Unboosted => 0,
        GuildBoostTier::Tier1 => 1,
        GuildBoostTier::Tier2 => 2,
        GuildBoostTier::Tier3 => 3,
    }
}

pub open spec fn boost_limit_spec(tier: GuildBoostTier) -> u64 {
    match tier {
        GuildBoostTier::Tier3 => 104857600,
        GuildBoostTier::Tier2 => 52428800,
        GuildBoostTier::Unboosted => BASE_ATTACHMENT_LIMIT_BYTES,
        GuildBoostTier::Tier1 => BASE_ATTACHMENT_LIMIT_BYTES,
    }
}

impl GuildBoostTier {
    pub fn from_premium_tier(premium_tier: u64) -> (r: Self)
        ensures
            r == boost_tier_spec(premium_tier),
    {
        match premium_tier {
            1 => GuildBoostTier::Tier1,
            2 => GuildBoostTier::Tier2,
            3 => GuildBoostTier::Tier3,
            _ => GuildBoostTier::Unboosted,
        }
    }

    pub fn level(self) -> (r: u8)
        ensures
            r == boost_level_spec(self),
    {
        match self {
            GuildBoostTier::Unboosted => 0,
            GuildBoostTier::Tier1 => 1,
            GuildBoostTier::Tier2 => 2,
            GuildBoostTier::Tier3 => 3,
        }
    }

    /// Only tiers 2 and 3 raise the limit. Tier 1 and unboosted keep the base.
    pub fn attachment_limit_bytes(self) -> (r: u64)
        ensures
            r == boost_limit_spec(self),
    {
        match self {
            GuildBoostTier::Tier3 => 104857600,
            GuildBoostTier::Tier2 => 52428800,
            GuildBoostTier::Unboosted | GuildBoostTier::Tier1 => BASE_ATTACHMENT_LIMIT_BYTES,
        }
    }
}

pub open spec fn effective_limit_spec(user: PremiumTier, guild: Option<GuildBoostTier>) -> u64 {
    let guild_limit = match guild {
        Some(tier) => boost_limit_spec(tier),
        None => BASE_ATTACHMENT_LIMIT_BYTES,
    };
    if premium_limit_spec(user) >= guild_limit {
        premium_limit_spec(user)
    } else {
        guild_limit
    }
}

/// The more generous of the user's Nitro tier and the guild's boost tier,
/// since Discord grants whichever is higher. A `None` guild (a DM) uses only
/// the base on the guild side.
pub fn effective_attachment_limit_bytes(user: PremiumTier, guild: Option<GuildBoostTier>) -> (r: u64)
    ensures
        r == effective_limit_spec(user, guild),
{
    let guild_limit = match guild {
        Some(tier) => tier.attachment_limit_bytes(),
        None => BASE_ATTACHMENT_LIMIT_BYTES,
    };
    let user_limit = user.attachment_limit_bytes();
    if user_limit >= guild_limit {
        user_limit
    } else {
        guild_limit
    }
}

/// No tier ever allows less than the base limit, and the effective limit is
/// never below either side's own limit.
pub proof fn lemma_effective_limit_is_generous(user: PremiumTier, guild: Option<GuildBoostTier>)
    ensures
        effective_limit_spec(user, guild) >= BASE_ATTACHMENT_LIMIT_BYTES,
        effective_limit_spec(user, guild) >= premium_limit_spec(user),
        guild matches Some(tier) ==> effective_limit_spec(user, guild) >= boost_limit_spec(tier),
{
}

} // verus!
