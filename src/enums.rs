//! The regions, queues, tiers and divisions that endpoint addresses name, each
//! with the label that the API uses for it.
use vstd::prelude::*;

verus! {

/// Ranked divisions in league of legends.
#[derive(Clone, Copy, Debug, PartialEq, Eq, Structural)]
pub enum Division {
    One,
    Two,
    Three,
    Four,
}

/// League of legends queues.
#[derive(Clone, Copy, Debug, PartialEq, Eq, Structural)]
pub enum Queue {
    RankedSoloQueue,
    RankedFlexQueue,
    RankedFlexTwistedTreeline,
}

/// All regions available for the riot API.
#[derive(Clone, Copy, Debug, PartialEq, Eq, Structural)]
pub enum Region {
    Brazil,
    EuropeNordicAndEast,
    EuropeWest,
    Japan,
    Korea,
    LatinAmericaNorth,
    LatinAmericaSouth,
    NorthAmerica,
    Oceania,
    Turkey,
    Russia,
}

/// Ranked tiers in league of legends.
#[derive(Clone, Copy, Debug, PartialEq, Eq, Structural)]
pub enum Tier {
    Iron,
    Bronze,
    Silver,
    Gold,
    Platinum,
    Diamond,
}

pub open spec fn division_label(d: Division) -> Seq<char> {
    match d {
        Division::One => "I"@,
        Division::Two => "II"@,
        Division::Three => "III"@,
        Division::Four => "IV"@,
    }
}

pub open spec fn queue_label(q: Queue) -> Seq<char> {
    match q {
        Queue::RankedSoloQueue => "RANKED_SOLO_5x5"@,
        Queue::RankedFlexQueue => "RANKED_FLEX_SR"@,
        Queue::RankedFlexTwistedTreeline => "RANKED_FLEX_TT"@,
    }
}

/// The host that serves a region.
pub open spec fn region_host(r: Region) -> Seq<char> {
    match r {
        Region::Brazil => "br1.api.riotgames.com"@,
        Region::EuropeNordicAndEast => "eun1.api.riotgames.com"@,
        Region::EuropeWest => "euw1.api.riotgames.com"@,
        Region::Japan => "jp1.api.riotgames.com"@,
        Region::Korea => "kr.api.riotgames.com"@,
        Region::LatinAmericaNorth => "la1.api.riotgames.com"@,
        Region::LatinAmericaSouth => "la2.api.riotgames.com"@,
        Region::NorthAmerica => "na1.api.riotgames.com"@,
        Region::Oceania => "oc1.api.riotgames.com"@,
        Region::Turkey => "tr1.api.riotgames.com"@,
        Region::Russia => "ru.api.riotgames.com"@,
    }
}

pub open spec fn tier_label(t: Tier) -> Seq<char> {
    match t {
        Tier::Iron => "IRON"@,
        Tier::Bronze => "BRONZE"@,
        Tier::Silver => "SILVER"@,
        Tier::Gold => "GOLD"@,
        Tier::Platinum => "PLATINUM"@,
        Tier::Diamond => "DIAMOND"@,
    }
}

impl Division {
    /// The label of the division: `I` to `IV`.
    pub fn as_str(&self) -> (s: &'static str)
        ensures
            s@ == division_label(*self),
    {
        match self {
            Division::One => "I",
            Division::Two => "II",
            Division::Three => "III",
            Division::Four => "IV",
        }
    }
}

impl Queue {
    /// The label of the queue, such as `RANKED_SOLO_5x5`.
    pub fn as_str(&self) -> (s: &'static str)
        ensures
            s@ == queue_label(*self),
    {
        match self {
            Queue::RankedSoloQueue => "RANKED_SOLO_5x5",
            Queue::RankedFlexQueue => "RANKED_FLEX_SR",
            Queue::RankedFlexTwistedTreeline => "RANKED_FLEX_TT",
        }
    }
}

/// Every region, in the order of declaration.
pub open spec fn all_regions() -> Seq<Region> {
    seq![
        Region::Brazil,
        Region::EuropeNordicAndEast,
        Region::EuropeWest,
        Region::Japan,
        Region::Korea,
        Region::LatinAmericaNorth,
        Region::LatinAmericaSouth,
        Region::NorthAmerica,
        Region::Oceania,
        Region::Turkey,
        Region::Russia,
    ]
}

impl Region {
    /// Every region, in the order of declaration.
    pub fn all() -> (regions: Vec<Region>)
        ensures
            regions@ == all_regions(),
    {
        let regions = vec![
            Region::Brazil,
            Region::EuropeNordicAndEast,
            Region::EuropeWest,
            Region::Japan,
            Region::Korea,
            Region::LatinAmericaNorth,
            Region::LatinAmericaSouth,
            Region::NorthAmerica,
            Region::Oceania,
            Region::Turkey,
            Region::Russia,
        ];
        proof {
            assert(regions@ =~= all_regions());
        }
        regions
    }

    /// The host that serves the region, such as `na1.api.riotgames.com`.
    pub fn as_str(&self) -> (s: &'static str)
        ensures
            s@ == region_host(*self),
    {
        match self {
            Region::Brazil => "br1.api.riotgames.com",
            Region::EuropeNordicAndEast => "eun1.api.riotgames.com",
            Region::EuropeWest => "euw1.api.riotgames.com",
            Region::Japan => "jp1.api.riotgames.com",
            Region::Korea => "kr.api.riotgames.com",
            Region::LatinAmericaNorth => "la1.api.riotgames.com",
            Region::LatinAmericaSouth => "la2.api.riotgames.com",
            Region::NorthAmerica => "na1.api.riotgames.com",
            Region::Oceania => "oc1.api.riotgames.com",
            Region::Turkey => "tr1.api.riotgames.com",
            Region::Russia => "ru.api.riotgames.com",
        }
    }
}

impl Tier {
    /// The label of the tier, such as `DIAMOND`.
    pub fn as_str(&self) -> (s: &'static str)
        ensures
            s@ == tier_label(*self),
    {
        match self {
            Tier::Iron => "IRON",
            Tier::Bronze => "BRONZE",
            Tier::Silver => "SILVER",
            Tier::Gold => "GOLD",
            Tier::Platinum => "PLATINUM",
            Tier::Diamond => "DIAMOND",
        }
    }
}

} // verus!
