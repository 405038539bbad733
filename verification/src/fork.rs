//! The fork timeline and the opcode groups.

use vstd::prelude::*;

verus! {

/// Ethereum hard fork identifiers in chronological order.
///
/// The order of the timeline is carried by [`Fork::epoch`], an explicit
/// ordinal; every "is this fork at or after that one" question in the
/// crate compares epochs.
#[derive(Clone, Copy, Debug, PartialOrd, Ord, PartialEq, Eq, Hash, Structural)]
pub enum Fork {
    /// Frontier (July 30, 2015) - Genesis block
    Frontier,
    /// Ice Age (September 7, 2015) - Difficulty bomb introduction
    IceAge,
    /// Homestead (March 14, 2016) - First major upgrade
    Homestead,
    /// DAO Fork (July 20, 2016) - Emergency response to DAO hack
    DaoFork,
    /// Tangerine Whistle (October 18, 2016) - Gas cost adjustments
    TangerineWhistle,
    /// Spurious Dragon (November 22, 2016) - More gas adjustments
    SpuriousDragon,
    /// Byzantium (October 16, 2017) - Metropolis part 1
    Byzantium,
    /// Constantinople (February 28, 2019) - Metropolis part 2
    Constantinople,
    /// Petersburg (February 28, 2019) - Constantinople fix
    Petersburg,
    /// Istanbul (December 8, 2019) - Gas optimizations
    Istanbul,
    /// Muir Glacier (January 2, 2020) - Difficulty bomb delay
    MuirGlacier,
    /// Berlin (April 15, 2021) - Gas cost changes
    Berlin,
    /// London (August 5, 2021) - EIP-1559 fee market
    London,
    /// Altair (October 27, 2021) - Beacon Chain upgrade
    Altair,
    /// Arrow Glacier (December 9, 2021) - Difficulty bomb delay
    ArrowGlacier,
    /// Gray Glacier (June 30, 2022) - Difficulty bomb delay
    GrayGlacier,
    /// Bellatrix (September 6, 2022) - Beacon Chain prep for merge
    Bellatrix,
    /// Paris (September 15, 2022) - The Merge to Proof of Stake
    Paris,
    /// Shanghai (April 12, 2023) - Withdrawals enabled
    Shanghai,
    /// Capella (April 12, 2023) - Beacon Chain withdrawals
    Capella,
    /// Cancun (March 13, 2024) - Proto-danksharding
    Cancun,
    /// Deneb (March 13, 2024) - Beacon Chain blobs
    Deneb,
}

/// Number of forks on the timeline; epochs run from 0 to one less.
pub const FORK_COUNT: u8 = 22;

impl Fork {
    /// Position of the fork on the timeline, Frontier being 0.
    pub open spec fn spec_epoch(self) -> u8 {
        match self {
            Fork::Frontier => 0,
            Fork::IceAge => 1,
            Fork::Homestead => 2,
            Fork::DaoFork => 3,
            Fork::TangerineWhistle => 4,
            Fork::SpuriousDragon => 5,
            Fork::Byzantium => 6,
            Fork::Constantinople => 7,
            Fork::Petersburg => 8,
            Fork::Istanbul => 9,
            Fork::MuirGlacier => 10,
            Fork::Berlin => 11,
            Fork::London => 12,
            Fork::Altair => 13,
            Fork::ArrowGlacier => 14,
            Fork::GrayGlacier => 15,
            Fork::Bellatrix => 16,
            Fork::Paris => 17,
            Fork::Shanghai => 18,
            Fork::Capella => 19,
            Fork::Cancun => 20,
            Fork::Deneb => 21,
        }
    }

    /// The fork that stands at `epoch`, if the timeline reaches that far.
    pub open spec fn spec_from_epoch(epoch: u8) -> Option<Fork> {
        match epoch {
            0 => Some(Fork::Frontier),
            1 => Some(Fork::IceAge),
            2 => Some(Fork::Homestead),
            3 => Some(Fork::DaoFork),
            4 => Some(Fork::TangerineWhistle),
            5 => Some(Fork::SpuriousDragon),
            6 => Some(Fork::Byzantium),
            7 => Some(Fork::Constantinople),
            8 => Some(Fork::Petersburg),
            9 => Some(Fork::Istanbul),
            10 => Some(Fork::MuirGlacier),
            11 => Some(Fork::Berlin),
            12 => Some(Fork::London),
            13 => Some(Fork::Altair),
            14 => Some(Fork::ArrowGlacier),
            15 => Some(Fork::GrayGlacier),
            16 => Some(Fork::Bellatrix),
            17 => Some(Fork::Paris),
            18 => Some(Fork::Shanghai),
            19 => Some(Fork::Capella),
            20 => Some(Fork::Cancun),
            21 => Some(Fork::Deneb),
            _ => None,
        }
    }

    /// `self` is `other` or comes after it on the timeline.
    pub open spec fn spec_at_least(self, other: Fork) -> bool {
        self.spec_epoch() >= other.spec_epoch()
    }

    /// Position of the fork on the timeline, Frontier being 0.
    #[verifier::when_used_as_spec(spec_epoch)]
    pub fn epoch(self) -> (e: u8)
        ensures
            e == self.spec_epoch(),
            e < FORK_COUNT,
    {
        match self {
            Fork::Frontier => 0,
            Fork::IceAge => 1,
            Fork::Homestead => 2,
            Fork::DaoFork => 3,
            Fork::TangerineWhistle => 4,
            Fork::SpuriousDragon => 5,
            Fork::Byzantium => 6,
            Fork::Constantinople => 7,
            Fork::Petersburg => 8,
            Fork::Istanbul => 9,
            Fork::MuirGlacier => 10,
            Fork::Berlin => 11,
            Fork::London => 12,
            Fork::Altair => 13,
            Fork::ArrowGlacier => 14,
            Fork::GrayGlacier => 15,
            Fork::Bellatrix => 16,
            Fork::Paris => 17,
            Fork::Shanghai => 18,
            Fork::Capella => 19,
            Fork::Cancun => 20,
            Fork::Deneb => 21,
        }
    }

    /// The fork that stands at `epoch`; `None` past the end of the timeline.
    #[verifier::when_used_as_spec(spec_from_epoch)]
    pub fn from_epoch(epoch: u8) -> (f: Option<Fork>)
        ensures
            f == Fork::spec_from_epoch(epoch),
            f is Some <==> epoch < FORK_COUNT,
            f is Some ==> f->0.spec_epoch() == epoch,
    {
        match epoch {
            0 => Some(Fork::Frontier),
            1 => Some(Fork::IceAge),
            2 => Some(Fork::Homestead),
            3 => Some(Fork::DaoFork),
            4 => Some(Fork::TangerineWhistle),
            5 => Some(Fork::SpuriousDragon),
            6 => Some(Fork::Byzantium),
            7 => Some(Fork::Constantinople),
            8 => Some(Fork::Petersburg),
            9 => Some(Fork::Istanbul),
            10 => Some(Fork::MuirGlacier),
            11 => Some(Fork::Berlin),
            12 => Some(Fork::London),
            13 => Some(Fork::Altair),
            14 => Some(Fork::ArrowGlacier),
            15 => Some(Fork::GrayGlacier),
            16 => Some(Fork::Bellatrix),
            17 => Some(Fork::Paris),
            18 => Some(Fork::Shanghai),
            19 => Some(Fork::Capella),
            20 => Some(Fork::Cancun),
            21 => Some(Fork::Deneb),
            _ => None,
        }
    }

    /// `self` is `other` or comes after it on the timeline.
    #[verifier::when_used_as_spec(spec_at_least)]
    pub fn at_least(self, other: Fork) -> (r: bool)
        ensures
            r == self.spec_at_least(other),
    {
        self.epoch() >= other.epoch()
    }

    /// The name of the fork, as its variant is written.
    pub open spec fn spec_name(self) -> Seq<char> {
        match self {
            Fork::Frontier => "Frontier"@,
            Fork::IceAge => "IceAge"@,
            Fork::Homestead => "Homestead"@,
            Fork::DaoFork => "DaoFork"@,
            Fork::TangerineWhistle => "TangerineWhistle"@,
            Fork::SpuriousDragon => "SpuriousDragon"@,
            Fork::Byzantium => "Byzantium"@,
            Fork::Constantinople => "Constantinople"@,
            Fork::Petersburg => "Petersburg"@,
            Fork::Istanbul => "Istanbul"@,
            Fork::MuirGlacier => "MuirGlacier"@,
            Fork::Berlin => "Berlin"@,
            Fork::London => "London"@,
            Fork::Altair => "Altair"@,
            Fork::ArrowGlacier => "ArrowGlacier"@,
            Fork::GrayGlacier => "GrayGlacier"@,
            Fork::Bellatrix => "Bellatrix"@,
            Fork::Paris => "Paris"@,
            Fork::Shanghai => "Shanghai"@,
            Fork::Capella => "Capella"@,
            Fork::Cancun => "Cancun"@,
            Fork::Deneb => "Deneb"@,
        }
    }

    /// The name of the fork, as its variant is written.
    pub fn name(self) -> (s: &'static str)
        ensures
            s@ == self.spec_name(),
    {
        match self {
            Fork::Frontier => "Frontier",
            Fork::IceAge => "IceAge",
            Fork::Homestead => "Homestead",
            Fork::DaoFork => "DaoFork",
            Fork::TangerineWhistle => "TangerineWhistle",
            Fork::SpuriousDragon => "SpuriousDragon",
            Fork::Byzantium => "Byzantium",
            Fork::Constantinople => "Constantinople",
            Fork::Petersburg => "Petersburg",
            Fork::Istanbul => "Istanbul",
            Fork::MuirGlacier => "MuirGlacier",
            Fork::Berlin => "Berlin",
            Fork::London => "London",
            Fork::Altair => "Altair",
            Fork::ArrowGlacier => "ArrowGlacier",
            Fork::GrayGlacier => "GrayGlacier",
            Fork::Bellatrix => "Bellatrix",
            Fork::Paris => "Paris",
            Fork::Shanghai => "Shanghai",
            Fork::Capella => "Capella",
            Fork::Cancun => "Cancun",
            Fork::Deneb => "Deneb",
        }
    }
}

/// The epoch of a fork names that fork again: the timeline has no two
/// forks at one position.
pub proof fn lemma_epoch_round_trip(f: Fork)
    ensures
        Fork::spec_from_epoch(f.spec_epoch()) == Some(f),
{
}

/// EVM opcode groups, by the byte range an opcode stands in.
#[derive(Clone, Copy, Debug, PartialOrd, Ord, PartialEq, Eq, Hash, Structural)]
pub enum Group {
    /// Stop and Arithmetic Operations (0x00-0x0f)
    StopArithmetic,
    /// Comparison & Bitwise Logic Operations (0x10-0x1f)
    ComparisonBitwiseLogic,
    /// SHA3 (0x20)
    Sha3,
    /// Environmental Information (0x30-0x3f)
    EnvironmentalInformation,
    /// Block Information (0x40-0x4f)
    BlockInformation,
    /// Stack, Memory, Storage and Flow Operations (0x50-0x5f)
    StackMemoryStorageFlow,
    /// Push Operations (0x60-0x7f)
    Push,
    /// Duplication Operations (0x80-0x8f)
    Duplication,
    /// Exchange Operations (0x90-0x9f)
    Exchange,
    /// Logging Operations (0xa0-0xa4)
    Logging,
    /// System operations (0xf0-0xff)
    System,
}

} // verus!
