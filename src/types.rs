use vstd::prelude::*;

verus! {

/// An opaque 32-byte account identifier (a user, a market, a signer).
#[derive(Clone, Copy, Debug)]
pub struct AccountKey {
    pub bytes: [u8; 32],
}

impl AccountKey {
    pub open spec fn spec_is_default(&self) -> bool {
        forall|i: int| 0 <= i < 32 ==> #[trigger] self.bytes@[i] == 0
    }

    pub fn new(bytes: [u8; 32]) -> (r: AccountKey)
        ensures
            r.bytes@ == bytes@,
    {
        AccountKey { bytes }
    }

    /// The all-zero key, which marks a record that has not been initialised.
    pub fn default_key() -> (r: AccountKey)
        ensures
            r.spec_is_default(),
    {
        AccountKey { bytes: [0u8; 32] }
    }

    /// Whether two keys hold the same bytes.
    pub fn same_as(&self, other: &AccountKey) -> (r: bool)
        ensures
            r == (self.bytes@ == other.bytes@),
    {
        let mut i: usize = 0;
        while i < 32
            invariant
                0 <= i <= 32,
                self.bytes@.len() == 32,
                other.bytes@.len() == 32,
                forall|j: int| 0 <= j < i ==> self.bytes@[j] == other.bytes@[j],
            decreases 32 - i,
        {
            if self.bytes[i] != other.bytes[i] {
                return false;
            }
            i = i + 1;
        }
        assert(self.bytes@ =~= other.bytes@);
        true
    }

    /// Whether this is the all-zero key.
    pub fn is_default(&self) -> (r: bool)
        ensures
            r == self.spec_is_default(),
    {
        let mut i: usize = 0;
        while i < 32
            invariant
                0 <= i <= 32,
                self.bytes@.len() == 32,
                forall|j: int| 0 <= j < i ==> self.bytes@[j] == 0,
            decreases 32 - i,
        {
            if self.bytes[i] != 0 {
                return false;
            }
            i = i + 1;
        }
        true
    }
}

/// The outcome a position backs, or that a market resolved to.
#[derive(Clone, Copy, Debug, PartialEq, Eq, Structural)]
pub enum Outcome {
    Yes,
    No,
    Other(u8),
}

#[derive(Clone, Copy, Debug, PartialEq, Eq, Structural)]
pub enum MarketStatus {
    Active,
    Paused,
    Resolved,
    Disputed,
    Blacklisted,
}

#[derive(Clone, Copy, Debug, PartialEq, Eq, Structural)]
pub enum ResolutionMethod {
    Oracle,
    CommunityVote,
    ExpertPanel,
    TimeBased,
}

#[derive(Clone, Copy, Debug, PartialEq, Eq, Structural)]
pub enum EvidenceType {
    Scientific,
    Governmental,
    Media,
    Community,
    ChainlinkOracle,
}

#[derive(Clone, Copy, Debug, PartialEq, Eq, Structural)]
pub enum ModerationType {
    Automatic,
    Community,
    Legal,
}

#[derive(Clone, Copy, Debug, PartialEq, Eq, Structural)]
pub enum HumanProofType {
    ProofOfHumanity,
    BrightID,
    GitcoinPassport,
}

#[derive(Clone, Copy, Debug, PartialEq, Eq, Structural)]
pub enum Badge {
    HighAccuracy,
    EarlyAdopter,
    EvidenceContributor,
    CommunityModerator,
    OracleValidator,
}

#[derive(Clone, Copy, Debug, PartialEq, Eq, Structural)]
pub enum EmergencyActionType {
    PauseMarket,
    BlacklistMarket,
    FreezeFunds,
    ForceResolution,
}

#[derive(Clone, Copy, Debug, PartialEq, Eq, Structural)]
pub enum ReportStatus {
    Pending,
    UnderReview,
    Resolved,
    Dismissed,
}

#[derive(Clone, Copy, Debug, PartialEq, Eq, Structural)]
pub enum ModerationAction {
    NoAction,
    Warning,
    ContentFlag,
    MarketPause,
    MarketRemoval,
}

#[derive(Clone, Copy, Debug, PartialEq, Eq, Structural)]
pub enum MetaPredictionType {
    MediaAccuracy,
    PublicReaction,
    MarketInfluence,
    ExpertOpinion,
}

#[derive(Clone, Copy, Debug, PartialEq, Eq, Structural)]
pub enum FactCheckVerdict {
    True,
    False,
    Misleading,
    Unverified,
}

} // verus!
