//! The four records of the ledger and the identities that link them.

use vstd::prelude::*;
use vstd::std_specs::cmp::PartialEqSpecImpl;

verus! {

/// The identity of a caller or of a stored record: 32 opaque bytes.
#[derive(Clone, Copy, Debug)]
pub struct Pubkey {
    pub bytes: [u8; 32],
}

impl View for Pubkey {
    type V = Seq<u8>;

    open spec fn view(&self) -> Seq<u8> {
        self.bytes@
    }
}

impl Pubkey {
    /// Wraps 32 bytes as an identity.
    pub fn new_from_array(bytes: [u8; 32]) -> (r: Pubkey)
        ensures
            r@ == bytes@,
            r.bytes == bytes,
    {
        Pubkey { bytes }
    }

    /// Returns the 32 bytes of this identity.
    pub fn to_bytes(&self) -> (r: [u8; 32])
        ensures
            r@ == self@,
            r == self.bytes,
    {
        self.bytes
    }
}

impl PartialEq for Pubkey {
    /// Two identities are equal when all of their bytes are.
    fn eq(&self, other: &Pubkey) -> (r: bool) {
        let mut i: usize = 0;
        while i < 32
            invariant
                i <= 32,
                forall|j: int| 0 <= j < i ==> self.bytes@[j] == other.bytes@[j],
            decreases 32 - i,
        {
            if self.bytes[i] != other.bytes[i] {
                return false;
            }
            i += 1;
        }
        proof {
            assert(self.bytes@ =~= other.bytes@);
        }
        true
    }
}

impl Eq for Pubkey {}

impl PartialEqSpecImpl for Pubkey {
    open spec fn obeys_eq_spec() -> bool {
        true
    }

    open spec fn eq_spec(&self, other: &Pubkey) -> bool {
        self@ == other@
    }
}

impl Default for Pubkey {
    /// The identity whose bytes are all zero.
    fn default() -> (r: Pubkey)
        ensures
            r@ == Seq::new(32, |i: int| 0u8),
    {
        let r = Pubkey { bytes: [0u8; 32] };
        proof {
            assert(r@ =~= Seq::new(32, |i: int| 0u8));
        }
        r
    }
}

/// Whether a study still runs.
#[derive(Clone, Copy, Debug, PartialEq, Eq, Structural)]
pub enum StudyStatus {
    Open,
    Closed,
}

/// A research study, owned by the researcher who registered it.
#[derive(Clone, Debug, PartialEq, Eq)]
pub struct Study {
    /// The researcher who controls the study.
    pub researcher: Pubkey,
    /// Where the study's description is stored; never interpreted.
    pub ipfs_cid: String,
    /// The vault that holds the study's reward.
    pub reward_vault: Pubkey,
    /// The reward that the researcher intends to fund.
    pub reward_amount: u64,
    /// Open until the researcher closes the study; closed for good afterwards.
    pub status: StudyStatus,
}

impl Study {
    pub open spec fn spec_is_open(&self) -> bool {
        self.status == StudyStatus::Open
    }

    pub open spec fn spec_is_closed(&self) -> bool {
        self.status == StudyStatus::Closed
    }

    /// Whether the study still runs.
    #[verifier::when_used_as_spec(spec_is_open)]
    pub fn is_open(&self) -> (r: bool)
        ensures
            r == (self.status == StudyStatus::Open),
            r != self.spec_is_closed(),
    {
        match self.status {
            StudyStatus::Open => true,
            StudyStatus::Closed => false,
        }
    }

    /// Whether the study has been closed.
    #[verifier::when_used_as_spec(spec_is_closed)]
    pub fn is_closed(&self) -> (r: bool)
        ensures
            r == (self.status == StudyStatus::Closed),
            r != self.spec_is_open(),
    {
        match self.status {
            StudyStatus::Open => false,
            StudyStatus::Closed => true,
        }
    }
}

/// A registered participant, owned by the wallet that registered it.
#[derive(Clone, Debug, PartialEq, Eq)]
pub struct Participant {
    /// The wallet that controls the participant record.
    pub wallet: Pubkey,
    /// Where the participant's profile is stored; never interpreted.
    pub ipfs_cid: String,
    /// Where the participant's credentials are stored, if any were given.
    pub credentials_cid: Option<String>,
}

/// One participant's agreement to take part in one study.
#[derive(Clone, Copy, Debug, PartialEq, Eq)]
pub struct Consent {
    /// The participant who controls the consent.
    pub participant: Pubkey,
    /// The study that the consent is for.
    pub study: Pubkey,
    /// When the consent was given, in seconds since the Unix epoch.
    pub timestamp: i64,
    /// True from creation until the consent is revoked or spent on a claim.
    pub active: bool,
    /// The token that proves the consent, if one was minted.
    pub mint: Option<Pubkey>,
}

impl Consent {
    pub open spec fn spec_is_active(&self) -> bool {
        self.active
    }

    pub open spec fn spec_is_revoked(&self) -> bool {
        !self.active
    }

    /// Whether the consent still stands.
    #[verifier::when_used_as_spec(spec_is_active)]
    pub fn is_active(&self) -> (r: bool)
        ensures
            r == self.active,
    {
        self.active
    }

    /// Whether the consent has been revoked or spent on a claim.
    #[verifier::when_used_as_spec(spec_is_revoked)]
    pub fn is_revoked(&self) -> (r: bool)
        ensures
            r == !self.active,
    {
        !self.active
    }
}

/// The balance from which a study's reward is paid.
#[derive(Clone, Copy, Debug, PartialEq, Eq)]
pub struct RewardVault {
    /// The study that owns the vault.
    pub study: Pubkey,
    /// What the vault holds; a claim takes all of it.
    pub balance: u64,
}

impl RewardVault {
    pub open spec fn spec_has_balance(&self) -> bool {
        self.balance > 0
    }

    /// Whether the vault holds anything that could be paid out.
    #[verifier::when_used_as_spec(spec_has_balance)]
    pub fn has_balance(&self) -> (r: bool)
        ensures
            r == (self.balance > 0),
    {
        self.balance > 0
    }
}

} // verus!
