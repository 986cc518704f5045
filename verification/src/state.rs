//! Data model of the crowdfunding engine.
//!
//! Identities (the platform's payout identity, a campaign's creator, a ledger
//! entry's owner) are opaque signing keys: the substrate authenticates them,
//! and the engine only ever compares them for equality. They are therefore
//! modeled as plain `u64` values.

use vstd::prelude::*;

verus! {

/// Smallest currency denomination units per whole token.
pub const UNITS_PER_TOKEN: u64 = 1_000_000_000;

/// Minimum goal of a campaign: one whole token.
pub const MIN_GOAL: u64 = UNITS_PER_TOKEN;

/// Minimum accepted donation, in smallest denomination units.
pub const MIN_DONATION: u64 = 1_000_000;

/// Minimum withdrawal: one whole token; withdrawals cannot be fragmented
/// below this, unlike donations.
pub const MIN_WITHDRAWAL: u64 = UNITS_PER_TOKEN;

/// Longest allowed campaign title, in characters.
pub const MAX_TITLE_LEN: u64 = 64;

/// Longest allowed campaign description, in characters.
pub const MAX_DESCRIPTION_LEN: u64 = 512;

/// Longest allowed campaign image URL, in characters.
pub const MAX_IMAGE_URL_LEN: u64 = 256;

/// Lowest allowed platform fee percentage.
pub const MIN_PLATFORM_FEE: u64 = 1;

/// Highest allowed platform fee percentage.
pub const MAX_PLATFORM_FEE: u64 = 15;

/// Fee percentage installed at initialization.
pub const INITIAL_PLATFORM_FEE: u64 = 5;

/// Global platform configuration: a singleton created once at initialization
/// and never destroyed.
pub struct ProgramState {
    /// Guards against re-initialization.
    pub initialized: bool,
    /// Monotonically increasing sequence; new campaign ids are derived from it.
    pub campaign_count: u64,
    /// Integer fee percentage, kept within `MIN_PLATFORM_FEE..=MAX_PLATFORM_FEE`.
    pub platform_fee: u64,
    /// Identity that may update fee settings and that receives fee payouts.
    pub platform_address: u64,
}

impl ProgramState {
    /// Well-formedness: once initialized, the fee percentage stays in range.
    pub open spec fn wf(self) -> bool {
        self.initialized ==> MIN_PLATFORM_FEE <= self.platform_fee <= MAX_PLATFORM_FEE
    }

    /// The zeroed, not yet initialized configuration record, as the substrate
    /// hands it out before the one-time initialization.
    pub fn new() -> (s: ProgramState)
        ensures
            s == (ProgramState {
                initialized: false,
                campaign_count: 0,
                platform_fee: 0,
                platform_address: 0,
            }),
            s.wf(),
    {
        ProgramState { initialized: false, campaign_count: 0, platform_fee: 0, platform_address: 0 }
    }
}

/// Per-campaign mutable record.
#[derive(Debug)]
pub struct Campaign {
    /// Campaign id, assigned from the global sequence at creation, immutable.
    pub cid: u64,
    /// Identity of the creator, immutable, set at creation.
    pub creator: u64,
    /// Display title, at most `MAX_TITLE_LEN` characters.
    pub title: String,
    /// Description, at most `MAX_DESCRIPTION_LEN` characters.
    pub description: String,
    /// Image URL, at most `MAX_IMAGE_URL_LEN` characters.
    pub image_url: String,
    /// Funding goal in smallest denomination units, at least `MIN_GOAL`.
    pub goal: u64,
    /// Total ever donated; monotonically non-decreasing.
    pub amount_raised: u64,
    /// Wall-clock timestamp of creation, immutable.
    pub timestamp: u64,
    /// Number of accepted donations; used to key ledger entries.
    pub donors: u64,
    /// Number of completed withdrawals; used to key ledger entries.
    pub withdrawals: u64,
    /// Funds currently custodied and not yet withdrawn.
    pub balance: u64,
    /// True from creation until explicit deactivation; never reset to true.
    pub active: bool,
}

impl Campaign {
    /// Well-formedness: the custodied balance never exceeds the total raised,
    /// the text fields respect their bounds, and the goal its floor.
    pub open spec fn wf(self) -> bool {
        &&& self.balance <= self.amount_raised
        &&& self.title@.len() <= MAX_TITLE_LEN
        &&& self.description@.len() <= MAX_DESCRIPTION_LEN
        &&& self.image_url@.len() <= MAX_IMAGE_URL_LEN
        &&& self.goal >= MIN_GOAL
    }
}

/// One immutable ledger entry per value movement: a donation entering custody
/// (`credited`) or a withdrawal leaving it.
#[derive(Clone, Copy, Debug, PartialEq, Eq, Structural)]
pub struct Transaction {
    /// The donor for a donation entry, the creator for a withdrawal entry.
    pub owner: u64,
    /// Id of the campaign the movement belongs to.
    pub cid: u64,
    /// Amount moved, in smallest denomination units.
    pub amount: u64,
    /// Wall-clock timestamp of the movement.
    pub timestamp: u64,
    /// True when value entered custody, false when it left.
    pub credited: bool,
}

/// Append-only record of every donation and withdrawal. Entries are never
/// mutated or removed once written.
pub struct ContributionLedger {
    /// The entries, oldest first.
    pub entries: Vec<Transaction>,
}

impl ContributionLedger {
    /// An empty ledger.
    pub fn new() -> (l: ContributionLedger)
        ensures
            l.entries@ == Seq::<Transaction>::empty(),
    {
        ContributionLedger { entries: Vec::new() }
    }

    /// Appends one entry; every existing entry is preserved unchanged.
    pub fn append(&mut self, entry: Transaction)
        ensures
            final(self).entries@ == old(self).entries@.push(entry),
            forall|i: int|
                0 <= i < old(self).entries@.len() ==> final(self).entries@[i] == old(
                    self,
                ).entries@[i],
    {
        self.entries.push(entry);
    }

    /// Number of recorded entries.
    pub fn len(&self) -> (n: usize)
        ensures
            n == self.entries@.len(),
    {
        self.entries.len()
    }
}

} // verus!
