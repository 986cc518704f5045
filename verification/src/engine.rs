//! The campaign lifecycle engine: initialization, campaign creation, update
//! and deactivation, donation acceptance, withdrawal with fee split and
//! reserve enforcement, and platform settings updates.

use vstd::prelude::*;

use crate::errors::ErrorCode;
use crate::state::Campaign;
use crate::state::ProgramState;
use crate::state::INITIAL_PLATFORM_FEE;
use crate::state::MAX_PLATFORM_FEE;
use crate::state::MIN_PLATFORM_FEE;
use crate::state::MAX_DESCRIPTION_LEN;
use crate::state::MAX_IMAGE_URL_LEN;
use crate::state::MAX_TITLE_LEN;
use crate::state::MIN_DONATION;
use crate::state::MIN_GOAL;
use crate::state::MIN_WITHDRAWAL;
use crate::state::Transaction;

verus! {

/// The first length or goal bound a candidate set of campaign details breaks,
/// in the order the engine checks them, or `None` when all bounds hold.
pub open spec fn detail_error(
    title: Seq<char>,
    description: Seq<char>,
    image_url: Seq<char>,
    goal: u64,
) -> Option<ErrorCode> {
    if title.len() > MAX_TITLE_LEN {
        Some(ErrorCode::TitleTooLong)
    } else if description.len() > MAX_DESCRIPTION_LEN {
        Some(ErrorCode::DescriptionTooLong)
    } else if image_url.len() > MAX_IMAGE_URL_LEN {
        Some(ErrorCode::ImageUrlTooLong)
    } else if goal < MIN_GOAL {
        Some(ErrorCode::InvalidGoalAmount)
    } else {
        None
    }
}

/// Creates the platform configuration singleton. Fails with
/// `AlreadyInitialized` (and changes nothing) when the singleton already
/// exists; otherwise installs the caller as the platform identity with the
/// initial fee percentage and an empty campaign sequence.
pub fn initialize(state: &mut ProgramState, deployer: u64) -> (r: Result<(), ErrorCode>)
    requires
        old(state).wf(),
    ensures
        old(state).initialized ==> r == Err::<(), ErrorCode>(ErrorCode::AlreadyInitialized)
            && *final(state) == *old(state),
        !old(state).initialized ==> r == Ok::<(), ErrorCode>(()) && *final(state) == (ProgramState {
            initialized: true,
            campaign_count: 0,
            platform_fee: INITIAL_PLATFORM_FEE,
            platform_address: deployer,
        }),
        final(state).wf(),
        final(state).initialized,
{
    if state.initialized {
        return Err(ErrorCode::AlreadyInitialized);
    }
    state.campaign_count = 0;
    state.platform_fee = INITIAL_PLATFORM_FEE;
    state.platform_address = deployer;
    state.initialized = true;
    Ok(())
}

/// Registers a new campaign for `creator` with creation time `now`.
///
/// Rejects details that break a bound (see `detail_error`) without touching
/// the global state. On success the global campaign sequence advances by one,
/// the new value becomes the campaign's id, and the campaign starts active
/// with nothing raised, nothing custodied and no recorded movements.
pub fn create_campaign(
    state: &mut ProgramState,
    creator: u64,
    title: String,
    description: String,
    image_url: String,
    goal: u64,
    now: u64,
) -> (r: Result<Campaign, ErrorCode>)
    requires
        old(state).campaign_count < u64::MAX,
    ensures
        detail_error(title@, description@, image_url@, goal) matches Some(e) ==> r == Err::<
            Campaign,
            ErrorCode,
        >(e) && *final(state) == *old(state),
        detail_error(title@, description@, image_url@, goal) is None ==> {
            &&& *final(state) == (ProgramState {
                campaign_count: (old(state).campaign_count + 1) as u64,
                ..*old(state)
            })
            &&& r == Ok::<Campaign, ErrorCode>(Campaign {
                cid: (old(state).campaign_count + 1) as u64,
                creator,
                title,
                description,
                image_url,
                goal,
                amount_raised: 0,
                timestamp: now,
                donors: 0,
                withdrawals: 0,
                balance: 0,
                active: true,
            })
            &&& r matches Ok(c) && c.wf()
        },
{
    if title.as_str().unicode_len() > MAX_TITLE_LEN as usize {
        return Err(ErrorCode::TitleTooLong);
    }
    if description.as_str().unicode_len() > MAX_DESCRIPTION_LEN as usize {
        return Err(ErrorCode::DescriptionTooLong);
    }
    if image_url.as_str().unicode_len() > MAX_IMAGE_URL_LEN as usize {
        return Err(ErrorCode::ImageUrlTooLong);
    }
    if goal < MIN_GOAL {
        return Err(ErrorCode::InvalidGoalAmount);
    }
    state.campaign_count = state.campaign_count + 1;
    Ok(
        Campaign {
            cid: state.campaign_count,
            creator,
            title,
            description,
            image_url,
            goal,
            amount_raised: 0,
            timestamp: now,
            donors: 0,
            withdrawals: 0,
            balance: 0,
            active: true,
        },
    )
}

/// The error an update of `campaign` by `creator` with the given details
/// fails with, in the order the engine checks the conditions, or `None` when
/// the update is allowed.
pub open spec fn update_error(
    campaign: Campaign,
    creator: u64,
    cid: u64,
    title: Seq<char>,
    description: Seq<char>,
    image_url: Seq<char>,
    goal: u64,
) -> Option<ErrorCode> {
    if campaign.creator != creator {
        Some(ErrorCode::Unauthorized)
    } else if campaign.cid != cid {
        Some(ErrorCode::CampaignNotFound)
    } else {
        detail_error(title, description, image_url, goal)
    }
}

/// Overwrites the campaign's three text fields and goal.
///
/// Only the creator may update, the supplied id must match the record, and
/// the new details must respect the same bounds as at creation; any failure
/// leaves the record untouched. The accounting fields (`amount_raised`,
/// `balance`, counters) and the lifecycle flag are never changed.
pub fn update_campaign(
    campaign: &mut Campaign,
    creator: u64,
    cid: u64,
    title: String,
    description: String,
    image_url: String,
    goal: u64,
) -> (r: Result<(), ErrorCode>)
    ensures
        update_error(*old(campaign), creator, cid, title@, description@, image_url@, goal)
            matches Some(e) ==> r == Err::<(), ErrorCode>(e) && *final(campaign) == *old(campaign),
        update_error(*old(campaign), creator, cid, title@, description@, image_url@, goal)
            is None ==> r == Ok::<(), ErrorCode>(()) && *final(campaign) == (Campaign {
            title,
            description,
            image_url,
            goal,
            ..*old(campaign)
        }),
        old(campaign).wf() ==> final(campaign).wf(),
        old(campaign).amount_raised == final(campaign).amount_raised,
        old(campaign).balance == final(campaign).balance,
        old(campaign).active == final(campaign).active,
{
    if campaign.creator != creator {
        return Err(ErrorCode::Unauthorized);
    }
    if campaign.cid != cid {
        return Err(ErrorCode::CampaignNotFound);
    }
    if title.as_str().unicode_len() > MAX_TITLE_LEN as usize {
        return Err(ErrorCode::TitleTooLong);
    }
    if description.as_str().unicode_len() > MAX_DESCRIPTION_LEN as usize {
        return Err(ErrorCode::DescriptionTooLong);
    }
    if image_url.as_str().unicode_len() > MAX_IMAGE_URL_LEN as usize {
        return Err(ErrorCode::ImageUrlTooLong);
    }
    if goal < MIN_GOAL {
        return Err(ErrorCode::InvalidGoalAmount);
    }
    campaign.title = title;
    campaign.description = description;
    campaign.image_url = image_url;
    campaign.goal = goal;
    Ok(())
}

/// The error a deactivation of `campaign` by `creator` fails with, in the
/// order the engine checks the conditions, or `None` when it is allowed.
pub open spec fn deactivation_error(campaign: Campaign, creator: u64, cid: u64) -> Option<
    ErrorCode,
> {
    if campaign.creator != creator {
        Some(ErrorCode::Unauthorized)
    } else if campaign.cid != cid {
        Some(ErrorCode::CampaignNotFound)
    } else if !campaign.active {
        Some(ErrorCode::InactiveCampaign)
    } else {
        None
    }
}

/// Deactivates the campaign: a one-way transition with no reactivation path.
///
/// Only the creator may deactivate, the supplied id must match the record,
/// and a second deactivation fails with `InactiveCampaign` while `active`
/// stays false. The record is never removed, so history is preserved.
pub fn delete_campaign(campaign: &mut Campaign, creator: u64, cid: u64) -> (r: Result<
    (),
    ErrorCode,
>)
    ensures
        deactivation_error(*old(campaign), creator, cid) matches Some(e) ==> r == Err::<
            (),
            ErrorCode,
        >(e) && *final(campaign) == *old(campaign),
        deactivation_error(*old(campaign), creator, cid) is None ==> r == Ok::<(), ErrorCode>(())
            && *final(campaign) == (Campaign { active: false, ..*old(campaign) }),
        old(campaign).wf() ==> final(campaign).wf(),
        !old(campaign).active ==> !final(campaign).active,
        old(campaign).amount_raised == final(campaign).amount_raised,
        old(campaign).balance == final(campaign).balance,
{
    if campaign.creator != creator {
        return Err(ErrorCode::Unauthorized);
    }
    if campaign.cid != cid {
        return Err(ErrorCode::CampaignNotFound);
    }
    if !campaign.active {
        return Err(ErrorCode::InactiveCampaign);
    }
    campaign.active = false;
    Ok(())
}

/// The error a donation of `amount` to `campaign` under supplied id `cid`
/// fails with, in the order the engine checks the conditions, or `None` when
/// the donation may proceed to the value transfer.
pub open spec fn donation_error(campaign: Campaign, cid: u64, amount: u64) -> Option<ErrorCode> {
    if campaign.cid != cid {
        Some(ErrorCode::CampaignNotFound)
    } else if !campaign.active {
        Some(ErrorCode::InactiveCampaign)
    } else if amount < MIN_DONATION {
        Some(ErrorCode::InvalidDonationAmount)
    } else if campaign.amount_raised >= campaign.goal {
        Some(ErrorCode::CampaignGoalActualized)
    } else {
        None
    }
}

/// The campaign after the bookkeeping of one accepted donation of `amount`:
/// the raised total and the custodied balance each grow by exactly `amount`,
/// the donor count by one, and no other field changes.
pub open spec fn donated(campaign: Campaign, amount: u64) -> Campaign {
    Campaign {
        amount_raised: (campaign.amount_raised + amount) as u64,
        balance: (campaign.balance + amount) as u64,
        donors: (campaign.donors + 1) as u64,
        ..campaign
    }
}

/// Decides whether a donation may proceed to the external value transfer.
///
/// Returns `Ok(())` exactly when the id matches, the campaign is active, the
/// amount reaches the denomination floor and the goal has not been reached
/// yet; otherwise the one error `donation_error` names. Reads only.
pub fn validate_donation(campaign: &Campaign, cid: u64, amount: u64) -> (r: Result<(), ErrorCode>)
    ensures
        r == match donation_error(*campaign, cid, amount) {
            Some(e) => Err::<(), ErrorCode>(e),
            None => Ok::<(), ErrorCode>(()),
        },
{
    if campaign.cid != cid {
        return Err(ErrorCode::CampaignNotFound);
    }
    if !campaign.active {
        return Err(ErrorCode::InactiveCampaign);
    }
    if amount < MIN_DONATION {
        return Err(ErrorCode::InvalidDonationAmount);
    }
    if campaign.amount_raised >= campaign.goal {
        return Err(ErrorCode::CampaignGoalActualized);
    }
    Ok(())
}

/// Accepts or rejects a donation of `amount` from `donor` at time `now`.
///
/// The caller first asks `validate_donation`; when it allows, the caller
/// performs the substrate's atomic transfer of `amount` from the donor to the
/// campaign's custody record and reports the outcome in `transfer_succeeded`.
/// This function re-checks every condition, so a failed validation rejects
/// the donation with the same error whatever the flag says, and a failed
/// transfer rejects it with `InsufficientFund`; in both cases no field
/// changes, keeping the transfer and the bookkeeping atomic as a unit. On
/// success the bookkeeping is exactly `donated`, and the returned ledger
/// entry records the donor, the campaign, the amount and the time as a
/// credit.
pub fn donate(
    campaign: &mut Campaign,
    donor: u64,
    cid: u64,
    amount: u64,
    now: u64,
    transfer_succeeded: bool,
) -> (r: Result<Transaction, ErrorCode>)
    requires
        old(campaign).wf(),
        old(campaign).amount_raised + amount <= u64::MAX,
        old(campaign).donors < u64::MAX,
    ensures
        donation_error(*old(campaign), cid, amount) matches Some(e) ==> r == Err::<
            Transaction,
            ErrorCode,
        >(e) && *final(campaign) == *old(campaign),
        donation_error(*old(campaign), cid, amount) is None && !transfer_succeeded ==> r == Err::<
            Transaction,
            ErrorCode,
        >(ErrorCode::InsufficientFund) && *final(campaign) == *old(campaign),
        donation_error(*old(campaign), cid, amount) is None && transfer_succeeded ==> r == Ok::<
            Transaction,
            ErrorCode,
        >(Transaction { owner: donor, cid, amount, timestamp: now, credited: true })
            && *final(campaign) == donated(*old(campaign), amount),
        old(campaign).amount_raised <= final(campaign).amount_raised,
        final(campaign).wf(),
{
    if campaign.cid != cid {
        return Err(ErrorCode::CampaignNotFound);
    }
    if !campaign.active {
        return Err(ErrorCode::InactiveCampaign);
    }
    if amount < MIN_DONATION {
        return Err(ErrorCode::InvalidDonationAmount);
    }
    if campaign.amount_raised >= campaign.goal {
        return Err(ErrorCode::CampaignGoalActualized);
    }
    if !transfer_succeeded {
        return Err(ErrorCode::InsufficientFund);
    }
    campaign.amount_raised = campaign.amount_raised + amount;
    campaign.balance = campaign.balance + amount;
    campaign.donors = campaign.donors + 1;
    Ok(Transaction { owner: donor, cid, amount, timestamp: now, credited: true })
}

/// Two donations against one campaign never lose an update: the substrate
/// serializes operations on a custody record, so two donations of `x` and `y`
/// land one after the other, and however they are ordered the final balance
/// and raised total each grow by exactly `x + y`, the donor count by two, and
/// the outcome is the same campaign either way.
pub proof fn lemma_serialized_donations_no_lost_update(campaign: Campaign, x: u64, y: u64)
    requires
        campaign.amount_raised + x + y <= u64::MAX,
        campaign.balance + x + y <= u64::MAX,
        campaign.donors + 2 <= u64::MAX,
    ensures
        donated(donated(campaign, x), y).balance == campaign.balance + x + y,
        donated(donated(campaign, x), y).amount_raised == campaign.amount_raised + x + y,
        donated(donated(campaign, x), y).donors == campaign.donors + 2,
        donated(donated(campaign, x), y) == donated(donated(campaign, y), x),
{
}

/// The platform's cut of a withdrawal of `amount` at `percent`: integer
/// percentage with truncating division, computed before the creator's share.
pub open spec fn platform_fee_of(amount: u64, percent: u64) -> int {
    amount * percent / 100
}

/// The error a withdrawal fails with, in the order the engine checks the
/// conditions, or `None` when the withdrawal is allowed. `custodied` is the
/// value the campaign's custody record actually holds and `reserved_minimum`
/// the substrate's floor below which the record becomes reclaimable; the
/// record must retain at least that floor after the withdrawal, checked
/// against the actual custodied value rather than the bookkeeping balance to
/// guard against drift.
pub open spec fn withdrawal_error(
    campaign: Campaign,
    state: ProgramState,
    creator: u64,
    cid: u64,
    amount: u64,
    platform_address: u64,
    custodied: u64,
    reserved_minimum: u64,
) -> Option<ErrorCode> {
    if campaign.cid != cid {
        Some(ErrorCode::CampaignNotFound)
    } else if campaign.creator != creator {
        Some(ErrorCode::Unauthorized)
    } else if amount < MIN_WITHDRAWAL {
        Some(ErrorCode::InvalidWithdrawalAmount)
    } else if amount > campaign.balance {
        Some(ErrorCode::WithdrawalExceedsBalance)
    } else if platform_address != state.platform_address {
        Some(ErrorCode::InvalidPlatformAddress)
    } else if custodied < reserved_minimum + amount {
        Some(ErrorCode::InsufficientFund)
    } else {
        None
    }
}

/// The campaign after the bookkeeping of one allowed withdrawal of `amount`:
/// the custodied balance shrinks by exactly `amount`, the withdrawal count
/// grows by one, and no other field changes — in particular `amount_raised`
/// keeps the full historical total.
pub open spec fn withdrawn(campaign: Campaign, amount: u64) -> Campaign {
    Campaign {
        balance: (campaign.balance - amount) as u64,
        withdrawals: (campaign.withdrawals + 1) as u64,
        ..campaign
    }
}

/// What one allowed withdrawal asks the substrate to move: the creator's
/// share and the platform's fee, two deductions from the campaign's custody
/// record, plus the ledger entry recording the movement.
#[derive(Debug)]
pub struct WithdrawalOutcome {
    /// Amount owed to the campaign's creator.
    pub creator_amount: u64,
    /// Amount owed to the platform's payout identity.
    pub platform_fee: u64,
    /// Ledger entry for the withdrawal, `credited == false`.
    pub entry: Transaction,
}

/// Withdraws `amount` from the campaign for `creator` at time `now`.
///
/// `platform_address` is the payout identity the caller presents,
/// `custodied` the value the campaign's custody record actually holds, and
/// `reserved_minimum` the substrate's floor for that record. Any failed
/// check rejects the withdrawal with the one error `withdrawal_error` names
/// and changes nothing. When all checks pass, the fee is taken first by
/// truncating integer percentage and the remainder — dust included — goes to
/// the creator, so the two shares always sum to exactly `amount`; the
/// bookkeeping is exactly `withdrawn`, and the caller then performs the two
/// deductions the outcome names, which the reserve check has made safe.
pub fn withdraw(
    campaign: &mut Campaign,
    state: &ProgramState,
    creator: u64,
    cid: u64,
    amount: u64,
    platform_address: u64,
    custodied: u64,
    reserved_minimum: u64,
    now: u64,
) -> (r: Result<WithdrawalOutcome, ErrorCode>)
    requires
        old(campaign).wf(),
        state.wf(),
        state.initialized,
        old(campaign).withdrawals < u64::MAX,
    ensures
        withdrawal_error(
            *old(campaign),
            *state,
            creator,
            cid,
            amount,
            platform_address,
            custodied,
            reserved_minimum,
        ) matches Some(e) ==> r == Err::<WithdrawalOutcome, ErrorCode>(e) && *final(campaign)
            == *old(campaign),
        withdrawal_error(
            *old(campaign),
            *state,
            creator,
            cid,
            amount,
            platform_address,
            custodied,
            reserved_minimum,
        ) is None ==> {
            &&& r matches Ok(o)
            &&& r matches Ok(o) ==> {
                &&& o.platform_fee == platform_fee_of(amount, state.platform_fee)
                &&& o.creator_amount + o.platform_fee == amount
                &&& o.entry == (Transaction {
                    owner: creator,
                    cid,
                    amount,
                    timestamp: now,
                    credited: false,
                })
            }
            &&& *final(campaign) == withdrawn(*old(campaign), amount)
        },
        old(campaign).amount_raised == final(campaign).amount_raised,
        final(campaign).wf(),
{
    if campaign.cid != cid {
        return Err(ErrorCode::CampaignNotFound);
    }
    if campaign.creator != creator {
        return Err(ErrorCode::Unauthorized);
    }
    if amount < MIN_WITHDRAWAL {
        return Err(ErrorCode::InvalidWithdrawalAmount);
    }
    if amount > campaign.balance {
        return Err(ErrorCode::WithdrawalExceedsBalance);
    }
    if platform_address != state.platform_address {
        return Err(ErrorCode::InvalidPlatformAddress);
    }
    if custodied < reserved_minimum || amount > custodied - reserved_minimum {
        return Err(ErrorCode::InsufficientFund);
    }
    assert((amount as int) * (state.platform_fee as int) <= u128::MAX) by (nonlinear_arith)
        requires
            amount <= u64::MAX,
            state.platform_fee <= 100,
    ;
    let fee_wide: u128 = (amount as u128) * (state.platform_fee as u128) / 100;
    assert(fee_wide <= amount) by (nonlinear_arith)
        requires
            fee_wide == (amount as int) * (state.platform_fee as int) / 100,
            state.platform_fee <= 100,
    ;
    let platform_fee: u64 = fee_wide as u64;
    let creator_amount: u64 = amount - platform_fee;
    campaign.withdrawals = campaign.withdrawals + 1;
    campaign.balance = campaign.balance - amount;
    Ok(
        WithdrawalOutcome {
            creator_amount,
            platform_fee,
            entry: Transaction { owner: creator, cid, amount, timestamp: now, credited: false },
        },
    )
}

/// The error a platform settings update fails with, in the order the engine
/// checks the conditions, or `None` when the update is allowed.
pub open spec fn settings_error(state: ProgramState, updater: u64, new_platform_fee: u64) -> Option<
    ErrorCode,
> {
    if updater != state.platform_address {
        Some(ErrorCode::Unauthorized)
    } else if new_platform_fee < MIN_PLATFORM_FEE || new_platform_fee > MAX_PLATFORM_FEE {
        Some(ErrorCode::InvalidPlatformFee)
    } else {
        None
    }
}

/// Overwrites the platform fee percentage.
///
/// Only the configured platform identity may update, and the new percentage
/// must lie within the allowed range; any failure leaves the configuration
/// untouched. No other configuration field ever changes.
pub fn update_platform_settings(state: &mut ProgramState, updater: u64, new_platform_fee: u64) -> (r:
    Result<(), ErrorCode>)
    requires
        old(state).wf(),
    ensures
        settings_error(*old(state), updater, new_platform_fee) matches Some(e) ==> r == Err::<
            (),
            ErrorCode,
        >(e) && *final(state) == *old(state),
        settings_error(*old(state), updater, new_platform_fee) is None ==> r == Ok::<
            (),
            ErrorCode,
        >(()) && *final(state) == (ProgramState { platform_fee: new_platform_fee, ..*old(state) }),
        final(state).wf(),
{
    if updater != state.platform_address {
        return Err(ErrorCode::Unauthorized);
    }
    if new_platform_fee < MIN_PLATFORM_FEE || new_platform_fee > MAX_PLATFORM_FEE {
        return Err(ErrorCode::InvalidPlatformFee);
    }
    state.platform_fee = new_platform_fee;
    Ok(())
}

} // verus!
