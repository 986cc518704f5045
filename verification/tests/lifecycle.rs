use crowdfund::engine::create_campaign;
use crowdfund::engine::delete_campaign;
use crowdfund::engine::initialize;
use crowdfund::engine::update_campaign;
use crowdfund::engine::update_platform_settings;
use crowdfund::errors::ErrorCode;
use crowdfund::state::Campaign;
use crowdfund::state::ProgramState;

fn initialized_state(deployer: u64) -> ProgramState {
    let mut state = ProgramState::new();
    initialize(&mut state, deployer).unwrap();
    state
}

fn sample_campaign(state: &mut ProgramState, creator: u64) -> Campaign {
    create_campaign(
        state,
        creator,
        String::from("Clean water"),
        String::from("Wells for the valley"),
        String::from("https://example.org/w.png"),
        2_000_000_000,
        1_700_000_000,
    )
    .unwrap()
}

#[test]
fn initialize_sets_defaults() {
    let mut state = ProgramState::new();
    assert!(!state.initialized);
    let r = initialize(&mut state, 99);
    assert_eq!(r, Ok(()));
    assert!(state.initialized);
    assert_eq!(state.campaign_count, 0);
    assert_eq!(state.platform_fee, 5);
    assert_eq!(state.platform_address, 99);
}

#[test]
fn initialize_twice_rejected() {
    let mut state = initialized_state(99);
    let r = initialize(&mut state, 123);
    assert_eq!(r, Err(ErrorCode::AlreadyInitialized));
    assert_eq!(state.platform_address, 99);
    assert_eq!(state.platform_fee, 5);
    assert!(state.initialized);
}

#[test]
fn create_campaign_assigns_sequential_ids() {
    let mut state = initialized_state(99);
    let first = sample_campaign(&mut state, 7);
    assert_eq!(first.cid, 1);
    assert_eq!(state.campaign_count, 1);
    let second = sample_campaign(&mut state, 8);
    assert_eq!(second.cid, 2);
    assert_eq!(state.campaign_count, 2);

    assert_eq!(first.creator, 7);
    assert_eq!(first.title, "Clean water");
    assert_eq!(first.description, "Wells for the valley");
    assert_eq!(first.image_url, "https://example.org/w.png");
    assert_eq!(first.goal, 2_000_000_000);
    assert_eq!(first.amount_raised, 0);
    assert_eq!(first.balance, 0);
    assert_eq!(first.donors, 0);
    assert_eq!(first.withdrawals, 0);
    assert_eq!(first.timestamp, 1_700_000_000);
    assert!(first.active);
}

#[test]
fn create_campaign_title_too_long() {
    let mut state = initialized_state(99);
    let r = create_campaign(
        &mut state,
        7,
        "t".repeat(65),
        String::new(),
        String::new(),
        2_000_000_000,
        0,
    );
    assert_eq!(r.unwrap_err(), ErrorCode::TitleTooLong);
    assert_eq!(state.campaign_count, 0);
}

#[test]
fn create_campaign_description_too_long() {
    let mut state = initialized_state(99);
    let r = create_campaign(
        &mut state,
        7,
        String::new(),
        "d".repeat(513),
        String::new(),
        2_000_000_000,
        0,
    );
    assert_eq!(r.unwrap_err(), ErrorCode::DescriptionTooLong);
    assert_eq!(state.campaign_count, 0);
}

#[test]
fn create_campaign_image_url_too_long() {
    let mut state = initialized_state(99);
    let r = create_campaign(
        &mut state,
        7,
        String::new(),
        String::new(),
        "u".repeat(257),
        2_000_000_000,
        0,
    );
    assert_eq!(r.unwrap_err(), ErrorCode::ImageUrlTooLong);
    assert_eq!(state.campaign_count, 0);
}

#[test]
fn create_campaign_goal_too_small() {
    let mut state = initialized_state(99);
    let r = create_campaign(
        &mut state,
        7,
        String::new(),
        String::new(),
        String::new(),
        999_999_999,
        0,
    );
    assert_eq!(r.unwrap_err(), ErrorCode::InvalidGoalAmount);
    assert_eq!(state.campaign_count, 0);
}

#[test]
fn create_campaign_boundary_values_accepted() {
    let mut state = initialized_state(99);
    let r = create_campaign(
        &mut state,
        7,
        "t".repeat(64),
        "d".repeat(512),
        "u".repeat(256),
        1_000_000_000,
        0,
    );
    let campaign = r.unwrap();
    assert_eq!(campaign.title.len(), 64);
    assert_eq!(campaign.goal, 1_000_000_000);
    assert_eq!(state.campaign_count, 1);
}

#[test]
fn update_campaign_overwrites_details_only() {
    let mut state = initialized_state(99);
    let mut campaign = sample_campaign(&mut state, 7);
    campaign.amount_raised = 500_000_000;
    campaign.balance = 400_000_000;
    let r = update_campaign(
        &mut campaign,
        7,
        1,
        String::from("New title"),
        String::from("New description"),
        String::from("https://example.org/n.png"),
        3_000_000_000,
    );
    assert_eq!(r, Ok(()));
    assert_eq!(campaign.title, "New title");
    assert_eq!(campaign.description, "New description");
    assert_eq!(campaign.image_url, "https://example.org/n.png");
    assert_eq!(campaign.goal, 3_000_000_000);
    assert_eq!(campaign.amount_raised, 500_000_000);
    assert_eq!(campaign.balance, 400_000_000);
    assert!(campaign.active);
    assert_eq!(campaign.cid, 1);
    assert_eq!(campaign.creator, 7);
}

#[test]
fn update_campaign_unauthorized() {
    let mut state = initialized_state(99);
    let mut campaign = sample_campaign(&mut state, 7);
    let r = update_campaign(
        &mut campaign,
        8,
        1,
        String::from("x"),
        String::new(),
        String::new(),
        2_000_000_000,
    );
    assert_eq!(r, Err(ErrorCode::Unauthorized));
    assert_eq!(campaign.title, "Clean water");
}

#[test]
fn update_campaign_wrong_id() {
    let mut state = initialized_state(99);
    let mut campaign = sample_campaign(&mut state, 7);
    let r = update_campaign(
        &mut campaign,
        7,
        2,
        String::from("x"),
        String::new(),
        String::new(),
        2_000_000_000,
    );
    assert_eq!(r, Err(ErrorCode::CampaignNotFound));
    assert_eq!(campaign.title, "Clean water");
}

#[test]
fn update_campaign_rejects_bad_details() {
    let mut state = initialized_state(99);
    let mut campaign = sample_campaign(&mut state, 7);
    let r = update_campaign(
        &mut campaign,
        7,
        1,
        "t".repeat(65),
        String::new(),
        String::new(),
        2_000_000_000,
    );
    assert_eq!(r, Err(ErrorCode::TitleTooLong));
    let r = update_campaign(
        &mut campaign,
        7,
        1,
        String::new(),
        String::new(),
        String::new(),
        999_999_999,
    );
    assert_eq!(r, Err(ErrorCode::InvalidGoalAmount));
    assert_eq!(campaign.title, "Clean water");
    assert_eq!(campaign.goal, 2_000_000_000);
}

#[test]
fn delete_campaign_deactivates() {
    let mut state = initialized_state(99);
    let mut campaign = sample_campaign(&mut state, 7);
    let r = delete_campaign(&mut campaign, 7, 1);
    assert_eq!(r, Ok(()));
    assert!(!campaign.active);
    assert_eq!(campaign.amount_raised, 0);
    assert_eq!(campaign.balance, 0);
}

#[test]
fn delete_campaign_twice_rejected() {
    let mut state = initialized_state(99);
    let mut campaign = sample_campaign(&mut state, 7);
    delete_campaign(&mut campaign, 7, 1).unwrap();
    let r = delete_campaign(&mut campaign, 7, 1);
    assert_eq!(r, Err(ErrorCode::InactiveCampaign));
    assert!(!campaign.active);
}

#[test]
fn delete_campaign_unauthorized_or_wrong_id() {
    let mut state = initialized_state(99);
    let mut campaign = sample_campaign(&mut state, 7);
    assert_eq!(delete_campaign(&mut campaign, 8, 1), Err(ErrorCode::Unauthorized));
    assert_eq!(delete_campaign(&mut campaign, 7, 2), Err(ErrorCode::CampaignNotFound));
    assert!(campaign.active);
}

#[test]
fn update_platform_settings_overwrites_fee() {
    let mut state = initialized_state(99);
    let r = update_platform_settings(&mut state, 99, 10);
    assert_eq!(r, Ok(()));
    assert_eq!(state.platform_fee, 10);
    assert_eq!(state.platform_address, 99);
    assert_eq!(state.campaign_count, 0);
}

#[test]
fn update_platform_settings_unauthorized() {
    let mut state = initialized_state(99);
    let r = update_platform_settings(&mut state, 98, 10);
    assert_eq!(r, Err(ErrorCode::Unauthorized));
    assert_eq!(state.platform_fee, 5);
}

#[test]
fn update_platform_settings_fee_out_of_range() {
    let mut state = initialized_state(99);
    assert_eq!(update_platform_settings(&mut state, 99, 0), Err(ErrorCode::InvalidPlatformFee));
    assert_eq!(update_platform_settings(&mut state, 99, 16), Err(ErrorCode::InvalidPlatformFee));
    assert_eq!(state.platform_fee, 5);
    assert_eq!(update_platform_settings(&mut state, 99, 1), Ok(()));
    assert_eq!(state.platform_fee, 1);
    assert_eq!(update_platform_settings(&mut state, 99, 15), Ok(()));
    assert_eq!(state.platform_fee, 15);
}
