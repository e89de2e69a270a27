use cmpgn::campaign::{GetCampaignStats, GetDailyBug, InitializeCampaign, InitializeCampaignBumps};
use cmpgn::error::ErrorCode;
use cmpgn::key::Key;
use cmpgn::state::Campaign;

fn key(b: u8) -> Key {
    Key::new([b; 32])
}

#[test]
fn initialize_sets_authority_and_zero_counter() {
    let mut init = InitializeCampaign { game_authority: key(1), campaign: None };
    assert_eq!(init.initialize(7, &InitializeCampaignBumps { campaign: 251 }), Ok(()));
    let c = init.campaign.unwrap();
    assert_eq!(c.game_authority, key(1));
    assert_eq!(c.campaign_id, 7);
    assert_eq!(c.total_completions, 0);
    assert_eq!(c.bump, 251);
}

#[test]
fn initialize_twice_fails() {
    let mut init = InitializeCampaign { game_authority: key(1), campaign: None };
    assert_eq!(init.initialize(7, &InitializeCampaignBumps { campaign: 251 }), Ok(()));
    let mut again = InitializeCampaign { game_authority: key(2), campaign: init.campaign };
    assert_eq!(
        again.initialize(7, &InitializeCampaignBumps { campaign: 251 }),
        Err(ErrorCode::CollectionAlreadyInitialized)
    );
    assert_eq!(again.campaign.unwrap().game_authority, key(1));
}

#[test]
fn stats_for_authority_only() {
    let c = Campaign { game_authority: key(1), campaign_id: 3, total_completions: 42, bump: 1 };
    let ok = GetCampaignStats { game_authority: key(1), campaign: c }.get_campaign_stats(3).unwrap();
    assert_eq!(ok.campaign_id, 3);
    assert_eq!(ok.total_completions, 42);
    let mut other = [1u8; 32];
    other[31] = 2;
    let r = GetCampaignStats { game_authority: Key::new(other), campaign: c }.get_campaign_stats(3);
    assert_eq!(r, Err(ErrorCode::NotAuthorized));
}

#[test]
fn daily_bug_cycles_through_twenty() {
    let g = GetDailyBug { player: key(1) };
    assert_eq!(g.get_daily_bug(0).bug_id, 1);
    assert_eq!(g.get_daily_bug(86399).bug_id, 1);
    assert_eq!(g.get_daily_bug(86400).bug_id, 2);
    assert_eq!(g.get_daily_bug(86400 * 19).bug_id, 20);
    assert_eq!(g.get_daily_bug(86400 * 20).bug_id, 1);
    assert_eq!(g.get_daily_bug(1_700_000_000).bug_id, ((1_700_000_000i64 / 86400) % 20 + 1) as u8);
}

#[test]
fn error_messages() {
    assert_eq!(ErrorCode::InvalidBugId.message(), "Invalid Bug Id");
    assert_eq!(ErrorCode::CampaignNotStarted.message(), "Campaign not initialized");
    assert_eq!(ErrorCode::UnauthorizedPlayer.message(), "Unauthorized Player.");
    assert_eq!(
        ErrorCode::NotAuthorized.message(),
        "The payer is not the program's upgrade authority."
    );
}

#[test]
fn key_comparison() {
    assert!(key(3).equals(&key(3)));
    assert!(!key(3).equals(&key(4)));
    assert!(Key::zero().is_zero());
    assert!(!key(1).is_zero());
    assert_eq!(key(9).to_bytes(), [9u8; 32]);
}
