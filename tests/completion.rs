use cmpgn::campaign::{GetCampaignStats, GetPlayerProgress, HasCompletedBug, InitializeCampaign, InitializeCampaignBumps};
use cmpgn::completion::{
    RecordCampaignCompletion, RecordCampaignCompletionBumps, StartCampaign, StartCampaignBumps,
};
use cmpgn::error::ErrorCode;
use cmpgn::key::Key;
use cmpgn::state::{Campaign, CampaignCompletion, PlayerProgress};

fn key(b: u8) -> Key {
    Key::new([b; 32])
}

fn campaign(authority: Key, id: u8) -> Campaign {
    Campaign { game_authority: authority, campaign_id: id, total_completions: 0, bump: 254 }
}

fn started(player: Key, campaign_id: u8, bug_id: u8, now: i64) -> CampaignCompletion {
    let mut s = StartCampaign { player, campaign_completion: None };
    s.start_campaign(campaign_id, bug_id, now, &StartCampaignBumps { campaign_completion: 250 })
        .unwrap();
    s.campaign_completion.unwrap()
}

fn completing(player: Key, rec: Option<CampaignCompletion>, c: Campaign) -> RecordCampaignCompletion {
    RecordCampaignCompletion { player, campaign_completion: rec, player_progress: None, campaign: c }
}

const BUMPS: RecordCampaignCompletionBumps = RecordCampaignCompletionBumps { player_progress: 253 };

#[test]
fn start_rejects_bug_ids_out_of_range() {
    for bug in [0u8, 21, 200, 255] {
        let mut s = StartCampaign { player: key(1), campaign_completion: None };
        let r = s.start_campaign(1, bug, 10, &StartCampaignBumps { campaign_completion: 1 });
        assert_eq!(r, Err(ErrorCode::InvalidBugId));
        assert!(s.campaign_completion.is_none());
    }
}

#[test]
fn complete_rejects_bug_ids_out_of_range() {
    let p = key(1);
    for bug in [0u8, 21, 255] {
        let mut c = completing(p, Some(started(p, 1, 5, 10)), campaign(key(9), 1));
        assert_eq!(c.record_campaign_completion(1, bug, 20, &BUMPS), Err(ErrorCode::InvalidBugId));
        assert!(c.player_progress.is_none());
        assert_eq!(c.campaign.total_completions, 0);
    }
}

#[test]
fn start_creates_started_record() {
    let mut s = StartCampaign { player: key(3), campaign_completion: None };
    let r = s.start_campaign(2, 20, 1234, &StartCampaignBumps { campaign_completion: 77 });
    assert_eq!(r, Ok(()));
    let rec = s.campaign_completion.unwrap();
    assert_eq!(rec.player, key(3));
    assert_eq!(rec.campaign_id, 2);
    assert_eq!(rec.bug_id, 20);
    assert_eq!(rec.campaign_start, Some(1234));
    assert_eq!(rec.campaign_end, None);
    assert_eq!(rec.timestamp, None);
    assert_eq!(rec.nft_mint_address, None);
    assert_eq!(rec.bump, 77);
}

#[test]
fn start_cannot_restart() {
    let rec = started(key(3), 1, 1, 5);
    let mut s = StartCampaign { player: key(3), campaign_completion: Some(rec) };
    let r = s.start_campaign(1, 1, 99, &StartCampaignBumps { campaign_completion: 1 });
    assert_eq!(r, Err(ErrorCode::CollectionAlreadyInitialized));
    assert_eq!(s.campaign_completion.unwrap().campaign_start, Some(5));
}

#[test]
fn complete_without_start_fails() {
    let mut c = completing(key(1), None, campaign(key(9), 1));
    assert_eq!(c.record_campaign_completion(1, 5, 20, &BUMPS), Err(ErrorCode::CampaignNotStarted));
    assert!(c.player_progress.is_none());
    assert_eq!(c.campaign.total_completions, 0);
}

#[test]
fn complete_with_wrong_campaign_id_fails() {
    let p = key(1);
    let mut c = completing(p, Some(started(p, 1, 5, 10)), campaign(key(9), 1));
    assert_eq!(c.record_campaign_completion(2, 5, 20, &BUMPS), Err(ErrorCode::InvalidCampaignId));
}

#[test]
fn complete_by_other_player_fails() {
    let mut c = completing(key(2), Some(started(key(1), 1, 5, 10)), campaign(key(9), 1));
    assert_eq!(c.record_campaign_completion(1, 5, 20, &BUMPS), Err(ErrorCode::UnauthorizedPlayer));
    assert_eq!(c.campaign_completion.unwrap().campaign_end, None);
}

#[test]
fn complete_twice_fails_and_keeps_counters() {
    let p = key(1);
    let mut c = completing(p, Some(started(p, 1, 7, 10)), campaign(key(9), 1));
    assert_eq!(c.record_campaign_completion(1, 7, 20, &BUMPS), Ok(()));
    assert_eq!(c.campaign.total_completions, 1);
    assert_eq!(
        c.record_campaign_completion(1, 7, 30, &BUMPS),
        Err(ErrorCode::CampaignAlreadyCompleted)
    );
    assert_eq!(c.campaign.total_completions, 1);
    let progress = c.player_progress.as_ref().unwrap();
    assert_eq!(progress.completed_bugs, vec![7]);
    assert_eq!(progress.total_completed_bugs, 1);
    assert_eq!(c.campaign_completion.unwrap().campaign_end, Some(20));
}

#[test]
fn completion_sets_end_and_creates_progress() {
    let p = key(4);
    let mut c = completing(p, Some(started(p, 3, 12, 100)), campaign(key(9), 3));
    assert_eq!(c.record_campaign_completion(3, 12, 150, &BUMPS), Ok(()));
    let rec = c.campaign_completion.unwrap();
    assert_eq!(rec.campaign_start, Some(100));
    assert_eq!(rec.campaign_end, Some(150));
    assert_eq!(rec.timestamp, Some(150));
    let progress = c.player_progress.unwrap();
    assert_eq!(progress.player, p);
    assert_eq!(progress.campaign_id, 3);
    assert_eq!(progress.completed_bugs, vec![12]);
    assert_eq!(progress.total_completed_bugs, 1);
    assert_eq!(progress.bump, 253);
}

#[test]
fn counter_counts_completions_of_distinct_players() {
    let mut camp = campaign(key(9), 1);
    for (i, player) in [key(1), key(2), key(3), key(4)].iter().enumerate() {
        let bug = (i as u8) + 3;
        let mut c = completing(*player, Some(started(*player, 1, bug, 10)), camp);
        assert_eq!(c.record_campaign_completion(1, bug, 20, &BUMPS), Ok(()));
        assert_eq!(c.campaign.total_completions, camp.total_completions + 1);
        camp = c.campaign;
    }
    assert_eq!(camp.total_completions, 4);
}

#[test]
fn progress_accumulates_bugs_of_one_player() {
    let p = key(5);
    let mut camp = campaign(key(9), 1);
    let mut progress: Option<PlayerProgress> = None;
    for bug in [2u8, 9, 20] {
        let mut c = RecordCampaignCompletion {
            player: p,
            campaign_completion: Some(started(p, 1, bug, 10)),
            player_progress: progress.clone(),
            campaign: camp,
        };
        assert_eq!(c.record_campaign_completion(1, bug, 20, &BUMPS), Ok(()));
        camp = c.campaign;
        progress = c.player_progress;
    }
    let progress = progress.unwrap();
    assert_eq!(progress.completed_bugs, vec![2, 9, 20]);
    assert_eq!(progress.total_completed_bugs, 3);
    assert_eq!(camp.total_completions, 3);
}

#[test]
fn bug_already_in_progress_is_not_counted_again() {
    let p = key(6);
    let mut progress = PlayerProgress::new(p, 1, 8);
    progress.add_bug(5);
    let mut c = RecordCampaignCompletion {
        player: p,
        campaign_completion: Some(started(p, 1, 5, 10)),
        player_progress: Some(progress),
        campaign: Campaign { game_authority: key(9), campaign_id: 1, total_completions: 3, bump: 1 },
    };
    assert_eq!(c.record_campaign_completion(1, 5, 20, &BUMPS), Ok(()));
    assert_eq!(c.campaign.total_completions, 3);
    let progress = c.player_progress.unwrap();
    assert_eq!(progress.completed_bugs, vec![5]);
    assert_eq!(progress.total_completed_bugs, 1);
    assert_eq!(progress.bump, 8);
    assert_eq!(c.campaign_completion.unwrap().campaign_end, Some(20));
}

#[test]
fn blank_progress_record_is_claimed() {
    let p = key(6);
    let blank = PlayerProgress::new(Key::zero(), 0, 0);
    let mut c = RecordCampaignCompletion {
        player: p,
        campaign_completion: Some(started(p, 4, 11, 10)),
        player_progress: Some(blank),
        campaign: campaign(key(9), 4),
    };
    assert_eq!(c.record_campaign_completion(4, 11, 20, &BUMPS), Ok(()));
    let progress = c.player_progress.unwrap();
    assert_eq!(progress.player, p);
    assert_eq!(progress.campaign_id, 4);
    assert_eq!(progress.completed_bugs, vec![11]);
}

#[test]
fn end_to_end_campaign_scenario() {
    let a = key(0xA1);
    let p = key(0x50);
    let mut init = InitializeCampaign { game_authority: a, campaign: None };
    assert_eq!(init.initialize(1, &InitializeCampaignBumps { campaign: 255 }), Ok(()));
    let camp = init.campaign.unwrap();

    let mut s = StartCampaign { player: p, campaign_completion: None };
    assert_eq!(s.start_campaign(1, 5, 1000, &StartCampaignBumps { campaign_completion: 252 }), Ok(()));

    let mut c = completing(p, s.campaign_completion, camp);
    assert_eq!(c.record_campaign_completion(1, 5, 2000, &BUMPS), Ok(()));
    {
        let progress = c.player_progress.as_ref().unwrap();
        assert_eq!(progress.completed_bugs, vec![5]);
        assert_eq!(progress.total_completed_bugs, 1);
    }
    assert_eq!(c.campaign.total_completions, 1);

    assert_eq!(
        c.record_campaign_completion(1, 5, 3000, &BUMPS),
        Err(ErrorCode::CampaignAlreadyCompleted)
    );
    let progress = c.player_progress.clone().unwrap();
    assert_eq!(progress.completed_bugs, vec![5]);
    assert_eq!(progress.total_completed_bugs, 1);
    assert_eq!(c.campaign.total_completions, 1);

    let stats = GetCampaignStats { game_authority: a, campaign: c.campaign };
    assert_eq!(stats.get_campaign_stats(1).unwrap().total_completions, 1);

    let view = HasCompletedBug { player: p, player_progress: progress.clone() };
    assert!(view.has_completed_bug(1, 5).completed);
    assert!(!view.has_completed_bug(1, 6).completed);

    let ev = GetPlayerProgress { player: p, player_progress: progress }.get_player_progress(1);
    assert_eq!(ev.completed_bugs, vec![5]);
    assert_eq!(ev.total_completed_bugs, 1);
    assert_eq!(ev.player, p);
    assert_eq!(ev.campaign_id, 1);
}
