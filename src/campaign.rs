use vstd::prelude::*;

use crate::error::ErrorCode;
use crate::key::Key;
use crate::state::{Campaign, PlayerProgress, MAX_BUG_ID};

verus! {

/// The records that creating a campaign touches: its authority and the slot
/// at the address derived from the campaign id.
#[derive(Clone, Copy, Debug)]
pub struct InitializeCampaign {
    pub game_authority: Key,
    pub campaign: Option<Campaign>,
}

#[derive(Clone, Copy, Debug)]
pub struct InitializeCampaignBumps {
    pub campaign: u8,
}

/// The first failing check of a campaign creation, if any.
pub open spec fn initialize_check(ctx: InitializeCampaign) -> Option<ErrorCode> {
    if ctx.campaign is Some {
        Some(ErrorCode::CollectionAlreadyInitialized)
    } else {
        None
    }
}

/// The records after a successful campaign creation.
pub open spec fn initialized(ctx: InitializeCampaign, campaign_id: u8, bump: u8) -> InitializeCampaign {
    InitializeCampaign {
        game_authority: ctx.game_authority,
        campaign: Some(
            Campaign { game_authority: ctx.game_authority, campaign_id, total_completions: 0, bump },
        ),
    }
}

impl InitializeCampaign {
    /// Creates the campaign with a zero counter, owned by the authority. The
    /// slot must be empty: a campaign is created once.
    pub fn initialize(&mut self, campaign_id: u8, bumps: &InitializeCampaignBumps) -> (r: Result<
        (),
        ErrorCode,
    >)
        ensures
            r == crate::completion::outcome(initialize_check(*old(self))),
            r is Err ==> *final(self) == *old(self),
            r is Ok ==> *final(self) == initialized(*old(self), campaign_id, bumps.campaign),
    {
        if self.campaign.is_some() {
            return Err(ErrorCode::CollectionAlreadyInitialized);
        }
        self.campaign = Some(
            Campaign {
                game_authority: self.game_authority,
                campaign_id,
                total_completions: 0,
                bump: bumps.campaign,
            },
        );
        Ok(())
    }
}

/// What a campaign's authority learns of it.
#[derive(Clone, Copy, Debug, PartialEq, Eq, Structural)]
pub struct CampaignStatsEvent {
    pub campaign_id: u8,
    pub total_completions: u16,
}

/// The caller and the campaign it asks about.
#[derive(Clone, Copy, Debug)]
pub struct GetCampaignStats {
    pub game_authority: Key,
    pub campaign: Campaign,
}

impl GetCampaignStats {
    /// The campaign's counter, for its stored authority only.
    pub fn get_campaign_stats(&self, campaign_id: u8) -> (r: Result<CampaignStatsEvent, ErrorCode>)
        ensures
            self.game_authority@ == self.campaign.game_authority@ <==> r is Ok,
            self.game_authority@ != self.campaign.game_authority@ ==> r == Err::<
                CampaignStatsEvent,
                ErrorCode,
            >(ErrorCode::NotAuthorized),
            r matches Ok(e) ==> e == (CampaignStatsEvent {
                campaign_id,
                total_completions: self.campaign.total_completions,
            }),
    {
        if !self.campaign.game_authority.equals(&self.game_authority) {
            return Err(ErrorCode::NotAuthorized);
        }
        Ok(CampaignStatsEvent { campaign_id, total_completions: self.campaign.total_completions })
    }
}

/// The bugs a player has completed in a campaign.
#[derive(Clone, Debug)]
pub struct PlayerProgressEvent {
    pub player: Key,
    pub campaign_id: u8,
    pub completed_bugs: Vec<u8>,
    pub total_completed_bugs: u8,
}

/// A player and their progress record.
#[derive(Clone, Debug)]
pub struct GetPlayerProgress {
    pub player: Key,
    pub player_progress: PlayerProgress,
}

fn copy_bugs(bugs: &Vec<u8>) -> (r: Vec<u8>)
    ensures
        r@ == bugs@,
{
    let mut r: Vec<u8> = Vec::new();
    let mut i: usize = 0;
    while i < bugs.len()
        invariant
            i <= bugs@.len(),
            r@ == bugs@.subrange(0, i as int),
        decreases bugs@.len() - i,
    {
        r.push(bugs[i]);
        i = i + 1;
        assert(r@ =~= bugs@.subrange(0, i as int));
    }
    assert(bugs@.subrange(0, bugs@.len() as int) =~= bugs@);
    r
}

impl GetPlayerProgress {
    pub fn get_player_progress(&self, campaign_id: u8) -> (r: PlayerProgressEvent)
        ensures
            r.player == self.player,
            r.campaign_id == campaign_id,
            r.completed_bugs@ == self.player_progress.completed_bugs@,
            r.total_completed_bugs == self.player_progress.total_completed_bugs,
    {
        PlayerProgressEvent {
            player: self.player,
            campaign_id,
            completed_bugs: copy_bugs(&self.player_progress.completed_bugs),
            total_completed_bugs: self.player_progress.total_completed_bugs,
        }
    }
}

/// Whether a player has completed one bug.
#[derive(Clone, Copy, Debug, PartialEq, Eq)]
pub struct CompletedBugEvent {
    pub player: Key,
    pub campaign_id: u8,
    pub bug_id: u8,
    pub completed: bool,
}

#[derive(Clone, Debug)]
pub struct HasCompletedBug {
    pub player: Key,
    pub player_progress: PlayerProgress,
}

impl HasCompletedBug {
    pub fn has_completed_bug(&self, campaign_id: u8, bug_id: u8) -> (r: CompletedBugEvent)
        ensures
            r.player == self.player,
            r.campaign_id == campaign_id,
            r.bug_id == bug_id,
            r.completed == self.player_progress.completed_bugs@.contains(bug_id),
    {
        let completed = self.player_progress.contains_bug(bug_id);
        CompletedBugEvent { player: self.player, campaign_id, bug_id, completed }
    }
}

/// Seconds in a day.
pub const SECONDS_PER_DAY: u64 = 86400;

/// The bug of the day.
#[derive(Clone, Copy, Debug, PartialEq, Eq, Structural)]
pub struct DailyBugEvent {
    pub bug_id: u8,
}

#[derive(Clone, Copy, Debug)]
pub struct GetDailyBug {
    pub player: Key,
}

impl GetDailyBug {
    /// A stand-in for a randomness source: the day number since the epoch,
    /// taken modulo the number of bugs, plus one.
    pub fn get_daily_bug(&self, now: i64) -> (r: DailyBugEvent)
        requires
            now >= 0,
        ensures
            r.bug_id == (now as int / SECONDS_PER_DAY as int) % (MAX_BUG_ID as int) + 1,
            1 <= r.bug_id <= MAX_BUG_ID,
    {
        let day: u64 = (now as u64) / SECONDS_PER_DAY;
        let bug_id: u8 = ((day % (MAX_BUG_ID as u64)) + 1) as u8;
        DailyBugEvent { bug_id }
    }
}

} // verus!
