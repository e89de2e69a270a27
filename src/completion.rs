use vstd::prelude::*;

use crate::error::ErrorCode;
use crate::key::Key;
use crate::state::{
    valid_bug_id, Campaign, CampaignCompletion, PlayerProgress, MAX_BUG_ID, MIN_BUG_ID,
};

verus! {

/// `Ok(())` where no check fails, else the error of the first check that fails.
pub open spec fn outcome(check: Option<ErrorCode>) -> Result<(), ErrorCode> {
    match check {
        Some(e) => Err(e),
        None => Ok(()),
    }
}

/// The records a start touches: the player and the slot of the completion
/// record at the address derived from (campaign, player, bug).
#[derive(Clone, Copy, Debug)]
pub struct StartCampaign {
    pub player: Key,
    pub campaign_completion: Option<CampaignCompletion>,
}

#[derive(Clone, Copy, Debug)]
pub struct StartCampaignBumps {
    pub campaign_completion: u8,
}

/// The first failing check of a start, if any.
pub open spec fn start_check(ctx: StartCampaign, bug_id: u8) -> Option<ErrorCode> {
    if !valid_bug_id(bug_id) {
        Some(ErrorCode::InvalidBugId)
    } else if ctx.campaign_completion is Some {
        Some(ErrorCode::CollectionAlreadyInitialized)
    } else {
        None
    }
}

/// The record that a successful start writes.
pub open spec fn started_record(
    player: Key,
    campaign_id: u8,
    bug_id: u8,
    now: i64,
    bump: u8,
) -> CampaignCompletion {
    CampaignCompletion {
        player,
        campaign_id,
        campaign_start: Some(now),
        campaign_end: None,
        timestamp: None,
        bug_id,
        nft_mint_address: None,
        bump,
    }
}

impl StartCampaign {
    /// Opens an attempt of the player at `bug_id`, started at `now`. A bug id
    /// outside `1..=20` is rejected, and so is a slot that already holds a
    /// record: an attempt cannot be restarted.
    pub fn start_campaign(
        &mut self,
        campaign_id: u8,
        bug_id: u8,
        now: i64,
        bumps: &StartCampaignBumps,
    ) -> (r: Result<(), ErrorCode>)
        ensures
            r == outcome(start_check(*old(self), bug_id)),
            r is Err ==> *final(self) == *old(self),
            r is Ok ==> final(self).player == old(self).player,
            r is Ok ==> final(self).campaign_completion == Some(
                started_record(old(self).player, campaign_id, bug_id, now, bumps.campaign_completion),
            ),
            r is Ok ==> final(self).campaign_completion->0.wf(),
    {
        if bug_id < MIN_BUG_ID || bug_id > MAX_BUG_ID {
            return Err(ErrorCode::InvalidBugId);
        }
        if self.campaign_completion.is_some() {
            return Err(ErrorCode::CollectionAlreadyInitialized);
        }
        self.campaign_completion = Some(
            CampaignCompletion {
                player: self.player,
                campaign_id,
                campaign_start: Some(now),
                campaign_end: None,
                timestamp: None,
                bug_id,
                nft_mint_address: None,
                bump: bumps.campaign_completion,
            },
        );
        Ok(())
    }
}

/// The records a completion touches: the player, the completion record, the
/// player's progress record (absent until the first completion) and the
/// campaign.
#[derive(Clone, Debug)]
pub struct RecordCampaignCompletion {
    pub player: Key,
    pub campaign_completion: Option<CampaignCompletion>,
    pub player_progress: Option<PlayerProgress>,
    pub campaign: Campaign,
}

#[derive(Clone, Copy, Debug)]
pub struct RecordCampaignCompletionBumps {
    pub player_progress: u8,
}

/// The first failing check of a completion, if any.
pub open spec fn completion_check(
    ctx: RecordCampaignCompletion,
    campaign_id: u8,
    bug_id: u8,
) -> Option<ErrorCode> {
    if !valid_bug_id(bug_id) {
        Some(ErrorCode::InvalidBugId)
    } else if campaign_id != ctx.campaign.campaign_id {
        Some(ErrorCode::InvalidCampaignId)
    } else if ctx.campaign_completion is None {
        Some(ErrorCode::CampaignNotStarted)
    } else if ctx.campaign_completion->0.player@ != ctx.player@ {
        Some(ErrorCode::UnauthorizedPlayer)
    } else if ctx.campaign_completion->0.campaign_start is None {
        Some(ErrorCode::CampaignNotStarted)
    } else if ctx.campaign_completion->0.campaign_end is Some {
        Some(ErrorCode::CampaignAlreadyCompleted)
    } else {
        None
    }
}

/// Whether the progress slot holds a record that somebody has written.
pub open spec fn has_progress(ctx: RecordCampaignCompletion) -> bool {
    ctx.player_progress matches Some(p) && !p.is_blank()
}

/// The bugs the player had completed before this completion.
pub open spec fn prior_bugs(ctx: RecordCampaignCompletion) -> Seq<u8> {
    if has_progress(ctx) {
        ctx.player_progress->0.completed_bugs@
    } else {
        Seq::empty()
    }
}

/// Whether this completion adds a bug to the player's progress, and so to the
/// campaign's counter.
pub open spec fn counts_new_bug(ctx: RecordCampaignCompletion, bug_id: u8) -> bool {
    !prior_bugs(ctx).contains(bug_id)
}

/// What the records may hold before a completion at time `now`.
pub open spec fn completion_ready(ctx: RecordCampaignCompletion, now: i64) -> bool {
    &&& (ctx.player_progress matches Some(p) ==> p.wf())
    &&& (ctx.campaign_completion matches Some(c) ==> (c.campaign_start matches Some(s) ==> s <= now))
    &&& ctx.campaign.total_completions < u16::MAX
}

/// How a successful completion of `bug_id` at `now` turns `pre` into `post`.
pub open spec fn completed_step(
    pre: RecordCampaignCompletion,
    post: RecordCampaignCompletion,
    bug_id: u8,
    now: i64,
) -> bool {
    let c = pre.campaign_completion->0;
    let counted = counts_new_bug(pre, bug_id);
    &&& post.player == pre.player
    &&& post.campaign_completion == Some(
        (CampaignCompletion { campaign_end: Some(now), timestamp: Some(now), ..c }),
    )
    &&& post.player_progress matches Some(p)
    &&& post.player_progress->0.wf()
    &&& post.player_progress->0.completed_bugs@ == (if counted {
        prior_bugs(pre).push(bug_id)
    } else {
        prior_bugs(pre)
    })
    &&& post.player_progress->0.player@ == (if has_progress(pre) {
        pre.player_progress->0.player@
    } else {
        pre.player@
    })
    &&& has_progress(pre) ==> post.player_progress->0.campaign_id
        == pre.player_progress->0.campaign_id
    &&& has_progress(pre) ==> post.player_progress->0.bump == pre.player_progress->0.bump
    &&& post.campaign.game_authority == pre.campaign.game_authority
    &&& post.campaign.campaign_id == pre.campaign.campaign_id
    &&& post.campaign.bump == pre.campaign.bump
    &&& post.campaign.total_completions == pre.campaign.total_completions + (if counted {
        1int
    } else {
        0int
    })
}

impl RecordCampaignCompletion {
    /// Finishes the player's started attempt at `bug_id` at time `now`. The
    /// player's progress record is created on first use; a bug it does not
    /// yet hold is added to it and counted once by the campaign. A second
    /// completion of the same attempt is rejected.
    pub fn record_campaign_completion(
        &mut self,
        campaign_id: u8,
        bug_id: u8,
        now: i64,
        bumps: &RecordCampaignCompletionBumps,
    ) -> (r: Result<(), ErrorCode>)
        requires
            completion_ready(*old(self), now),
        ensures
            r == outcome(completion_check(*old(self), campaign_id, bug_id)),
            r is Err ==> *final(self) == *old(self),
            r is Ok ==> completed_step(*old(self), *final(self), bug_id, now),
            r is Ok && old(self).campaign_completion->0.wf()
                ==> final(self).campaign_completion->0.wf(),
            r is Ok && !has_progress(*old(self)) ==> final(self).player_progress->0.campaign_id
                == campaign_id,
            r is Ok && !has_progress(*old(self)) ==> final(self).player_progress->0.bump
                == bumps.player_progress,
    {
        if bug_id < MIN_BUG_ID || bug_id > MAX_BUG_ID {
            return Err(ErrorCode::InvalidBugId);
        }
        if campaign_id != self.campaign.campaign_id {
            return Err(ErrorCode::InvalidCampaignId);
        }
        let record = match self.campaign_completion {
            Some(c) => c,
            None => {
                return Err(ErrorCode::CampaignNotStarted);
            },
        };
        if !record.player.equals(&self.player) {
            return Err(ErrorCode::UnauthorizedPlayer);
        }
        if record.campaign_start.is_none() {
            return Err(ErrorCode::CampaignNotStarted);
        }
        if record.campaign_end.is_some() {
            return Err(ErrorCode::CampaignAlreadyCompleted);
        }
        let ghost pre = *self;
        let mut progress = match self.player_progress.take() {
            Some(p) => {
                if p.player.is_zero() {
                    PlayerProgress::new(self.player, campaign_id, bumps.player_progress)
                } else {
                    p
                }
            },
            None => PlayerProgress::new(self.player, campaign_id, bumps.player_progress),
        };
        assert(progress.completed_bugs@ == prior_bugs(pre));
        self.campaign_completion = Some(
            CampaignCompletion { campaign_end: Some(now), timestamp: Some(now), ..record },
        );
        if !progress.contains_bug(bug_id) {
            progress.add_bug(bug_id);
            self.campaign.total_completions = self.campaign.total_completions + 1;
        }
        self.player_progress = Some(progress);
        Ok(())
    }
}

} // verus!
