use vstd::prelude::*;

use crate::campaign::{initialize_check, initialized, InitializeCampaign};
use crate::collection::{
    collection_created, create_collection_check, CreateCollection, CreateCollectionArgs,
};
use crate::completion::{
    completed_step, completion_check, has_progress, start_check, RecordCampaignCompletion,
    StartCampaign,
};
use crate::error::ErrorCode;
use crate::state::{valid_bug_id, PlayerProgress};

verus! {

/// A bug id outside `1..=20` makes both a start and a completion fail with
/// `InvalidBugId`, whatever the records hold.
pub proof fn lemma_invalid_bug_rejected(
    start: StartCampaign,
    complete: RecordCampaignCompletion,
    campaign_id: u8,
    bug_id: u8,
)
    requires
        !valid_bug_id(bug_id),
    ensures
        start_check(start, bug_id) == Some(ErrorCode::InvalidBugId),
        completion_check(complete, campaign_id, bug_id) == Some(ErrorCode::InvalidBugId),
{
}

/// Completing a valid bug of the addressed campaign whose attempt was never
/// started fails with `CampaignNotStarted`.
pub proof fn lemma_unstarted_completion_rejected(
    ctx: RecordCampaignCompletion,
    campaign_id: u8,
    bug_id: u8,
)
    requires
        valid_bug_id(bug_id),
        campaign_id == ctx.campaign.campaign_id,
        ctx.campaign_completion is None,
    ensures
        completion_check(ctx, campaign_id, bug_id) == Some(ErrorCode::CampaignNotStarted),
{
}

/// Once a completion has succeeded, completing the same attempt again fails
/// with `CampaignAlreadyCompleted` (and a failed call changes no record).
pub proof fn lemma_second_completion_rejected(
    pre: RecordCampaignCompletion,
    post: RecordCampaignCompletion,
    campaign_id: u8,
    bug_id: u8,
    now: i64,
)
    requires
        completion_check(pre, campaign_id, bug_id) is None,
        completed_step(pre, post, bug_id, now),
    ensures
        completion_check(post, campaign_id, bug_id) == Some(ErrorCode::CampaignAlreadyCompleted),
{
}

/// A player's first completion in a campaign raises the campaign's counter
/// by exactly one.
pub proof fn lemma_first_completion_counts_once(
    pre: RecordCampaignCompletion,
    post: RecordCampaignCompletion,
    bug_id: u8,
    now: i64,
)
    requires
        completed_step(pre, post, bug_id, now),
        !has_progress(pre),
    ensures
        post.campaign.total_completions == pre.campaign.total_completions + 1,
        post.player_progress->0.completed_bugs@ == seq![bug_id],
        post.player_progress->0.total_completed_bugs == 1,
{
    assert(!Seq::<u8>::empty().contains(bug_id));
    assert(Seq::<u8>::empty().push(bug_id) =~= seq![bug_id]);
}

/// Over a run of successful completions by distinct players, each the first
/// of its player, that share one campaign record, the campaign's counter
/// grows by the number of completions.
pub proof fn lemma_counter_counts_completions(
    pres: Seq<RecordCampaignCompletion>,
    posts: Seq<RecordCampaignCompletion>,
    bugs: Seq<u8>,
    nows: Seq<i64>,
)
    requires
        pres.len() == posts.len(),
        bugs.len() == pres.len(),
        nows.len() == pres.len(),
        forall|i: int| 0 <= i < pres.len() ==> completed_step(#[trigger] pres[i], posts[i], bugs[i], nows[i]),
        forall|i: int| 0 <= i < pres.len() ==> !has_progress(#[trigger] pres[i]),
        forall|i: int|
            0 < i < pres.len() ==> (#[trigger] pres[i]).campaign.total_completions
                == posts[i - 1].campaign.total_completions,
    ensures
        pres.len() > 0 ==> posts[pres.len() - 1].campaign.total_completions
            == pres[0].campaign.total_completions + pres.len(),
    decreases pres.len(),
{
    let n = pres.len();
    if n > 0 {
        lemma_first_completion_counts_once(pres[n - 1], posts[n - 1], bugs[n - 1], nows[n - 1]);
        if n > 1 {
            lemma_counter_counts_completions(
                pres.drop_last(),
                posts.drop_last(),
                bugs.drop_last(),
                nows.drop_last(),
            );
            assert(pres[n - 1].campaign.total_completions == posts[n - 2].campaign.total_completions);
        }
    }
}

/// In a well-formed progress record the total is the number of distinct
/// completed bugs.
pub proof fn lemma_progress_total_is_set_size(p: PlayerProgress)
    requires
        p.wf(),
    ensures
        p.total_completed_bugs == p.completed_bugs@.to_set().len(),
{
    p.completed_bugs@.unique_seq_to_set();
}

/// Once a campaign has been created, creating it again fails: its address
/// is occupied.
pub proof fn lemma_campaign_created_once(pre: InitializeCampaign, campaign_id: u8, bump: u8)
    requires
        initialize_check(pre) is None,
    ensures
        initialize_check(initialized(pre, campaign_id, bump)) == Some(
            ErrorCode::CollectionAlreadyInitialized,
        ),
{
}

/// Once a collection has been bound to its authority record, binding it
/// again fails with `CollectionAlreadyInitialized`.
pub proof fn lemma_collection_created_once(
    pre: CreateCollection,
    post: CreateCollection,
    args: CreateCollectionArgs,
    bump: u8,
)
    requires
        create_collection_check(pre) is None,
        collection_created(pre, post, args, bump),
    ensures
        create_collection_check(post) == Some(ErrorCode::CollectionAlreadyInitialized),
{
}

} // verus!
