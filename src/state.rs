use vstd::prelude::*;
use vstd::set_lib::lemma_len_subset;

use crate::key::{zero_key, Key};

verus! {

/// Smallest bug id a player can hunt.
pub const MIN_BUG_ID: u8 = 1;

/// Largest bug id a player can hunt; also how many bugs a progress record holds.
pub const MAX_BUG_ID: u8 = 20;

pub open spec fn valid_bug_id(bug_id: u8) -> bool {
    MIN_BUG_ID <= bug_id <= MAX_BUG_ID
}

/// One campaign: its authority and how many completions it has counted.
#[derive(Clone, Copy, Debug)]
pub struct Campaign {
    pub game_authority: Key,
    pub campaign_id: u8,
    pub total_completions: u16,
    pub bump: u8,
}

/// One attempt of a player at one bug of a campaign.
#[derive(Clone, Copy, Debug)]
pub struct CampaignCompletion {
    pub player: Key,
    pub campaign_id: u8,
    pub campaign_start: Option<i64>,
    pub campaign_end: Option<i64>,
    pub timestamp: Option<i64>,
    pub bug_id: u8,
    pub nft_mint_address: Option<Key>,
    pub bump: u8,
}

impl CampaignCompletion {
    /// A record is only ever created started, and finishes no earlier than it
    /// started.
    pub open spec fn wf(&self) -> bool {
        &&& valid_bug_id(self.bug_id)
        &&& self.campaign_start is Some
        &&& (self.campaign_end matches Some(end) ==> self.campaign_start->0 <= end)
    }

    pub open spec fn is_completed(&self) -> bool {
        self.campaign_end is Some
    }
}

/// The bugs one player has completed within one campaign.
#[derive(Clone, Debug)]
pub struct PlayerProgress {
    pub player: Key,
    pub campaign_id: u8,
    pub completed_bugs: Vec<u8>,
    pub total_completed_bugs: u8,
    pub bump: u8,
}

impl PlayerProgress {
    /// No bug twice, only valid bugs, and the total is the number of bugs.
    pub open spec fn wf(&self) -> bool {
        &&& self.completed_bugs@.no_duplicates()
        &&& forall|i: int|
            0 <= i < self.completed_bugs@.len() ==> valid_bug_id(#[trigger] self.completed_bugs@[i])
        &&& self.completed_bugs@.len() <= MAX_BUG_ID
        &&& self.total_completed_bugs == self.completed_bugs@.len()
    }

    /// A record that nobody has written to yet.
    pub open spec fn is_blank(&self) -> bool {
        self.player@ == zero_key()
    }

    /// A progress record with no completed bug.
    pub fn new(player: Key, campaign_id: u8, bump: u8) -> (r: PlayerProgress)
        ensures
            r.wf(),
            r.player == player,
            r.campaign_id == campaign_id,
            r.completed_bugs@ == Seq::<u8>::empty(),
            r.total_completed_bugs == 0,
            r.bump == bump,
    {
        PlayerProgress {
            player,
            campaign_id,
            completed_bugs: Vec::new(),
            total_completed_bugs: 0,
            bump,
        }
    }

    pub fn contains_bug(&self, bug_id: u8) -> (r: bool)
        ensures
            r == self.completed_bugs@.contains(bug_id),
    {
        let mut i: usize = 0;
        while i < self.completed_bugs.len()
            invariant
                i <= self.completed_bugs@.len(),
                forall|j: int| 0 <= j < i ==> self.completed_bugs@[j] != bug_id,
            decreases self.completed_bugs@.len() - i,
        {
            if self.completed_bugs[i] == bug_id {
                return true;
            }
            i = i + 1;
        }
        false
    }

    /// Records one more completed bug.
    pub fn add_bug(&mut self, bug_id: u8)
        requires
            old(self).wf(),
            valid_bug_id(bug_id),
            !old(self).completed_bugs@.contains(bug_id),
        ensures
            final(self).wf(),
            final(self).completed_bugs@ == old(self).completed_bugs@.push(bug_id),
            final(self).total_completed_bugs == old(self).total_completed_bugs + 1,
            final(self).player == old(self).player,
            final(self).campaign_id == old(self).campaign_id,
            final(self).bump == old(self).bump,
    {
        proof {
            lemma_room_for_missing_bug(self.completed_bugs@, bug_id);
        }
        self.completed_bugs.push(bug_id);
        self.total_completed_bugs = self.total_completed_bugs + 1;
        proof {
            let s = self.completed_bugs@;
            assert forall|i: int, j: int| 0 <= i < s.len() && 0 <= j < s.len() && i != j
                implies s[i] != s[j] by {
                if i == s.len() - 1 || j == s.len() - 1 {
                    assert(old(self).completed_bugs@.contains(bug_id) == false);
                    if i == s.len() - 1 {
                        assert(s[j] == old(self).completed_bugs@[j]);
                    } else {
                        assert(s[i] == old(self).completed_bugs@[i]);
                    }
                }
            }
        }
    }
}

/// The twenty valid bug ids.
pub open spec fn all_bug_ids() -> Set<u8> {
    set![1u8, 2u8, 3u8, 4u8, 5u8, 6u8, 7u8, 8u8, 9u8, 10u8, 11u8, 12u8, 13u8, 14u8, 15u8,
         16u8, 17u8, 18u8, 19u8, 20u8]
}

/// Distinct valid bugs that leave one valid bug out number fewer than twenty.
pub proof fn lemma_room_for_missing_bug(s: Seq<u8>, bug_id: u8)
    requires
        s.no_duplicates(),
        forall|i: int| 0 <= i < s.len() ==> valid_bug_id(#[trigger] s[i]),
        valid_bug_id(bug_id),
        !s.contains(bug_id),
    ensures
        s.len() < MAX_BUG_ID,
{
    let all = all_bug_ids();
    assert(all.len() == 20);
    assert(all.contains(bug_id));
    let rest = all.remove(bug_id);
    assert(rest.len() == 19);
    s.unique_seq_to_set();
    assert forall|x: u8| s.to_set().contains(x) implies rest.contains(x) by {
        let i = choose|i: int| 0 <= i < s.len() && s[i] == x;
        assert(valid_bug_id(s[i]));
    }
    lemma_len_subset(s.to_set(), rest);
}

/// Binds a minting-service collection to the campaign authority that created it.
#[derive(Clone, Debug)]
pub struct CollectionAuthority {
    pub creator: Key,
    pub collection: Key,
    pub nft_name: String,
    pub nft_uri: String,
    pub bump: u8,
}

/// A request for the bug of the day, kept for a randomness source.
#[derive(Clone, Copy, Debug)]
pub struct DailyBug {
    pub bug_id: Option<u8>,
    pub day: i8,
    pub seed: [u8; 32],
    pub requested_at: i64,
}

} // verus!
