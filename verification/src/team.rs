//! The team: exactly `TEAM_MAX_CAPACITY` members, and the full luck
//! aggregation pipeline from loadouts to per-member rescue chances.

use vstd::prelude::*;

use vstd::arithmetic::mul::{lemma_mul_nonnegative, lemma_mul_upper_bound};

use crate::constants::{BASE_UNHOOK_CHANCE, LUCK_SCALE, PROB_DENOMINATOR, TEAM_MAX_CAPACITY};
use crate::living_count::LivingCount;
use crate::loadout::lemma_loadout_record_bounds;
use crate::luck::Luck;
use crate::luck_record::{
    outcome_ready, overall_numerator, team_combined, team_converted, PlayerTeamConverter,
    TeamLuckRecord, TeamRecordModel,
};
use crate::player::{default_player, player_altered, player_record_model, Player};
use crate::update::{SurvivorId, SurvivorUpdate};

verus! {

/// How many members other than the one at `excl` are alive.
pub open spec fn alive_excluding(players: Seq<Player>, excl: int) -> int
    decreases players.len(),
{
    if players.len() == 0 {
        0
    } else {
        alive_excluding(players.drop_last(), excl) + if players.last().is_alive && players.len()
            - 1 != excl {
            1int
        } else {
            0int
        }
    }
}

/// The fixed record every fold starts from: the shared base rescue chance.
pub open spec fn base_team_record() -> TeamRecordModel {
    TeamRecordModel { global: BASE_UNHOOK_CHANCE as int, personals: Seq::empty() }
}

/// The team record one member contributes: their gated record, resolved
/// against how many other members are alive.
pub open spec fn member_team_record(players: Seq<Player>, i: int) -> TeamRecordModel {
    team_converted(alive_excluding(players, i), player_record_model(players[i]))
}

/// The base record folded with the first `n` members' team records, in
/// member order.
pub open spec fn collated_prefix(players: Seq<Player>, n: int) -> TeamRecordModel
    decreases n,
{
    if n <= 0 {
        base_team_record()
    } else {
        team_combined(collated_prefix(players, n - 1), member_team_record(players, n - 1))
    }
}

/// The whole team's aggregated luck record.
pub open spec fn team_collated(players: Seq<Player>) -> TeamRecordModel {
    collated_prefix(players, players.len() as int)
}

/// The team after one addressed update.
pub open spec fn team_altered(players: Seq<Player>, u: SurvivorUpdate) -> Seq<Player> {
    players.update(u.id@, player_altered(players[u.id@], u.update))
}

/// Whether an update sets a slot or flag to the value it already has.
pub open spec fn update_is_noop(players: Seq<Player>, u: SurvivorUpdate) -> bool {
    match u.update {
        crate::update::SurvivorUpdateData::Life(alive) => players[u.id@].is_alive == alive,
        crate::update::SurvivorUpdateData::LoadoutUpdate(
            crate::update::LoadoutUpdate::Offering(o),
        ) => players[u.id@].loadout.offering == o,
        crate::update::SurvivorUpdateData::LoadoutUpdate(crate::update::LoadoutUpdate::Perk(p)) =>
            crate::loadout::loadout_tier_slot(players[u.id@].loadout, p.perk) == p.value,
    }
}

/// An update that sets a slot or flag to its current value changes
/// nothing: the team state, and with it every observable output, stays
/// exactly as it was.
pub proof fn lemma_noop_update_unchanged(players: Seq<Player>, u: SurvivorUpdate)
    requires
        0 <= u.id@ < players.len(),
        update_is_noop(players, u),
    ensures
        team_altered(players, u) == players,
        team_collated(team_altered(players, u)) == team_collated(players),
{
    assert(player_altered(players[u.id@], u.update) == players[u.id@]);
    assert(team_altered(players, u) =~= players);
}

/// Exactly `TEAM_MAX_CAPACITY` members; created all fresh, changed one
/// member at a time.
#[derive(Debug, PartialEq)]
pub struct Team {
    players: Vec<Player>,
}

impl View for Team {
    type V = Seq<Player>;

    closed spec fn view(&self) -> Seq<Player> {
        self.players@
    }
}

impl Team {
    #[verifier::type_invariant]
    closed spec fn capacity_fixed(self) -> bool {
        self.players@.len() == TEAM_MAX_CAPACITY
    }

    /// A fresh team: every member default, alive.
    pub fn new() -> (r: Team)
        ensures
            r@ =~= seq![default_player(), default_player(), default_player(), default_player()],
    {
        let mut players: Vec<Player> = Vec::new();
        players.push(Player::default());
        players.push(Player::default());
        players.push(Player::default());
        players.push(Player::default());
        Team { players }
    }

    /// The members, in index order.
    pub fn list(&self) -> (r: &Vec<Player>)
        ensures
            r@ == self@,
            r@.len() == TEAM_MAX_CAPACITY,
    {
        proof {
            use_type_invariant(&*self);
        }
        &self.players
    }

    /// The member at a validated index.
    pub fn get_player(&self, i: SurvivorId) -> (r: &Player)
        ensures
            *r == self@[i@],
    {
        proof {
            use_type_invariant(&*self);
        }
        let idx = i.into_inner();
        &self.players[idx]
    }

    /// Applies one addressed update to the team.
    pub fn alter(&mut self, update: SurvivorUpdate)
        ensures
            final(self)@ == team_altered(old(self)@, update),
    {
        proof {
            use_type_invariant(&*self);
        }
        let idx = update.id.into_inner();
        let mut player = self.players[idx];
        player.alter(update.update);
        self.players[idx] = player;
    }

    /// How many members other than the one at `uncounted_player` are
    /// alive. Never outside `[0, TEAM_MAX_CAPACITY - 1]`: the excluded
    /// member can not be counted.
    #[verifier::loop_isolation(false)]
    pub fn alive_not_counting(&self, uncounted_player: usize) -> (r: LivingCount)
        requires
            uncounted_player < TEAM_MAX_CAPACITY,
        ensures
            r@ == alive_excluding(self@, uncounted_player as int),
            0 <= r@ <= TEAM_MAX_CAPACITY - 1,
    {
        proof {
            use_type_invariant(&*self);
        }
        let mut count: u8 = 0;
        let mut i: usize = 0;
        while i < TEAM_MAX_CAPACITY
            invariant
                i <= TEAM_MAX_CAPACITY,
                count == alive_excluding(self@.take(i as int), uncounted_player as int),
                count <= i,
                uncounted_player < i ==> count < i,
            decreases TEAM_MAX_CAPACITY - i,
        {
            proof {
                assert(self@.take(i + 1).drop_last() =~= self@.take(i as int));
                assert(self@.take(i + 1).last() == self@[i as int]);
            }
            if self.players[i].is_alive() && i != uncounted_player {
                count = count + 1;
            }
            i = i + 1;
        }
        proof {
            assert(self@.take(TEAM_MAX_CAPACITY as int) =~= self@);
        }
        LivingCount::try_new(count).unwrap()
    }

    /// Folds the base chance with every member's resolved team record, in
    /// member order. The result is ready for the compound-chance formula:
    /// reachable team states can not push any member's luck past one.
    #[verifier::loop_isolation(false)]
    pub fn collate_luck(&self) -> (r: TeamLuckRecord)
        ensures
            r@ == team_collated(self@),
            r@.personals.len() == TEAM_MAX_CAPACITY,
            outcome_ready(r@),
    {
        proof {
            use_type_invariant(&*self);
        }
        let mut acc = TeamLuckRecord::with_global(BASE_UNHOOK_CHANCE);
        let mut i: usize = 0;
        while i < TEAM_MAX_CAPACITY
            invariant
                i <= TEAM_MAX_CAPACITY,
                acc@ == collated_prefix(self@, i as int),
                acc@.personals.len() == i,
                0 <= acc@.global <= BASE_UNHOOK_CHANCE + i * 12,
                forall|k: int|
                    0 <= k < i ==> 0 <= (#[trigger] acc@.personals[k]).0 <= 7 && 0
                        <= acc@.personals[k].1 <= 3,
            decreases TEAM_MAX_CAPACITY - i,
        {
            let player = self.players[i];
            let plr = player.make_player_luck();
            let living = self.alive_not_counting(i);
            let converter = PlayerTeamConverter::new(living);
            proof {
                lemma_loadout_record_bounds(player.loadout);
                match plr@.up_the_ante_coeff {
                    Some(c) => {
                        lemma_mul_nonnegative(c, living@);
                        lemma_mul_upper_bound(c, 3, living@, 3);
                    },
                    None => {},
                }
            }
            let team_record = converter.convert(&plr);
            acc = acc.combine(&team_record);
            i = i + 1;
        }
        acc
    }

    /// Every member's `(single attempt chance, overall chance)` pair, in
    /// member order: the single chance in hundredths, the overall chance
    /// as a numerator over `PROB_DENOMINATOR`.
    pub fn luck_output(&self) -> (r: Vec<(Luck, u64)>)
        ensures
            r@.len() == TEAM_MAX_CAPACITY,
            forall|i: int|
                0 <= i < r@.len() ==> (#[trigger] r@[i]).0 == team_collated(self@).personals[i].0
                    + team_collated(self@).global && r@[i].1 == overall_numerator(
                    team_collated(self@).personals[i].0 + team_collated(self@).global,
                    team_collated(self@).personals[i].1,
                ),
            forall|i: int|
                0 <= i < r@.len() ==> (#[trigger] r@[i]).0 <= LUCK_SCALE && r@[i].1
                    <= PROB_DENOMINATOR,
    {
        let collated = self.collate_luck();
        collated.make_single_and_total_unhook_pairs()
    }
}

impl Default for Team {
    /// A fresh team: every member default, alive.
    fn default() -> (r: Team)
        ensures
            r@ =~= seq![default_player(), default_player(), default_player(), default_player()],
    {
        Team::new()
    }
}

} // verus!
