//! The modifier-record algebra at the heart of the engine.
//!
//! A `LoadoutLuckRecord` summarises one member's equipment: additive personal
//! and global luck, an optional count-scaling coefficient, and extra rescue
//! attempts. Records combine component-wise, except that the count-scaling
//! coefficient is kept from the left operand when both are present — the game
//! only ever honours one count-scaling perk. Combination is associative with
//! the all-zero record as two-sided identity, so folding any list of
//! modifiers is unambiguous.

use vstd::prelude::*;

use vstd::arithmetic::mul::{lemma_mul_inequality, lemma_mul_nonnegative, lemma_mul_upper_bound};
use vstd::arithmetic::power::{lemma_pow_adds, lemma_pow_increases, pow};

use crate::array_vec::{entries, entry_at, entry_count, new_entries, push_entry};
use crate::constants::{
    BASE_UNHOOK_ATTEMPTS, LUCK_SCALE, MAX_UNHOOK_ATTEMPTS, PROB_DENOMINATOR,
    SLIPPERY_EXTRA_UNHOOKS, TEAM_MAX_CAPACITY,
};
use crate::living_count::LivingCount;
use crate::luck::Luck;

verus! {

/// Mathematical shape of a combined modifier record: unbounded integers in
/// hundredths, so the combination algebra has no overflow side conditions.
pub ghost struct LuckRecordModel {
    pub personal: int,
    pub global: int,
    pub up_the_ante_coeff: Option<int>,
    pub additional_unhooks: int,
}

/// The identity record: no luck, no coefficient, no extra attempts.
pub open spec fn identity_record() -> LuckRecordModel {
    LuckRecordModel {
        personal: 0,
        global: 0,
        up_the_ante_coeff: None,
        additional_unhooks: 0,
    }
}

/// A record carrying only personal luck.
pub open spec fn personal_record(v: int) -> LuckRecordModel {
    LuckRecordModel { personal: v, ..identity_record() }
}

/// A record carrying only global luck.
pub open spec fn global_record(v: int) -> LuckRecordModel {
    LuckRecordModel { global: v, ..identity_record() }
}

/// A record carrying only a count-scaling coefficient.
pub open spec fn count_scaling_record(v: int) -> LuckRecordModel {
    LuckRecordModel { up_the_ante_coeff: Some(v), ..identity_record() }
}

/// A record carrying only extra rescue attempts.
pub open spec fn unhook_record(n: int) -> LuckRecordModel {
    LuckRecordModel { additional_unhooks: n, ..identity_record() }
}

/// The combination rule: luck and attempts add; of two count-scaling
/// coefficients the left one is kept, a deliberate game-rule quirk.
pub open spec fn combined(a: LuckRecordModel, b: LuckRecordModel) -> LuckRecordModel {
    LuckRecordModel {
        personal: a.personal + b.personal,
        global: a.global + b.global,
        up_the_ante_coeff: if a.up_the_ante_coeff is Some {
            a.up_the_ante_coeff
        } else {
            b.up_the_ante_coeff
        },
        additional_unhooks: a.additional_unhooks + b.additional_unhooks,
    }
}

/// Combination is associative, so a fold over any modifier list is
/// unambiguous however it is bracketed.
pub proof fn lemma_combined_associative(a: LuckRecordModel, b: LuckRecordModel, c: LuckRecordModel)
    ensures
        combined(combined(a, b), c) == combined(a, combined(b, c)),
{
}

/// The all-zero record is a two-sided identity for combination.
pub proof fn lemma_combined_identity(a: LuckRecordModel)
    ensures
        combined(a, identity_record()) == a,
        combined(identity_record(), a) == a,
{
}

/// Of two count-scaling sources the one combined first wins: the right
/// operand's coefficient is discarded, never averaged or preferred.
pub proof fn lemma_count_scaling_left_bias(x: int, y: int)
    ensures
        combined(count_scaling_record(x), count_scaling_record(y)).up_the_ante_coeff == Some(x),
{
}

/// One member's combined equipment modifiers, in hundredths of probability.
#[derive(Debug, Clone, Copy, PartialEq)]
pub struct LoadoutLuckRecord {
    pub personal: Luck,
    pub global: Luck,
    pub up_the_ante_coeff: Option<Luck>,
    pub additional_unhooks: i8,
}

impl View for LoadoutLuckRecord {
    type V = LuckRecordModel;

    open spec fn view(&self) -> LuckRecordModel {
        LuckRecordModel {
            personal: self.personal as int,
            global: self.global as int,
            up_the_ante_coeff: match self.up_the_ante_coeff {
                Some(c) => Some(c as int),
                None => None,
            },
            additional_unhooks: self.additional_unhooks as int,
        }
    }
}

impl LoadoutLuckRecord {
    /// The identity record.
    pub fn empty() -> (r: LoadoutLuckRecord)
        ensures
            r@ == identity_record(),
    {
        LoadoutLuckRecord {
            personal: 0,
            global: 0,
            up_the_ante_coeff: None,
            additional_unhooks: 0,
        }
    }

    /// A record carrying only personal luck.
    pub fn from_personal(personal: Luck) -> (r: LoadoutLuckRecord)
        ensures
            r@ == personal_record(personal as int),
    {
        LoadoutLuckRecord { personal, ..Self::empty() }
    }

    /// A record carrying only global luck.
    pub fn from_global(global: Luck) -> (r: LoadoutLuckRecord)
        ensures
            r@ == global_record(global as int),
    {
        LoadoutLuckRecord { global, ..Self::empty() }
    }

    /// A record carrying only an Up the Ante count-scaling coefficient.
    pub fn from_uta(uta: Luck) -> (r: LoadoutLuckRecord)
        ensures
            r@ == count_scaling_record(uta as int),
    {
        LoadoutLuckRecord { up_the_ante_coeff: Some(uta), ..Self::empty() }
    }

    /// A record carrying only extra rescue attempts.
    pub fn from_unhook_mod(additional_unhooks: i8) -> (r: LoadoutLuckRecord)
        ensures
            r@ == unhook_record(additional_unhooks as int),
    {
        LoadoutLuckRecord { additional_unhooks, ..Self::empty() }
    }

    /// Combines two records by the rule of [`combined`]. The preconditions
    /// only keep the sums inside the machine integer types.
    pub fn combine(&self, other: &LoadoutLuckRecord) -> (r: LoadoutLuckRecord)
        requires
            self@.personal + other@.personal <= u64::MAX,
            self@.global + other@.global <= u64::MAX,
            i8::MIN <= self@.additional_unhooks + other@.additional_unhooks <= i8::MAX,
        ensures
            r@ == combined(self@, other@),
    {
        LoadoutLuckRecord {
            personal: self.personal + other.personal,
            global: self.global + other.global,
            up_the_ante_coeff: match self.up_the_ante_coeff {
                Some(c) => Some(c),
                None => other.up_the_ante_coeff,
            },
            additional_unhooks: self.additional_unhooks + other.additional_unhooks,
        }
    }
}

impl Default for LoadoutLuckRecord {
    /// The identity record.
    fn default() -> (r: LoadoutLuckRecord)
        ensures
            r@ == identity_record(),
    {
        LoadoutLuckRecord::empty()
    }
}

/// A member's record after the liveness gate: the count-scaling coefficient
/// of a dead member is suppressed, everything else kept.
pub open spec fn player_converted(alive: bool, r: LuckRecordModel) -> LuckRecordModel {
    LuckRecordModel {
        up_the_ante_coeff: if alive {
            r.up_the_ante_coeff
        } else {
            None
        },
        ..r
    }
}

/// Gating a dead member's record twice yields the same suppressed record.
pub proof fn lemma_liveness_gate_idempotent(r: LuckRecordModel)
    ensures
        player_converted(false, player_converted(false, r)) == player_converted(false, r),
{
}

/// Gating an alive member's record changes nothing, so reconverting after a
/// revival restores the original coefficient.
pub proof fn lemma_liveness_gate_revives(r: LuckRecordModel)
    ensures
        player_converted(true, r) == r,
{
}

/// A member's gated record, guaranteed free of a dead member's
/// count-scaling coefficient.
#[derive(Debug, Clone, Copy, PartialEq)]
pub struct PlayerLuckRecord(pub LoadoutLuckRecord);

impl View for PlayerLuckRecord {
    type V = LuckRecordModel;

    open spec fn view(&self) -> LuckRecordModel {
        self.0@
    }
}

/// Applies the liveness gate when turning a loadout record into a member
/// record: the only place a member's life status touches their own luck.
#[derive(Debug, Clone, Copy, PartialEq)]
pub struct LoadoutPlayerConverter {
    pub is_alive: bool,
}

impl LoadoutPlayerConverter {
    pub fn new(is_alive: bool) -> (r: LoadoutPlayerConverter)
        ensures
            r.is_alive == is_alive,
    {
        LoadoutPlayerConverter { is_alive }
    }

    /// Suppresses the count-scaling coefficient of a dead member.
    pub fn convert(&self, loadout: LoadoutLuckRecord) -> (r: PlayerLuckRecord)
        ensures
            r@ == player_converted(self.is_alive, loadout@),
    {
        let up_the_ante_coeff: Option<Luck> = if self.is_alive {
            loadout.up_the_ante_coeff
        } else {
            None
        };
        PlayerLuckRecord(LoadoutLuckRecord { up_the_ante_coeff, ..loadout })
    }
}

/// What a count-scaling coefficient adds to the team's global luck once
/// resolved against the number of other living members.
pub open spec fn ante_contribution(count: int, coeff: Option<int>) -> int {
    match coeff {
        Some(c) => c * count,
        None => 0,
    }
}

/// Mathematical shape of a team record: resolved global luck plus one
/// `(personal, additional_unhooks)` entry per member folded in so far.
#[verifier::ext_equal]
pub ghost struct TeamRecordModel {
    pub global: int,
    pub personals: Seq<(int, int)>,
}

/// The team record of a single member: their count-scaling coefficient
/// resolved into global luck, their personal entry started.
pub open spec fn team_converted(count: int, r: LuckRecordModel) -> TeamRecordModel {
    TeamRecordModel {
        global: r.global + ante_contribution(count, r.up_the_ante_coeff),
        personals: seq![(r.personal, r.additional_unhooks)],
    }
}

/// Team records combine by adding global luck and concatenating the
/// per-member entries, in order.
pub open spec fn team_combined(a: TeamRecordModel, b: TeamRecordModel) -> TeamRecordModel {
    TeamRecordModel { global: a.global + b.global, personals: a.personals + b.personals }
}

/// The identity team record.
pub open spec fn team_identity() -> TeamRecordModel {
    TeamRecordModel { global: 0, personals: Seq::empty() }
}

/// A per-member entry as the model sees it.
pub open spec fn pair_model(p: (Luck, i8)) -> (int, int) {
    (p.0 as int, p.1 as int)
}

/// The model of a held entry list.
pub open spec fn personals_model(s: Seq<(Luck, i8)>) -> Seq<(int, int)> {
    s.map_values(|p: (Luck, i8)| pair_model(p))
}

proof fn lemma_personals_model_concat(s1: Seq<(Luck, i8)>, s2: Seq<(Luck, i8)>)
    ensures
        personals_model(s1 + s2) =~= personals_model(s1) + personals_model(s2),
{
}

/// Resolves a member record against the count of other living members.
#[derive(Debug, Clone, Copy, PartialEq)]
pub struct PlayerTeamConverter {
    pub living_other_than_self_count: LivingCount,
}

impl PlayerTeamConverter {
    pub fn new(living_other_than_self_count: LivingCount) -> (r: PlayerTeamConverter)
        ensures
            r.living_other_than_self_count == living_other_than_self_count,
    {
        PlayerTeamConverter { living_other_than_self_count }
    }

    /// Resolves the count-scaling coefficient into an absolute global bonus
    /// and starts the member's personal entry. The precondition only keeps
    /// the resolved global luck inside the machine integer type.
    pub fn convert(&self, plr: &PlayerLuckRecord) -> (r: TeamLuckRecord)
        requires
            team_converted(self.living_other_than_self_count@, plr@).global <= u64::MAX,
        ensures
            r@ == team_converted(self.living_other_than_self_count@, plr@),
    {
        let count: u64 = self.living_other_than_self_count.into_inner() as u64;
        let uta_contribution: u64 = match plr.0.up_the_ante_coeff {
            Some(c) => c * count,
            None => 0,
        };
        let mut personals = new_entries();
        push_entry(&mut personals, (plr.0.personal, plr.0.additional_unhooks));
        let r = TeamLuckRecord { global: plr.0.global + uta_contribution, personals };
        proof {
            assert(r@.personals =~= team_converted(
                self.living_other_than_self_count@,
                plr@,
            ).personals);
        }
        r
    }
}

/// The aggregated luck of the team: resolved global luck shared by all
/// members, and one `(personal, additional_unhooks)` entry per member.
#[derive(Debug)]
pub struct TeamLuckRecord {
    global: Luck,
    personals: arrayvec::ArrayVec<(Luck, i8), TEAM_MAX_CAPACITY>,
}

impl View for TeamLuckRecord {
    type V = TeamRecordModel;

    closed spec fn view(&self) -> TeamRecordModel {
        TeamRecordModel {
            global: self.global as int,
            personals: personals_model(entries(self.personals)),
        }
    }
}

impl TeamLuckRecord {
    /// The identity team record.
    pub fn empty() -> (r: TeamLuckRecord)
        ensures
            r@ == team_identity(),
    {
        let r = TeamLuckRecord { global: 0, personals: new_entries() };
        proof {
            assert(r@.personals =~= team_identity().personals);
        }
        r
    }

    /// A team record holding only global luck, as the shared base chance
    /// enters the fold.
    pub fn with_global(luck: Luck) -> (r: TeamLuckRecord)
        ensures
            r@ == (TeamRecordModel { global: luck as int, personals: Seq::empty() }),
    {
        let r = TeamLuckRecord { global: luck, personals: new_entries() };
        proof {
            assert(r@.personals =~= Seq::<(int, int)>::empty());
        }
        r
    }

    /// The resolved global luck shared by every member.
    pub fn global(&self) -> (r: Luck)
        ensures
            r == self@.global,
    {
        self.global
    }

    /// Combines two team records: global luck adds, per-member entries
    /// concatenate in order. The preconditions only keep the sum inside the
    /// machine integer type and the entries inside the team's capacity.
    pub fn combine(&self, other: &TeamLuckRecord) -> (r: TeamLuckRecord)
        requires
            self@.global + other@.global <= u64::MAX,
            self@.personals.len() + other@.personals.len() <= TEAM_MAX_CAPACITY,
        ensures
            r@ == team_combined(self@, other@),
    {
        let mut personals = new_entries();
        let n1 = entry_count(&self.personals);
        let n2 = entry_count(&other.personals);
        let mut i: usize = 0;
        while i < n1
            invariant
                i <= n1,
                n1 == entries(self.personals).len(),
                n1 + n2 <= TEAM_MAX_CAPACITY,
                entries(personals) =~= entries(self.personals).take(i as int),
            decreases n1 - i,
        {
            push_entry(&mut personals, entry_at(&self.personals, i));
            i = i + 1;
        }
        let mut j: usize = 0;
        while j < n2
            invariant
                j <= n2,
                n1 == entries(self.personals).len(),
                n2 == entries(other.personals).len(),
                n1 + n2 <= TEAM_MAX_CAPACITY,
                entries(personals) =~= entries(self.personals) + entries(other.personals).take(
                    j as int,
                ),
            decreases n2 - j,
        {
            push_entry(&mut personals, entry_at(&other.personals, j));
            j = j + 1;
        }
        let r = TeamLuckRecord { global: self.global + other.global, personals };
        proof {
            assert(entries(r.personals) =~= entries(self.personals) + entries(other.personals));
            lemma_personals_model_concat(entries(self.personals), entries(other.personals));
            assert(r@ =~= team_combined(self@, other@));
        }
        r
    }
}

impl Default for TeamLuckRecord {
    /// The identity team record.
    fn default() -> (r: TeamLuckRecord)
        ensures
            r@ == team_identity(),
    {
        TeamLuckRecord::empty()
    }
}

/// A per-member entry the compound-chance formula accepts: the member's
/// total luck is a probability, and the attempt bonus is in the range the
/// equipment can grant.
pub open spec fn outcome_ready_entry(global: int, p: (int, int)) -> bool {
    &&& 0 <= p.0 + global <= LUCK_SCALE
    &&& 0 <= p.1 <= SLIPPERY_EXTRA_UNHOOKS
}

/// Whether every entry of a team record is ready for the compound-chance
/// formula. Every record the team pipeline builds is.
pub open spec fn outcome_ready(t: TeamRecordModel) -> bool {
    forall|i: int|
        0 <= i < t.personals.len() ==> outcome_ready_entry(t.global, #[trigger] t.personals[i])
}

/// Numerator over `PROB_DENOMINATOR` of the chance that at least one of the
/// member's attempts succeeds: one minus the chance that all
/// `BASE_UNHOOK_ATTEMPTS + unhooks` independent attempts fail.
pub open spec fn overall_numerator(luck: int, unhooks: int) -> int {
    PROB_DENOMINATOR - pow(LUCK_SCALE - luck, (BASE_UNHOOK_ATTEMPTS + unhooks) as nat) * pow(
        LUCK_SCALE as int,
        (MAX_UNHOOK_ATTEMPTS - BASE_UNHOOK_ATTEMPTS - unhooks) as nat,
    )
}

proof fn lemma_pow_nonneg(b: int, e: nat)
    requires
        b >= 0,
    ensures
        pow(b, e) >= 0,
    decreases e,
{
    reveal(pow);
    if e > 0 {
        lemma_pow_nonneg(b, (e - 1) as nat);
        lemma_mul_nonnegative(b, pow(b, (e - 1) as nat));
    }
}

proof fn lemma_pow_le_base(b1: int, b2: int, e: nat)
    requires
        0 <= b1 <= b2,
    ensures
        pow(b1, e) <= pow(b2, e),
    decreases e,
{
    reveal(pow);
    if e > 0 {
        lemma_pow_le_base(b1, b2, (e - 1) as nat);
        lemma_pow_nonneg(b1, (e - 1) as nat);
        assert(pow(b1, e) == b1 * pow(b1, (e - 1) as nat));
        assert(pow(b2, e) == b2 * pow(b2, (e - 1) as nat));
        lemma_mul_upper_bound(b1, b2, pow(b1, (e - 1) as nat), pow(b2, (e - 1) as nat));
    }
}

proof fn lemma_prob_denominator_is_pow()
    ensures
        pow(LUCK_SCALE as int, (MAX_UNHOOK_ATTEMPTS as nat)) == PROB_DENOMINATOR,
{
    reveal_with_fuel(pow, 7);
}

/// Raises `base` to `exp` exactly; both stay within one attempt round's
/// bounds, so the result fits the shared denominator.
fn pow_small(base: u64, exp: usize) -> (r: u64)
    requires
        base <= LUCK_SCALE,
        exp <= MAX_UNHOOK_ATTEMPTS,
    ensures
        r == pow(base as int, exp as nat),
        r <= pow(LUCK_SCALE as int, exp as nat),
{
    proof {
        reveal(pow);
    }
    let mut r: u64 = 1;
    let mut i: usize = 0;
    while i < exp
        invariant
            i <= exp,
            exp <= MAX_UNHOOK_ATTEMPTS,
            base <= LUCK_SCALE,
            r == pow(base as int, i as nat),
            r <= pow(LUCK_SCALE as int, i as nat),
        decreases exp - i,
    {
        proof {
            reveal(pow);
            lemma_prob_denominator_is_pow();
            lemma_pow_increases(LUCK_SCALE as nat, (i + 1) as nat, MAX_UNHOOK_ATTEMPTS as nat);
            assert(pow(LUCK_SCALE as int, (i + 1) as nat) == LUCK_SCALE * pow(
                LUCK_SCALE as int,
                i as nat,
            ));
            assert(pow(base as int, (i + 1) as nat) == base * pow(base as int, i as nat));
            lemma_mul_upper_bound(
                r as int,
                pow(LUCK_SCALE as int, i as nat),
                base as int,
                LUCK_SCALE as int,
            );
        }
        r = r * base;
        i = i + 1;
    }
    r
}

impl TeamLuckRecord {
    /// Each member's `(total luck, additional unhooks)` pair: the shared
    /// global luck added onto each personal entry, in member order. The
    /// precondition only keeps the sums inside the machine integer type.
    #[verifier::loop_isolation(false)]
    pub fn luck_unhook_mod_pairs(&self) -> (r: Vec<(Luck, i8)>)
        requires
            forall|i: int|
                0 <= i < self@.personals.len() ==> (#[trigger] self@.personals[i]).0 + self@.global
                    <= u64::MAX,
        ensures
            r@.len() == self@.personals.len(),
            forall|i: int|
                0 <= i < r@.len() ==> (#[trigger] r@[i]).0 == self@.personals[i].0 + self@.global
                    && r@[i].1 == self@.personals[i].1,
    {
        let n = entry_count(&self.personals);
        let mut r: Vec<(Luck, i8)> = Vec::new();
        let mut i: usize = 0;
        while i < n
            invariant
                i <= n,
                r@.len() == i,
                forall|k: int|
                    0 <= k < i ==> (#[trigger] r@[k]).0 == self@.personals[k].0 + self@.global
                        && r@[k].1 == self@.personals[k].1,
            decreases n - i,
        {
            let p = entry_at(&self.personals, i);
            proof {
                assert(self@.personals[i as int] == pair_model(entries(self.personals)[i as int]));
            }
            r.push((p.0 + self.global, p.1));
            i = i + 1;
        }
        r
    }

    /// Each member's `(single attempt chance, overall chance)` pair, in
    /// member order: the single chance in hundredths, the overall chance as
    /// a numerator over `PROB_DENOMINATOR`.
    #[verifier::loop_isolation(false)]
    pub fn make_single_and_total_unhook_pairs(&self) -> (r: Vec<(Luck, u64)>)
        requires
            outcome_ready(self@),
        ensures
            r@.len() == self@.personals.len(),
            forall|i: int|
                0 <= i < r@.len() ==> (#[trigger] r@[i]).0 == self@.personals[i].0 + self@.global
                    && r@[i].1 == overall_numerator(
                    self@.personals[i].0 + self@.global,
                    self@.personals[i].1,
                ),
            forall|i: int|
                0 <= i < r@.len() ==> (#[trigger] r@[i]).0 <= LUCK_SCALE && r@[i].1
                    <= PROB_DENOMINATOR,
    {
        let pairs = self.luck_unhook_mod_pairs();
        let mut r: Vec<(Luck, u64)> = Vec::new();
        let mut i: usize = 0;
        while i < pairs.len()
            invariant
                i <= pairs@.len(),
                pairs@.len() == self@.personals.len(),
                outcome_ready(self@),
                forall|k: int|
                    0 <= k < pairs@.len() ==> (#[trigger] pairs@[k]).0 == self@.personals[k].0
                        + self@.global && pairs@[k].1 == self@.personals[k].1,
                r@.len() == i,
                forall|k: int|
                    0 <= k < i ==> (#[trigger] r@[k]).0 == self@.personals[k].0 + self@.global
                        && r@[k].1 == overall_numerator(
                        self@.personals[k].0 + self@.global,
                        self@.personals[k].1,
                    ),
                forall|k: int|
                    0 <= k < i ==> (#[trigger] r@[k]).0 <= LUCK_SCALE && r@[k].1
                        <= PROB_DENOMINATOR,
            decreases pairs@.len() - i,
        {
            let (luck, unhooks) = pairs[i];
            assert(outcome_ready_entry(self@.global, self@.personals[i as int]));
            let chance_fail: u64 = LUCK_SCALE - luck;
            let tries: i8 = BASE_UNHOOK_ATTEMPTS + unhooks;
            let fail_all_left: u64 = pow_small(chance_fail, tries as usize);
            let fail_all_right: u64 = pow_small(
                LUCK_SCALE,
                (MAX_UNHOOK_ATTEMPTS - tries) as usize,
            );
            proof {
                lemma_prob_denominator_is_pow();
                lemma_pow_adds(
                    LUCK_SCALE as int,
                    tries as nat,
                    (MAX_UNHOOK_ATTEMPTS - tries) as nat,
                );
                lemma_pow_nonneg(chance_fail as int, tries as nat);
                lemma_pow_nonneg(LUCK_SCALE as int, (MAX_UNHOOK_ATTEMPTS - tries) as nat);
                lemma_mul_inequality(
                    fail_all_left as int,
                    pow(LUCK_SCALE as int, tries as nat),
                    fail_all_right as int,
                );
                lemma_mul_nonnegative(fail_all_left as int, fail_all_right as int);
            }
            let chance_fail_all: u64 = fail_all_left * fail_all_right;
            let chance_succeed_once: u64 = PROB_DENOMINATOR - chance_fail_all;
            r.push((luck, chance_succeed_once));
            i = i + 1;
        }
        r
    }
}

} // verus!
