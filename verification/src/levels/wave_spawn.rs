//! The point-budget wave spawner: which zombie kinds a wave may field, the
//! weighted draw of one kind within a budget, and the roll of a whole wave.
//!
//! Waves count from 1: wave `n` is the level's `waves[n - 1]`.

use vstd::prelude::*;

use rand::rngs::StdRng;
use rand::RngExt;

use crate::zombies::stats::zombie_in_point_pool;
use crate::zombies::types::{zombie_at, zombie_index};
use crate::zombies::{ZombieType, ZombiesCatalog};

use super::data::{level_allows, LevelDef};
use super::level_balance::{effective_spawn, effective_spawn_params, params_in_pool, params_of, EffectiveSpawnParams};

verus! {

#[verifier::external_type_specification]
#[verifier::external_body]
pub struct ExStdRng(StdRng);

/// A uniformly drawn number in `0..upper`, from `rand`'s
/// `RngExt::random_range` on the range `0..upper` (which panics on an empty
/// range, hence `upper > 0`).  What is drawn depends on the generator's
/// state; the contract only bounds it.
#[verifier::external_body]
fn random_below(rng: &mut StdRng, upper: u64) -> (r: u64)
    requires
        upper > 0,
    ensures
        r < upper,
{
    rng.random_range(0..upper)
}

/// A kind paired with its spawn parameters.
pub type SpawnCandidate = (ZombieType, EffectiveSpawnParams);

/// A kind's spawn parameters, before the wave filter: the level's effective
/// ones, or without a level the catalog's own when it is in the point pool.
pub open spec fn spawn_params(catalog: ZombiesCatalog, level: Option<&LevelDef>, ty: ZombieType) -> Option<
    EffectiveSpawnParams,
> {
    match level {
        Some(l) => effective_spawn(catalog, *l, ty),
        None => if zombie_in_point_pool(catalog.stats_of(ty)) {
            Some(params_of(catalog.stats_of(ty)))
        } else {
            None
        },
    }
}

/// A kind's parameters if it may spawn in wave `wave` (`min_wave <= wave`).
pub open spec fn wave_candidate(catalog: ZombiesCatalog, level: Option<&LevelDef>, ty: ZombieType, wave: u32) -> Option<
    EffectiveSpawnParams,
> {
    match spawn_params(catalog, level, ty) {
        Some(p) => if wave < p.min_wave {
            None
        } else {
            Some(p)
        },
        None => None,
    }
}

/// The candidates among the first `n` kinds of `ZombieType::ALL`, in that order.
pub open spec fn candidates_upto(catalog: ZombiesCatalog, level: Option<&LevelDef>, wave: u32, n: int) -> Seq<
    SpawnCandidate,
>
    decreases n,
{
    if n <= 0 {
        seq![]
    } else {
        let prev = candidates_upto(catalog, level, wave, n - 1);
        match wave_candidate(catalog, level, zombie_at(n - 1), wave) {
            Some(p) => prev.push((zombie_at(n - 1), p)),
            None => prev,
        }
    }
}

/// The kinds (with parameters) that wave `wave` may field, in `ZombieType::ALL` order.
pub open spec fn wave_candidates(catalog: ZombiesCatalog, level: Option<&LevelDef>, wave: u32) -> Seq<
    SpawnCandidate,
> {
    candidates_upto(catalog, level, wave, 10)
}

/// A candidate can be bought with `budget` points.
pub open spec fn affordable_with(c: SpawnCandidate, budget: int) -> bool {
    c.1.score > 0 && c.1.score <= budget && c.1.weight > 0
}

/// The candidates that `budget` can buy, in order.
pub open spec fn affordable(cands: Seq<SpawnCandidate>, budget: int) -> Seq<SpawnCandidate>
    decreases cands.len(),
{
    if cands.len() == 0 {
        seq![]
    } else {
        let rest = affordable(cands.drop_last(), budget);
        if affordable_with(cands.last(), budget) {
            rest.push(cands.last())
        } else {
            rest
        }
    }
}

/// The sum of the weights of a pool.
pub open spec fn total_weight(pool: Seq<SpawnCandidate>) -> int
    decreases pool.len(),
{
    if pool.len() == 0 {
        0
    } else {
        total_weight(pool.drop_last()) + pool.last().1.weight
    }
}

/// The weighted pick for a draw `r`: walking the pool, the first entry whose
/// weight exceeds what is left of `r`; a draw past the total picks the last.
pub open spec fn weighted_choice(pool: Seq<SpawnCandidate>, r: int) -> Option<SpawnCandidate>
    decreases pool.len(),
{
    if pool.len() == 0 {
        None
    } else if r < pool[0].1.weight || pool.len() == 1 {
        Some(pool[0])
    } else {
        weighted_choice(pool.drop_first(), r - pool[0].1.weight)
    }
}

/// What a wave's roll buys with budget `budget`, each step drawing the next
/// of `draws`: it stops when the budget is spent, nothing is affordable, or
/// the draws run out.
pub open spec fn roll_picks(cands: Seq<SpawnCandidate>, budget: int, draws: Seq<u64>) -> Seq<SpawnCandidate>
    decreases draws.len(),
{
    if budget <= 0 || draws.len() == 0 || affordable(cands, budget).len() == 0 {
        seq![]
    } else {
        let e = weighted_choice(affordable(cands, budget), draws[0] as int)->0;
        seq![e].add(roll_picks(cands, budget - e.1.score, draws.drop_first()))
    }
}

/// The kinds of a sequence of picks.
pub open spec fn picked_kinds(picks: Seq<SpawnCandidate>) -> Seq<ZombieType> {
    picks.map_values(|e: SpawnCandidate| e.0)
}

/// The points a sequence of picks spends.
pub open spec fn total_score(picks: Seq<SpawnCandidate>) -> int
    decreases picks.len(),
{
    if picks.len() == 0 {
        0
    } else {
        picks[0].1.score + total_score(picks.drop_first())
    }
}

/// Every candidate pairs its kind with that kind's parameters.
pub open spec fn candidates_consistent(catalog: ZombiesCatalog, level: Option<&LevelDef>, cands: Seq<SpawnCandidate>) -> bool {
    forall|i: int| 0 <= i < cands.len() ==> spawn_params(catalog, level, #[trigger] cands[i].0) == Some(cands[i].1)
}

proof fn lemma_candidates_upto(catalog: ZombiesCatalog, level: Option<&LevelDef>, wave: u32, n: int)
    requires
        0 <= n <= 10,
    ensures
        candidates_upto(catalog, level, wave, n).len() <= n,
        candidates_consistent(catalog, level, candidates_upto(catalog, level, wave, n)),
        forall|i: int| 0 <= i < candidates_upto(catalog, level, wave, n).len()
            ==> zombie_index(#[trigger] candidates_upto(catalog, level, wave, n)[i].0) < n,
    decreases n,
{
    if n > 0 {
        lemma_candidates_upto(catalog, level, wave, n - 1);
    }
}

proof fn lemma_affordable(cands: Seq<SpawnCandidate>, budget: int)
    ensures
        affordable(cands, budget).len() <= cands.len(),
        forall|i: int| 0 <= i < affordable(cands, budget).len() ==> affordable_with(#[trigger] affordable(cands, budget)[i], budget),
        forall|i: int| 0 <= i < affordable(cands, budget).len() ==> cands.contains(#[trigger] affordable(cands, budget)[i]),
    decreases cands.len(),
{
    if cands.len() > 0 {
        lemma_affordable(cands.drop_last(), budget);
        let rest = affordable(cands.drop_last(), budget);
        assert forall|i: int| 0 <= i < affordable(cands, budget).len() implies cands.contains(#[trigger] affordable(cands, budget)[i]) by {
            if i < rest.len() {
                let k = choose|k: int| 0 <= k < cands.drop_last().len() && cands.drop_last()[k] == rest[i];
                assert(cands[k] == rest[i]);
            } else {
                assert(cands[cands.len() - 1] == cands.last());
            }
        }
    }
}

proof fn lemma_total_weight_bound(pool: Seq<SpawnCandidate>)
    ensures
        0 <= total_weight(pool) <= pool.len() * 0xFFFF_FFFF,
        pool.len() > 0 && (forall|i: int| 0 <= i < pool.len() ==> (#[trigger] pool[i]).1.weight > 0) ==> total_weight(pool) > 0,
    decreases pool.len(),
{
    if pool.len() > 0 {
        lemma_total_weight_bound(pool.drop_last());
        assert(pool.last() == pool[pool.len() - 1]);
    }
}

proof fn lemma_weighted_choice_in_pool(pool: Seq<SpawnCandidate>, r: int)
    ensures
        pool.len() > 0 ==> (weighted_choice(pool, r) matches Some(e) && pool.contains(e)),
        pool.len() == 0 ==> weighted_choice(pool, r) is None,
    decreases pool.len(),
{
    if pool.len() > 1 && !(r < pool[0].1.weight) {
        lemma_weighted_choice_in_pool(pool.drop_first(), r - pool[0].1.weight);
        let e = weighted_choice(pool.drop_first(), r - pool[0].1.weight)->0;
        let k = choose|k: int| 0 <= k < pool.drop_first().len() && pool.drop_first()[k] == e;
        assert(pool[k + 1] == e);
    } else if pool.len() > 0 {
        assert(pool[0] == pool[0]);
    }
}

/// Wave `wave`'s parameters of one kind.
fn candidate_for(catalog: &ZombiesCatalog, level: Option<&LevelDef>, ty: ZombieType, wave_index: u32) -> (r: Option<
    EffectiveSpawnParams,
>)
    ensures
        r == wave_candidate(*catalog, level, ty, wave_index),
{
    let params = match level {
        Some(lvl) => match effective_spawn_params(catalog, lvl, ty) {
            Some(p) => p,
            None => {
                return None;
            },
        },
        None => {
            let base = catalog.get(ty).unwrap();
            if !base.participates_in_point_spawn_pool() {
                return None;
            }
            EffectiveSpawnParams { score: base.score, weight: base.weight, min_wave: base.min_wave }
        },
    };
    if wave_index < params.min_wave {
        return None;
    }
    Some(params)
}

/// The kinds (with their parameters) that wave `wave_index` may field, in
/// `ZombieType::ALL` order: those the level (or, without one, the catalog)
/// puts in the point pool whose `min_wave <= wave_index`.
pub fn spawn_candidates_for_wave(catalog: &ZombiesCatalog, level: Option<&LevelDef>, wave_index: u32) -> (r: Vec<
    SpawnCandidate,
>)
    ensures
        r@ == wave_candidates(*catalog, level, wave_index),
{
    let mut out: Vec<SpawnCandidate> = Vec::new();
    let mut i: usize = 0;
    while i < 10
        invariant
            i <= 10,
            out@ == candidates_upto(*catalog, level, wave_index, i as int),
        decreases 10 - i,
    {
        let ty = ZombieType::at(i);
        if let Some(p) = candidate_for(catalog, level, ty, wave_index) {
            out.push((ty, p));
        }
        i += 1;
    }
    out
}

/// The candidates that `budget` can buy, in order.
fn affordable_pool(cands: &Vec<SpawnCandidate>, budget: i32) -> (r: Vec<SpawnCandidate>)
    ensures
        r@ == affordable(cands@, budget as int),
{
    let mut out: Vec<SpawnCandidate> = Vec::new();
    let mut i: usize = 0;
    while i < cands.len()
        invariant
            i <= cands.len(),
            out@ == affordable(cands@.subrange(0, i as int), budget as int),
        decreases cands.len() - i,
    {
        let c = cands[i];
        proof {
            assert(cands@.subrange(0, i + 1).drop_last() =~= cands@.subrange(0, i as int));
            assert(cands@.subrange(0, i + 1).last() == c);
        }
        if c.1.score > 0 && c.1.score <= budget && c.1.weight > 0 {
            out.push(c);
        }
        i += 1;
    }
    assert(cands@.subrange(0, cands.len() as int) =~= cands@);
    out
}

/// The sum of a pool's weights (at most ten entries).
fn pool_weight(pool: &Vec<SpawnCandidate>) -> (r: u64)
    requires
        pool.len() <= 10,
    ensures
        r == total_weight(pool@),
{
    let mut total: u64 = 0;
    let mut i: usize = 0;
    while i < pool.len()
        invariant
            i <= pool.len() <= 10,
            total == total_weight(pool@.subrange(0, i as int)),
        decreases pool.len() - i,
    {
        proof {
            assert(pool@.subrange(0, i + 1).drop_last() =~= pool@.subrange(0, i as int));
            lemma_total_weight_bound(pool@.subrange(0, i as int));
        }
        total = total + pool[i].1.weight as u64;
        i += 1;
    }
    assert(pool@.subrange(0, pool.len() as int) =~= pool@);
    total
}

/// The weighted pick for draw `r` (see [`weighted_choice`]).
fn weighted_pick(pool: &Vec<SpawnCandidate>, draw: u64) -> (r: Option<SpawnCandidate>)
    ensures
        r == weighted_choice(pool@, draw as int),
{
    let n = pool.len();
    if n == 0 {
        return None;
    }
    let mut rest = draw;
    let mut i: usize = 0;
    assert(pool@.subrange(0, n as int) =~= pool@);
    while i < n
        invariant
            n == pool.len() > 0,
            i < n,
            weighted_choice(pool@, draw as int) == weighted_choice(pool@.subrange(i as int, n as int), rest as int),
        decreases n - i,
    {
        let e = pool[i];
        let w = e.1.weight as u64;
        proof {
            let s = pool@.subrange(i as int, n as int);
            assert(s[0] == e);
            assert(s.drop_first() =~= pool@.subrange(i + 1, n as int));
        }
        if rest < w || i + 1 == n {
            return Some(e);
        }
        rest = rest - w;
        i += 1;
    }
    None
}

/// The weighted pick of one kind for draw `draw` among the candidates of
/// wave `wave_index` that `budget` can buy; `None` when none can be bought.
pub fn pick_weighted_spawn_kind_with_draw(
    catalog: &ZombiesCatalog,
    level: Option<&LevelDef>,
    wave_index: u32,
    budget: i32,
    draw: u64,
) -> (r: Option<ZombieType>)
    ensures
        r == match weighted_choice(affordable(wave_candidates(*catalog, level, wave_index), budget as int), draw as int) {
            Some(e) => Some(e.0),
            None => None,
        },
{
    let cands = spawn_candidates_for_wave(catalog, level, wave_index);
    let pool = affordable_pool(&cands, budget);
    match weighted_pick(&pool, draw) {
        Some(e) => Some(e.0),
        None => None,
    }
}

/// Draws one kind, weighted by `weight`, among the candidates of wave
/// `wave_index` that `budget` can buy (`0 < score <= budget`, `weight > 0`);
/// `None`, without drawing, when none can be bought.
pub fn pick_weighted_spawn_kind(
    catalog: &ZombiesCatalog,
    level: Option<&LevelDef>,
    wave_index: u32,
    budget: i32,
    rng: &mut StdRng,
) -> (r: Option<ZombieType>)
    ensures
        ({
            let pool = affordable(wave_candidates(*catalog, level, wave_index), budget as int);
            &&& r is None <==> pool.len() == 0
            &&& r matches Some(ty) ==> exists|d: u64|
                #![trigger weighted_choice(pool, d as int)]
                d < total_weight(pool) && (weighted_choice(pool, d as int) matches Some(e) && e.0 == ty)
            &&& pool.len() == 0 ==> *final(rng) == *old(rng)
        }),
{
    let cands = spawn_candidates_for_wave(catalog, level, wave_index);
    let pool = affordable_pool(&cands, budget);
    proof {
        lemma_candidates_upto(*catalog, level, wave_index, 10);
        lemma_affordable(cands@, budget as int);
        lemma_total_weight_bound(pool@);
    }
    if pool.len() == 0 {
        return None;
    }
    let total = pool_weight(&pool);
    let d = random_below(rng, total);
    proof {
        lemma_weighted_choice_in_pool(pool@, d as int);
    }
    match weighted_pick(&pool, d) {
        Some(e) => Some(e.0),
        None => None,
    }
}

/// `picks` is a possible roll of a wave with budget `budget`: while the
/// budget is positive and some candidate is affordable, each step buys the
/// weighted choice of some draw below the pool's total weight; the roll ends
/// exactly when the budget is spent or nothing is affordable.
pub open spec fn roll_outcome(cands: Seq<SpawnCandidate>, budget: int, picks: Seq<SpawnCandidate>) -> bool
    decreases picks.len(),
{
    if picks.len() == 0 {
        budget <= 0 || affordable(cands, budget).len() == 0
    } else {
        &&& budget > 0
        &&& exists|d: u64|
            #![trigger weighted_choice(affordable(cands, budget), d as int)]
            d < total_weight(affordable(cands, budget)) && weighted_choice(affordable(cands, budget), d as int)
                == Some(picks[0])
        &&& roll_outcome(cands, budget - picks[0].1.score, picks.drop_first())
    }
}

/// One pick of a roll: the weighted choice of an affordable candidate, whose
/// score is the cost that the roll subtracts.
proof fn lemma_pick_step(
    catalog: ZombiesCatalog,
    level: Option<&LevelDef>,
    wave: u32,
    budget: int,
    d: int,
)
    requires
        affordable(wave_candidates(catalog, level, wave), budget).len() > 0,
    ensures
        ({
            let cands = wave_candidates(catalog, level, wave);
            let e = weighted_choice(affordable(cands, budget), d)->0;
            &&& weighted_choice(affordable(cands, budget), d) is Some
            &&& affordable_with(e, budget)
            &&& cands.contains(e)
            &&& spawn_params(catalog, level, e.0) == Some(e.1)
        }),
{
    let cands = wave_candidates(catalog, level, wave);
    let pool = affordable(cands, budget);
    lemma_candidates_upto(catalog, level, wave, 10);
    lemma_affordable(cands, budget);
    lemma_weighted_choice_in_pool(pool, d);
    let e = weighted_choice(pool, d)->0;
    let k = choose|k: int| 0 <= k < pool.len() && pool[k] == e;
    assert(affordable_with(pool[k], budget));
    let j = choose|j: int| 0 <= j < cands.len() && cands[j] == e;
    assert(spawn_params(catalog, level, cands[j].0) == Some(cands[j].1));
}

/// The points a picked kind costs, as the roll reads them back.
fn cost_of(catalog: &ZombiesCatalog, level: Option<&LevelDef>, ty: ZombieType, Ghost(p): Ghost<EffectiveSpawnParams>) -> (r: i32)
    requires
        spawn_params(*catalog, level, ty) == Some(p),
    ensures
        r == p.score,
{
    match level {
        Some(lvl) => match effective_spawn_params(catalog, lvl, ty) {
            Some(params) => params.score,
            None => 0,
        },
        None => match catalog.get(ty) {
            Some(base) => base.score,
            None => 0,
        },
    }
}

/// The roll of wave `wave_index` with budget `max_points` when the random
/// draws are `draws`, in order: while the budget is positive, buy the
/// weighted pick of the next draw among the affordable candidates and pay its
/// score; stop when the budget is spent, nothing is affordable or the draws
/// run out.
pub fn roll_wave_unit_kinds_with_draws(
    catalog: &ZombiesCatalog,
    level: Option<&LevelDef>,
    wave_index: u32,
    max_points: i32,
    draws: &Vec<u64>,
) -> (r: Vec<ZombieType>)
    ensures
        r@ == picked_kinds(roll_picks(wave_candidates(*catalog, level, wave_index), max_points as int, draws@)),
{
    let ghost cands = wave_candidates(*catalog, level, wave_index);
    let mut budget = max_points;
    let mut out: Vec<ZombieType> = Vec::new();
    let mut k: usize = 0;
    assert(draws@.skip(0) =~= draws@);
    assert(out@ + picked_kinds(roll_picks(cands, budget as int, draws@.skip(0))) =~= picked_kinds(
        roll_picks(cands, max_points as int, draws@),
    ));
    while budget > 0
        invariant
            k <= draws.len(),
            cands == wave_candidates(*catalog, level, wave_index),
            out@ + picked_kinds(roll_picks(cands, budget as int, draws@.skip(k as int))) == picked_kinds(
                roll_picks(cands, max_points as int, draws@),
            ),
        ensures
            out@ == picked_kinds(roll_picks(cands, max_points as int, draws@)),
        decreases budget,
    {
        if k >= draws.len() {
            assert(draws@.skip(k as int).len() == 0);
            assert(out@ + picked_kinds(roll_picks(cands, budget as int, draws@.skip(k as int))) =~= out@);
            break;
        }
        let d = draws[k];
        let ty = match pick_weighted_spawn_kind_with_draw(catalog, level, wave_index, budget, d) {
            Some(ty) => ty,
            None => {
                proof {
                    lemma_weighted_choice_in_pool(affordable(cands, budget as int), d as int);
                }
                assert(out@ + picked_kinds(roll_picks(cands, budget as int, draws@.skip(k as int))) =~= out@);
                break;
            },
        };
        let ghost e = weighted_choice(affordable(cands, budget as int), d as int)->0;
        proof {
            lemma_pick_step(*catalog, level, wave_index, budget as int, d as int);
        }
        let cost = cost_of(catalog, level, ty, Ghost(e.1));
        proof {
            let rest = draws@.skip(k as int);
            assert(rest[0] == d);
            assert(rest.drop_first() =~= draws@.skip(k + 1));
            let tail = roll_picks(cands, budget - cost, draws@.skip(k + 1));
            assert(roll_picks(cands, budget as int, rest) == seq![e].add(tail));
            assert(picked_kinds(seq![e].add(tail)) =~= seq![ty] + picked_kinds(tail));
            assert(out@.push(ty) + picked_kinds(tail) =~= out@ + (seq![ty] + picked_kinds(tail)));
        }
        budget = budget - cost;
        out.push(ty);
        k += 1;
    }
    proof {
        if budget <= 0 {
            assert(out@ + picked_kinds(roll_picks(cands, budget as int, draws@.skip(k as int))) =~= out@);
        }
    }
    out
}

/// Rolls wave `wave_index`'s zombies with budget `max_points`: while the
/// budget is positive, draw a kind with [`pick_weighted_spawn_kind`] and pay
/// its score; stop when nothing more can be bought.
pub fn roll_wave_unit_kinds(
    catalog: &ZombiesCatalog,
    level: Option<&LevelDef>,
    wave_index: u32,
    max_points: i32,
    rng: &mut StdRng,
) -> (r: Vec<ZombieType>)
    ensures
        exists|picks: Seq<SpawnCandidate>|
            roll_outcome(wave_candidates(*catalog, level, wave_index), max_points as int, picks)
                && #[trigger] picked_kinds(picks) == r@,
        max_points <= 0 ==> *final(rng) == *old(rng),
{
    let ghost cands = wave_candidates(*catalog, level, wave_index);
    let mut budget = max_points;
    let mut out: Vec<ZombieType> = Vec::new();
    let ghost mut picks: Seq<SpawnCandidate> = seq![];
    while budget > 0
        invariant
            cands == wave_candidates(*catalog, level, wave_index),
            out@ == picked_kinds(picks),
            forall|future: Seq<SpawnCandidate>|
                roll_outcome(cands, budget as int, future) ==> #[trigger] roll_outcome(
                    cands,
                    max_points as int,
                    picks + future,
                ),
            budget <= max_points,
            max_points <= 0 ==> *rng == *old(rng),
        ensures
            roll_outcome(cands, budget as int, seq![]),
            max_points <= 0 ==> *rng == *old(rng),
        decreases budget,
    {
        let ty = match pick_weighted_spawn_kind(catalog, level, wave_index, budget, rng) {
            Some(ty) => ty,
            None => {
                break;
            },
        };
        let ghost pool = affordable(cands, budget as int);
        let ghost d = choose|d: u64|
            #![trigger weighted_choice(pool, d as int)]
            d < total_weight(pool) && (weighted_choice(pool, d as int) matches Some(e) && e.0 == ty);
        let ghost e = weighted_choice(pool, d as int)->0;
        proof {
            lemma_pick_step(*catalog, level, wave_index, budget as int, d as int);
        }
        let cost = cost_of(catalog, level, ty, Ghost(e.1));
        proof {
            let old_budget = budget as int;
            assert forall|future: Seq<SpawnCandidate>|
                roll_outcome(cands, old_budget - cost, future) implies #[trigger] roll_outcome(
                    cands,
                    max_points as int,
                    picks.push(e) + future,
                ) by {
                let f = seq![e] + future;
                assert(f[0] == e);
                assert(f.drop_first() =~= future);
                assert(weighted_choice(pool, d as int) == Some(f[0]));
                assert(roll_outcome(cands, old_budget, f));
                assert(picks + f =~= picks.push(e) + future);
            }
            assert(picked_kinds(picks.push(e)) =~= picked_kinds(picks).push(ty));
            picks = picks.push(e);
        }
        budget = budget - cost;
        out.push(ty);
    }
    proof {
        assert(picks + seq![] =~= picks);
    }
    out
}

/// Law: a possible roll spends at most its budget (nothing when the budget
/// is not positive), buys only candidates of the wave, and ends with a
/// remaining budget that is spent or buys nothing.
pub proof fn lemma_roll_outcome_within_budget(cands: Seq<SpawnCandidate>, budget: int, picks: Seq<SpawnCandidate>)
    requires
        roll_outcome(cands, budget, picks),
    ensures
        total_score(picks) <= if budget > 0 {
            budget
        } else {
            0
        },
        forall|i: int| 0 <= i < picks.len() ==> cands.contains(#[trigger] picks[i]),
        budget - total_score(picks) <= 0 || affordable(cands, budget - total_score(picks)).len() == 0,
    decreases picks.len(),
{
    if picks.len() > 0 {
        let pool = affordable(cands, budget);
        let d = choose|d: u64|
            #![trigger weighted_choice(pool, d as int)]
            d < total_weight(pool) && weighted_choice(pool, d as int) == Some(picks[0]);
        lemma_weighted_choice_in_pool(pool, d as int);
        lemma_affordable(cands, budget);
        let k = choose|k: int| 0 <= k < pool.len() && pool[k] == picks[0];
        assert(affordable_with(pool[k], budget));
        lemma_roll_outcome_within_budget(cands, budget - picks[0].1.score, picks.drop_first());
        assert forall|i: int| 0 <= i < picks.len() implies cands.contains(#[trigger] picks[i]) by {
            if i > 0 {
                assert(picks[i] == picks.drop_first()[i - 1]);
            }
        }
    }
}

/// Law: a wave's candidates stay candidates in every later wave (a kind
/// enters the pool at its `min_wave` and never leaves it).
pub proof fn lemma_candidate_stays_in_later_waves(
    catalog: ZombiesCatalog,
    level: Option<&LevelDef>,
    ty: ZombieType,
    wave: u32,
    later: u32,
)
    requires
        wave <= later,
        wave_candidate(catalog, level, ty, wave) is Some,
    ensures
        wave_candidate(catalog, level, ty, later) == wave_candidate(catalog, level, ty, wave),
{
}

/// The first `n` kinds' candidates hold `(ty, p)` exactly when `ty` is among
/// them and may spawn in the wave with parameters `p`.
proof fn lemma_candidates_upto_exact(
    catalog: ZombiesCatalog,
    level: Option<&LevelDef>,
    wave: u32,
    n: int,
    ty: ZombieType,
    p: EffectiveSpawnParams,
)
    requires
        0 <= n <= 10,
    ensures
        candidates_upto(catalog, level, wave, n).contains((ty, p)) <==> (zombie_index(ty) < n && wave_candidate(
            catalog,
            level,
            ty,
            wave,
        ) == Some(p)),
    decreases n,
{
    if n > 0 {
        lemma_candidates_upto_exact(catalog, level, wave, n - 1, ty, p);
        let prev = candidates_upto(catalog, level, wave, n - 1);
        let last = zombie_at(n - 1);
        assert(zombie_index(last) == n - 1);
        if zombie_index(ty) == n - 1 {
            assert(zombie_at(zombie_index(ty)) == ty);
        }
        match wave_candidate(catalog, level, last, wave) {
            Some(q) => {
                assert(prev.push((last, q)).contains((ty, p)) <==> (prev.contains((ty, p)) || (ty, p) == (last, q))) by {
                    if prev.push((last, q)).contains((ty, p)) {
                        let k = choose|k: int| 0 <= k < prev.len() + 1 && prev.push((last, q))[k] == (ty, p);
                        if k < prev.len() {
                            assert(prev[k] == (ty, p));
                        }
                    }
                    if prev.contains((ty, p)) {
                        let k = choose|k: int| 0 <= k < prev.len() && prev[k] == (ty, p);
                        assert(prev.push((last, q))[k] == (ty, p));
                    }
                    if (ty, p) == (last, q) {
                        assert(prev.push((last, q))[prev.len() as int] == (ty, p));
                    }
                }
            },
            None => {},
        }
    }
}

/// Law: a wave's candidates are exactly the kinds that may spawn in it, each
/// with its parameters (see [`wave_candidate`]).
pub proof fn lemma_wave_candidates_exact(
    catalog: ZombiesCatalog,
    level: Option<&LevelDef>,
    wave: u32,
    ty: ZombieType,
    p: EffectiveSpawnParams,
)
    ensures
        wave_candidates(catalog, level, wave).contains((ty, p)) <==> wave_candidate(catalog, level, ty, wave) == Some(p),
{
    lemma_candidates_upto_exact(catalog, level, wave, 10, ty, p);
}

/// Law: every kind a roll buys may spawn in the wave: the level's pool (if
/// there is a level) allows it, it is in the point-budget pool, and its
/// `min_wave` is at most the wave.
pub proof fn lemma_rolled_kinds_may_spawn(
    catalog: ZombiesCatalog,
    level: Option<&LevelDef>,
    wave: u32,
    budget: int,
    picks: Seq<SpawnCandidate>,
)
    requires
        roll_outcome(wave_candidates(catalog, level, wave), budget, picks),
    ensures
        forall|i: int|
            0 <= i < picks.len() ==> {
                &&& wave_candidate(catalog, level, (#[trigger] picks[i]).0, wave) == Some(picks[i].1)
                &&& (level matches Some(l) ==> level_allows(*l, picks[i].0))
                &&& picks[i].1.score > 0 && picks[i].1.weight > 0
                &&& picks[i].1.min_wave <= wave
            },
{
    lemma_roll_outcome_within_budget(wave_candidates(catalog, level, wave), budget, picks);
    assert forall|i: int| 0 <= i < picks.len() implies {
        &&& wave_candidate(catalog, level, (#[trigger] picks[i]).0, wave) == Some(picks[i].1)
        &&& (level matches Some(l) ==> level_allows(*l, picks[i].0))
        &&& picks[i].1.score > 0 && picks[i].1.weight > 0
        &&& picks[i].1.min_wave <= wave
    } by {
        assert(wave_candidates(catalog, level, wave).contains(picks[i]));
        lemma_wave_candidates_exact(catalog, level, wave, picks[i].0, picks[i].1);
    }
}

/// The total weight of a non-empty pool is its first entry's weight plus the
/// rest's.
proof fn lemma_total_weight_first(pool: Seq<SpawnCandidate>)
    requires
        pool.len() > 0,
    ensures
        total_weight(pool) == pool[0].1.weight + total_weight(pool.drop_first()),
    decreases pool.len(),
{
    assert(total_weight(pool) == total_weight(pool.drop_last()) + pool.last().1.weight);
    if pool.len() > 1 {
        lemma_total_weight_first(pool.drop_last());
        assert(pool.drop_last().drop_first() =~= pool.drop_first().drop_last());
        assert(pool.drop_last()[0] == pool[0]);
        assert(pool.drop_first().last() == pool.last());
        assert(total_weight(pool.drop_first()) == total_weight(pool.drop_first().drop_last())
            + pool.drop_first().last().1.weight);
        assert(total_weight(pool.drop_last().drop_first()) == total_weight(pool.drop_first().drop_last()));
    } else {
        assert(pool.drop_first().len() == 0);
        assert(pool.drop_last().len() == 0);
        assert(total_weight(pool.drop_last()) == 0);
        assert(total_weight(pool.drop_first()) == 0);
        assert(pool.last() == pool[0]);
    }
}

/// Law: a draw `d` below a pool's total weight picks the entry whose span of
/// draws holds `d`: entry `k` is picked by the draws from the summed weight
/// of the entries before it up to (not including) that sum plus its own
/// weight, so each entry is picked by exactly `weight` of the draws.
pub proof fn lemma_weighted_choice_spans(pool: Seq<SpawnCandidate>, d: int, k: int)
    requires
        0 <= k < pool.len(),
        total_weight(pool.take(k)) <= d < total_weight(pool.take(k + 1)),
    ensures
        weighted_choice(pool, d) == Some(pool[k]),
    decreases k,
{
    assert(pool.take(k + 1).drop_last() =~= pool.take(k));
    assert(pool.take(k + 1).last() == pool[k]);
    if k == 0 {
        assert(pool.take(0).len() == 0);
    } else {
        let tail = pool.drop_first();
        lemma_total_weight_first(pool.take(k));
        lemma_total_weight_first(pool.take(k + 1));
        assert(pool.take(k).drop_first() =~= tail.take(k - 1));
        assert(pool.take(k + 1).drop_first() =~= tail.take(k));
        assert(pool.take(k)[0] == pool[0]);
        assert(pool.take(k + 1)[0] == pool[0]);
        lemma_total_weight_bound(tail.take(k - 1));
        assert(tail[k - 1] == pool[k]);
        lemma_weighted_choice_spans(tail, d - pool[0].1.weight, k - 1);
    }
}

/// Law: the affordable pool holds exactly the candidates that `budget` can
/// buy: those with `0 < score <= budget` and `weight > 0`, wherever they stand.
pub proof fn lemma_affordable_members(cands: Seq<SpawnCandidate>, budget: int, c: SpawnCandidate)
    ensures
        affordable(cands, budget).contains(c) <==> (cands.contains(c) && 0 < c.1.score <= budget && c.1.weight > 0),
    decreases cands.len(),
{
    if cands.len() > 0 {
        let init = cands.drop_last();
        lemma_affordable_members(init, budget, c);
        let rest = affordable(init, budget);
        assert(cands.contains(c) <==> (init.contains(c) || c == cands.last())) by {
            if cands.contains(c) {
                let i = choose|i: int| 0 <= i < cands.len() && cands[i] == c;
                if i < cands.len() - 1 {
                    assert(init[i] == c);
                }
            }
            if init.contains(c) {
                let i = choose|i: int| 0 <= i < init.len() && init[i] == c;
                assert(cands[i] == c);
            }
            if c == cands.last() {
                assert(cands[cands.len() - 1] == c);
            }
        }
        if affordable_with(cands.last(), budget) {
            assert(rest.push(cands.last()).contains(c) <==> (rest.contains(c) || c == cands.last())) by {
                if rest.push(cands.last()).contains(c) {
                    let i = choose|i: int| 0 <= i < rest.len() + 1 && rest.push(cands.last())[i] == c;
                    if i < rest.len() {
                        assert(rest[i] == c);
                    }
                }
                if rest.contains(c) {
                    let i = choose|i: int| 0 <= i < rest.len() && rest[i] == c;
                    assert(rest.push(cands.last())[i] == c);
                }
                if c == cands.last() {
                    assert(rest.push(cands.last())[rest.len() as int] == c);
                }
            }
        }
    }
}

} // verus!
