//! Consumption-budget allocation: a greedy walk over the pending items in
//! fetch order. An item is accepted exactly when its cost fits the budget
//! remaining at the moment it is considered; rejected items are skipped,
//! never removed. The walk is deliberately FIFO rather than cost-sorted:
//! older items are preferred even when a cheaper later item would fit.

use vstd::prelude::*;
use crate::model::{
    Category, ConsumeResult, EmptyConsumeReason, spec_category_cost, spec_min_category_cost,
    category_cost,
};

verus! {

/// Budget left after the first `i` items have been considered.
pub open spec fn spec_remaining(cats: Seq<Category>, budget: int, i: int) -> int
    decreases i,
{
    if i <= 0 {
        budget
    } else {
        let prev = spec_remaining(cats, budget, i - 1);
        if spec_category_cost(cats[i - 1]) <= prev {
            prev - spec_category_cost(cats[i - 1])
        } else {
            prev
        }
    }
}

/// Whether the item at position `i` is accepted: its cost does not exceed
/// the budget remaining when it is considered.
pub open spec fn spec_selected(cats: Seq<Category>, budget: int, i: int) -> bool {
    spec_category_cost(cats[i]) <= spec_remaining(cats, budget, i)
}

/// Number of accepted items among the first `i`.
pub open spec fn spec_sel_count(cats: Seq<Category>, budget: int, i: int) -> int
    decreases i,
{
    if i <= 0 {
        0
    } else {
        spec_sel_count(cats, budget, i - 1) + if spec_selected(cats, budget, i - 1) {
            1int
        } else {
            0int
        }
    }
}

/// Number of accepted items of category `cat` among the first `i`.
pub open spec fn spec_cat_count(cats: Seq<Category>, budget: int, cat: Category, i: int) -> int
    decreases i,
{
    if i <= 0 {
        0
    } else {
        spec_cat_count(cats, budget, cat, i - 1) + if spec_selected(cats, budget, i - 1)
            && cats[i - 1] == cat {
            1int
        } else {
            0int
        }
    }
}

/// Total accepted cost among the first `i` items.
pub open spec fn spec_time_consumed(cats: Seq<Category>, budget: int, i: int) -> int {
    budget - spec_remaining(cats, budget, i)
}

/// The remaining budget never goes below zero and never grows: every
/// accepted item's cost was covered by the budget remaining at its turn,
/// so the total accepted cost stays within the original budget.
pub proof fn lemma_remaining_bounds(cats: Seq<Category>, budget: int, i: int)
    requires
        0 <= budget,
        0 <= i <= cats.len(),
    ensures
        0 <= spec_remaining(cats, budget, i) <= budget,
        0 <= spec_time_consumed(cats, budget, i) <= budget,
    decreases i,
{
    if i > 0 {
        lemma_remaining_bounds(cats, budget, i - 1);
    }
}

/// The accepted count among the first `i` items is between 0 and `i`.
pub proof fn lemma_sel_count_bounds(cats: Seq<Category>, budget: int, i: int)
    requires
        0 <= i <= cats.len(),
    ensures
        0 <= spec_sel_count(cats, budget, i) <= i,
    decreases i,
{
    if i > 0 {
        lemma_sel_count_bounds(cats, budget, i - 1);
    }
}

/// The allocator never accepts an item whose cost exceeds the budget
/// remaining at the time it is considered, and the total accepted cost
/// never exceeds the original budget.
pub proof fn lemma_allocation_within_budget(cats: Seq<Category>, budget: int)
    requires
        0 <= budget,
    ensures
        forall|i: int|
            0 <= i < cats.len() && spec_selected(cats, budget, i)
                ==> spec_category_cost(cats[i]) <= #[trigger] spec_remaining(cats, budget, i),
        spec_time_consumed(cats, budget, cats.len() as int) <= budget,
{
    lemma_remaining_bounds(cats, budget, cats.len() as int);
}

/// Why a pass consumed nothing, when it is knowable up front: an empty
/// pending set, a budget below the cheapest category's cost, or a pending
/// set in which every item costs more than the whole budget.
pub open spec fn spec_empty_reason(cats: Seq<Category>, budget: int) -> Option<EmptyConsumeReason> {
    if cats.len() == 0 {
        Option::Some(EmptyConsumeReason::EmptyBuffer)
    } else if budget < spec_min_category_cost() {
        Option::Some(EmptyConsumeReason::BudgetTooSmall)
    } else if forall|i: int| 0 <= i < cats.len() ==> #[trigger] spec_category_cost(cats[i]) > budget {
        Option::Some(EmptyConsumeReason::AllItemsTooExpensive)
    } else {
        Option::None
    }
}

/// If an up-front reason applies, the greedy walk accepts nothing.
pub proof fn lemma_empty_reason_consumes_nothing(cats: Seq<Category>, budget: int, i: int)
    requires
        0 <= budget,
        spec_empty_reason(cats, budget) is Some,
        0 <= i <= cats.len(),
    ensures
        spec_sel_count(cats, budget, i) == 0,
        spec_remaining(cats, budget, i) == budget,
    decreases i,
{
    if i > 0 {
        lemma_empty_reason_consumes_nothing(cats, budget, i - 1);
        assert(spec_category_cost(cats[i - 1]) >= spec_min_category_cost());
        if budget >= spec_min_category_cost() {
            assert(spec_category_cost(cats[i - 1]) > budget);
        }
    }
}

/// If no up-front reason applies, the walk accepts at least one item:
/// the first affordable item still sees the whole budget when its turn
/// comes, because everything before it was rejected.
pub proof fn lemma_no_reason_consumes_something(cats: Seq<Category>, budget: int)
    requires
        0 <= budget,
        spec_empty_reason(cats, budget) is None,
    ensures
        spec_sel_count(cats, budget, cats.len() as int) >= 1,
{
    let j = choose|j: int|
        0 <= j < cats.len() && #[trigger] spec_category_cost(cats[j]) <= budget;
    let first = first_affordable(cats, budget);
    lemma_first_affordable(cats, budget, j);
    lemma_full_budget_before(cats, budget, first);
    assert(spec_selected(cats, budget, first));
    lemma_count_from_selected(cats, budget, first);
}

/// Index of the first item whose cost fits the whole budget.
spec fn first_affordable(cats: Seq<Category>, budget: int) -> int {
    choose|k: int|
        0 <= k < cats.len() && #[trigger] spec_category_cost(cats[k]) <= budget
            && forall|m: int| 0 <= m < k ==> #[trigger] spec_category_cost(cats[m]) > budget
}

proof fn lemma_first_affordable(cats: Seq<Category>, budget: int, j: int)
    requires
        0 <= j < cats.len(),
        spec_category_cost(cats[j]) <= budget,
    ensures
        ({
            let k = first_affordable(cats, budget);
            0 <= k < cats.len() && spec_category_cost(cats[k]) <= budget
                && forall|m: int| 0 <= m < k ==> #[trigger] spec_category_cost(cats[m]) > budget
        }),
    decreases j,
{
    if forall|m: int| 0 <= m < j ==> #[trigger] spec_category_cost(cats[m]) > budget {
        assert(0 <= j < cats.len() && spec_category_cost(cats[j]) <= budget
            && forall|m: int| 0 <= m < j ==> #[trigger] spec_category_cost(cats[m]) > budget);
    } else {
        let j2 = choose|m: int| 0 <= m < j && #[trigger] spec_category_cost(cats[m]) <= budget;
        lemma_first_affordable(cats, budget, j2);
    }
}

proof fn lemma_full_budget_before(cats: Seq<Category>, budget: int, k: int)
    requires
        0 <= k <= cats.len(),
        forall|m: int| 0 <= m < k ==> #[trigger] spec_category_cost(cats[m]) > budget,
    ensures
        spec_remaining(cats, budget, k) == budget,
    decreases k,
{
    if k > 0 {
        lemma_full_budget_before(cats, budget, k - 1);
    }
}

proof fn lemma_count_from_selected(cats: Seq<Category>, budget: int, k: int)
    requires
        0 <= k < cats.len(),
        spec_selected(cats, budget, k),
    ensures
        spec_sel_count(cats, budget, cats.len() as int) >= 1,
{
    lemma_sel_count_bounds(cats, budget, k);
    lemma_count_monotone(cats, budget, k + 1, cats.len() as int);
}

proof fn lemma_count_monotone(cats: Seq<Category>, budget: int, i: int, j: int)
    requires
        0 <= i <= j <= cats.len(),
    ensures
        spec_sel_count(cats, budget, i) <= spec_sel_count(cats, budget, j),
    decreases j - i,
{
    if i < j {
        lemma_count_monotone(cats, budget, i, j - 1);
    }
}

/// An allocation pass over the pending categories in fetch order: which
/// positions were accepted, and the aggregate outcome.
pub struct Allocation {
    pub selected: Vec<bool>,
    pub outcome: ConsumeResult,
}

/// Walks the pending list (fetch order, oldest first) and greedily accepts
/// each item whose cost fits the remaining budget. Returns the selection
/// and the aggregate tallies. Nothing is removed: unaccepted items stay
/// pending for a future call.
pub fn allocate(cats: &Vec<Category>, budget_tenths: u64) -> (r: Allocation)
    requires
        cats@.len() <= 0x1000_0000,
        budget_tenths <= 0x1000_0000_0000,
    ensures
        r.selected@.len() == cats@.len(),
        forall|i: int|
            0 <= i < cats@.len()
                ==> r.selected@[i] == spec_selected(cats@, budget_tenths as int, i),
        r.outcome.items_consumed == spec_sel_count(cats@, budget_tenths as int, cats@.len() as int),
        r.outcome.items_discarded == cats@.len() - r.outcome.items_consumed,
        r.outcome.time_consumed_tenths == spec_time_consumed(
            cats@,
            budget_tenths as int,
            cats@.len() as int,
        ),
        r.outcome.memes_consumed == spec_cat_count(
            cats@,
            budget_tenths as int,
            Category::Meme,
            cats@.len() as int,
        ),
        r.outcome.jokes_consumed == spec_cat_count(
            cats@,
            budget_tenths as int,
            Category::Joke,
            cats@.len() as int,
        ),
        r.outcome.news_consumed == spec_cat_count(
            cats@,
            budget_tenths as int,
            Category::News,
            cats@.len() as int,
        ),
        r.outcome.videos_consumed == spec_cat_count(
            cats@,
            budget_tenths as int,
            Category::Video,
            cats@.len() as int,
        ),
        r.outcome.gossip_consumed == spec_cat_count(
            cats@,
            budget_tenths as int,
            Category::Gossip,
            cats@.len() as int,
        ),
        0 <= r.outcome.time_consumed_tenths <= budget_tenths,
        0 <= r.outcome.items_consumed <= cats@.len(),
{
    let ghost b = budget_tenths as int;
    let n = cats.len();
    let mut selected: Vec<bool> = Vec::new();
    let mut remaining: u64 = budget_tenths;
    let mut memes: i64 = 0;
    let mut jokes: i64 = 0;
    let mut news: i64 = 0;
    let mut videos: i64 = 0;
    let mut gossip: i64 = 0;
    let mut accepted: i64 = 0;
    let mut i: usize = 0;
    while i < n
        invariant
            n == cats@.len(),
            n <= 0x1000_0000,
            budget_tenths <= 0x1000_0000_0000,
            b == budget_tenths as int,
            i <= n,
            selected@.len() == i,
            forall|k: int| 0 <= k < i ==> selected@[k] == spec_selected(cats@, b, k),
            remaining == spec_remaining(cats@, b, i as int),
            accepted == spec_sel_count(cats@, b, i as int),
            memes == spec_cat_count(cats@, b, Category::Meme, i as int),
            jokes == spec_cat_count(cats@, b, Category::Joke, i as int),
            news == spec_cat_count(cats@, b, Category::News, i as int),
            videos == spec_cat_count(cats@, b, Category::Video, i as int),
            gossip == spec_cat_count(cats@, b, Category::Gossip, i as int),
            0 <= accepted <= i,
            0 <= memes <= i,
            0 <= jokes <= i,
            0 <= news <= i,
            0 <= videos <= i,
            0 <= gossip <= i,
            remaining <= budget_tenths,
        decreases n - i,
    {
        let cost = category_cost(cats[i]);
        let take = cost <= remaining;
        if take {
            remaining = remaining - cost;
            accepted = accepted + 1;
            match cats[i] {
                Category::Meme => { memes = memes + 1; },
                Category::Joke => { jokes = jokes + 1; },
                Category::News => { news = news + 1; },
                Category::Video => { videos = videos + 1; },
                Category::Gossip => { gossip = gossip + 1; },
                Category::Other => {},
            }
        }
        selected.push(take);
        i = i + 1;
    }
    proof {
        lemma_remaining_bounds(cats@, b, n as int);
    }
    Allocation {
        selected,
        outcome: ConsumeResult {
            items_consumed: accepted,
            items_discarded: (n as i64) - accepted,
            time_consumed_tenths: (budget_tenths - remaining) as i64,
            memes_consumed: memes,
            jokes_consumed: jokes,
            news_consumed: news,
            videos_consumed: videos,
            gossip_consumed: gossip,
        },
    }
}

/// Classifies, before any allocation, why a pass would consume nothing:
/// an empty buffer, a budget below the cheapest cost, or a pending set in
/// which every item costs more than the whole budget. `None` means the
/// pass is guaranteed to accept at least one item.
pub fn empty_consume_reason(cats: &Vec<Category>, budget_tenths: u64) -> (r: Option<
    EmptyConsumeReason,
>)
    requires
        budget_tenths <= 0x1000_0000_0000,
    ensures
        r == spec_empty_reason(cats@, budget_tenths as int),
        r is None ==> spec_sel_count(cats@, budget_tenths as int, cats@.len() as int) >= 1,
        r is Some ==> spec_sel_count(cats@, budget_tenths as int, cats@.len() as int) == 0,
{
    let n = cats.len();
    if n == 0 {
        proof {
            lemma_empty_reason_consumes_nothing(cats@, budget_tenths as int, cats@.len() as int);
        }
        return Option::Some(EmptyConsumeReason::EmptyBuffer);
    }
    if budget_tenths < 3 {
        proof {
            lemma_empty_reason_consumes_nothing(cats@, budget_tenths as int, cats@.len() as int);
        }
        return Option::Some(EmptyConsumeReason::BudgetTooSmall);
    }
    let mut i: usize = 0;
    while i < n
        invariant
            n == cats@.len(),
            budget_tenths <= 0x1000_0000_0000,
            i <= n,
            forall|k: int| 0 <= k < i ==> #[trigger] spec_category_cost(cats@[k]) > budget_tenths as int,
        decreases n - i,
    {
        if category_cost(cats[i]) <= budget_tenths {
            proof {
                lemma_no_reason_consumes_something(cats@, budget_tenths as int);
            }
            return Option::None;
        }
        i = i + 1;
    }
    proof {
        lemma_empty_reason_consumes_nothing(cats@, budget_tenths as int, cats@.len() as int);
    }
    Option::Some(EmptyConsumeReason::AllItemsTooExpensive)
}

} // verus!
