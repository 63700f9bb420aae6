//! Constrained randomized build generation.
//!
//! Two independent random walks spend a level-derived point budget against
//! catalogs of talents and attributes.  Catalog entries are addressed by
//! index; dependency, point-gate and mutual-exclusion rules refer to those
//! indices.  The walks' contracts state the budget and constraint
//! conservation that every generated allocation obeys.

use vstd::prelude::*;
use crate::rng::draw_index;

verus! {

/// Iteration ceiling of the attribute walk.
pub const MAX_WALK_ITERATIONS: u32 = 10_000;

/// The walk stops after this many consecutive enrollment-free iterations.
pub const STUCK_LIMIT: u32 = 3;

/// One talent: its point cost and level cap.  Talents cost one point per
/// level in this model.
#[derive(Clone, Copy, PartialEq, Eq, Structural, Debug)]
pub struct TalentInfo {
    pub cost: i32,
    pub max: i32,
}

/// One attribute: its per-level point cost and its level cap; `None` means
/// uncapped, sharing the leftover budget as computed at construction.
#[derive(Clone, Copy, PartialEq, Eq, Debug)]
pub struct AttributeInfo {
    pub cost: i32,
    pub max: Option<i32>,
}

/// Sum of allocation levels.
pub open spec fn level_total(s: Seq<i32>) -> int
    decreases s.len(),
{
    if s.len() == 0 {
        0
    } else {
        level_total(s.drop_last()) + s.last()
    }
}

/// Total points spent: the level of each attribute times its cost.
pub open spec fn attr_spend(attrs: Seq<AttributeInfo>, s: Seq<i32>) -> int
    decreases s.len(),
{
    if s.len() == 0 || s.len() > attrs.len() {
        0
    } else {
        attr_spend(attrs, s.drop_last()) + s.last() * attrs[s.len() - 1].cost
    }
}

/// Points spent across every attribute but `i`.
pub open spec fn attr_spend_excluding(attrs: Seq<AttributeInfo>, s: Seq<i32>, i: int) -> int {
    attr_spend(attrs, s) - s[i] * attrs[i].cost
}

proof fn lemma_level_total_update(s: Seq<i32>, i: int, v: i32)
    requires
        0 <= i < s.len(),
    ensures
        level_total(s.update(i, v)) == level_total(s) - s[i] + v,
    decreases s.len(),
{
    let s2 = s.update(i, v);
    if i == s.len() - 1 {
        assert(s2.drop_last() =~= s.drop_last());
    } else {
        assert(s2.drop_last() =~= s.drop_last().update(i, v));
        lemma_level_total_update(s.drop_last(), i, v);
    }
}

proof fn lemma_attr_spend_update(attrs: Seq<AttributeInfo>, s: Seq<i32>, i: int, v: i32)
    requires
        0 <= i < s.len(),
        s.len() <= attrs.len(),
    ensures
        attr_spend(attrs, s.update(i, v)) == attr_spend(attrs, s) + (v - s[i]) * attrs[i].cost,
    decreases s.len(),
{
    let s2 = s.update(i, v);
    if i == s.len() - 1 {
        assert(s2.drop_last() =~= s.drop_last());
        assert(v * attrs[i].cost - s[i] * attrs[i].cost == (v - s[i]) * attrs[i].cost)
            by (nonlinear_arith);
    } else {
        assert(s2.drop_last() =~= s.drop_last().update(i, v));
        lemma_attr_spend_update(attrs, s.drop_last(), i, v);
    }
}

/// A random-walk allocator over a fixed points budget and a catalog of
/// talents and attributes with dependency, gating and exclusion rules.
#[derive(Clone, Debug)]
pub struct BuildGenerator {
    pub talent_points: i32,
    pub attribute_points: i32,
    pub talents: Vec<TalentInfo>,
    pub attributes: Vec<AttributeInfo>,
    /// Per attribute: the levels other attributes must already have.
    pub attribute_dependencies: Vec<Vec<(usize, i32)>>,
    /// Per attribute: minimum points spent across *other* attributes before
    /// it unlocks; zero or negative means no gate.
    pub attribute_point_gates: Vec<i32>,
    /// Pairs that may never both be allocated.
    pub attribute_exclusions: Vec<(usize, usize)>,
    /// The resolved per-attribute level cap: the declared cap, or for
    /// uncapped attributes the dynamically shared leftover budget.
    pub dynamic_attr_maxes: Vec<i32>,
}

impl BuildGenerator {
    /// Catalog consistency: tables are parallel, indices are in range,
    /// costs, caps, budgets and resolved caps are nonnegative, and no
    /// exclusion pairs an attribute with itself.
    pub open spec fn wf(self) -> bool {
        &&& self.talent_points >= 0
        &&& self.attribute_points >= 0
        &&& self.attribute_dependencies.len() == self.attributes.len()
        &&& self.attribute_point_gates.len() == self.attributes.len()
        &&& self.dynamic_attr_maxes.len() == self.attributes.len()
        &&& forall|i: int| 0 <= i < self.talents.len() ==> (#[trigger] self.talents[i].max) >= 0
        &&& forall|i: int| 0 <= i < self.attributes.len() ==> (#[trigger] self.attributes[i].cost)
            >= 0
        &&& forall|i: int| 0 <= i < self.dynamic_attr_maxes.len() ==> (
        #[trigger] self.dynamic_attr_maxes[i]) >= 0
        &&& forall|i: int, j: int|
            0 <= i < self.attribute_dependencies.len() && 0 <= j
                < self.attribute_dependencies[i]@.len() ==> (
            #[trigger] self.attribute_dependencies[i]@[j]).0 < self.attributes.len()
        &&& forall|k: int| 0 <= k < self.attribute_exclusions.len() ==> (
        #[trigger] self.attribute_exclusions[k]).0 < self.attributes.len()
            && self.attribute_exclusions[k].1 < self.attributes.len()
            && self.attribute_exclusions[k].0 != self.attribute_exclusions[k].1
    }

    /// All declared level dependencies of attribute `i` hold under `s`.
    pub open spec fn deps_ok(self, s: Seq<i32>, i: int) -> bool {
        forall|j: int| 0 <= j < self.attribute_dependencies[i]@.len()
            ==> s[(#[trigger] self.attribute_dependencies[i]@[j]).0 as int]
            >= self.attribute_dependencies[i]@[j].1
    }

    /// The point gate of attribute `i` holds under `s`.
    pub open spec fn gate_ok(self, s: Seq<i32>, i: int) -> bool {
        self.attribute_point_gates[i] <= 0 || attr_spend_excluding(self.attributes@, s, i)
            >= self.attribute_point_gates[i]
    }

    /// No exclusion partner of attribute `i` is allocated under `s`.
    pub open spec fn excl_ok(self, s: Seq<i32>, i: int) -> bool {
        forall|k: int| 0 <= k < self.attribute_exclusions.len() ==> {
            let p = #[trigger] self.attribute_exclusions[k];
            &&& (p.0 == i ==> s[p.1 as int] <= 0)
            &&& (p.1 == i ==> s[p.0 as int] <= 0)
        }
    }

    /// Attribute `i` could take one more level under `s`: affordable within
    /// the remaining budget, below its resolved cap, and its dependencies,
    /// gate and exclusions all met.
    pub open spec fn attr_eligible(self, s: Seq<i32>, i: int) -> bool {
        &&& self.attributes[i].cost <= self.attribute_points - attr_spend(self.attributes@, s)
        &&& s[i] < self.dynamic_attr_maxes[i]
        &&& self.deps_ok(s, i)
        &&& self.gate_ok(s, i)
        &&& self.excl_ok(s, i)
    }

    /// An allocation the attribute walk may return: within budget and caps,
    /// every allocated attribute's dependencies, gate and exclusions hold.
    pub open spec fn attr_allocation_ok(self, s: Seq<i32>) -> bool {
        &&& s.len() == self.attributes.len()
        &&& forall|i: int| 0 <= i < s.len() ==> 0 <= #[trigger] s[i]
            <= self.dynamic_attr_maxes[i]
        &&& attr_spend(self.attributes@, s) <= self.attribute_points
        &&& forall|i: int| 0 <= i < s.len() && #[trigger] s[i] > 0 ==> self.deps_ok(s, i)
        &&& forall|i: int| 0 <= i < s.len() && #[trigger] s[i] > 0 ==> self.gate_ok(s, i)
        &&& forall|i: int| 0 <= i < s.len() && #[trigger] s[i] > 0 ==> self.excl_ok(s, i)
    }

    /// An allocation the talent walk may return: within budget and caps.
    pub open spec fn talent_allocation_ok(self, s: Seq<i32>) -> bool {
        &&& s.len() == self.talents.len()
        &&& forall|i: int| 0 <= i < s.len() ==> 0 <= #[trigger] s[i] <= self.talents[i].max
        &&& level_total(s) <= self.talent_points
    }

    /// Everything the talent walk guarantees: a valid allocation that
    /// either exhausts the budget or has every talent at its cap.
    pub open spec fn talent_walk_post(self, s: Seq<i32>) -> bool {
        &&& self.talent_allocation_ok(s)
        &&& (level_total(s) == self.talent_points || (forall|i: int|
            0 <= i < s.len() ==> #[trigger] s[i] == self.talents[i].max))
    }

    /// Everything the attribute walk guarantees: a valid allocation that
    /// exhausted the budget, or admits no further eligible attribute, or
    /// grew large enough to have hit the iteration ceiling.
    pub open spec fn attr_walk_post(self, s: Seq<i32>) -> bool {
        &&& self.attr_allocation_ok(s)
        &&& (attr_spend(self.attributes@, s) == self.attribute_points || (forall|i: int|
            0 <= i < s.len() ==> !(#[trigger] self.attr_eligible(s, i))) || level_total(s)
            >= (MAX_WALK_ITERATIONS - STUCK_LIMIT) as int / 3)
    }
}

/// Points needed to fully max every capped attribute.
pub open spec fn limited_cost(attrs: Seq<AttributeInfo>) -> int
    decreases attrs.len(),
{
    if attrs.len() == 0 {
        0
    } else {
        limited_cost(attrs.drop_last()) + (match attrs.last().max {
            Some(m) => m * attrs.last().cost,
            None => 0,
        })
    }
}

/// How many attributes are declared uncapped.
pub open spec fn unlimited_count(attrs: Seq<AttributeInfo>) -> int
    decreases attrs.len(),
{
    if attrs.len() == 0 {
        0
    } else {
        unlimited_count(attrs.drop_last()) + (if attrs.last().max is None {
            1int
        } else {
            0int
        })
    }
}

/// The cap every uncapped attribute resolves to: the budget left after
/// reserving the capped attributes' full cost, shared evenly, at least one.
pub open spec fn shared_cap_spec(attrs: Seq<AttributeInfo>, budget: int) -> int {
    let rem = budget - limited_cost(attrs);
    let cnt = unlimited_count(attrs);
    if cnt <= 0 {
        0
    } else if rem <= 0 {
        1
    } else if rem / cnt <= 0 {
        1
    } else {
        rem / cnt
    }
}

/// An uncapped entry makes the uncapped count positive.
proof fn lemma_unlimited_count_pos(attrs: Seq<AttributeInfo>, i: int)
    requires
        0 <= i < attrs.len(),
        attrs[i].max is None,
    ensures
        unlimited_count(attrs) >= 1,
        unlimited_count(attrs) >= 0,
    decreases attrs.len(),
{
    lemma_unlimited_count_nonneg(attrs);
    if i == attrs.len() - 1 {
        lemma_unlimited_count_nonneg(attrs.drop_last());
    } else {
        lemma_unlimited_count_pos(attrs.drop_last(), i);
    }
}

proof fn lemma_unlimited_count_nonneg(attrs: Seq<AttributeInfo>)
    ensures
        unlimited_count(attrs) >= 0,
    decreases attrs.len(),
{
    if attrs.len() > 0 {
        lemma_unlimited_count_nonneg(attrs.drop_last());
    }
}

impl BuildGenerator {
    /// Build a generator from a level and a catalog: the talent budget is
    /// the level, the attribute budget three times it, and the uncapped
    /// attributes' shared cap is resolved once here.
    pub fn new(
        level: i32,
        talents: Vec<TalentInfo>,
        attributes: Vec<AttributeInfo>,
        attribute_dependencies: Vec<Vec<(usize, i32)>>,
        attribute_point_gates: Vec<i32>,
        attribute_exclusions: Vec<(usize, usize)>,
    ) -> (g: BuildGenerator)
        requires
            0 <= level <= 0x2000_0000,
            attribute_dependencies.len() == attributes.len(),
            attribute_point_gates.len() == attributes.len(),
            forall|i: int| 0 <= i < talents.len() ==> (#[trigger] talents[i].max) >= 0,
            forall|i: int| 0 <= i < attributes.len() ==> (#[trigger] attributes[i].cost) >= 0,
            forall|i: int| 0 <= i < attributes.len() ==> ((#[trigger] attributes[i].max) matches
                Some(m) ==> m >= 0),
            forall|i: int, j: int|
                0 <= i < attribute_dependencies.len() && 0 <= j
                    < attribute_dependencies[i]@.len() ==> (
                #[trigger] attribute_dependencies[i]@[j]).0 < attributes.len(),
            forall|k: int| 0 <= k < attribute_exclusions.len() ==> (
            #[trigger] attribute_exclusions[k]).0 < attributes.len()
                && attribute_exclusions[k].1 < attributes.len() && attribute_exclusions[k].0
                != attribute_exclusions[k].1,
        ensures
            g.wf(),
            g.talent_points == level,
            g.attribute_points == 3 * level,
            g.talents == talents,
            g.attributes == attributes,
            g.attribute_dependencies == attribute_dependencies,
            g.attribute_point_gates == attribute_point_gates,
            g.attribute_exclusions == attribute_exclusions,
            g.dynamic_attr_maxes.len() == attributes.len(),
            forall|i: int| 0 <= i < attributes.len() ==> (#[trigger] g.dynamic_attr_maxes[i]) as int
                == (match attributes[i].max {
                Some(m) => m as int,
                None => shared_cap_spec(attributes@, 3 * level),
            }),
    {
        let n = attributes.len();
        let mut limited: i128 = 0;
        let mut cnt: usize = 0;
        let mut i: usize = 0;
        while i < n
            invariant
                n == attributes.len(),
                i <= n,
                forall|k: int| 0 <= k < n ==> (#[trigger] attributes[k].cost) >= 0,
                forall|k: int| 0 <= k < n ==> ((#[trigger] attributes[k].max) matches Some(m) ==> m
                    >= 0),
                limited == limited_cost(attributes@.subrange(0, i as int)),
                0 <= limited <= (i as int) * 0x4000_0000_0000_0000,
                cnt == unlimited_count(attributes@.subrange(0, i as int)),
                cnt <= i,
            decreases n - i,
        {
            let ghost pre = attributes@.subrange(0, i as int);
            let ghost post = attributes@.subrange(0, i as int + 1);
            proof {
                assert(post.drop_last() =~= pre);
                assert(post.last() == attributes@[i as int]);
                assert((i as int) * 0x4000_0000_0000_0000 + 0x4000_0000_0000_0000 == (i as int + 1)
                    * 0x4000_0000_0000_0000) by (nonlinear_arith);
            }
            match attributes[i].max {
                Some(m) => {
                    let c = attributes[i].cost;
                    proof {
                        assert(0 <= (m as int) * (c as int) < 0x4000_0000_0000_0000)
                            by (nonlinear_arith)
                            requires
                                0 <= m < 0x8000_0000,
                                0 <= c < 0x8000_0000,
                        ;
                    }
                    limited = limited + (m as i128) * (c as i128);
                },
                None => {
                    cnt = cnt + 1;
                },
            }
            i = i + 1;
        }
        proof {
            assert(attributes@.subrange(0, n as int) =~= attributes@);
        }
        let max_per: i32 = if cnt == 0 {
            0
        } else {
            let rem: i128 = 3 * (level as i128) - limited;
            if rem <= 0 {
                1
            } else {
                let q: u128 = (rem as u128) / (cnt as u128);
                if q == 0 {
                    1
                } else {
                    proof {
                        vstd::arithmetic::div_mod::lemma_div_nonincreasing(
                            rem as int,
                            cnt as int,
                        );
                    }
                    q as i32
                }
            }
        };
        let mut dynamic_attr_maxes: Vec<i32> = Vec::new();
        let mut i: usize = 0;
        while i < n
            invariant
                n == attributes.len(),
                i <= n,
                dynamic_attr_maxes.len() == i,
                forall|k: int| 0 <= k < n ==> ((#[trigger] attributes[k].max) matches Some(m) ==> m
                    >= 0),
                cnt == unlimited_count(attributes@),
                max_per as int == (if unlimited_count(attributes@) <= 0 {
                    0int
                } else {
                    shared_cap_spec(attributes@, 3 * level)
                }),
                max_per >= 0,
                forall|k: int| 0 <= k < i ==> (#[trigger] dynamic_attr_maxes[k]) as int == (
                match attributes[k].max {
                    Some(m) => m as int,
                    None => shared_cap_spec(attributes@, 3 * level),
                }),
                forall|k: int| 0 <= k < i ==> (#[trigger] dynamic_attr_maxes[k]) >= 0,
            decreases n - i,
        {
            match attributes[i].max {
                Some(m) => {
                    dynamic_attr_maxes.push(m);
                },
                None => {
                    proof {
                        lemma_unlimited_count_pos(attributes@, i as int);
                    }
                    dynamic_attr_maxes.push(max_per);
                },
            }
            i = i + 1;
        }
        BuildGenerator {
            talent_points: level,
            attribute_points: 3 * level,
            talents,
            attributes,
            attribute_dependencies,
            attribute_point_gates,
            attribute_exclusions,
            dynamic_attr_maxes,
        }
    }

    /// The resolved level cap of one attribute.
    fn get_attr_max(&self, attr: usize) -> (m: i32)
        requires
            attr < self.dynamic_attr_maxes.len(),
        ensures
            m == self.dynamic_attr_maxes[attr as int],
    {
        self.dynamic_attr_maxes[attr]
    }

    /// Total points the allocation `current` spends.
    fn attr_spend_exec(&self, current: &Vec<i32>) -> (total: i128)
        requires
            self.wf(),
            current.len() == self.attributes.len(),
        ensures
            total == attr_spend(self.attributes@, current@),
    {
        let n = current.len();
        let mut total: i128 = 0;
        let mut k: usize = 0;
        while k < n
            invariant
                self.wf(),
                n == current.len(),
                current.len() == self.attributes.len(),
                k <= n,
                total == attr_spend(self.attributes@, current@.subrange(0, k as int)),
                -((k as int) * 0x4000_0000_0000_0000) <= total <= (k as int)
                    * 0x4000_0000_0000_0000,
            decreases n - k,
        {
            let ghost pre = current@.subrange(0, k as int);
            let ghost post = current@.subrange(0, k as int + 1);
            proof {
                assert(post.drop_last() =~= pre);
                assert(post.last() == current@[k as int]);
                assert((k as int) * 0x4000_0000_0000_0000 + 0x4000_0000_0000_0000 == (k as int + 1)
                    * 0x4000_0000_0000_0000) by (nonlinear_arith);
                assert(-0x4000_0000_0000_0000 < (current@[k as int] as int) * (
                self.attributes[k as int].cost as int) < 0x4000_0000_0000_0000)
                    by (nonlinear_arith)
                    requires
                        -0x8000_0000 <= current@[k as int] < 0x8000_0000,
                        0 <= self.attributes[k as int].cost < 0x8000_0000,
                ;
            }
            total = total + (current[k] as i128) * (self.attributes[k].cost as i128);
            k = k + 1;
        }
        proof {
            assert(current@.subrange(0, n as int) =~= current@);
        }
        total
    }

    /// Whether the point gate of `attr` is met by `current`: no gate, or
    /// enough points spent across the other attributes.
    fn can_unlock_attribute(&self, attr: usize, current: &Vec<i32>) -> (b: bool)
        requires
            self.wf(),
            current.len() == self.attributes.len(),
            attr < self.attributes.len(),
        ensures
            b == self.gate_ok(current@, attr as int),
    {
        let gate = self.attribute_point_gates[attr];
        if gate <= 0 {
            return true;
        }
        let total = self.attr_spend_exec(current);
        proof {
            assert(-0x4000_0000_0000_0000 < (current@[attr as int] as int) * (
            self.attributes[attr as int].cost as int) < 0x4000_0000_0000_0000)
                by (nonlinear_arith)
                requires
                    -0x8000_0000 <= current@[attr as int] < 0x8000_0000,
                    0 <= self.attributes[attr as int].cost < 0x8000_0000,
            ;
        }
        let own: i128 = (current[attr] as i128) * (self.attributes[attr].cost as i128);
        total >= own + gate as i128
    }

    /// Whether every level dependency of `attr` is met by `current`.
    fn deps_satisfied(&self, attr: usize, current: &Vec<i32>) -> (b: bool)
        requires
            self.wf(),
            current.len() == self.attributes.len(),
            attr < self.attributes.len(),
        ensures
            b == self.deps_ok(current@, attr as int),
    {
        let deps = &self.attribute_dependencies[attr];
        let m = deps.len();
        let mut j: usize = 0;
        while j < m
            invariant
                self.wf(),
                current.len() == self.attributes.len(),
                attr < self.attributes.len(),
                deps == &self.attribute_dependencies[attr as int],
                m == deps.len(),
                j <= m,
                forall|t: int| 0 <= t < j ==> current@[(#[trigger] deps@[t]).0 as int]
                    >= deps@[t].1,
            decreases m - j,
        {
            let (req_attr, req_level) = deps[j];
            if current[req_attr] < req_level {
                return false;
            }
            j = j + 1;
        }
        true
    }

    /// Whether no exclusion partner of `attr` is allocated in `current`.
    fn excl_free(&self, attr: usize, current: &Vec<i32>) -> (b: bool)
        requires
            self.wf(),
            current.len() == self.attributes.len(),
            attr < self.attributes.len(),
        ensures
            b == self.excl_ok(current@, attr as int),
    {
        let m = self.attribute_exclusions.len();
        let mut k: usize = 0;
        while k < m
            invariant
                self.wf(),
                current.len() == self.attributes.len(),
                attr < self.attributes.len(),
                m == self.attribute_exclusions.len(),
                k <= m,
                forall|t: int| 0 <= t < k ==> {
                    let p = #[trigger] self.attribute_exclusions[t];
                    &&& (p.0 == attr as int ==> current@[p.1 as int] <= 0)
                    &&& (p.1 == attr as int ==> current@[p.0 as int] <= 0)
                },
            decreases m - k,
        {
            let (a, b) = self.attribute_exclusions[k];
            if a == attr && current[b] > 0 {
                return false;
            }
            if b == attr && current[a] > 0 {
                return false;
            }
            k = k + 1;
        }
        true
    }

    /// The all-zero attribute allocation.
    fn zero_attr_alloc(&self) -> (r: Vec<i32>)
        requires
            self.wf(),
        ensures
            r.len() == self.attributes.len(),
            forall|i: int| 0 <= i < r.len() ==> #[trigger] r[i] == 0,
            attr_spend(self.attributes@, r@) == 0,
            level_total(r@) == 0,
            self.attr_allocation_ok(r@),
    {
        let n = self.attributes.len();
        let mut r: Vec<i32> = Vec::new();
        let mut i: usize = 0;
        while i < n
            invariant
                self.wf(),
                n == self.attributes.len(),
                i <= n,
                r.len() == i,
                forall|k: int| 0 <= k < i ==> #[trigger] r[k] == 0,
                attr_spend(self.attributes@, r@) == 0,
                level_total(r@) == 0,
            decreases n - i,
        {
            let ghost pre = r@;
            r.push(0);
            proof {
                assert(r@.drop_last() =~= pre);
                assert(r@.last() == 0i32);
                assert(attr_spend(self.attributes@, r@) == attr_spend(self.attributes@, pre)
                    + 0 * self.attributes@[r@.len() - 1].cost);
            }
            i = i + 1;
        }
        r
    }

    /// Fill the talent budget by a random walk: repeatedly pick uniformly
    /// among the talents still below their cap (each level costs one point)
    /// until the budget is spent or no talent admits more, so the result
    /// either exhausts the budget or has every talent at its cap.
    pub fn random_walk_talent_allocation(&self, rng: &mut rand::rngs::SmallRng) -> (r: Vec<i32>)
        requires
            self.wf(),
        ensures
            self.talent_walk_post(r@),
    {
        let n = self.talents.len();
        let mut result: Vec<i32> = Vec::new();
        let mut i: usize = 0;
        while i < n
            invariant
                self.wf(),
                n == self.talents.len(),
                i <= n,
                result.len() == i,
                forall|k: int| 0 <= k < i ==> #[trigger] result[k] == 0,
                level_total(result@) == 0,
            decreases n - i,
        {
            let ghost pre = result@;
            result.push(0);
            proof {
                assert(result@.drop_last() =~= pre);
            }
            i = i + 1;
        }
        let mut remaining: i32 = self.talent_points;
        while remaining > 0
            invariant
                self.wf(),
                n == self.talents.len(),
                result.len() == n,
                forall|k: int| 0 <= k < n ==> 0 <= #[trigger] result[k] <= self.talents[k].max,
                level_total(result@) == self.talent_points - remaining,
                0 <= remaining <= self.talent_points,
            ensures
                remaining == 0 || (forall|k: int|
                    0 <= k < n ==> #[trigger] result[k] == self.talents[k].max),
            decreases remaining,
        {
            let mut valid: Vec<usize> = Vec::new();
            let mut t: usize = 0;
            while t < n
                invariant
                    self.wf(),
                    n == self.talents.len(),
                    result.len() == n,
                    t <= n,
                    forall|k: int| 0 <= k < n ==> 0 <= #[trigger] result[k] <= self.talents[k].max,
                    forall|j: int| 0 <= j < valid.len() ==> (#[trigger] valid[j]) < n
                        && result[valid[j] as int] < self.talents[valid[j] as int].max,
                    valid.len() == 0 ==> forall|k: int|
                        0 <= k < t ==> #[trigger] result[k] >= self.talents[k].max,
                decreases n - t,
            {
                if result[t] < self.talents[t].max {
                    valid.push(t);
                }
                t = t + 1;
            }
            if valid.len() == 0 {
                break ;
            }
            let pick = draw_index(rng, valid.len());
            let chosen = valid[pick];
            proof {
                lemma_level_total_update(result@, chosen as int, (result@[chosen as int] + 1) as i32);
            }
            result[chosen] = result[chosen] + 1;
            remaining = remaining - 1;
        }
        result
    }

    /// Fill the attribute budget by a random walk: each round recomputes
    /// the attributes eligible for one more level (affordable, below cap,
    /// dependencies, gate and exclusions met), picks uniformly among them
    /// and spends the cost.  Stops on an exhausted pool, the iteration
    /// ceiling, or three consecutive rounds with nothing eligible; a final
    /// defensive re-count discards any over-budget result as all zeros.
    pub fn random_walk_attr_allocation(&self, rng: &mut rand::rngs::SmallRng) -> (r: Vec<i32>)
        requires
            self.wf(),
        ensures
            self.attr_walk_post(r@),
    {
        let n = self.attributes.len();
        let mut result: Vec<i32> = self.zero_attr_alloc();
        let mut remaining: i64 = self.attribute_points as i64;
        let mut iteration: u32 = 0;
        let mut stuck_count: u32 = 0;
        while remaining > 0 && iteration < MAX_WALK_ITERATIONS
            invariant_except_break
                stuck_count < STUCK_LIMIT,
            invariant
                self.wf(),
                n == self.attributes.len(),
                result.len() == n,
                forall|k: int| 0 <= k < n ==> 0 <= #[trigger] result[k]
                    <= self.dynamic_attr_maxes[k],
                attr_spend(self.attributes@, result@) == self.attribute_points - remaining,
                0 <= remaining <= self.attribute_points,
                forall|i: int| 0 <= i < n && #[trigger] result[i] > 0 ==> self.deps_ok(result@, i),
                forall|i: int| 0 <= i < n && #[trigger] result[i] > 0 ==> self.gate_ok(result@, i),
                forall|i: int| 0 <= i < n && #[trigger] result[i] > 0 ==> self.excl_ok(result@, i),
                iteration as int <= 3 * level_total(result@) + stuck_count as int,
                level_total(result@) >= 0,
            ensures
                attr_spend(self.attributes@, result@) == self.attribute_points || (forall|i: int|
                    0 <= i < n ==> !(#[trigger] self.attr_eligible(result@, i))) || level_total(
                    result@,
                ) >= (MAX_WALK_ITERATIONS - STUCK_LIMIT) as int / 3,
            decreases MAX_WALK_ITERATIONS - iteration,
        {
            iteration = iteration + 1;
            let mut valid: Vec<usize> = Vec::new();
            let mut a: usize = 0;
            while a < n
                invariant
                    self.wf(),
                    n == self.attributes.len(),
                    result.len() == n,
                    a <= n,
                    attr_spend(self.attributes@, result@) == self.attribute_points - remaining,
                    forall|j: int| 0 <= j < valid.len() ==> {
                        let v = (#[trigger] valid[j]) as int;
                        &&& valid[j] < n
                        &&& self.attributes[v].cost <= remaining
                        &&& result[v] < self.dynamic_attr_maxes[v]
                        &&& self.deps_ok(result@, v)
                        &&& self.gate_ok(result@, v)
                        &&& self.excl_ok(result@, v)
                    },
                    valid.len() == 0 ==> forall|k: int|
                        0 <= k < a ==> !(#[trigger] self.attr_eligible(result@, k)),
                decreases n - a,
            {
                let affordable = (self.attributes[a].cost as i64) <= remaining;
                if affordable && result[a] < self.get_attr_max(a) && self.deps_satisfied(a, &result)
                    && self.can_unlock_attribute(a, &result) && self.excl_free(a, &result) {
                    valid.push(a);
                }
                a = a + 1;
            }
            if valid.len() == 0 {
                stuck_count = stuck_count + 1;
                if stuck_count >= STUCK_LIMIT {
                    proof {
                        assert(forall|i: int|
                            0 <= i < n ==> !(#[trigger] self.attr_eligible(result@, i)));
                    }
                    break ;
                }
            } else {
                stuck_count = 0;
                let pick = draw_index(rng, valid.len());
                let chosen = valid[pick];
                let cost = self.attributes[chosen].cost;
                let ghost pre = result@;
                proof {
                    lemma_attr_spend_update(
                        self.attributes@,
                        result@,
                        chosen as int,
                        (result@[chosen as int] + 1) as i32,
                    );
                    lemma_level_total_update(
                        result@,
                        chosen as int,
                        (result@[chosen as int] + 1) as i32,
                    );
                    assert((pre[chosen as int] + 1 - pre[chosen as int]) * (
                    self.attributes[chosen as int].cost as int)
                        == self.attributes[chosen as int].cost as int) by (nonlinear_arith);
                }
                result[chosen] = result[chosen] + 1;
                remaining = remaining - (cost as i64);
                proof {
                    let c = chosen as int;
                    assert forall|i: int| 0 <= i < n && #[trigger] result[i] > 0 implies self
                        .deps_ok(result@, i) by {
                        if i != c {
                            assert(pre[i] > 0);
                            assert(self.deps_ok(pre, i));
                        }
                        assert forall|j: int|
                            0 <= j < self.attribute_dependencies[i]@.len() implies result@[(
                        #[trigger] self.attribute_dependencies[i]@[j]).0 as int]
                            >= self.attribute_dependencies[i]@[j].1 by {
                            let d = self.attribute_dependencies[i]@[j].0 as int;
                            assert(pre[d] >= self.attribute_dependencies[i]@[j].1);
                            assert(result@[d] >= pre[d]);
                        }
                    }
                    assert forall|i: int| 0 <= i < n && #[trigger] result[i] > 0 implies self
                        .gate_ok(result@, i) by {
                        let cost_c = self.attributes[c].cost as int;
                        assert(attr_spend(self.attributes@, result@) == attr_spend(
                            self.attributes@,
                            pre,
                        ) + cost_c);
                        if i == c {
                            assert((pre[c] + 1) * cost_c == pre[c] * cost_c + cost_c)
                                by (nonlinear_arith);
                            assert(attr_spend_excluding(self.attributes@, result@, c)
                                == attr_spend_excluding(self.attributes@, pre, c));
                            assert(self.gate_ok(pre, c));
                        } else {
                            assert(pre[i] > 0);
                            assert(self.gate_ok(pre, i));
                            assert(result@[i] == pre[i]);
                            assert(attr_spend_excluding(self.attributes@, result@, i)
                                == attr_spend_excluding(self.attributes@, pre, i) + cost_c);
                        }
                    }
                    assert forall|i: int| 0 <= i < n && #[trigger] result[i] > 0 implies self
                        .excl_ok(result@, i) by {
                        assert forall|k: int| 0 <= k < self.attribute_exclusions.len() implies {
                            let p = #[trigger] self.attribute_exclusions[k];
                            &&& (p.0 == i ==> result@[p.1 as int] <= 0)
                            &&& (p.1 == i ==> result@[p.0 as int] <= 0)
                        } by {
                            let p = self.attribute_exclusions[k];
                            if i == c {
                                assert(self.excl_ok(pre, c));
                                if p.0 == c {
                                    assert(pre[p.1 as int] <= 0);
                                    assert(p.1 != c);
                                    assert(result@[p.1 as int] == pre[p.1 as int]);
                                }
                                if p.1 == c {
                                    assert(pre[p.0 as int] <= 0);
                                    assert(p.0 != c);
                                    assert(result@[p.0 as int] == pre[p.0 as int]);
                                }
                            } else {
                                assert(pre[i] > 0);
                                assert(self.excl_ok(pre, i));
                                if p.0 == i && p.1 == c {
                                    assert(self.excl_ok(pre, c));
                                    assert(pre[i] <= 0);
                                }
                                if p.1 == i && p.0 == c {
                                    assert(self.excl_ok(pre, c));
                                    assert(pre[i] <= 0);
                                }
                            }
                        }
                    }
                }
            }
        }
        let total_spent = self.attr_spend_exec(&result);
        if total_spent > self.attribute_points as i128 {
            return self.zero_attr_alloc();
        }
        result
    }

    /// Generate one candidate build: an independent talent walk and
    /// attribute walk over the same catalogs.
    pub fn generate_random_build(&self, rng: &mut rand::rngs::SmallRng) -> (r: (
        Vec<i32>,
        Vec<i32>,
    ))
        requires
            self.wf(),
        ensures
            self.talent_walk_post(r.0@),
            self.attr_walk_post(r.1@),
    {
        let talents = self.random_walk_talent_allocation(rng);
        let attrs = self.random_walk_attr_allocation(rng);
        (talents, attrs)
    }

    /// Generate a batch of independent candidate builds.
    pub fn generate_builds(&self, count: usize, rng: &mut rand::rngs::SmallRng) -> (rs: Vec<
        (Vec<i32>, Vec<i32>),
    >)
        requires
            self.wf(),
        ensures
            rs.len() == count,
            forall|k: int| 0 <= k < count ==> self.talent_walk_post((#[trigger] rs[k]).0@)
                && self.attr_walk_post(rs[k].1@),
    {
        let mut rs: Vec<(Vec<i32>, Vec<i32>)> = Vec::new();
        let mut k: usize = 0;
        while k < count
            invariant
                self.wf(),
                k == rs.len(),
                k <= count,
                forall|j: int| 0 <= j < k ==> self.talent_walk_post((#[trigger] rs[j]).0@)
                    && self.attr_walk_post(rs[j].1@),
            decreases count - k,
        {
            let b = self.generate_random_build(rng);
            rs.push(b);
            k = k + 1;
        }
        rs
    }
}

} // verus!
