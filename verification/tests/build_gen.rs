use hunter_sim::build_generator::{AttributeInfo, BuildGenerator, TalentInfo};
use rand::rngs::SmallRng;
use rand::SeedableRng;

fn talent(cost: i32, max: i32) -> TalentInfo {
    TalentInfo { cost, max }
}

fn capped(cost: i32, max: i32) -> AttributeInfo {
    AttributeInfo { cost, max: Some(max) }
}

fn uncapped(cost: i32) -> AttributeInfo {
    AttributeInfo { cost, max: None }
}

fn spend(attrs: &[AttributeInfo], levels: &[i32]) -> i64 {
    levels.iter().zip(attrs.iter()).map(|(&l, a)| l as i64 * a.cost as i64).sum()
}

#[test]
fn talent_walk_respects_budget_and_caps() {
    let gen = BuildGenerator::new(
        7,
        vec![talent(1, 5), talent(1, 3), talent(1, 10)],
        vec![],
        vec![],
        vec![],
        vec![],
    );
    let mut rng = SmallRng::seed_from_u64(11);
    for _ in 0..100 {
        let alloc = gen.random_walk_talent_allocation(&mut rng);
        assert_eq!(alloc.len(), 3);
        let total: i64 = alloc.iter().map(|&l| l as i64).sum();
        assert!(total <= 7);
        assert!(alloc[0] <= 5 && alloc[1] <= 3 && alloc[2] <= 10);
        assert!(alloc.iter().all(|&l| l >= 0));
    }
}

#[test]
fn talent_walk_spends_the_whole_budget_when_it_can() {
    // Plenty of cap room: the walk must leave nothing of the budget unspent.
    let gen = BuildGenerator::new(
        7,
        vec![talent(1, 100), talent(1, 100)],
        vec![],
        vec![],
        vec![],
        vec![],
    );
    let mut rng = SmallRng::seed_from_u64(21);
    for _ in 0..50 {
        let alloc = gen.random_walk_talent_allocation(&mut rng);
        let total: i64 = alloc.iter().map(|&l| l as i64).sum();
        assert_eq!(total, 7);
    }
}

#[test]
fn attr_walk_stops_only_exhausted_or_stuck() {
    // One cheap capped attribute and room in the budget: every run must
    // either spend the budget or leave no eligible attribute, so here the
    // cap is always reached.
    let attrs = vec![capped(1, 4)];
    let gen = BuildGenerator::new(10, vec![], attrs, vec![vec![]], vec![0], vec![]);
    let mut rng = SmallRng::seed_from_u64(22);
    for _ in 0..50 {
        let alloc = gen.random_walk_attr_allocation(&mut rng);
        assert_eq!(alloc, vec![4]);
    }
}

#[test]
fn talent_walk_fills_caps_when_budget_allows() {
    let gen = BuildGenerator::new(
        100,
        vec![talent(1, 5), talent(1, 3), talent(1, 10)],
        vec![],
        vec![],
        vec![],
        vec![],
    );
    let mut rng = SmallRng::seed_from_u64(12);
    let alloc = gen.random_walk_talent_allocation(&mut rng);
    assert_eq!(alloc, vec![5, 3, 10]);
}

#[test]
fn attr_walk_respects_budget_dependencies_gates_and_exclusions() {
    // Five attributes: 2 depends on 0 at level 3, 3 is gated behind six
    // points spent elsewhere, and 3 and 4 exclude each other.
    let attrs = vec![capped(1, 10), capped(2, 10), capped(1, 10), capped(3, 10), capped(2, 10)];
    let deps = vec![vec![], vec![], vec![(0usize, 3i32)], vec![], vec![]];
    let gates = vec![0, 0, 0, 6, 0];
    let excl = vec![(3usize, 4usize)];
    let gen = BuildGenerator::new(10, vec![], attrs.clone(), deps, gates, excl);
    let mut rng = SmallRng::seed_from_u64(13);
    for _ in 0..200 {
        let alloc = gen.random_walk_attr_allocation(&mut rng);
        assert_eq!(alloc.len(), 5);
        assert!(alloc.iter().all(|&l| (0..=10).contains(&l)));
        assert!(spend(&attrs, &alloc) <= 30);
        if alloc[2] > 0 {
            assert!(alloc[0] >= 3);
        }
        if alloc[3] > 0 {
            let others = spend(&attrs, &alloc) - alloc[3] as i64 * 3;
            assert!(others >= 6);
        }
        assert!(!(alloc[3] > 0 && alloc[4] > 0));
    }
}

#[test]
fn unlimited_attribute_shares_leftover_budget() {
    // Budget 30; the capped attribute reserves 10, so the one uncapped
    // attribute resolves to a cap of 20.
    let attrs = vec![capped(2, 5), uncapped(1)];
    let gen = BuildGenerator::new(10, vec![], attrs.clone(), vec![vec![], vec![]], vec![0, 0], vec![]);
    assert_eq!(gen.dynamic_attr_maxes, vec![5, 20]);
    let mut rng = SmallRng::seed_from_u64(14);
    for _ in 0..1000 {
        let alloc = gen.random_walk_attr_allocation(&mut rng);
        assert!(alloc[1] <= 20);
        assert!(spend(&attrs, &alloc) <= 30);
    }
}

#[test]
fn uncapped_attributes_get_at_least_one_level_of_room() {
    // The capped attribute alone outcosts the whole budget; the shared cap
    // still resolves to one.
    let attrs = vec![capped(10, 10), uncapped(1)];
    let gen = BuildGenerator::new(3, vec![], attrs, vec![vec![], vec![]], vec![0, 0], vec![]);
    assert_eq!(gen.dynamic_attr_maxes, vec![10, 1]);
}

#[test]
fn unmeetable_gate_yields_all_zero_allocation() {
    // The only attribute is gated behind points that can never be spent.
    let attrs = vec![capped(1, 10)];
    let gen = BuildGenerator::new(10, vec![], attrs, vec![vec![]], vec![5], vec![]);
    let mut rng = SmallRng::seed_from_u64(15);
    let alloc = gen.random_walk_attr_allocation(&mut rng);
    assert_eq!(alloc, vec![0]);
}

#[test]
fn generate_builds_returns_requested_count() {
    let gen = BuildGenerator::new(
        5,
        vec![talent(1, 4)],
        vec![capped(1, 4)],
        vec![vec![]],
        vec![0],
        vec![],
    );
    let mut rng = SmallRng::seed_from_u64(16);
    let builds = gen.generate_builds(25, &mut rng);
    assert_eq!(builds.len(), 25);
    for (talents, attrs) in builds {
        assert!(talents[0] <= 4 && talents[0] >= 0);
        assert!(attrs[0] <= 4 && attrs[0] >= 0);
        assert!(attrs[0] as i64 <= 15);
    }
}

#[test]
fn generator_budgets_follow_level() {
    let gen = BuildGenerator::new(40, vec![], vec![], vec![], vec![], vec![]);
    assert_eq!(gen.talent_points, 40);
    assert_eq!(gen.attribute_points, 120);
}
