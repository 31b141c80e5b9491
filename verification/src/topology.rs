//! Which package, die group and die a processor belongs to.
use crate::error::CollectorError;
use crate::ordered_map::{self, Key, OrderedMap};
use vstd::prelude::*;

verus! {

/// A level of the processor topology.
#[derive(Clone, Copy, Debug, PartialEq, Eq, Structural)]
pub enum TopologyLevelKind {
    Core,
    Die,
    DieGroup,
    Module,
    Package,
    Smt,
    Tile,
}

/// The number of a processor at one level of the topology.
#[derive(Clone, Copy, Debug, PartialEq, Eq, Structural)]
pub struct TopologyLevel {
    pub id: u32,
    pub kind: TopologyLevelKind,
    pub shift: u32,
}

/// Where a logical processor stands in the topology.
#[derive(Clone, Debug)]
pub struct CpuTopology {
    pub cpu: u32,
    pub levels: Vec<TopologyLevel>,
    pub x2apic_id: u32,
}

/// The number at the first of `levels` that is of the given kind.
pub open spec fn id_at(levels: Seq<TopologyLevel>, kind: TopologyLevelKind) -> Option<u32>
    decreases levels.len(),
{
    if levels.len() == 0 {
        None
    } else if levels[0].kind == kind {
        Some(levels[0].id)
    } else {
        id_at(levels.drop_first(), kind)
    }
}

/// A number, or zero where there is none.
pub open spec fn or_zero(id: Option<u32>) -> u32 {
    match id {
        Some(id) => id,
        None => 0,
    }
}

impl CpuTopology {
    /// The number of the processor at a level of the topology.
    pub fn level_id(&self, kind: TopologyLevelKind) -> (id: Option<u32>)
        ensures
            id == id_at(self.levels@, kind),
    {
        let mut i: usize = 0;
        assert(self.levels@.skip(0) =~= self.levels@);
        while i < self.levels.len()
            invariant
                i <= self.levels@.len(),
                id_at(self.levels@, kind) == id_at(self.levels@.skip(i as int), kind),
            decreases self.levels@.len() - i,
        {
            assert(self.levels@.skip(i as int).drop_first() =~= self.levels@.skip(i + 1));
            if self.levels[i].kind == kind {
                return Some(self.levels[i].id);
            }
            i += 1;
        }
        None
    }
}

/// The scope of units that a die has one set of.
#[derive(Clone, Copy, Debug, PartialEq, Eq, Structural, Hash)]
pub struct UncoreScope {
    pub die_group_id: u32,
    pub die_id: u32,
    pub package_id: u32,
}

impl Key for UncoreScope {
    open spec fn rank(self) -> int {
        (self.die_group_id * 0x1_0000_0000 + self.die_id) * 0x1_0000_0000 + self.package_id
    }

    proof fn rank_injective(a: Self, b: Self) {
    }

    fn precedes(&self, other: &Self) -> (result: bool) {
        if self.die_group_id != other.die_group_id {
            self.die_group_id < other.die_group_id
        } else if self.die_id != other.die_id {
            self.die_id < other.die_id
        } else {
            self.package_id < other.package_id
        }
    }
}

/// The scope of units that a package has one set of.
#[derive(Clone, Copy, Debug, PartialEq, Eq, Structural, Hash)]
pub struct HsxUncoreScope {
    pub package_id: u32,
}

impl Key for HsxUncoreScope {
    open spec fn rank(self) -> int {
        self.package_id as int
    }

    proof fn rank_injective(a: Self, b: Self) {
    }

    fn precedes(&self, other: &Self) -> (result: bool) {
        self.package_id < other.package_id
    }
}

/// A scope that a processor's place in the topology determines.
pub trait TopologyScope: Key {
    /// The scope; nothing where the topology has no package level.
    spec fn of(levels: Seq<TopologyLevel>) -> Option<Self>;

    /// Finds the scope of a processor.
    fn from_topology(topology: &CpuTopology) -> (scope: Result<Self, CollectorError>)
        ensures
            match scope {
                Ok(scope) => Self::of(topology.levels@) == Some(scope),
                Err(error) => Self::of(topology.levels@) is None && error
                    == CollectorError::MissingPackageLevel,
            },
    ;
}

/// The scope of a die: a missing die group or die counts as zero, a missing package as an error.
pub open spec fn die_scope(levels: Seq<TopologyLevel>) -> Option<UncoreScope> {
    match id_at(levels, TopologyLevelKind::Package) {
        Some(package_id) => Some(
            UncoreScope {
                die_group_id: or_zero(id_at(levels, TopologyLevelKind::DieGroup)),
                die_id: or_zero(id_at(levels, TopologyLevelKind::Die)),
                package_id,
            },
        ),
        None => None,
    }
}

impl TopologyScope for UncoreScope {
    open spec fn of(levels: Seq<TopologyLevel>) -> Option<Self> {
        die_scope(levels)
    }

    fn from_topology(topology: &CpuTopology) -> (scope: Result<Self, CollectorError>) {
        let die_group_id: u32 = match topology.level_id(TopologyLevelKind::DieGroup) {
            Some(id) => id,
            None => 0,
        };
        let die_id: u32 = match topology.level_id(TopologyLevelKind::Die) {
            Some(id) => id,
            None => 0,
        };
        assert(Self::of(topology.levels@) == die_scope(topology.levels@));
        match topology.level_id(TopologyLevelKind::Package) {
            Some(package_id) => Ok(UncoreScope { die_group_id, die_id, package_id }),
            None => Err(CollectorError::MissingPackageLevel),
        }
    }
}

impl TopologyScope for HsxUncoreScope {
    open spec fn of(levels: Seq<TopologyLevel>) -> Option<Self> {
        match id_at(levels, TopologyLevelKind::Package) {
            Some(package_id) => Some(HsxUncoreScope { package_id }),
            None => None,
        }
    }

    fn from_topology(topology: &CpuTopology) -> (scope: Result<Self, CollectorError>) {
        match topology.level_id(TopologyLevelKind::Package) {
            Some(package_id) => Ok(HsxUncoreScope { package_id }),
            None => Err(CollectorError::MissingPackageLevel),
        }
    }
}

/// The first processor of each scope; nothing where some processor has no scope.
pub open spec fn first_cpus<S: TopologyScope>(topologies: Seq<CpuTopology>) -> Option<Map<S, u32>>
    decreases topologies.len(),
{
    if topologies.len() == 0 {
        Some(Map::empty())
    } else {
        match (first_cpus::<S>(topologies.drop_last()), S::of(topologies.last().levels@)) {
            (Some(before), Some(scope)) => Some(
                if before.contains_key(scope) {
                    before
                } else {
                    before.insert(scope, topologies.last().cpu)
                },
            ),
            _ => None,
        }
    }
}

proof fn lemma_missing_scope_stays<S: TopologyScope>(topologies: Seq<CpuTopology>, n: int)
    requires
        0 <= n <= topologies.len(),
        first_cpus::<S>(topologies.take(n)) is None,
    ensures
        first_cpus::<S>(topologies) is None,
    decreases topologies.len() - n,
{
    if n == topologies.len() {
        assert(topologies.take(n) =~= topologies);
    } else {
        assert(topologies.take(n + 1).drop_last() =~= topologies.take(n));
        lemma_missing_scope_stays::<S>(topologies, n + 1);
    }
}

/// Picks the first processor of each scope, in scope order.
pub fn scope_leaders<S: TopologyScope>(topologies: &Vec<CpuTopology>) -> (leaders: Result<
    OrderedMap<S, u32>,
    CollectorError,
>)
    ensures
        match leaders {
            Ok(map) => map.wf() && first_cpus::<S>(topologies@) == Some(map@),
            Err(error) => first_cpus::<S>(topologies@) is None && error
                == CollectorError::MissingPackageLevel,
        },
{
    let mut leaders: OrderedMap<S, u32> = OrderedMap::new();
    let mut i: usize = 0;
    assert(topologies@.take(0) =~= Seq::<CpuTopology>::empty());
    while i < topologies.len()
        invariant
            i <= topologies@.len(),
            leaders.wf(),
            first_cpus::<S>(topologies@.take(i as int)) == Some(leaders@),
        decreases topologies@.len() - i,
    {
        assert(topologies@.take(i + 1).drop_last() =~= topologies@.take(i as int));
        match S::from_topology(&topologies[i]) {
            Ok(scope) => {
                if leaders.get(&scope).is_none() {
                    leaders.insert(scope, topologies[i].cpu);
                }
            },
            Err(error) => {
                proof {
                    lemma_missing_scope_stays::<S>(topologies@, i + 1);
                }
                return Err(error);
            },
        }
        i += 1;
    }
    assert(topologies@.take(i as int) =~= topologies@);
    Ok(leaders)
}

/// Whether `scopes` lists the scopes that have a first processor, in increasing order.
pub open spec fn lists_scopes<S: TopologyScope>(scopes: Seq<S>, cpus: Map<S, u32>) -> bool {
    &&& forall|i: int, j: int|
        0 <= i < j < scopes.len() ==> (#[trigger] scopes[i]).rank() < (#[trigger] scopes[j]).rank()
    &&& forall|i: int| 0 <= i < scopes.len() ==> cpus.contains_key(#[trigger] scopes[i])
    &&& forall|scope: S| #[trigger] cpus.contains_key(scope) ==> scopes.contains(scope)
}

/// Lists the scopes of the processors in increasing order.
pub fn scopes_in_order<S: TopologyScope>(topologies: &Vec<CpuTopology>) -> (result: Result<
    Vec<S>,
    CollectorError,
>)
    ensures
        match result {
            Ok(scopes) => first_cpus::<S>(topologies@) matches Some(cpus) && lists_scopes(
                scopes@,
                cpus,
            ) && (scopes@.len() == 0 <==> topologies@.len() == 0),
            Err(error) => first_cpus::<S>(topologies@) is None && error
                == CollectorError::MissingPackageLevel,
        },
{
    match scope_leaders::<S>(topologies) {
        Ok(map) => {
            let mut scopes: Vec<S> = Vec::new();
            let mut i: usize = 0;
            while i < map.len()
                invariant
                    map.wf(),
                    i <= map.entries().len(),
                    scopes@.len() == i,
                    forall|k: int| 0 <= k < i ==> (#[trigger] scopes@[k]) == map.entries()[k].0,
                decreases map.entries().len() - i,
            {
                scopes.push(map.key_at(i));
                i += 1;
            }
            proof {
                let entries = map.entries();
                assert forall|k: int| 0 <= k < scopes@.len() implies map@.contains_key(
                    #[trigger] scopes@[k],
                ) by {
                    ordered_map::lemma_entry_at(entries, k);
                }
                assert forall|scope: S| #[trigger] map@.contains_key(scope) implies scopes@.contains(
                    scope,
                ) by {
                    let k = ordered_map::position(entries, scope);
                    assert(ordered_map::occurs(entries, scope));
                    assert(scopes@[k] == scope);
                }
                assert forall|a: int, b: int| 0 <= a < b < scopes@.len() implies (
                #[trigger] scopes@[a]).rank() < (#[trigger] scopes@[b]).rank() by {
                    assert(entries[a].0.rank() < entries[b].0.rank());
                }
                if topologies@.len() > 0 {
                    lemma_scopes_are_listed::<S>(topologies@);
                    let first = S::of(topologies@[0].levels@)->0;
                    assert(map@.contains_key(first));
                    assert(scopes@.contains(first));
                } else if scopes@.len() > 0 {
                    assert(map@.contains_key(scopes@[0]));
                }
            }
            Ok(scopes)
        },
        Err(error) => Err(error),
    }
}

/// A scope and the processor through which its registers are reached.
#[derive(Clone, Copy, Debug)]
pub struct Leader<S> {
    pub cpu: u32,
    pub scope: S,
}

/// The leaders as a list: increasing in scope, one for each scope that occurs, with the first
/// processor of that scope.
pub open spec fn lists_leaders<S: TopologyScope>(
    leaders: Seq<Leader<S>>,
    cpus: Map<S, u32>,
) -> bool {
    &&& forall|i: int, j: int|
        0 <= i < j < leaders.len() ==> (#[trigger] leaders[i]).scope.rank() < (
        #[trigger] leaders[j]).scope.rank()
    &&& forall|i: int|
        0 <= i < leaders.len() ==> cpus.contains_key((#[trigger] leaders[i]).scope)
            && cpus[leaders[i].scope] == leaders[i].cpu
    &&& forall|scope: S| #[trigger]
        cpus.contains_key(scope) ==> exists|i: int|
            0 <= i < leaders.len() && (#[trigger] leaders[i]).scope == scope
}

/// Picks the first processor of each scope, in scope order.
pub fn leaders_in_order<S: TopologyScope>(topologies: &Vec<CpuTopology>) -> (result: Result<
    Vec<Leader<S>>,
    CollectorError,
>)
    ensures
        match result {
            Ok(leaders) => first_cpus::<S>(topologies@) matches Some(cpus) && lists_leaders(
                leaders@,
                cpus,
            ) && (leaders@.len() == 0 <==> topologies@.len() == 0),
            Err(error) => first_cpus::<S>(topologies@) is None && error
                == CollectorError::MissingPackageLevel,
        },
{
    match scope_leaders::<S>(topologies) {
        Ok(map) => {
            let mut leaders: Vec<Leader<S>> = Vec::new();
            let mut i: usize = 0;
            while i < map.len()
                invariant
                    map.wf(),
                    i <= map.entries().len(),
                    leaders@.len() == i,
                    forall|k: int|
                        0 <= k < i ==> (#[trigger] leaders@[k]) == (Leader {
                            cpu: map.entries()[k].1,
                            scope: map.entries()[k].0,
                        }),
                decreases map.entries().len() - i,
            {
                leaders.push(Leader { cpu: *map.value_at(i), scope: map.key_at(i) });
                i += 1;
            }
            proof {
                let entries = map.entries();
                assert forall|k: int| 0 <= k < leaders@.len() implies map@.contains_key(
                    (#[trigger] leaders@[k]).scope,
                ) && map@[leaders@[k].scope] == leaders@[k].cpu by {
                    ordered_map::lemma_entry_at(entries, k);
                }
                assert forall|scope: S| #[trigger]
                    map@.contains_key(scope) implies exists|k: int|
                    0 <= k < leaders@.len() && (#[trigger] leaders@[k]).scope == scope by {
                    let k = ordered_map::position(entries, scope);
                    assert(ordered_map::occurs(entries, scope));
                    assert(leaders@[k].scope == scope);
                }
                assert forall|a: int, b: int| 0 <= a < b < leaders@.len() implies (
                #[trigger] leaders@[a]).scope.rank() < (#[trigger] leaders@[b]).scope.rank() by {
                    assert(entries[a].0.rank() < entries[b].0.rank());
                }
                if topologies@.len() > 0 {
                    lemma_scopes_are_listed::<S>(topologies@);
                    let first = S::of(topologies@[0].levels@)->0;
                    assert(map@.contains_key(first));
                } else if leaders@.len() > 0 {
                    assert(map@.contains_key(leaders@[0].scope));
                }
            }
            Ok(leaders)
        },
        Err(error) => Err(error),
    }
}

proof fn lemma_same_prefix<S: TopologyScope>(
    a: Seq<Leader<S>>,
    b: Seq<Leader<S>>,
    cpus: Map<S, u32>,
    n: int,
)
    requires
        lists_leaders(a, cpus),
        lists_leaders(b, cpus),
        0 <= n <= a.len(),
    ensures
        n <= b.len(),
        forall|i: int| 0 <= i < n ==> (#[trigger] a[i]) == b[i],
    decreases n,
{
    if n > 0 {
        let last = n - 1;
        lemma_same_prefix(a, b, cpus, last);
        assert(cpus.contains_key(a[last].scope));
        let j = choose|j: int| 0 <= j < b.len() && (#[trigger] b[j]).scope == a[last].scope;
        if j < last {
            assert(a[j] == b[j]);
            assert(a[j].scope.rank() < a[last].scope.rank());
        }
        assert(last < b.len());
        assert(cpus.contains_key(b[last].scope));
        let k = choose|k: int| 0 <= k < a.len() && (#[trigger] a[k]).scope == b[last].scope;
        if k < last {
            assert(a[k] == b[k]);
            assert(b[k].scope.rank() < b[last].scope.rank());
        }
        if last < j {
            assert(b[last].scope.rank() < b[j].scope.rank());
            if last < k {
                assert(a[last].scope.rank() < a[k].scope.rank());
            }
        }
        assert(j == last);
    }
}

/// There is one list of leaders: two lists of the same scopes are the same.
pub proof fn leaders_are_determined<S: TopologyScope>(
    a: Seq<Leader<S>>,
    b: Seq<Leader<S>>,
    cpus: Map<S, u32>,
)
    requires
        lists_leaders(a, cpus),
        lists_leaders(b, cpus),
    ensures
        a == b,
{
    lemma_same_prefix(a, b, cpus, a.len() as int);
    lemma_same_prefix(b, a, cpus, b.len() as int);
    assert(a =~= b);
}

/// There is one list of scopes: two lists of the same scopes are the same.
pub proof fn scopes_are_determined<S: TopologyScope>(a: Seq<S>, b: Seq<S>, cpus: Map<S, u32>)
    requires
        lists_scopes(a, cpus),
        lists_scopes(b, cpus),
    ensures
        a == b,
{
    let with_cpu = |scope: S| Leader { cpu: cpus[scope], scope };
    let x = a.map_values(with_cpu);
    let y = b.map_values(with_cpu);
    assert(lists_leaders(x, cpus)) by {
        assert forall|i: int, j: int| 0 <= i < j < x.len() implies (#[trigger] x[i]).scope.rank() < (
        #[trigger] x[j]).scope.rank() by {
            assert(a[i].rank() < a[j].rank());
        }
        assert forall|scope: S| #[trigger] cpus.contains_key(scope) implies exists|i: int|
            0 <= i < x.len() && (#[trigger] x[i]).scope == scope by {
            let i = a.index_of(scope);
            assert(a.contains(scope));
            assert(x[i].scope == scope);
        }
    }
    assert(lists_leaders(y, cpus)) by {
        assert forall|i: int, j: int| 0 <= i < j < y.len() implies (#[trigger] y[i]).scope.rank() < (
        #[trigger] y[j]).scope.rank() by {
            assert(b[i].rank() < b[j].rank());
        }
        assert forall|scope: S| #[trigger] cpus.contains_key(scope) implies exists|i: int|
            0 <= i < y.len() && (#[trigger] y[i]).scope == scope by {
            let i = b.index_of(scope);
            assert(b.contains(scope));
            assert(y[i].scope == scope);
        }
    }
    leaders_are_determined(x, y, cpus);
    assert forall|i: int| 0 <= i < a.len() implies a[i] == b[i] by {
        assert(x[i].scope == a[i]);
        assert(y[i].scope == b[i]);
    }
    assert(a.len() == x.len() && b.len() == y.len());
    assert(a =~= b);
}

/// A scope is listed with the processor that comes first among those of the scope: no earlier
/// processor has the same scope.
pub proof fn leader_is_first<S: TopologyScope>(topologies: Seq<CpuTopology>, scope: S) -> (first:
    int)
    requires
        first_cpus::<S>(topologies) is Some,
        first_cpus::<S>(topologies)->0.contains_key(scope),
    ensures
        0 <= first < topologies.len(),
        S::of(topologies[first].levels@) == Some(scope),
        first_cpus::<S>(topologies)->0[scope] == topologies[first].cpu,
        forall|i: int|
            0 <= i < first ==> S::of((#[trigger] topologies[i]).levels@) != Some(scope),
    decreases topologies.len(),
{
    let front = topologies.drop_last();
    let before = first_cpus::<S>(front)->0;
    if before.contains_key(scope) {
        let first = leader_is_first::<S>(front, scope);
        assert(front[first] == topologies[first]);
        assert forall|i: int| 0 <= i < first implies S::of((#[trigger] topologies[i]).levels@)
            != Some(scope) by {
            assert(front[i] == topologies[i]);
        }
        first
    } else {
        lemma_scopes_are_listed::<S>(front);
        assert forall|i: int| 0 <= i < front.len() implies S::of(
            (#[trigger] topologies[i]).levels@,
        ) != Some(scope) by {
            assert(front[i] == topologies[i]);
        }
        front.len() as int
    }
}

/// Every processor's scope has a leader.
pub proof fn lemma_scopes_are_listed<S: TopologyScope>(topologies: Seq<CpuTopology>)
    requires
        first_cpus::<S>(topologies) is Some,
    ensures
        forall|i: int|
            0 <= i < topologies.len() ==> match S::of((#[trigger] topologies[i]).levels@) {
                Some(scope) => first_cpus::<S>(topologies)->0.contains_key(scope),
                None => false,
            },
    decreases topologies.len(),
{
    if topologies.len() > 0 {
        let front = topologies.drop_last();
        lemma_scopes_are_listed::<S>(front);
        assert forall|i: int| 0 <= i < topologies.len() implies match S::of(
            (#[trigger] topologies[i]).levels@,
        ) {
            Some(scope) => first_cpus::<S>(topologies)->0.contains_key(scope),
            None => false,
        } by {
            if i < front.len() {
                assert(front[i] == topologies[i]);
            }
        }
    }
}

} // verus!
