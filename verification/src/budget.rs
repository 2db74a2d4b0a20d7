//! The cross-component budget arbiter: per-component usage reports
//! aggregated into a pipeline-wide memory mode, and an advisory reclaim
//! order under pressure.

use vstd::prelude::*;
use vstd::seq_lib::group_to_multiset_ensures;

verus! {

broadcast use group_to_multiset_ensures;

/// Percentage of the budget up to which the pipeline mode stays normal.
pub const MODE_NORMAL_LIMIT_PERCENT: u64 = 80;

/// Percentage of the budget up to which the pipeline mode stays elevated;
/// beyond it the mode is critical.
pub const MODE_ELEVATED_LIMIT_PERCENT: u64 = 120;

/// The pipeline-wide classification of aggregated usage against the budget.
#[derive(Clone, Copy, Debug, PartialEq, Eq, Structural)]
pub enum MemoryMode {
    Normal,
    Elevated,
    Critical,
}

/// The mode a used total maps to against a budget: normal while the used
/// megabytes stay within the normal limit of the budget, elevated while they
/// stay within the elevated limit, critical beyond it.
pub open spec fn mode_of(budget_mb: int, used_mb: int) -> MemoryMode {
    if used_mb * 100 <= budget_mb * (MODE_NORMAL_LIMIT_PERCENT as int) {
        MemoryMode::Normal
    } else if used_mb * 100 <= budget_mb * (MODE_ELEVATED_LIMIT_PERCENT as int) {
        MemoryMode::Elevated
    } else {
        MemoryMode::Critical
    }
}

/// One component's reported budget line: its name, its allocated and used
/// megabytes, and its priority — lower values are reclaimed first under
/// pressure.
#[derive(Debug)]
pub struct ComponentBudget {
    pub name: String,
    pub allocated_mb: u64,
    pub used_mb: u64,
    pub priority: u32,
}

impl Clone for ComponentBudget {
    fn clone(&self) -> (res: Self)
        ensures
            res == *self,
    {
        ComponentBudget {
            name: self.name.clone(),
            allocated_mb: self.allocated_mb,
            used_mb: self.used_mb,
            priority: self.priority,
        }
    }
}

/// The utilization a pair of megabyte counts maps to, in whole percent:
/// zero where nothing is allocated.
pub open spec fn spec_utilization_percent(allocated_mb: int, used_mb: int) -> int {
    if allocated_mb == 0 {
        0
    } else {
        used_mb * 100 / allocated_mb
    }
}

impl ComponentBudget {
    /// The component's utilization, in whole percent.
    pub fn utilization_percent(&self) -> (r: u64)
        requires
            self.used_mb * 100 <= u64::MAX,
        ensures
            r == spec_utilization_percent(self.allocated_mb as int, self.used_mb as int),
    {
        if self.allocated_mb == 0 {
            0
        } else {
            (self.used_mb * 100) / self.allocated_mb
        }
    }
}

/// The pipeline-wide snapshot: the budget, the aggregated totals, the mode
/// they map to, and every component's budget line.
#[derive(Debug)]
pub struct PipelineMemoryStatus {
    pub total_budget_mb: u64,
    pub total_allocated_mb: u64,
    pub total_used_mb: u64,
    pub mode: MemoryMode,
    pub components: Vec<ComponentBudget>,
}

/// The allocated megabytes of a component run, summed.
pub open spec fn sum_allocated(s: Seq<ComponentBudget>) -> int
    decreases s.len(),
{
    if s.len() == 0 {
        0
    } else {
        s[0].allocated_mb + sum_allocated(s.drop_first())
    }
}

/// The used megabytes of a component run, summed.
pub open spec fn sum_used(s: Seq<ComponentBudget>) -> int
    decreases s.len(),
{
    if s.len() == 0 {
        0
    } else {
        s[0].used_mb + sum_used(s.drop_first())
    }
}

/// The position of the component of the given name, scanning from `i`;
/// negative where none bears it.
pub open spec fn find_from(s: Seq<ComponentBudget>, name: Seq<char>, i: int) -> int
    decreases s.len() - i,
{
    if i < 0 || i >= s.len() {
        -1
    } else if s[i].name@ == name {
        i
    } else {
        find_from(s, name, i + 1)
    }
}

/// The position of the component of the given name; negative where none
/// bears it.
pub open spec fn find_component(s: Seq<ComponentBudget>, name: Seq<char>) -> int {
    find_from(s, name, 0)
}

/// The allocated megabytes the named component reports, or zero where none
/// bears the name.
pub open spec fn allocated_of(s: Seq<ComponentBudget>, name: Seq<char>) -> int {
    if find_component(s, name) >= 0 {
        s[find_component(s, name)].allocated_mb as int
    } else {
        0
    }
}

/// The used megabytes the named component reports, or zero where none bears
/// the name.
pub open spec fn used_of(s: Seq<ComponentBudget>, name: Seq<char>) -> int {
    if find_component(s, name) >= 0 {
        s[find_component(s, name)].used_mb as int
    } else {
        0
    }
}

proof fn lemma_find_from_props(s: Seq<ComponentBudget>, name: Seq<char>, k: int)
    requires
        0 <= k <= s.len(),
    ensures
        find_from(s, name, k) >= 0 ==> k <= find_from(s, name, k) < s.len() && s[find_from(
            s,
            name,
            k,
        )].name@ == name,
        find_from(s, name, k) < 0 ==> forall|j: int| k <= j < s.len() ==> s[j].name@ != name,
        forall|j: int| k <= j < find_from(s, name, k) ==> s[j].name@ != name,
    decreases s.len() - k,
{
    if k < s.len() && s[k].name@ != name {
        lemma_find_from_props(s, name, k + 1);
    }
}

/// Where the name stands in the run, that position bears it and no earlier
/// one does; where it is reported absent, no position bears it.
pub proof fn lemma_find_component(s: Seq<ComponentBudget>, name: Seq<char>)
    ensures
        find_component(s, name) >= 0 ==> find_component(s, name) < s.len() && s[find_component(
            s,
            name,
        )].name@ == name,
        find_component(s, name) < 0 ==> forall|j: int| 0 <= j < s.len() ==> s[j].name@ != name,
        forall|j: int| 0 <= j < find_component(s, name) ==> s[j].name@ != name,
{
    lemma_find_from_props(s, name, 0);
}

/// The sums over component lines are never negative.
pub proof fn lemma_sums_nonneg(s: Seq<ComponentBudget>)
    ensures
        sum_allocated(s) >= 0,
        sum_used(s) >= 0,
    decreases s.len(),
{
    if s.len() > 0 {
        lemma_sums_nonneg(s.drop_first());
    }
}

/// Each line's megabytes are within the sums over all lines.
pub proof fn lemma_sum_at(s: Seq<ComponentBudget>, i: int)
    requires
        0 <= i < s.len(),
    ensures
        sum_allocated(s) >= s[i].allocated_mb,
        sum_used(s) >= s[i].used_mb,
    decreases i,
{
    lemma_sums_nonneg(s.drop_first());
    if i == 0 {
    } else {
        lemma_sum_at(s.drop_first(), i - 1);
        assert(sum_allocated(s) == s[0].allocated_mb + sum_allocated(s.drop_first()));
    }
}

/// Replacing one line moves the sums by exactly the difference it carries.
pub proof fn lemma_sum_update(s: Seq<ComponentBudget>, i: int, c: ComponentBudget)
    requires
        0 <= i < s.len(),
    ensures
        sum_allocated(s.update(i, c)) == sum_allocated(s) - s[i].allocated_mb + c.allocated_mb,
        sum_used(s.update(i, c)) == sum_used(s) - s[i].used_mb + c.used_mb,
    decreases i,
{
    if i == 0 {
        assert(s.update(0, c).drop_first() =~= s.drop_first());
    } else {
        assert(s.update(i, c).drop_first() =~= s.drop_first().update(i - 1, c));
        lemma_sum_update(s.drop_first(), i - 1, c);
    }
}

/// Appending a line adds exactly its megabytes to the sums.
pub proof fn lemma_sum_push(s: Seq<ComponentBudget>, c: ComponentBudget)
    ensures
        sum_allocated(s.push(c)) == sum_allocated(s) + c.allocated_mb,
        sum_used(s.push(c)) == sum_used(s) + c.used_mb,
    decreases s.len(),
{
    if s.len() == 0 {
        assert(s.push(c)[0] == c);
        assert(s.push(c).drop_first() =~= Seq::<ComponentBudget>::empty());
        assert(sum_allocated(Seq::<ComponentBudget>::empty()) == 0);
        assert(sum_used(Seq::<ComponentBudget>::empty()) == 0);
    } else {
        assert(s.push(c)[0] == s[0]);
        assert(s.push(c).drop_first() =~= s.drop_first().push(c));
        lemma_sum_push(s.drop_first(), c);
    }
}

/// The budget arbiter: a total budget, one budget line per component, and
/// the running totals over those lines.
pub struct BudgetArbiter {
    total_budget_mb: u64,
    components: Vec<ComponentBudget>,
    total_allocated_mb: u64,
    total_used_mb: u64,
}

impl BudgetArbiter {
    /// The budget the pipeline was given.
    pub closed spec fn spec_budget(&self) -> u64 {
        self.total_budget_mb
    }

    /// The component budget lines, as the model the contracts speak over.
    pub closed spec fn spec_components(&self) -> Seq<ComponentBudget> {
        self.components@
    }

    /// The arbiter's invariant: the running totals agree with the component
    /// lines, and no two lines bear the same name.
    pub open spec fn wf(&self) -> bool {
        &&& self.spec_total_allocated() == sum_allocated(self.spec_components())
        &&& self.spec_total_used() == sum_used(self.spec_components())
        &&& forall|i: int, j: int|
            0 <= i < j < self.spec_components().len() ==> self.spec_components()[i].name@
                != self.spec_components()[j].name@
    }

    /// The aggregated allocated megabytes.
    pub closed spec fn spec_total_allocated(&self) -> int {
        self.total_allocated_mb as int
    }

    /// The aggregated used megabytes.
    pub closed spec fn spec_total_used(&self) -> int {
        self.total_used_mb as int
    }

    /// An arbiter over the given total budget, with no components yet.
    pub fn new(total_budget_mb: u64) -> (r: Self)
        ensures
            r.wf(),
            r.spec_budget() == total_budget_mb,
            r.spec_components() == Seq::<ComponentBudget>::empty(),
    {
        BudgetArbiter {
            total_budget_mb,
            components: Vec::new(),
            total_allocated_mb: 0,
            total_used_mb: 0,
        }
    }

    /// Refresh one component's budget line, replacing the line of the same
    /// name or appending a new one.
    pub fn update_component(&mut self, name: String, allocated_mb: u64, used_mb: u64, priority: u32)
        requires
            old(self).wf(),
            sum_allocated(old(self).spec_components()) - allocated_of(
                old(self).spec_components(),
                name@,
            ) + allocated_mb <= u64::MAX,
            sum_used(old(self).spec_components()) - used_of(old(self).spec_components(), name@)
                + used_mb <= u64::MAX,
        ensures
            final(self).wf(),
            final(self).spec_budget() == old(self).spec_budget(),
            ({
                let s0 = old(self).spec_components();
                let f = find_component(s0, name@);
                let line = (ComponentBudget { name, allocated_mb, used_mb, priority });
                if f >= 0 {
                    final(self).spec_components() == s0.update(f, line)
                } else {
                    final(self).spec_components() == s0.push(line)
                }
            }),
    {
        proof {
            lemma_find_component(old(self).spec_components(), name@);
        }
        match index_of(&self.components, &name) {
            Some(i) => {
                let ghost s0 = self.components@;
                let old_alloc = self.components[i].allocated_mb;
                let old_used = self.components[i].used_mb;
                proof {
                    lemma_sum_at(s0, i as int);
                    lemma_sums_nonneg(s0);
                }
                self.total_allocated_mb = (self.total_allocated_mb - old_alloc) + allocated_mb;
                self.total_used_mb = (self.total_used_mb - old_used) + used_mb;
                let line = ComponentBudget { name, allocated_mb, used_mb, priority };
                self.components[i] = line;
                proof {
                    lemma_sum_update(s0, i as int, self.components@[i as int]);
                }
            },
            None => {
                let ghost s0 = self.components@;
                self.total_allocated_mb = self.total_allocated_mb + allocated_mb;
                self.total_used_mb = self.total_used_mb + used_mb;
                let line = ComponentBudget { name, allocated_mb, used_mb, priority };
                self.components.push(line);
                proof {
                    lemma_sum_push(s0, self.components@[s0.len() as int]);
                    lemma_sums_nonneg(s0);
                }
            },
        }
    }

    /// The pipeline-wide status: the budget, the totals summed over the
    /// component lines, the mode those totals map to, and a copy of every
    /// line.
    pub fn status(&self) -> (r: PipelineMemoryStatus)
        requires
            self.wf(),
        ensures
            r.total_budget_mb == self.spec_budget(),
            r.total_allocated_mb == sum_allocated(self.spec_components()),
            r.total_used_mb == sum_used(self.spec_components()),
            r.mode == mode_of(self.spec_budget() as int, sum_used(self.spec_components())),
            r.components@ == self.spec_components(),
    {
        let components = clone_components(&self.components);
        let used = self.total_used_mb as u128 * 100;
        let normal_limit = self.total_budget_mb as u128 * (MODE_NORMAL_LIMIT_PERCENT as u128);
        let elevated_limit = self.total_budget_mb as u128 * (MODE_ELEVATED_LIMIT_PERCENT as u128);
        let mode = if used <= normal_limit {
            MemoryMode::Normal
        } else if used <= elevated_limit {
            MemoryMode::Elevated
        } else {
            MemoryMode::Critical
        };
        PipelineMemoryStatus {
            total_budget_mb: self.total_budget_mb,
            total_allocated_mb: self.total_allocated_mb,
            total_used_mb: self.total_used_mb,
            mode,
            components,
        }
    }

    /// The advisory reclaim order: every component line, sorted by ascending
    /// priority — the first candidates a caller should shrink when the mode
    /// escalates. The arbiter itself reclaims nothing.
    pub fn reclaim_order(&self) -> (r: Vec<ComponentBudget>)
        ensures
            r@.len() == self.spec_components().len(),
            r@.to_multiset() == self.spec_components().to_multiset(),
            forall|i: int, j: int|
                0 <= i < j < r@.len() ==> r@[i].priority <= r@[j].priority,
    {
        let mut rest = clone_components(&self.components);
        let mut out: Vec<ComponentBudget> = Vec::new();
        proof {
            assert(out@.to_multiset().add(rest@.to_multiset()) =~= self.spec_components()
                .to_multiset());
        }
        while rest.len() > 0
            invariant
                out@.len() + rest@.len() == self.spec_components().len(),
                out@.to_multiset().add(rest@.to_multiset()) == self.spec_components().to_multiset(),
                forall|i: int, j: int|
                    0 <= i < j < out@.len() ==> out@[i].priority <= out@[j].priority,
                forall|i: int, j: int|
                    0 <= i < out@.len() && 0 <= j < rest@.len() ==> out@[i].priority
                        <= rest@[j].priority,
            decreases rest@.len(),
        {
            let m = min_priority_index(&rest);
            let ghost rest0 = rest@;
            let picked = rest.remove(m);
            proof {
                assert(rest0.remove(m as int).to_multiset() =~= rest0.to_multiset().remove(
                    rest0[m as int],
                ));
                assert(out@.push(picked).to_multiset() =~= out@.to_multiset().insert(picked));
                assert(out@.push(picked).to_multiset().add(rest@.to_multiset())
                    =~= self.spec_components().to_multiset());
            }
            out.push(picked);
        }
        proof {
            assert(out@.to_multiset().add(rest@.to_multiset()) =~= out@.to_multiset());
            assert(out@.len() == out@.to_multiset().len());
            assert(self.spec_components().len() == self.spec_components().to_multiset().len());
        }
        out
    }
}

/// The position of the component of the given name, at run time.
fn index_of(components: &Vec<ComponentBudget>, name: &String) -> (r: Option<usize>)
    ensures
        ({
            let f = find_component(components@, name@);
            match r {
                Some(i) => f == i,
                None => f < 0,
            }
        }),
{
    let n = components.len();
    let mut i: usize = 0;
    while i < n
        invariant
            n == components@.len(),
            i <= n,
            find_component(components@, name@) == find_from(components@, name@, i as int),
        decreases n - i,
    {
        if components[i].name == *name {
            assert(find_from(components@, name@, i as int) == i);
            return Some(i);
        }
        assert(find_from(components@, name@, i as int) == find_from(
            components@,
            name@,
            i as int + 1,
        ));
        i = i + 1;
    }
    None
}

/// The position of a line of minimal priority.
fn min_priority_index(components: &Vec<ComponentBudget>) -> (r: usize)
    requires
        components@.len() > 0,
    ensures
        r < components@.len(),
        forall|j: int|
            0 <= j < components@.len() ==> components@[r as int].priority
                <= components@[j].priority,
{
    let n = components.len();
    let mut m: usize = 0;
    let mut j: usize = 1;
    while j < n
        invariant
            n == components@.len(),
            m < j <= n,
            forall|k: int|
                0 <= k < j ==> components@[m as int].priority <= components@[k].priority,
        decreases n - j,
    {
        if components[j].priority < components[m].priority {
            m = j;
        }
        j = j + 1;
    }
    m
}

/// A copy of every component line.
fn clone_components(components: &Vec<ComponentBudget>) -> (r: Vec<ComponentBudget>)
    ensures
        r@ == components@,
{
    let r = components.clone();
    proof {
        assert forall|i: int| 0 <= i < components@.len() implies r@[i] == components@[i] by {
            assert(cloned(components@[i], r@[i]));
        }
        assert(r@ =~= components@);
    }
    r
}

} // verus!
