//! Descriptor-set pool batching.
//!
//! Descriptor pools cannot be resized in place and the number of sets the
//! application will need (one per texture per in-flight frame) is unknown at
//! startup, so sets are allocated in fixed-size batches: when the spare sets
//! of the newest pool run out, exactly one new pool sized for a full batch
//! is created. Sets are named by ids that the surrounding layer maps to the
//! GPU objects it allocates when told a new pool is due; an id handed out
//! once is never handed out again. Pools are only ever torn down together.
use vstd::prelude::*;

verus! {

use crate::EngineError;
use vstd::arithmetic::div_mod::lemma_div_multiples_vanish_fancy;
use vstd::arithmetic::mul::lemma_mul_inequality;

/// Sets allocated per pool; the template counts are scaled by this factor.
pub const SETS_PER_POOL: u64 = 15;

/// Pools that can be created before the id space is exhausted.
pub const MAX_POOLS: u64 = u64::MAX / SETS_PER_POOL;

/// What a descriptor of the template binds.
#[derive(Copy, Clone, Debug, PartialEq, Eq, Structural)]
pub enum DescriptorKind {
    /// A uniform buffer binding (camera or time data)
    UniformBuffer,
    /// A combined image-and-sampler binding (a texture)
    CombinedImageSampler,
}

/// One entry of the pool size template: so many descriptors of that kind
/// per set.
#[derive(Copy, Clone, Debug, PartialEq, Eq, Structural)]
pub struct PoolSize {
    pub kind: DescriptorKind,
    pub count: u32,
}

/// The allocator's mathematical state: how many pools exist and which set
/// ids of the newest batch are still spare.
pub struct DescAllocState {
    pub n_pools: int,
    pub spare: Seq<u64>,
}

/// Grows fixed-size pools of descriptor sets on demand from a size template.
pub struct DescriptorSetAllocator {
    /// Per-set size template, scaled by the batch size at construction
    pub(crate) template: Vec<PoolSize>,
    /// Pools created so far; never shrunk
    pub(crate) n_pools: u64,
    /// Ids of the newest batch not yet handed out, popped from the back
    pub(crate) spare_sets: Vec<u64>,
}

impl DescriptorSetAllocator {
    pub open(crate) spec fn state(self) -> DescAllocState {
        DescAllocState { n_pools: self.n_pools as int, spare: self.spare_sets@ }
    }

    /// The scaled template.
    pub open(crate) spec fn template_spec(self) -> Seq<PoolSize> {
        self.template@
    }

    pub open(crate) spec fn wf(self) -> bool {
        state_wf(self.state())
    }

    /// Build an allocator from a per-set template; the template's counts
    /// are scaled up so one pool can serve a whole batch of sets.
    pub fn new(template: Vec<PoolSize>) -> (r: Self)
        requires
            forall|i: int|
                0 <= i < template@.len()
                    ==> (#[trigger] template@[i]).count * SETS_PER_POOL <= u32::MAX,
        ensures
            r.wf(),
            r.state().n_pools == 0,
            r.state().spare.len() == 0,
            r.template_spec().len() == template@.len(),
            forall|i: int|
                0 <= i < template@.len() ==> (#[trigger] r.template_spec()[i]).kind
                    == template@[i].kind && r.template_spec()[i].count == template@[i].count
                    * SETS_PER_POOL,
    {
        let mut scaled: Vec<PoolSize> = Vec::new();
        let mut i: usize = 0;
        while i < template.len()
            invariant
                i <= template@.len(),
                scaled@.len() == i,
                forall|k: int|
                    0 <= k < template@.len()
                        ==> (#[trigger] template@[k]).count * SETS_PER_POOL <= u32::MAX,
                forall|k: int|
                    0 <= k < i ==> (#[trigger] scaled@[k]).kind == template@[k].kind
                        && scaled@[k].count == template@[k].count * SETS_PER_POOL,
            decreases template@.len() - i,
        {
            let entry = template[i];
            let count = entry.count as u64 * SETS_PER_POOL;
            scaled.push(PoolSize { kind: entry.kind, count: count as u32 });
            i = i + 1;
        }
        DescriptorSetAllocator { template: scaled, n_pools: 0, spare_sets: Vec::new() }
    }

    /// Hand out one descriptor set id. The flag says a brand-new pool must
    /// be created for a full batch: that happens exactly when no spare set
    /// was left. Fails only when the id space is exhausted.
    pub fn pop(&mut self) -> (r: Result<(u64, bool), EngineError>)
        requires
            old(self).wf(),
        ensures
            final(self).wf(),
            final(self).template_spec() == old(self).template_spec(),
            r matches Ok((id, fresh_pool)) ==> {
                &&& fresh_pool == (old(self).state().spare.len() == 0)
                &&& final(self).state() == spec_pop(old(self).state()).0
                &&& id == spec_pop(old(self).state()).1
                &&& !issued(old(self).state()).contains(id)
                &&& issued(final(self).state()) == issued(old(self).state()).insert(id)
            },
            r is Err <==> old(self).state().spare.len() == 0 && old(self).state().n_pools
                == MAX_POOLS,
            r is Err ==> r == Err::<(u64, bool), EngineError>(EngineError::Overflow),
            r is Err ==> final(self).state() == old(self).state(),
    {
        let ghost pre = self.state();
        match self.spare_sets.pop() {
            Some(id) => {
                proof {
                    assert(issued(final(self).state()) =~= issued(pre).insert(id));
                }
                Ok((id, false))
            }
            None => {
                if self.n_pools == MAX_POOLS {
                    return Err(EngineError::Overflow);
                }
                let base = self.n_pools * SETS_PER_POOL;
                proof {
                    lemma_pool_base_in_range(self.n_pools as int);
                }
                let mut k: u64 = 0;
                while k < SETS_PER_POOL
                    invariant
                        k <= SETS_PER_POOL,
                        base + SETS_PER_POOL <= u64::MAX,
                        self.spare_sets@.len() == k,
                        self.n_pools == old(self).n_pools,
                        self.template == old(self).template,
                        forall|j: int|
                            0 <= j < k ==> #[trigger] self.spare_sets@[j] == base + j,
                    decreases SETS_PER_POOL - k,
                {
                    self.spare_sets.push(base + k);
                    k = k + 1;
                }
                self.n_pools = self.n_pools + 1;
                let id = match self.spare_sets.pop() {
                    Some(id) => id,
                    None => {
                        proof {
                            assert(false);
                        }
                        0
                    }
                };
                proof {
                    assert(final(self).state().spare =~= spec_pop(pre).0.spare);
                    assert(issued(final(self).state()) =~= issued(pre).insert(id));
                }
                Ok((id, true))
            }
        }
    }

    /// The scaled pool-size template a new pool must be created with.
    pub fn template(&self) -> (r: &Vec<PoolSize>)
        ensures
            r@ == self.template_spec(),
    {
        &self.template
    }

    /// How many pools exist.
    pub fn pool_count(&self) -> (r: u64)
        ensures
            r == self.state().n_pools,
    {
        self.n_pools
    }

    /// How many sets of the newest batch are still spare.
    pub fn spare_count(&self) -> (r: usize)
        ensures
            r == self.state().spare.len(),
    {
        self.spare_sets.len()
    }
}

/// The state is well-formed: pool count in range, and the spare ids are an
/// initial run of the newest batch, handed out from the back.
pub open(crate) spec fn state_wf(v: DescAllocState) -> bool {
    &&& 0 <= v.n_pools <= MAX_POOLS
    &&& v.spare.len() <= SETS_PER_POOL
    &&& v.n_pools == 0 ==> v.spare.len() == 0
    &&& forall|j: int|
        0 <= j < v.spare.len() ==> #[trigger] v.spare[j] == (v.n_pools - 1) * SETS_PER_POOL + j
}

/// Ids already handed out: everything below the batch boundary that is not
/// still spare.
pub open(crate) spec fn issued(v: DescAllocState) -> Set<u64> {
    Set::new(
        |id: u64|
            id < v.n_pools * SETS_PER_POOL && !((v.n_pools - 1) * SETS_PER_POOL <= id
                < (v.n_pools - 1) * SETS_PER_POOL + v.spare.len()),
    )
}

/// One pop, on the mathematical state: take the last spare id, or open a
/// new batch first and take its last id.
pub open(crate) spec fn spec_pop(v: DescAllocState) -> (DescAllocState, u64) {
    if v.spare.len() == 0 {
        let base = v.n_pools * SETS_PER_POOL;
        (
            DescAllocState {
                n_pools: v.n_pools + 1,
                spare: Seq::new((SETS_PER_POOL - 1) as nat, |j: int| (base + j) as u64),
            },
            (base + SETS_PER_POOL - 1) as u64,
        )
    } else {
        (DescAllocState { n_pools: v.n_pools, spare: v.spare.drop_last() }, v.spare.last())
    }
}

/// The state after `k` pops from a fresh allocator.
pub open(crate) spec fn spec_pops(k: nat) -> DescAllocState
    decreases k,
{
    if k == 0 {
        DescAllocState { n_pools: 0, spare: Seq::empty() }
    } else {
        spec_pop(spec_pops((k - 1) as nat)).0
    }
}

/// `n_pools * SETS_PER_POOL` stays below the id space while `n_pools` is in
/// range.
proof fn lemma_pool_base_in_range(n_pools: int)
    requires
        0 <= n_pools < MAX_POOLS,
    ensures
        n_pools * SETS_PER_POOL + SETS_PER_POOL <= u64::MAX,
{
    assert(n_pools * SETS_PER_POOL + SETS_PER_POOL <= u64::MAX) by (nonlinear_arith)
        requires
            0 <= n_pools < MAX_POOLS,
            MAX_POOLS == u64::MAX / SETS_PER_POOL,
            SETS_PER_POOL == 15,
    ;
}

/// Popping more sets than one batch holds triggers exactly one new pool
/// allocation per exhausted batch: after `k` pops from a fresh allocator
/// there are exactly `ceil(k / SETS_PER_POOL)` pools, and the spare count
/// accounts for every id not handed out.
pub proof fn lemma_one_pool_per_exhausted_batch(k: nat)
    requires
        k <= MAX_POOLS * SETS_PER_POOL,
    ensures
        spec_pops(k).n_pools == (k + SETS_PER_POOL - 1) / (SETS_PER_POOL as int),
        spec_pops(k).n_pools * SETS_PER_POOL - k == spec_pops(k).spare.len(),
        state_wf(spec_pops(k)),
    decreases k,
{
    let b = SETS_PER_POOL as int;
    if k == 0 {
    } else {
        lemma_one_pool_per_exhausted_batch((k - 1) as nat);
        let prev = spec_pops((k - 1) as nat);
        assert(spec_pops(k) == spec_pop(prev).0);
        if prev.spare.len() == 0 {
            assert(prev.n_pools * b == k - 1);
            assert(prev.n_pools < MAX_POOLS) by {
                if prev.n_pools >= MAX_POOLS {
                    lemma_mul_inequality(MAX_POOLS as int, prev.n_pools, b);
                }
            }
            assert(k + b - 1 == b * (prev.n_pools + 1));
            assert((b * (prev.n_pools + 1) + 0) / b == prev.n_pools + 1) by {
                lemma_div_multiples_vanish_fancy(prev.n_pools + 1, 0, b);
            }
        } else {
            let s = prev.spare.len() as int;
            assert(k + b - 1 == b * prev.n_pools + (b - s));
            assert((b * prev.n_pools + (b - s)) / b == prev.n_pools) by {
                lemma_div_multiples_vanish_fancy(prev.n_pools, b - s, b);
            }
            assert(k - 1 + b - 1 == b * (prev.n_pools - 1) + (b - 1 + b - s)) by {
                assert(b * prev.n_pools == b * (prev.n_pools - 1) + b);
            }
        }
    }
}

/// Every set handed out is distinct: a pop never returns an id that was
/// already issued, and afterwards that id counts as issued.
pub proof fn lemma_popped_set_fresh(v: DescAllocState)
    requires
        state_wf(v),
        v.spare.len() == 0 ==> v.n_pools < MAX_POOLS,
    ensures
        !issued(v).contains(spec_pop(v).1),
        issued(spec_pop(v).0) =~= issued(v).insert(spec_pop(v).1),
        state_wf(spec_pop(v).0),
{
}

/// How many more sets can ever be handed out from this state.
pub open(crate) spec fn desc_sets_available(v: DescAllocState) -> int {
    v.spare.len() + (MAX_POOLS - v.n_pools) * SETS_PER_POOL
}

/// The state after `n` further pops.
pub open(crate) spec fn after_pops(v: DescAllocState, n: nat) -> DescAllocState
    decreases n,
{
    if n == 0 {
        v
    } else {
        after_pops(spec_pop(v).0, (n - 1) as nat)
    }
}

/// The ids the next `n` pops hand out, in order.
pub open(crate) spec fn ids_of_pops(v: DescAllocState, n: nat) -> Seq<u64>
    decreases n,
{
    if n == 0 {
        Seq::empty()
    } else {
        seq![spec_pop(v).1] + ids_of_pops(spec_pop(v).0, (n - 1) as nat)
    }
}

} // verus!
