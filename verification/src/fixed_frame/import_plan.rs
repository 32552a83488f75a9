//! The buffer imports of one packet graph.
//!
//! Draws that reference the same immutable snapshot generation share one
//! imported position/index pair, declared at the generation's first draw;
//! every draw imports its own uniform. One issuer allocates every packet
//! identity in declaration order: a new pair's position and index, then the
//! draw's uniform.

use vstd::hash_map::HashMapWithView;
use vstd::prelude::*;

use crate::fixed_frame::ids::BufferBindingId;
use crate::fixed_frame::packet::{issue_next, PacketIdError, PacketIdIssuer, FIRST_PACKET_BUFFER_ID};
use crate::fixed_frame::provider::{distinct_bindings, packet_entries, PacketSnapshotImport};

verus! {

/// Draw `i` is the first draw of its snapshot generation.
pub open spec fn first_use(generations: Seq<u64>, i: int) -> bool {
    forall|j: int| 0 <= j < i ==> generations[j] != generations[i]
}

/// The identities issued for the draws before `i`: a position and an index
/// identity at each generation's first draw, and one uniform per draw.
pub open spec fn identities_before(generations: Seq<u64>, i: int) -> nat
    decreases i,
{
    if i <= 0 {
        0
    } else {
        identities_before(generations, i - 1) + if first_use(generations, i - 1) {
            3nat
        } else {
            1nat
        }
    }
}

/// The distinct generations among the draws before `i`.
pub open spec fn imports_before(generations: Seq<u64>, i: int) -> nat
    decreases i,
{
    if i <= 0 {
        0
    } else {
        imports_before(generations, i - 1) + if first_use(generations, i - 1) {
            1nat
        } else {
            0nat
        }
    }
}

/// `snapshots`, `draw_snapshots` and `uniform_bindings` are the imports of
/// the first `count` draws of generations `generations`.
#[verifier::opaque]
pub open spec fn plans_draws(
    generations: Seq<u64>,
    count: int,
    snapshots: Seq<PacketSnapshotImport>,
    draw_snapshots: Seq<usize>,
    uniform_bindings: Seq<BufferBindingId>,
) -> bool {
    &&& draw_snapshots.len() == count
    &&& uniform_bindings.len() == count
    &&& snapshots.len() == imports_before(generations, count)
    &&& forall|i: int|
        0 <= i < count ==> {
            &&& #[trigger] draw_snapshots[i] < snapshots.len()
            &&& generations[snapshots[draw_snapshots[i] as int].source_draw as int] == generations[i]
            &&& uniform_bindings[i]@ == FIRST_PACKET_BUFFER_ID + identities_before(generations, i)
                + if first_use(generations, i) {
                2int
            } else {
                0int
            }
            &&& first_use(generations, i) ==> draw_snapshots[i] == imports_before(generations, i)
        }
    &&& forall|k: int|
        0 <= k < snapshots.len() ==> {
            let source = (#[trigger] snapshots[k]).source_draw as int;
            &&& 0 <= source < count
            &&& first_use(generations, source)
            &&& draw_snapshots[source] == k
            &&& snapshots[k].position_binding@ == FIRST_PACKET_BUFFER_ID + identities_before(
                generations,
                source,
            )
            &&& snapshots[k].index_binding@ == FIRST_PACKET_BUFFER_ID + identities_before(
                generations,
                source,
            ) + 1
        }
}

/// The imports of one packet graph.
#[derive(Clone, Debug, PartialEq, Eq)]
pub struct PacketImportPlan {
    /// One imported pair per distinct generation, in order of first use.
    pub snapshots: Vec<PacketSnapshotImport>,
    /// For each draw, the position in `snapshots` of the pair it reads.
    pub draw_snapshots: Vec<usize>,
    /// For each draw, the identity of its uniform import.
    pub uniform_bindings: Vec<BufferBindingId>,
}

/// More draws never issue fewer identities.
pub proof fn lemma_identities_grow(generations: Seq<u64>, i: int, j: int)
    requires
        0 <= i <= j,
    ensures
        identities_before(generations, i) <= identities_before(generations, j),
    decreases j - i,
{
    if i < j {
        lemma_identities_grow(generations, i, j - 1);
    }
}

/// A draw whose generation was imported before reuses that pair and adds
/// its own uniform.
proof fn lemma_plan_reused_draw(
    generations: Seq<u64>,
    i: int,
    snapshots: Seq<PacketSnapshotImport>,
    draw_snapshots: Seq<usize>,
    uniform_bindings: Seq<BufferBindingId>,
    snapshot: usize,
    uniform_binding: BufferBindingId,
)
    requires
        0 <= i < generations.len(),
        plans_draws(generations, i, snapshots, draw_snapshots, uniform_bindings),
        !first_use(generations, i),
        snapshot < snapshots.len(),
        generations[snapshots[snapshot as int].source_draw as int] == generations[i],
        uniform_binding@ == FIRST_PACKET_BUFFER_ID + identities_before(generations, i),
    ensures
        plans_draws(
            generations,
            i + 1,
            snapshots,
            draw_snapshots.push(snapshot),
            uniform_bindings.push(uniform_binding),
        ),
{
    reveal(plans_draws);
    let d = draw_snapshots.push(snapshot);
    let u = uniform_bindings.push(uniform_binding);
    assert(imports_before(generations, i + 1) == imports_before(generations, i));
    assert forall|j: int| 0 <= j < i + 1 implies {
        &&& #[trigger] d[j] < snapshots.len()
        &&& generations[snapshots[d[j] as int].source_draw as int] == generations[j]
        &&& u[j]@ == FIRST_PACKET_BUFFER_ID + identities_before(generations, j) + if first_use(
            generations,
            j,
        ) {
            2int
        } else {
            0int
        }
        &&& first_use(generations, j) ==> d[j] == imports_before(generations, j)
    } by {
        if j < i {
            assert(d[j] == draw_snapshots[j]);
            assert(u[j] == uniform_bindings[j]);
        }
    }
    assert forall|k: int| 0 <= k < snapshots.len() implies {
        let source = (#[trigger] snapshots[k]).source_draw as int;
        &&& 0 <= source < i + 1
        &&& first_use(generations, source)
        &&& d[source] == k
        &&& snapshots[k].position_binding@ == FIRST_PACKET_BUFFER_ID + identities_before(
            generations,
            source,
        )
        &&& snapshots[k].index_binding@ == FIRST_PACKET_BUFFER_ID + identities_before(
            generations,
            source,
        ) + 1
    } by {
        let source = snapshots[k].source_draw as int;
        assert(d[source] == draw_snapshots[source]);
    }
}

/// A draw that first uses its generation imports a new pair, then its own
/// uniform.
proof fn lemma_plan_new_draw(
    generations: Seq<u64>,
    i: int,
    snapshots: Seq<PacketSnapshotImport>,
    draw_snapshots: Seq<usize>,
    uniform_bindings: Seq<BufferBindingId>,
    import: PacketSnapshotImport,
    uniform_binding: BufferBindingId,
)
    requires
        0 <= i < generations.len(),
        plans_draws(generations, i, snapshots, draw_snapshots, uniform_bindings),
        first_use(generations, i),
        snapshots.len() <= usize::MAX,
        import.source_draw == i,
        import.position_binding@ == FIRST_PACKET_BUFFER_ID + identities_before(generations, i),
        import.index_binding@ == FIRST_PACKET_BUFFER_ID + identities_before(generations, i) + 1,
        uniform_binding@ == FIRST_PACKET_BUFFER_ID + identities_before(generations, i) + 2,
    ensures
        plans_draws(
            generations,
            i + 1,
            snapshots.push(import),
            draw_snapshots.push(snapshots.len() as usize),
            uniform_bindings.push(uniform_binding),
        ),
{
    reveal(plans_draws);
    let s = snapshots.push(import);
    let d = draw_snapshots.push(snapshots.len() as usize);
    let u = uniform_bindings.push(uniform_binding);
    assert(imports_before(generations, i + 1) == imports_before(generations, i) + 1);
    assert forall|j: int| 0 <= j < i + 1 implies {
        &&& #[trigger] d[j] < s.len()
        &&& generations[s[d[j] as int].source_draw as int] == generations[j]
        &&& u[j]@ == FIRST_PACKET_BUFFER_ID + identities_before(generations, j) + if first_use(
            generations,
            j,
        ) {
            2int
        } else {
            0int
        }
        &&& first_use(generations, j) ==> d[j] == imports_before(generations, j)
    } by {
        if j < i {
            assert(d[j] == draw_snapshots[j]);
            assert(u[j] == uniform_bindings[j]);
            assert(s[d[j] as int] == snapshots[draw_snapshots[j] as int]);
        }
    }
    assert forall|k: int| 0 <= k < s.len() implies {
        let source = (#[trigger] s[k]).source_draw as int;
        &&& 0 <= source < i + 1
        &&& first_use(generations, source)
        &&& d[source] == k
        &&& s[k].position_binding@ == FIRST_PACKET_BUFFER_ID + identities_before(
            generations,
            source,
        )
        &&& s[k].index_binding@ == FIRST_PACKET_BUFFER_ID + identities_before(generations, source)
            + 1
    } by {
        if k < snapshots.len() {
            assert(s[k] == snapshots[k]);
            let source = snapshots[k].source_draw as int;
            assert(d[source] == draw_snapshots[source]);
        }
    }
}

/// The identities draw `draw` adds come right after those of the draws
/// before it.
proof fn lemma_identities_step(generations: Seq<u64>, draw: int)
    requires
        0 <= draw,
    ensures
        identities_before(generations, draw + 1) == identities_before(generations, draw) + if first_use(
            generations,
            draw,
        ) {
            3nat
        } else {
            1nat
        },
{
}

/// Binding `e` of a planned packet belongs to draw `draw` and is its
/// `slot`-th identity: a new pair's position and index come first, then the
/// draw's uniform.
proof fn lemma_entry_slot(
    generations: Seq<u64>,
    snapshots: Seq<PacketSnapshotImport>,
    draw_snapshots: Seq<usize>,
    uniform_bindings: Seq<BufferBindingId>,
    e: int,
) -> (slot: (int, int))
    requires
        plans_draws(
            generations,
            generations.len() as int,
            snapshots,
            draw_snapshots,
            uniform_bindings,
        ),
        0 <= e < packet_entries(snapshots, uniform_bindings).len(),
    ensures
        0 <= slot.0 < generations.len(),
        packet_entries(snapshots, uniform_bindings)[e].0 == FIRST_PACKET_BUFFER_ID
            + identities_before(generations, slot.0) + slot.1,
        0 <= slot.1,
        identities_before(generations, slot.0) + slot.1 < identities_before(generations, slot.0 + 1),
        e < 2 * snapshots.len() ==> first_use(generations, slot.0) && slot.1 < 2 && e == 2
            * draw_snapshots[slot.0] + slot.1,
        e >= 2 * snapshots.len() ==> e - 2 * snapshots.len() == slot.0 && slot.1 == if first_use(
            generations,
            slot.0,
        ) {
            2int
        } else {
            0int
        },
{
    reveal(plans_draws);
    let n = generations.len() as int;
    if e < 2 * snapshots.len() {
        let k = e / 2;
        let source = snapshots[k].source_draw as int;
        lemma_identities_step(generations, source);
        let entries = packet_entries(snapshots, uniform_bindings);
        if e % 2 == 0 {
            assert(entries[e].0 == snapshots[k].position_binding@);
        } else {
            assert(entries[e].0 == snapshots[k].index_binding@);
        }
        (source, e % 2)
    } else {
        let i = e - 2 * snapshots.len();
        assert(packet_entries(snapshots, uniform_bindings)[e].0 == uniform_bindings[i]@);
        assert(draw_snapshots[i] < snapshots.len());
        lemma_identities_step(generations, i);
        (i, if first_use(generations, i) { 2int } else { 0int })
    }
}

/// Every identity of a planned packet is issued once: no two of its
/// bindings, snapshot streams and uniforms together, share an identity.
pub proof fn lemma_planned_bindings_are_distinct(
    generations: Seq<u64>,
    snapshots: Seq<PacketSnapshotImport>,
    draw_snapshots: Seq<usize>,
    uniform_bindings: Seq<BufferBindingId>,
)
    requires
        plans_draws(
            generations,
            generations.len() as int,
            snapshots,
            draw_snapshots,
            uniform_bindings,
        ),
    ensures
        distinct_bindings(packet_entries(snapshots, uniform_bindings)),
{
    let entries = packet_entries(snapshots, uniform_bindings);
    assert forall|a: int, b: int| 0 <= a < b < entries.len() implies entries[a].0
        != entries[b].0 by {
        let sa = lemma_entry_slot(generations, snapshots, draw_snapshots, uniform_bindings, a);
        let sb = lemma_entry_slot(generations, snapshots, draw_snapshots, uniform_bindings, b);
        if sa.0 < sb.0 {
            lemma_identities_grow(generations, sa.0 + 1, sb.0);
        } else if sb.0 < sa.0 {
            lemma_identities_grow(generations, sb.0 + 1, sa.0);
        } else if sa.1 == sb.1 {
            reveal(plans_draws);
            if a < 2 * snapshots.len() && b >= 2 * snapshots.len() {
                assert(sb.1 == 2);
            }
        }
    }
}

/// Plans the imports of a packet whose draws, in insertion order, reference
/// the snapshot generations `generations`. The identity namespace is
/// exhausted exactly when the identities needed run past its end.
#[verifier::rlimit(40)]
pub fn plan_packet_imports(generations: &[u64]) -> (result: Result<PacketImportPlan, PacketIdError>)
    ensures
        result is Err <==> FIRST_PACKET_BUFFER_ID + identities_before(
            generations@,
            generations@.len() as int,
        ) > u64::MAX,
        result matches Ok(plan) ==> plans_draws(
            generations@,
            generations@.len() as int,
            plan.snapshots@,
            plan.draw_snapshots@,
            plan.uniform_bindings@,
        ),
        result matches Ok(plan) ==> distinct_bindings(
            packet_entries(plan.snapshots@, plan.uniform_bindings@),
        ),
{
    broadcast use vstd::std_specs::hash::axiom_u64_obeys_hash_table_key_model;

    let ghost gens = generations@;
    let ghost n = gens.len() as int;
    let mut issuer = PacketIdIssuer::new();
    let mut imported: HashMapWithView<u64, usize> = HashMapWithView::new();
    let mut snapshots: Vec<PacketSnapshotImport> = Vec::new();
    let mut draw_snapshots: Vec<usize> = Vec::new();
    let mut uniform_bindings: Vec<BufferBindingId> = Vec::new();
    let mut i: usize = 0;
    assert(plans_draws(gens, 0, snapshots@, draw_snapshots@, uniform_bindings@)) by {
        reveal(plans_draws);
    }
    while i < generations.len()
        invariant
            gens == generations@,
            n == gens.len(),
            i <= n,
            issuer@ == FIRST_PACKET_BUFFER_ID + identities_before(gens, i as int),
            plans_draws(gens, i as int, snapshots@, draw_snapshots@, uniform_bindings@),
            draw_snapshots@.len() == i,
            forall|j: int|
                0 <= j < i ==> (#[trigger] draw_snapshots@[j] < snapshots@.len() && gens[snapshots@[draw_snapshots@[j] as int].source_draw as int] == gens[j]),
            forall|j: int|
                0 <= j < i ==> imported@.contains_key(#[trigger] gens[j]) && imported@[gens[j]]
                    == draw_snapshots@[j],
            forall|g: u64|
                #[trigger] imported@.contains_key(g) ==> exists|j: int| 0 <= j < i && gens[j] == g,
        decreases n - i,
    {
        let generation = generations[i];
        let ghost old_snapshots = snapshots@;
        proof {
            lemma_identities_grow(gens, i as int + 1, n);
        }
        let snapshot = match imported.get(&generation) {
            Some(index) => {
                let index = *index;
                proof {
                    let j = choose|j: int| 0 <= j < i && gens[j] == generation;
                    assert(imported@[gens[j]] == draw_snapshots@[j]);
                    assert(!first_use(gens, i as int));
                }
                index
            },
            None => {
                assert(first_use(gens, i as int)) by {
                    assert forall|j: int| 0 <= j < i implies gens[j] != gens[i as int] by {
                        assert(imported@.contains_key(gens[j]));
                    }
                }
                let position_binding = match issuer.buffer() {
                    Ok(id) => id,
                    Err(error) => {
                        return Err(error);
                    },
                };
                let index_binding = match issuer.buffer() {
                    Ok(id) => id,
                    Err(error) => {
                        return Err(error);
                    },
                };
                let index = snapshots.len();
                snapshots.push(PacketSnapshotImport { source_draw: i, position_binding, index_binding });
                imported.insert(generation, index);
                index
            },
        };
        let uniform_binding = match issuer.buffer() {
            Ok(id) => id,
            Err(error) => {
                return Err(error);
            },
        };
        proof {
            if first_use(gens, i as int) {
                lemma_plan_new_draw(
                    gens,
                    i as int,
                    old_snapshots,
                    draw_snapshots@,
                    uniform_bindings@,
                    snapshots@.last(),
                    uniform_binding,
                );
                assert(old_snapshots.push(snapshots@.last()) == snapshots@);
            } else {
                lemma_plan_reused_draw(
                    gens,
                    i as int,
                    snapshots@,
                    draw_snapshots@,
                    uniform_bindings@,
                    snapshot,
                    uniform_binding,
                );
            }
        }
        draw_snapshots.push(snapshot);
        uniform_bindings.push(uniform_binding);
        i = i + 1;
    }
    proof {
        lemma_planned_bindings_are_distinct(gens, snapshots@, draw_snapshots@, uniform_bindings@);
    }
    Ok(PacketImportPlan { snapshots, draw_snapshots, uniform_bindings })
}

} // verus!
