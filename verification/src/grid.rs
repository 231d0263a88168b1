//! The 9x9 grid of harmonic nodes and its two operations: applying a global
//! magnetic field and aggregating the alignment vector of the primary
//! harmonic class.
//!
//! Real-valued quantities are carried in fixed point. An applied field
//! strength or direction is an `i64` count of millionths (micro-units); a
//! node's stored field strength is a count of ten-millionths, so that every
//! entry of the multiplier table (1.0, 0.8, 0.7, 0.6, 0.3) scales it
//! exactly; an alignment component is a product of a node strength and a
//! unit-scaled cosine, hence a count of `10^-13` units.

use vstd::prelude::*;

use crate::trig;

verus! {

/// The largest magnitude a caller may pass as an applied field strength, in
/// micro-units (ten thousand whole units). It keeps every per-node strength
/// and every alignment sum inside `i64`.
pub const MAX_FIELD_STRENGTH: i64 = 10_000_000_000;

/// The largest magnitude a stored node strength can reach:
/// `MAX_FIELD_STRENGTH` times the largest multiplier, ten tenths.
pub const NODE_FIELD_LIMIT: i64 = 100_000_000_000;

/// One cell of the grid. `id`, `position` and `harmonic_value` are fixed at
/// construction; the two field components are overwritten by each field
/// application.
#[derive(Clone, Copy)]
pub struct HarmonicNode {
    /// Linear index of the node: row * 9 + column.
    pub id: usize,
    /// (row, column), each in [0, 8].
    pub position: (usize, usize),
    /// The node's harmonic class: `id mod 13`, in [0, 12].
    pub harmonic_value: usize,
    /// Strength of the field at this node, in tenths of a micro-unit.
    pub field_strength: i64,
    /// Angle of the field at this node, in micro-radians.
    pub field_angle: i64,
}

/// The 9x9 grid, row-major, together with the last applied global field
/// strength in micro-units.
pub struct FieldGrid {
    /// The 81 nodes, row-major: the node at (r, c) sits at index r * 9 + c.
    pub nodes: Vec<HarmonicNode>,
    /// The strength handed to the most recent field application, or 0.
    pub field_strength: i64,
}

/// The strength multiplier of a harmonic class, in tenths: the primary class
/// 5 keeps the full strength, classes 10, 2 and 7 take decreasing shares,
/// and every other class takes the base share of 0.3.
pub open spec fn multiplier_tenths(h: int) -> int {
    if h == 5 {
        10
    } else if h == 10 {
        8
    } else if h == 2 {
        7
    } else if h == 7 {
        6
    } else {
        3
    }
}

/// The per-node field angle produced by applying a field with the given
/// direction: every node takes the applied direction itself. The node is
/// passed so that a refinement may weigh in its position or harmonic class;
/// this definition is the single place such a rule would change.
pub open spec fn field_angle_spec(direction: i64, n: HarmonicNode) -> i64 {
    direction
}

/// The fixed identity of the node at linear index `i`.
pub open spec fn node_placed(n: HarmonicNode, i: int) -> bool {
    &&& n.id == i
    &&& n.position.0 == i / 9
    &&& n.position.1 == i % 9
    &&& n.harmonic_value == i % 13
}

/// A stored node strength small enough for the alignment sum.
pub open spec fn node_strength_ok(n: HarmonicNode) -> bool {
    -NODE_FIELD_LIMIT <= n.field_strength <= NODE_FIELD_LIMIT
}

/// Well-formedness of the grid: exactly 81 nodes, each carrying the identity
/// of its index and a bounded strength. Constructors establish it and every
/// operation preserves it.
pub open spec fn wf_grid(g: FieldGrid) -> bool {
    &&& g.nodes@.len() == 81
    &&& forall|i: int| 0 <= i < 81 ==> node_placed(#[trigger] g.nodes@[i], i)
    &&& forall|i: int| 0 <= i < 81 ==> node_strength_ok(#[trigger] g.nodes@[i])
}

/// The node produced by applying a field of the given strength and direction
/// to `n`: identity kept, strength scaled by the class multiplier, angle set
/// by the angle rule.
pub open spec fn node_applied(n: HarmonicNode, strength: i64, direction: i64) -> HarmonicNode {
    HarmonicNode {
        id: n.id,
        position: n.position,
        harmonic_value: n.harmonic_value,
        field_strength: (strength * multiplier_tenths(n.harmonic_value as int)) as i64,
        field_angle: field_angle_spec(direction, n),
    }
}

/// The whole node sequence after one field application.
pub open spec fn applied_nodes(nodes: Seq<HarmonicNode>, strength: i64, direction: i64) -> Seq<
    HarmonicNode,
> {
    nodes.map_values(|n: HarmonicNode| node_applied(n, strength, direction))
}

/// What one node adds to the x component of the alignment vector: only the
/// primary harmonic class contributes.
pub open spec fn contrib_x(n: HarmonicNode) -> int {
    if n.harmonic_value == 5 {
        n.field_strength * trig::cos_fixed_spec(n.field_angle)
    } else {
        0
    }
}

/// What one node adds to the y component of the alignment vector.
pub open spec fn contrib_y(n: HarmonicNode) -> int {
    if n.harmonic_value == 5 {
        n.field_strength * trig::sin_fixed_spec(n.field_angle)
    } else {
        0
    }
}

/// Sum of the x contributions of the first `k` nodes.
pub open spec fn align_x_prefix(nodes: Seq<HarmonicNode>, k: int) -> int
    decreases k,
{
    if k <= 0 {
        0
    } else {
        align_x_prefix(nodes, k - 1) + contrib_x(nodes[k - 1])
    }
}

/// Sum of the y contributions of the first `k` nodes.
pub open spec fn align_y_prefix(nodes: Seq<HarmonicNode>, k: int) -> int
    decreases k,
{
    if k <= 0 {
        0
    } else {
        align_y_prefix(nodes, k - 1) + contrib_y(nodes[k - 1])
    }
}

/// The x component of the alignment vector of the whole grid.
pub open spec fn alignment_x(nodes: Seq<HarmonicNode>) -> int {
    align_x_prefix(nodes, nodes.len() as int)
}

/// The y component of the alignment vector of the whole grid.
pub open spec fn alignment_y(nodes: Seq<HarmonicNode>) -> int {
    align_y_prefix(nodes, nodes.len() as int)
}

proof fn lemma_strength_product_fits(strength: i64, t: int)
    by (nonlinear_arith)
    requires
        -MAX_FIELD_STRENGTH <= strength <= MAX_FIELD_STRENGTH,
        0 <= t <= 10,
    ensures
        -(NODE_FIELD_LIMIT as int) <= strength * t <= NODE_FIELD_LIMIT as int,
{
}

proof fn lemma_contrib_product_fits(fs: i64, c: i64)
    by (nonlinear_arith)
    requires
        -NODE_FIELD_LIMIT <= fs <= NODE_FIELD_LIMIT,
        -1_000_000 <= c <= 1_000_000,
    ensures
        -100_000_000_000_000_000 <= fs * c <= 100_000_000_000_000_000,
{
}

/// The multiplier table, executable: tenths of the factor a node's strength
/// is scaled by.
pub fn harmonic_multiplier_tenths(h: usize) -> (t: i64)
    ensures
        t == multiplier_tenths(h as int),
        3 <= t <= 10,
{
    match h {
        5 => 10,
        10 => 8,
        2 => 7,
        7 => 6,
        _ => 3,
    }
}

/// The field angle a node receives from an application with the given
/// direction, exactly `field_angle_spec`.
#[allow(unused_variables)]
pub fn calculate_field_angle(direction: i64, node: &HarmonicNode) -> (a: i64)
    ensures
        a == field_angle_spec(direction, *node),
{
    direction
}

impl FieldGrid {
    /// Builds the grid: 81 nodes in row-major order, the node at (r, c)
    /// carrying id r * 9 + c, harmonic class id mod 13, and zero field.
    pub fn new() -> (g: FieldGrid)
        ensures
            wf_grid(g),
            g.field_strength == 0,
            forall|i: int|
                0 <= i < 81 ==> (#[trigger] g.nodes@[i]).field_strength == 0
                    && g.nodes@[i].field_angle == 0,
    {
        let mut nodes: Vec<HarmonicNode> = Vec::new();
        let mut r: usize = 0;
        while r < 9
            invariant
                r <= 9,
                nodes@.len() == r * 9,
                forall|j: int|
                    0 <= j < r * 9 ==> node_placed(#[trigger] nodes@[j], j)
                        && nodes@[j].field_strength == 0 && nodes@[j].field_angle == 0,
            decreases 9 - r,
        {
            let mut c: usize = 0;
            while c < 9
                invariant
                    r < 9,
                    c <= 9,
                    nodes@.len() == r * 9 + c,
                    forall|j: int|
                        0 <= j < r * 9 + c ==> node_placed(#[trigger] nodes@[j], j)
                            && nodes@[j].field_strength == 0 && nodes@[j].field_angle == 0,
                decreases 9 - c,
            {
                let id: usize = r * 9 + c;
                let node = HarmonicNode {
                    id,
                    position: (r, c),
                    harmonic_value: id % 13,
                    field_strength: 0,
                    field_angle: 0,
                };
                nodes.push(node);
                c += 1;
            }
            r += 1;
        }
        FieldGrid { nodes, field_strength: 0 }
    }

    /// A borrow of the node at row `r`, column `c`, which carries the
    /// identity fixed at construction.
    pub fn node_at(&self, r: usize, c: usize) -> (n: &HarmonicNode)
        requires
            wf_grid(*self),
            r < 9,
            c < 9,
        ensures
            *n == self.nodes@[r * 9 + c],
            n.id == r * 9 + c,
            n.position == ((r, c)),
            n.harmonic_value == (r * 9 + c) % 13,
    {
        &self.nodes[r * 9 + c]
    }

    /// Overwrites the grid's own strength with `strength` and recomputes
    /// every node's field: strength scaled by the node's class multiplier,
    /// angle set by the angle rule. Node updates are independent of one
    /// another and of any earlier application.
    pub fn apply_magnetic_field(&mut self, strength: i64, direction: i64)
        requires
            wf_grid(*old(self)),
            -MAX_FIELD_STRENGTH <= strength <= MAX_FIELD_STRENGTH,
        ensures
            wf_grid(*final(self)),
            final(self).field_strength == strength,
            final(self).nodes@ == applied_nodes(old(self).nodes@, strength, direction),
            forall|i: int|
                0 <= i < 81 ==> (#[trigger] final(self).nodes@[i]).field_strength == strength
                    * multiplier_tenths(final(self).nodes@[i].harmonic_value as int),
            forall|i: int|
                0 <= i < 81 ==> (#[trigger] final(self).nodes@[i]).field_angle == field_angle_spec(
                    direction,
                    old(self).nodes@[i],
                ),
    {
        self.field_strength = strength;
        let mut i: usize = 0;
        while i < 81
            invariant
                i <= 81,
                self.nodes@.len() == 81,
                wf_grid(*old(self)),
                -MAX_FIELD_STRENGTH <= strength <= MAX_FIELD_STRENGTH,
                self.field_strength == strength,
                forall|j: int|
                    0 <= j < i ==> #[trigger] self.nodes@[j] == node_applied(
                        old(self).nodes@[j],
                        strength,
                        direction,
                    ),
                forall|j: int| i <= j < 81 ==> #[trigger] self.nodes@[j] == old(self).nodes@[j],
            decreases 81 - i,
        {
            let node = self.nodes[i];
            let tenths: i64 = harmonic_multiplier_tenths(node.harmonic_value);
            proof {
                lemma_strength_product_fits(strength, tenths as int);
            }
            let fs: i64 = strength * tenths;
            let ang: i64 = calculate_field_angle(direction, &node);
            let updated = HarmonicNode {
                id: node.id,
                position: node.position,
                harmonic_value: node.harmonic_value,
                field_strength: fs,
                field_angle: ang,
            };
            self.nodes.set(i, updated);
            i += 1;
        }
        proof {
            assert(self.nodes@ =~= applied_nodes(old(self).nodes@, strength, direction));
            assert forall|j: int| 0 <= j < 81 implies node_placed(#[trigger] self.nodes@[j], j)
                && node_strength_ok(self.nodes@[j]) by {
                assert(node_placed(old(self).nodes@[j], j));
                lemma_strength_product_fits(
                    strength,
                    multiplier_tenths(old(self).nodes@[j].harmonic_value as int),
                );
            }
        }
    }

    /// The alignment vector: the sum, over the nodes of the primary harmonic
    /// class, of the node's strength times the fixed-point cosine and sine
    /// of its angle, accumulated in row-major order. Components are in
    /// `10^-13` units: a node strength (tenths of a micro-unit) times a
    /// unit-scaled cosine.
    pub fn get_alignment_vector(&self) -> (r: (i64, i64))
        requires
            wf_grid(*self),
        ensures
            r.0 == alignment_x(self.nodes@),
            r.1 == alignment_y(self.nodes@),
    {
        let mut x: i64 = 0;
        let mut y: i64 = 0;
        let mut i: usize = 0;
        while i < 81
            invariant
                i <= 81,
                wf_grid(*self),
                x == align_x_prefix(self.nodes@, i as int),
                y == align_y_prefix(self.nodes@, i as int),
                -(i as int) * 100_000_000_000_000_000 <= x as int <= (i as int)
                    * 100_000_000_000_000_000,
                -(i as int) * 100_000_000_000_000_000 <= y as int <= (i as int)
                    * 100_000_000_000_000_000,
            decreases 81 - i,
        {
            let node = self.nodes[i];
            if node.harmonic_value == 5 {
                let c: i64 = trig::cos_fixed(node.field_angle);
                let s: i64 = trig::sin_fixed(node.field_angle);
                proof {
                    lemma_contrib_product_fits(node.field_strength, c);
                    lemma_contrib_product_fits(node.field_strength, s);
                }
                x = x + node.field_strength * c;
                y = y + node.field_strength * s;
            }
            i += 1;
        }
        (x, y)
    }
}

/// Applying a field twice with the same strength and direction leaves the
/// nodes exactly as after the first application: an update overwrites, it
/// never accumulates.
pub proof fn lemma_apply_idempotent(nodes: Seq<HarmonicNode>, strength: i64, direction: i64)
    ensures
        applied_nodes(applied_nodes(nodes, strength, direction), strength, direction)
            == applied_nodes(nodes, strength, direction),
{
    let once = applied_nodes(nodes, strength, direction);
    let twice = applied_nodes(once, strength, direction);
    assert forall|i: int| 0 <= i < nodes.len() implies twice[i] == once[i] by {
        assert(once[i] == node_applied(nodes[i], strength, direction));
    }
    assert(twice =~= once);
}

/// Before any field has been applied every node strength is zero, and the
/// alignment vector of such a grid is exactly (0, 0).
pub proof fn lemma_alignment_zero_when_unapplied(nodes: Seq<HarmonicNode>)
    requires
        forall|i: int| 0 <= i < nodes.len() ==> (#[trigger] nodes[i]).field_strength == 0,
    ensures
        alignment_x(nodes) == 0,
        alignment_y(nodes) == 0,
{
    lemma_align_prefix_zero(nodes, nodes.len() as int);
}

proof fn lemma_align_prefix_zero(nodes: Seq<HarmonicNode>, k: int)
    requires
        k <= nodes.len(),
        forall|i: int| 0 <= i < nodes.len() ==> (#[trigger] nodes[i]).field_strength == 0,
    ensures
        align_x_prefix(nodes, k) == 0,
        align_y_prefix(nodes, k) == 0,
    decreases k,
{
    if k > 0 {
        lemma_align_prefix_zero(nodes, k - 1);
        assert(contrib_x(nodes[k - 1]) == 0);
        assert(contrib_y(nodes[k - 1]) == 0);
    }
}

/// Some node of `nodes` carries the id `v`.
pub open spec fn some_node_has_id(nodes: Seq<HarmonicNode>, v: int) -> bool {
    exists|i: int| 0 <= i < nodes.len() && (#[trigger] nodes[i]).id == v
}

/// A well-formed grid holds exactly 81 nodes whose ids are pairwise distinct
/// and cover 0 through 80, however many times a field has been applied.
pub proof fn lemma_ids_distinct_and_cover(g: FieldGrid)
    requires
        wf_grid(g),
    ensures
        g.nodes@.len() == 81,
        forall|i: int, j: int|
            0 <= i < j < 81 ==> (#[trigger] g.nodes@[i]).id != (#[trigger] g.nodes@[j]).id,
        forall|v: int| 0 <= v < 81 ==> #[trigger] some_node_has_id(g.nodes@, v),
{
    assert forall|v: int| 0 <= v < 81 implies #[trigger] some_node_has_id(g.nodes@, v) by {
        assert(g.nodes@[v].id == v);
    }
}

/// The primary harmonic class of a well-formed grid is exactly the six nodes
/// with ids 5, 18, 31, 44, 57 and 70: the ids below 81 that leave remainder
/// 5 modulo 13.
pub proof fn lemma_primary_ids(g: FieldGrid)
    requires
        wf_grid(g),
    ensures
        forall|i: int|
            0 <= i < 81 ==> ((#[trigger] g.nodes@[i]).harmonic_value == 5 <==> (i == 5 || i == 18
                || i == 31 || i == 44 || i == 57 || i == 70)),
{
    assert forall|i: int| 0 <= i < 81 implies ((#[trigger] g.nodes@[i]).harmonic_value == 5 <==> (
    i == 5 || i == 18 || i == 31 || i == 44 || i == 57 || i == 70)) by {
        assert(node_placed(g.nodes@[i], i));
    }
}

} // verus!
