use harmonic_grid::grid::FieldGrid;

#[test]
fn node_identity_and_position() {
    let g = FieldGrid::new();
    for r in 0usize..9 {
        for c in 0usize..9 {
            let n = g.node_at(r, c);
            assert_eq!(n.id, r * 9 + c);
            assert_eq!(n.position, (r, c));
            assert_eq!(n.harmonic_value, (r * 9 + c) % 13);
            assert_eq!(n.field_strength, 0);
            assert_eq!(n.field_angle, 0);
        }
    }
    assert_eq!(g.field_strength, 0);
}

#[test]
fn primary_class_ids() {
    let g = FieldGrid::new();
    let mut primary: Vec<usize> = Vec::new();
    for i in 0usize..81 {
        if g.nodes[i].harmonic_value == 5 {
            primary.push(g.nodes[i].id);
        }
    }
    assert_eq!(primary, vec![5, 18, 31, 44, 57, 70]);
    assert_eq!(primary.len(), 6);
}

#[test]
fn applied_strengths_follow_table() {
    // A strength of 10.0 units is 10_000_000 micro-units; node strengths are
    // in tenths of a micro-unit, so class 5 reads 100_000_000 (10.0).
    let mut g = FieldGrid::new();
    g.apply_magnetic_field(10_000_000, 0);
    assert_eq!(g.field_strength, 10_000_000);
    for i in 0usize..81 {
        let expected: i64 = match g.nodes[i].harmonic_value {
            5 => 100_000_000,
            10 => 80_000_000,
            2 => 70_000_000,
            7 => 60_000_000,
            _ => 30_000_000,
        };
        assert_eq!(g.nodes[i].field_strength, expected);
        assert_eq!(g.nodes[i].field_angle, 0);
    }
}

#[test]
fn applied_angle_is_direction() {
    let mut g = FieldGrid::new();
    g.apply_magnetic_field(1_000_000, 2_500_000);
    for i in 0usize..81 {
        assert_eq!(g.nodes[i].field_angle, 2_500_000);
    }
}

#[test]
fn negative_strength_scales_each_class() {
    let mut g = FieldGrid::new();
    g.apply_magnetic_field(-5_000_000, 0);
    for i in 0usize..81 {
        let expected: i64 = match g.nodes[i].harmonic_value {
            5 => -50_000_000,
            10 => -40_000_000,
            2 => -35_000_000,
            7 => -30_000_000,
            _ => -15_000_000,
        };
        assert_eq!(g.nodes[i].field_strength, expected);
    }
}

#[test]
fn apply_overwrites_previous_field() {
    let mut g = FieldGrid::new();
    g.apply_magnetic_field(3_000_000, 500_000);
    g.apply_magnetic_field(10_000_000, 0);
    assert_eq!(g.field_strength, 10_000_000);
    for i in 0usize..81 {
        let expected: i64 = match g.nodes[i].harmonic_value {
            5 => 100_000_000,
            10 => 80_000_000,
            2 => 70_000_000,
            7 => 60_000_000,
            _ => 30_000_000,
        };
        assert_eq!(g.nodes[i].field_strength, expected);
        assert_eq!(g.nodes[i].field_angle, 0);
    }
}

#[test]
fn apply_twice_is_idempotent() {
    let mut once = FieldGrid::new();
    once.apply_magnetic_field(7_250_000, 1_250_000);
    let mut twice = FieldGrid::new();
    twice.apply_magnetic_field(7_250_000, 1_250_000);
    twice.apply_magnetic_field(7_250_000, 1_250_000);
    assert_eq!(once.field_strength, twice.field_strength);
    for i in 0usize..81 {
        assert_eq!(once.nodes[i].id, twice.nodes[i].id);
        assert_eq!(once.nodes[i].position, twice.nodes[i].position);
        assert_eq!(once.nodes[i].harmonic_value, twice.nodes[i].harmonic_value);
        assert_eq!(once.nodes[i].field_strength, twice.nodes[i].field_strength);
        assert_eq!(once.nodes[i].field_angle, twice.nodes[i].field_angle);
    }
}

#[test]
fn alignment_zero_before_apply() {
    let g = FieldGrid::new();
    assert_eq!(g.get_alignment_vector(), (0, 0));
}

#[test]
fn alignment_after_zero_direction() {
    // Six primary nodes, each at strength 100_000_000 (10.0) and angle 0:
    // x is 6 * 100_000_000 * 1_000_000 in 10^-13 units, which reads 60.0.
    let mut g = FieldGrid::new();
    g.apply_magnetic_field(10_000_000, 0);
    assert_eq!(g.get_alignment_vector(), (600_000_000_000_000, 0));
}

#[test]
fn alignment_after_one_radian() {
    // cos of one radian is 540_278 and sin is 841_469 in fixed point.
    let mut g = FieldGrid::new();
    g.apply_magnetic_field(10_000_000, 1_000_000);
    assert_eq!(
        g.get_alignment_vector(),
        (324_166_800_000_000, 504_881_400_000_000)
    );
}

#[test]
fn alignment_at_the_strength_limit() {
    // The largest accepted strength still sums without overflow: six primary
    // nodes at 10_000_000_000 micro-units each, multiplier 1.0, angle 0.
    let mut g = FieldGrid::new();
    g.apply_magnetic_field(harmonic_grid::grid::MAX_FIELD_STRENGTH, 0);
    assert_eq!(g.get_alignment_vector(), (600_000_000_000_000_000, 0));
}

#[test]
fn alignment_flips_at_pi() {
    let mut g = FieldGrid::new();
    g.apply_magnetic_field(10_000_000, 3_141_593);
    assert_eq!(g.get_alignment_vector(), (-600_000_000_000_000, 0));
}

#[test]
fn ids_distinct_and_cover_after_applies() {
    let mut g = FieldGrid::new();
    g.apply_magnetic_field(10_000_000, 0);
    g.apply_magnetic_field(-2_000_000, 4_000_000);
    assert_eq!(g.nodes.len(), 81);
    let mut seen: Vec<bool> = vec![false; 81];
    for i in 0usize..81 {
        let id: usize = g.nodes[i].id;
        assert!(id < 81);
        assert!(!seen[id]);
        seen[id] = true;
    }
    for i in 0usize..81 {
        assert!(seen[i]);
    }
}
