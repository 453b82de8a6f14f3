use revolute_joint::{
    Axis, BilateralConstraint, BodyHandle, BodySet, ConstraintSet, Dim, ImpulseIndex, Point,
    PositionHelper, RevoluteConstraint, VelocityHelper,
};

fn spatial_joint() -> RevoluteConstraint<f64> {
    RevoluteConstraint::new(
        BodyHandle(0),
        BodyHandle(1),
        Point { coords: vec![0.0, 1.0, 0.0] },
        Axis { coords: vec![0.0, 0.0, 1.0] },
        Point { coords: vec![0.0, -1.0, 0.0] },
        Axis { coords: vec![0.0, 0.0, 1.0] },
        0.0,
    )
}

fn planar_joint() -> RevoluteConstraint<f64> {
    RevoluteConstraint::new_planar(
        BodyHandle(0),
        BodyHandle(1),
        Point { coords: vec![1.0, 0.0] },
        Point { coords: vec![-1.0, 0.0] },
        0.0,
    )
}

fn row(impulse_id: usize, impulse: f64) -> BilateralConstraint<f64> {
    BilateralConstraint { impulse_id, impulse }
}

#[test]
fn dimensions_of_plane_and_space() {
    assert_eq!(Dim::Two.linear_dim(), 2);
    assert_eq!(Dim::Two.angular_dim(), 1);
    assert_eq!(Dim::Two.spatial_dim(), 3);
    assert_eq!(Dim::Three.linear_dim(), 3);
    assert_eq!(Dim::Three.angular_dim(), 3);
    assert_eq!(Dim::Three.spatial_dim(), 6);
}

#[test]
fn velocity_row_count_is_spatial_dim_minus_one() {
    assert_eq!(spatial_joint().num_velocity_constraints(), 5);
    assert_eq!(planar_joint().num_velocity_constraints(), 2);
}

#[test]
fn new_joint_keeps_its_configuration() {
    let j = spatial_joint();
    assert_eq!(j.anchors(), (BodyHandle(0), BodyHandle(1)));
    assert_eq!(j.dimension(), Dim::Three);
    assert_eq!(j.anchor1().coords, vec![0.0, 1.0, 0.0]);
    assert_eq!(j.anchor2().coords, vec![0.0, -1.0, 0.0]);
    let (a1, a2) = j.axes().unwrap();
    assert_eq!(a1.coords, vec![0.0, 0.0, 1.0]);
    assert_eq!(a2.coords, vec![0.0, 0.0, 1.0]);
    assert_eq!(j.lin_impulses(), &vec![0.0, 0.0, 0.0]);
    assert_eq!(j.ang_impulses(), &vec![0.0, 0.0, 0.0]);
    assert_eq!(j.bilateral_ground_rng(), 0..0);
    assert_eq!(j.bilateral_rng(), 0..0);
}

#[test]
fn new_planar_joint_has_no_axes() {
    let j = planar_joint();
    assert_eq!(j.dimension(), Dim::Two);
    assert!(j.axes().is_none());
    assert_eq!(j.lin_impulses(), &vec![0.0, 0.0]);
    assert_eq!(j.ang_impulses(), &vec![0.0]);
}

#[test]
fn spatial_requests_linear_then_angular_block() {
    let reqs = spatial_joint().velocity_requests();
    assert_eq!(reqs.len(), 2);
    assert_eq!(reqs[0].helper, VelocityHelper::CancelRelativeLinearVelocity);
    assert_eq!(reqs[0].impulse_offset, 0);
    assert_eq!(reqs[0].warm_start, vec![0.0, 0.0, 0.0]);
    assert_eq!(reqs[1].helper, VelocityHelper::RestrictRelativeAngularVelocityToAxis);
    assert_eq!(reqs[1].impulse_offset, 3);
    assert_eq!(reqs[1].warm_start, vec![0.0, 0.0, 0.0]);
}

#[test]
fn planar_requests_linear_block_only() {
    let reqs = planar_joint().velocity_requests();
    assert_eq!(reqs.len(), 1);
    assert_eq!(reqs[0].helper, VelocityHelper::CancelRelativeLinearVelocity);
    assert_eq!(reqs[0].impulse_offset, 0);
    assert_eq!(reqs[0].warm_start, vec![0.0, 0.0]);
}

#[test]
fn emission_records_rows_appended_since_mark() {
    let mut j = spatial_joint();
    let mut cs: ConstraintSet<f64> = ConstraintSet::new();
    cs.velocity.bilateral_ground.push(row(0, 1.0));
    cs.velocity.bilateral.push(row(0, 1.0));
    cs.velocity.bilateral.push(row(1, 1.0));
    let mark = cs.mark();
    assert_eq!(mark.ground, 1);
    assert_eq!(mark.paired, 2);
    for id in 0..5 {
        cs.velocity.bilateral.push(row(id, 0.0));
    }
    j.velocity_constraints(mark, &cs);
    assert_eq!(j.bilateral_ground_rng(), 1..1);
    assert_eq!(j.bilateral_rng(), 2..7);
    assert_eq!(j.bilateral_rng().len(), j.num_velocity_constraints());

    // The next step starts from a cleared set: the old ranges are replaced.
    let mut next: ConstraintSet<f64> = ConstraintSet::new();
    let mark = next.mark();
    for id in 0..3 {
        next.velocity.bilateral_ground.push(row(id, 0.0));
    }
    next.velocity.bilateral.push(row(3, 0.0));
    next.velocity.bilateral.push(row(4, 0.0));
    j.velocity_constraints(mark, &next);
    assert_eq!(j.bilateral_ground_rng(), 0..3);
    assert_eq!(j.bilateral_rng(), 0..2);
}

#[test]
fn cache_routes_each_owned_row_by_impulse_id() {
    let mut j = spatial_joint();
    let mut cs: ConstraintSet<f64> = ConstraintSet::new();
    // A row of another joint, outside this joint's ranges.
    cs.velocity.bilateral.push(row(0, 100.0));
    let mark = cs.mark();
    cs.velocity.bilateral_ground.push(row(0, 1.5));
    cs.velocity.bilateral_ground.push(row(4, -2.0));
    cs.velocity.bilateral.push(row(1, 2.5));
    cs.velocity.bilateral.push(row(2, 3.5));
    cs.velocity.bilateral.push(row(3, 4.5));
    j.velocity_constraints(mark, &cs);
    j.cache_impulses(&cs);
    assert_eq!(j.lin_impulses(), &vec![1.5, 2.5, 3.5]);
    assert_eq!(j.ang_impulses(), &vec![4.5, -2.0, 0.0]);
}

#[test]
fn cache_keeps_last_row_of_an_id_and_unnamed_slots() {
    let mut j = planar_joint();
    let mut cs: ConstraintSet<f64> = ConstraintSet::new();
    let mark = cs.mark();
    cs.velocity.bilateral_ground.push(row(1, 7.0));
    cs.velocity.bilateral.push(row(1, 8.0));
    cs.velocity.bilateral.push(row(2, 9.0));
    j.velocity_constraints(mark, &cs);
    j.cache_impulses(&cs);
    assert_eq!(j.lin_impulses(), &vec![0.0, 8.0]);
    assert_eq!(j.ang_impulses(), &vec![9.0]);
}

#[test]
fn cache_before_any_emission_changes_nothing() {
    let mut j = spatial_joint();
    let mut cs: ConstraintSet<f64> = ConstraintSet::new();
    cs.velocity.bilateral.push(row(0, 5.0));
    j.cache_impulses(&cs);
    assert_eq!(j.lin_impulses(), &vec![0.0, 0.0, 0.0]);
    assert_eq!(j.ang_impulses(), &vec![0.0, 0.0, 0.0]);
}

#[test]
fn cached_impulses_warm_start_the_next_emission() {
    let mut j = spatial_joint();
    let mut cs: ConstraintSet<f64> = ConstraintSet::new();
    let mark = cs.mark();
    for id in 0..5 {
        cs.velocity.bilateral.push(row(id, (id as f64) + 0.5));
    }
    j.velocity_constraints(mark, &cs);
    j.cache_impulses(&cs);
    let reqs = j.velocity_requests();
    assert_eq!(reqs[0].warm_start, vec![0.5, 1.5, 2.5]);
    assert_eq!(reqs[1].warm_start, vec![3.5, 4.5, 0.0]);
}

#[test]
fn position_count_follows_activity() {
    let asleep = BodySet::new(vec![false, false]);
    let one_awake = BodySet::new(vec![false, true]);
    let both_awake = BodySet::new(vec![true, true]);
    let s = spatial_joint();
    let p = planar_joint();
    assert!(!s.is_active(&asleep));
    assert!(s.is_active(&one_awake));
    assert_eq!(s.num_position_constraints(&asleep), 0);
    assert_eq!(s.num_position_constraints(&one_awake), 2);
    assert_eq!(s.num_position_constraints(&both_awake), 2);
    assert_eq!(p.num_position_constraints(&asleep), 0);
    assert_eq!(p.num_position_constraints(&one_awake), 1);
    assert_eq!(p.num_position_constraints(&both_awake), 1);
}

#[test]
fn position_generator_dispatches_by_index() {
    let s = spatial_joint();
    assert_eq!(s.position_constraint(0), Some(PositionHelper::CancelRelativeTranslation));
    assert_eq!(s.position_constraint(1), Some(PositionHelper::AlignAxis));
    assert_eq!(s.position_constraint(2), None);
    assert_eq!(s.position_constraint(usize::MAX), None);
    let p = planar_joint();
    assert_eq!(p.position_constraint(0), Some(PositionHelper::CancelRelativeTranslation));
    assert_eq!(p.position_constraint(1), None);
}

#[test]
fn coincident_hinge_at_rest() {
    let j = RevoluteConstraint::new(
        BodyHandle(3),
        BodyHandle(4),
        Point { coords: vec![0.0, 0.0, 0.0] },
        Axis { coords: vec![1.0, 0.0, 0.0] },
        Point { coords: vec![0.0, 0.0, 0.0] },
        Axis { coords: vec![1.0, 0.0, 0.0] },
        0.0,
    );
    let bodies = BodySet::new(vec![false, false, false, true, true]);
    assert_eq!(j.num_velocity_constraints(), 5);
    let reqs = j.velocity_requests();
    assert_eq!(reqs.len(), 2);
    assert_eq!(reqs[1].helper, VelocityHelper::RestrictRelativeAngularVelocityToAxis);
    assert_eq!(j.num_position_constraints(&bodies), 2);
    assert_eq!(j.position_constraint(0), Some(PositionHelper::CancelRelativeTranslation));
    assert_eq!(j.position_constraint(1), Some(PositionHelper::AlignAxis));
    assert_eq!(j.position_constraint(2), None);
}

#[test]
fn impulse_ids_split_at_linear_dimension() {
    assert_eq!(ImpulseIndex::from_id(Dim::Three, 0), Some(ImpulseIndex::Linear(0)));
    assert_eq!(ImpulseIndex::from_id(Dim::Three, 2), Some(ImpulseIndex::Linear(2)));
    assert_eq!(ImpulseIndex::from_id(Dim::Three, 3), Some(ImpulseIndex::Angular(0)));
    assert_eq!(ImpulseIndex::from_id(Dim::Three, 5), Some(ImpulseIndex::Angular(2)));
    assert_eq!(ImpulseIndex::from_id(Dim::Three, 6), None);
    assert_eq!(ImpulseIndex::from_id(Dim::Two, 1), Some(ImpulseIndex::Linear(1)));
    assert_eq!(ImpulseIndex::from_id(Dim::Two, 2), Some(ImpulseIndex::Angular(0)));
    assert_eq!(ImpulseIndex::from_id(Dim::Two, 3), None);
    assert_eq!(ImpulseIndex::Angular(1).to_id(Dim::Three), 4);
    assert_eq!(ImpulseIndex::Linear(1).to_id(Dim::Two), 1);
    assert_eq!(ImpulseIndex::Angular(0).to_id(Dim::Two), 2);
}

#[test]
fn body_set_reports_activity() {
    let bodies = BodySet::new(vec![true, false]);
    assert_eq!(bodies.len(), 2);
    assert!(bodies.is_active(BodyHandle(0)));
    assert!(!bodies.is_active(BodyHandle(1)));
}
