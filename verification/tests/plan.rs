use gpu_oneshot::plan::DispatchGrid;
use gpu_oneshot::plan::JobPlan;
use gpu_oneshot::plan::PlanError;
use gpu_oneshot::plan::ELEMENT_BYTES;

#[test]
fn plan_for_five_elements() {
    let plan = JobPlan::for_elements(5).unwrap();
    assert_eq!(plan.elements(), 5);
    assert_eq!(plan.grid(), DispatchGrid { x: 5, y: 1, z: 1 });
    assert_eq!(plan.output_bytes(), 20);
}

#[test]
fn plan_for_the_default_input() {
    let plan = JobPlan::for_elements(1028).unwrap();
    assert_eq!(plan.elements(), 1028);
    assert_eq!(plan.grid(), DispatchGrid { x: 1028, y: 1, z: 1 });
    assert_eq!(plan.output_bytes(), 4112);
}

#[test]
fn plan_for_empty_input_dispatches_nothing() {
    let plan = JobPlan::for_elements(0).unwrap();
    assert_eq!(plan.elements(), 0);
    assert_eq!(plan.grid(), DispatchGrid { x: 0, y: 1, z: 1 });
    assert_eq!(plan.output_bytes(), 0);
}

#[test]
fn plan_for_one_element() {
    let plan = JobPlan::for_elements(1).unwrap();
    assert_eq!(plan.grid(), DispatchGrid { x: 1, y: 1, z: 1 });
    assert_eq!(plan.output_bytes(), 4);
}

#[test]
fn element_size_is_four_bytes() {
    assert_eq!(ELEMENT_BYTES, 4);
    assert_eq!(ELEMENT_BYTES, std::mem::size_of::<f32>() as u64);
}

#[test]
fn plan_for_the_largest_grid() {
    if let Ok(n) = usize::try_from(u32::MAX) {
        let plan = JobPlan::for_elements(n).unwrap();
        assert_eq!(plan.grid(), DispatchGrid { x: u32::MAX, y: 1, z: 1 });
        assert_eq!(plan.output_bytes(), 17_179_869_180);
    }
}

#[test]
fn plan_refuses_more_elements_than_a_grid_holds() {
    if let Ok(n) = usize::try_from(1u64 << 32) {
        assert_eq!(JobPlan::for_elements(n), Err(PlanError::TooManyElements));
        assert_eq!(JobPlan::for_elements(usize::MAX), Err(PlanError::TooManyElements));
    }
}

#[test]
fn planning_twice_gives_the_same_plan() {
    assert_eq!(JobPlan::for_elements(1028), JobPlan::for_elements(1028));
}
