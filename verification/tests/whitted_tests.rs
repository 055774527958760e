use rbrt_core::paramset::ParamSet;
use rbrt_core::whitted::WhittedIntegrator;

#[test]
fn integrator_keeps_its_depth_bound() {
    let integrator = WhittedIntegrator::new(8);
    assert_eq!(integrator.max_depth, 8);
}

#[test]
fn depth_bound_defaults_to_five() {
    let params = ParamSet::new();
    let integrator = WhittedIntegrator::from_paramset(&params);
    assert_eq!(integrator.max_depth, 5);
}

#[test]
fn depth_bound_read_from_parameters() {
    let mut params = ParamSet::new();
    params.add_int(&String::from("maxdepth"), vec![3]);
    let integrator = WhittedIntegrator::from_paramset(&params);
    assert_eq!(integrator.max_depth, 3);
}

#[test]
fn specular_recursion_runs_below_the_bound() {
    let integrator = WhittedIntegrator::new(5);
    assert!(integrator.specular_recursion_allowed(0));
    assert!(integrator.specular_recursion_allowed(3));
}

#[test]
fn specular_recursion_stops_at_the_cutoff() {
    let integrator = WhittedIntegrator::new(5);
    assert!(!integrator.specular_recursion_allowed(4));
    assert!(!integrator.specular_recursion_allowed(7));
    let shallow = WhittedIntegrator::new(1);
    assert!(!shallow.specular_recursion_allowed(0));
}
