use rbrt_core::paramset::ParamSet;
use rbrt_core::paramset::ParamSetItem;

#[test]
fn lookup_on_empty_set_returns_default() {
    let params = ParamSet::new();
    assert_eq!(params.find_one_int("maxdepth", 5), 5);
}

#[test]
fn lookup_finds_recorded_value() {
    let mut params = ParamSet::new();
    params.add_int(&String::from("maxdepth"), vec![7, 9]);
    assert_eq!(params.find_one_int("maxdepth", 5), 7);
    assert_eq!(params.find_one_int("samples", 4), 4);
}

#[test]
fn adding_again_replaces_the_earlier_item() {
    let mut params = ParamSet::new();
    params.add_int(&String::from("maxdepth"), vec![7]);
    params.add_int(&String::from("maxdepth"), vec![9]);
    assert_eq!(params.ints.len(), 1);
    assert_eq!(params.find_one_int("maxdepth", 5), 9);
}

#[test]
fn erasing_restores_the_default() {
    let mut params = ParamSet::new();
    params.add_int(&String::from("maxdepth"), vec![7]);
    params.erase_int(&String::from("maxdepth"));
    assert_eq!(params.ints.len(), 0);
    assert_eq!(params.find_one_int("maxdepth", 5), 5);
}

#[test]
fn items_without_values_are_passed_over() {
    let empty = ParamSetItem::<i32> { name: String::from("maxdepth"), data: vec![], looked_up: false };
    let full = ParamSetItem::<i32> { name: String::from("maxdepth"), data: vec![3], looked_up: false };
    let params = ParamSet { bools: vec![], ints: vec![empty, full] };
    assert_eq!(params.find_one_int("maxdepth", 5), 3);
}

#[test]
fn distinct_names_do_not_interfere() {
    let mut params = ParamSet::new();
    params.add_int(&String::from("maxdepth"), vec![7]);
    params.add_int(&String::from("samples"), vec![16]);
    params.erase_int(&String::from("samples"));
    assert_eq!(params.find_one_int("maxdepth", 5), 7);
    assert_eq!(params.find_one_int("samples", 4), 4);
}
