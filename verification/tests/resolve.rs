use amethyst_input::store::{
    get_action_simple, get_input_axis_simple, AxisValue, InputStateStore, MapInputStore,
};

fn axis(value: f32) -> AxisValue {
    AxisValue { bits: value.to_bits() }
}

fn as_f32(value: AxisValue) -> f32 {
    f32::from_bits(value.bits)
}

#[test]
fn absent_name_scenario() {
    let empty = MapInputStore::new();
    assert_eq!(as_f32(get_input_axis_simple(&None, &empty)), 0.0);
    assert!(!get_action_simple(&None, &empty));

    let mut filled = MapInputStore::new();
    filled.set_axis(String::from("Throttle"), axis(0.5));
    filled.set_action(String::from("Jump"), true);
    assert_eq!(as_f32(get_input_axis_simple(&None, &filled)), 0.0);
    assert!(!get_action_simple(&None, &filled));
}

#[test]
fn unbound_axis_scenario() {
    let mut store = MapInputStore::new();
    store.set_axis(String::from("Steering"), axis(1.0));
    let name = Some(String::from("Throttle"));
    assert_eq!(as_f32(get_input_axis_simple(&name, &store)), 0.0);
}

#[test]
fn bound_axis_passes_value_through() {
    let mut store = MapInputStore::new();
    store.set_axis(String::from("Throttle"), axis(0.5));
    store.set_axis(String::from("Steering"), axis(-1.25));
    let throttle = Some(String::from("Throttle"));
    let steering = Some(String::from("Steering"));
    assert_eq!(get_input_axis_simple(&throttle, &store), axis(0.5));
    assert_eq!(as_f32(get_input_axis_simple(&throttle, &store)), 0.5);
    assert_eq!(get_input_axis_simple(&steering, &store).bits, (-1.25f32).to_bits());
}

#[test]
fn action_resolution() {
    let mut store = MapInputStore::new();
    store.set_action(String::from("Jump"), true);
    store.set_action(String::from("Crouch"), false);
    assert!(get_action_simple(&Some(String::from("Jump")), &store));
    assert!(!get_action_simple(&Some(String::from("Crouch")), &store));
    assert!(!get_action_simple(&Some(String::from("Fire")), &store));
}

#[test]
fn setting_again_overwrites() {
    let mut store = MapInputStore::new();
    store.set_axis(String::from("Throttle"), axis(0.25));
    store.set_axis(String::from("Throttle"), axis(0.75));
    let throttle = Some(String::from("Throttle"));
    assert_eq!(as_f32(get_input_axis_simple(&throttle, &store)), 0.75);

    store.set_action(String::from("Jump"), true);
    store.set_action(String::from("Jump"), false);
    assert!(!get_action_simple(&Some(String::from("Jump")), &store));
}

#[test]
fn axes_and_actions_are_independent() {
    let mut store = MapInputStore::new();
    store.set_axis(String::from("Fire"), axis(0.5));
    assert!(!get_action_simple(&Some(String::from("Fire")), &store));
    store.set_action(String::from("Fire"), true);
    assert!(get_action_simple(&Some(String::from("Fire")), &store));
    assert_eq!(as_f32(get_input_axis_simple(&Some(String::from("Fire")), &store)), 0.5);
}

#[test]
fn empty_name_is_an_ordinary_name() {
    let mut store = MapInputStore::new();
    let empty_name = Some(String::from(""));
    assert_eq!(as_f32(get_input_axis_simple(&empty_name, &store)), 0.0);
    store.set_axis(String::from(""), axis(2.0));
    assert_eq!(as_f32(get_input_axis_simple(&empty_name, &store)), 2.0);
}

#[test]
fn store_queries_report_absence() {
    let mut store = MapInputStore::new();
    store.set_axis(String::from("Throttle"), axis(0.5));
    assert_eq!(store.axis_value(&String::from("Throttle")), Some(axis(0.5)));
    assert_eq!(store.axis_value(&String::from("Steering")), None);
    assert_eq!(store.action_is_down(&String::from("Jump")), None);
    store.set_action(String::from("Jump"), true);
    assert_eq!(store.action_is_down(&String::from("Jump")), Some(true));
}

#[test]
fn resolution_is_idempotent() {
    let mut store = MapInputStore::new();
    store.set_axis(String::from("Throttle"), axis(0.5));
    store.set_action(String::from("Jump"), true);
    let names = [None, Some(String::from("Throttle")), Some(String::from("Jump"))];
    for name in &names {
        assert_eq!(get_input_axis_simple(name, &store), get_input_axis_simple(name, &store));
        assert_eq!(get_action_simple(name, &store), get_action_simple(name, &store));
    }
}
