use tanh_effect::info::{get_info, Category, CHANNELS, UNIQUE_ID};
use tanh_effect::store::ParamStore;

#[test]
fn descriptor_names_the_effect() {
    let info = get_info();
    assert_eq!(info.name, "tanh");
    assert_eq!(info.vendor, "g-s-k");
    assert_eq!(info.unique_id, 1369);
    assert_eq!(info.unique_id, UNIQUE_ID);
    assert_eq!(info.category, Category::Effect);
}

#[test]
fn descriptor_is_stereo_in_and_out() {
    let info = get_info();
    assert_eq!(info.inputs, 2);
    assert_eq!(info.outputs, 2);
    assert_eq!(CHANNELS, 2);
}

#[test]
fn descriptor_counts_the_parameters_of_the_store() {
    let info = get_info();
    assert_eq!(info.parameters, 3);
    assert_eq!(info.parameters, ParamStore::get_count());
}

#[test]
fn descriptor_is_the_same_on_every_query() {
    let first = get_info();
    let second = get_info();
    assert_eq!(first.name, second.name);
    assert_eq!(first.vendor, second.vendor);
    assert_eq!(first.unique_id, second.unique_id);
    assert_eq!(first.category, second.category);
    assert_eq!(first.parameters, second.parameters);
    assert_eq!(first.inputs, second.inputs);
    assert_eq!(first.outputs, second.outputs);
}
