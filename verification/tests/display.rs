use tanh_effect::params::{DisplayStyle, CEILING, GAIN, MIX};
use tanh_effect::store::ParamStore;

fn display_text(store: &ParamStore, index: i32) -> String {
    let value = f32::from_bits(store.get_value(index));
    match ParamStore::get_display_style(index) {
        DisplayStyle::Plain => format!("{}", value),
        DisplayStyle::Scaled { factor, decimals } => {
            format!("{:.*}", decimals as usize, value * factor as f32)
        }
    }
}

#[test]
fn half_mix_shows_as_fifty_percent() {
    let mut store = ParamStore::default();
    store.set_value(MIX, 0.5f32.to_bits());
    assert_eq!(display_text(&store, MIX), "50.00");
    assert_eq!(ParamStore::get_label(MIX), "%");
}

#[test]
fn full_mix_shows_as_hundred_percent() {
    let mut store = ParamStore::default();
    assert_eq!(display_text(&store, MIX), "100.00");
    store.set_value(MIX, 1.0f32.to_bits());
    assert_eq!(display_text(&store, MIX), "100.00");
}

#[test]
fn zero_mix_shows_as_zero_percent() {
    let mut store = ParamStore::default();
    store.set_value(MIX, 0.0f32.to_bits());
    assert_eq!(display_text(&store, MIX), "0.00");
}

#[test]
fn mix_is_rounded_to_two_decimals() {
    let mut store = ParamStore::default();
    store.set_value(MIX, 0.12345f32.to_bits());
    assert_eq!(display_text(&store, MIX), "12.35");
    store.set_value(MIX, 0.333f32.to_bits());
    assert_eq!(display_text(&store, MIX), "33.30");
}

#[test]
fn gain_and_ceiling_show_as_plain_decimals() {
    let mut store = ParamStore::default();
    assert_eq!(display_text(&store, GAIN), "1");
    assert_eq!(display_text(&store, CEILING), "1");
    store.set_value(GAIN, 2.5f32.to_bits());
    store.set_value(CEILING, 0.25f32.to_bits());
    assert_eq!(display_text(&store, GAIN), "2.5");
    assert_eq!(display_text(&store, CEILING), "0.25");
}
