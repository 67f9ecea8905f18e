use whisper::params::ParameterStore;
use whisper::VOLUME_SCALE;

#[test]
fn default_volume_is_unit() {
    let s = ParameterStore::default();
    assert_eq!(s.get_parameter(0), VOLUME_SCALE);
}

#[test]
fn round_trip_valid_index() {
    let mut s = ParameterStore::new();
    s.set_parameter(0, 500);
    assert_eq!(s.get_parameter(0), 500);
    s.set_parameter(0, 0);
    assert_eq!(s.get_parameter(0), 0);
    s.set_parameter(0, VOLUME_SCALE);
    assert_eq!(s.get_parameter(0), VOLUME_SCALE);
}

#[test]
fn set_on_invalid_index_is_a_no_op() {
    let mut s = ParameterStore::new();
    s.set_parameter(0, 250);
    s.set_parameter(1, 900);
    s.set_parameter(-1, 900);
    s.set_parameter(7, 900);
    assert_eq!(s.get_parameter(0), 250);
}

#[test]
fn get_on_invalid_index_is_neutral() {
    let s = ParameterStore::new();
    assert_eq!(s.get_parameter(1), 0);
    assert_eq!(s.get_parameter(-3), 0);
}

#[test]
fn set_forces_value_into_range() {
    let mut s = ParameterStore::new();
    s.set_parameter(0, 5000);
    assert_eq!(s.get_parameter(0), VOLUME_SCALE);
}

#[test]
fn display_text_is_fixed_three_decimals() {
    assert_eq!(ParameterStore::from_raw(500).get_parameter_text(0), "0.500");
    assert_eq!(ParameterStore::from_raw(1000).get_parameter_text(0), "1.000");
    assert_eq!(ParameterStore::from_raw(0).get_parameter_text(0), "0.000");
    assert_eq!(ParameterStore::from_raw(7).get_parameter_text(0), "0.007");
    assert_eq!(ParameterStore::from_raw(42).get_parameter_text(0), "0.042");
    assert_eq!(ParameterStore::from_raw(999).get_parameter_text(0), "0.999");
}

#[test]
fn display_text_of_unknown_index_is_empty() {
    let s = ParameterStore::new();
    assert_eq!(s.get_parameter_text(1), "");
    assert_eq!(s.get_parameter_text(-1), "");
}

#[test]
fn labels_and_names() {
    let s = ParameterStore::new();
    assert_eq!(s.get_parameter_label(0), "x");
    assert_eq!(s.get_parameter_label(1), "");
    assert_eq!(s.get_parameter_name(0), "volume");
    assert_eq!(s.get_parameter_name(2), "");
}
