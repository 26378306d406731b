use danji::params::{
    model_selection, tube_by_name, tube_selection, AmpModel, Level, SharedParams, TubeModel,
    DEFAULT_BPLUS_BITS, DEFAULT_GAIN_BITS, DEFAULT_VOLUME_BITS, MODEL_COUNT, TUBE_COUNT,
};

#[test]
fn start_state() {
    let p = SharedParams::new();
    assert!(!p.bypass_enabled());
    assert_eq!(p.tube, "12AX7");
    assert_eq!(p.model, "single");
    assert_eq!(p.gain, DEFAULT_GAIN_BITS);
    assert_eq!(p.volume, DEFAULT_VOLUME_BITS);
    assert_eq!(p.bplus, DEFAULT_BPLUS_BITS);
}

#[test]
fn start_levels_are_the_documented_decibels() {
    let gain = f32::from_bits(DEFAULT_GAIN_BITS);
    let volume = f32::from_bits(DEFAULT_VOLUME_BITS);
    let bplus = f32::from_bits(DEFAULT_BPLUS_BITS);
    assert_eq!(gain, 10.0_f64.powf(-38.0 / 20.0) as f32);
    assert_eq!(volume, 10.0_f64.powf(-12.0 / 20.0) as f32);
    assert_eq!(bplus, 300.0f32);
}

#[test]
fn every_tube_is_found_by_its_name() {
    for i in 0..TUBE_COUNT {
        let t = TubeModel::at(i);
        assert_eq!(t.index(), i);
        assert_eq!(tube_by_name(t.name()), Ok(t));
        assert_eq!(tube_selection(t.name()), i);
    }
    assert_eq!(TubeModel::at(3).name(), "6DJ8");
}

#[test]
fn unknown_tube_is_refused() {
    assert_eq!(tube_by_name("6V6"), Err("unknown tube: 6V6".to_string()));
    assert_eq!(tube_by_name("12ax7"), Err("unknown tube: 12ax7".to_string()));
    assert_eq!(tube_by_name(""), Err("unknown tube: ".to_string()));
    assert_eq!(tube_selection("6V6"), 0);
}

#[test]
fn every_model_is_found_by_its_name() {
    for i in 0..MODEL_COUNT {
        let m = AmpModel::at(i);
        assert_eq!(m.index(), i);
        assert_eq!(AmpModel::from_name(m.name()), Some(m));
        assert_eq!(model_selection(m.name()), i);
    }
    assert_eq!(AmpModel::from_name("Single"), None);
    assert_eq!(model_selection("quad"), 0);
}

#[test]
fn level_texts_and_bounds() {
    assert_eq!(Level::Volume.keyword(), "volume");
    assert_eq!(Level::Gain.keyword(), "gain");
    assert_eq!(Level::BPlus.keyword(), "bplus");
    assert_eq!(Level::Volume.bounds(), (-60, 12));
    assert_eq!(Level::Gain.bounds(), (-96, 10));
    assert_eq!(Level::BPlus.bounds(), (50, 600));
    assert_eq!(Level::Volume.parse_error(), "invalid volume");
    assert_eq!(Level::Gain.parse_error(), "invalid gain");
    assert_eq!(Level::BPlus.parse_error(), "invalid voltage");
    assert_eq!(Level::Volume.range_error(), "volume range: -60..+12 dB");
    assert_eq!(Level::Gain.range_error(), "gain range: -96..+10 dB");
    assert_eq!(Level::BPlus.range_error(), "bplus range: 50..600 V");
}
