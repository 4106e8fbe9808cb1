use picosine::audio_ports::AudioPortType;
use picosine::audio_ports::AudioPorts;
use picosine::audio_processor::ParamChange;
use picosine::audio_processor::PicosineAudioProcessor;
use picosine::main_thread::PicosineMainThread;
use picosine::params::Params;
use picosine::shared::PicosineShared;
use picosine::shared::FREQUENCY_DEFAULT;
use picosine::shared::FREQUENCY_MAX;
use picosine::shared::FREQUENCY_MIN;
use picosine::shared::FREQUENCY_PARAM;
use picosine::shared::GAIN;

#[test]
fn constants_are_the_bit_patterns_of_their_values() {
    assert_eq!(f64::from_bits(FREQUENCY_DEFAULT), 440.0);
    assert_eq!(f64::from_bits(FREQUENCY_MIN), 30.0);
    assert_eq!(f64::from_bits(FREQUENCY_MAX), 1000.0);
    assert_eq!(f64::from_bits(GAIN), 0.5);
    assert_eq!(FREQUENCY_PARAM, 0);
}

#[test]
fn there_is_one_parameter() {
    let shared = PicosineShared::new();
    let main_thread = PicosineMainThread::new(&shared);
    assert_eq!(Params::count(&main_thread), 1);
}

#[test]
fn the_parameter_is_the_frequency() {
    let shared = PicosineShared::new();
    let main_thread = PicosineMainThread::new(&shared);
    let info = main_thread.get_info(0).unwrap();
    assert_eq!(info.id, 0);
    assert_eq!(info.name, "Frequency");
    assert_eq!(info.module, "picosine/frequency");
    assert_eq!(f64::from_bits(info.default_value), 440.0);
    assert_eq!(f64::from_bits(info.min_value), 30.0);
    assert_eq!(f64::from_bits(info.max_value), 1000.0);
    assert!(info.is_stepped);
}

#[test]
fn no_parameter_beyond_the_first() {
    let shared = PicosineShared::new();
    let main_thread = PicosineMainThread::new(&shared);
    assert!(main_thread.get_info(1).is_none());
    assert!(main_thread.get_info(2).is_none());
    assert!(main_thread.get_info(u32::MAX).is_none());
}

#[test]
fn a_new_plugin_is_at_the_default_frequency() {
    let shared = PicosineShared::new();
    let main_thread = PicosineMainThread::new(&shared);
    assert_eq!(main_thread.get_value(0), Some(440f64.to_bits()));
}

#[test]
fn only_the_frequency_has_a_value() {
    let shared = PicosineShared::new();
    let main_thread = PicosineMainThread::new(&shared);
    assert_eq!(main_thread.get_value(1), None);
    assert_eq!(main_thread.get_value(u32::MAX), None);
}

#[test]
fn the_value_follows_the_audio_thread() {
    let shared = PicosineShared::new();
    let main_thread = PicosineMainThread::new(&shared);
    let mut processor = PicosineAudioProcessor::activate(&shared, 48_000f64.to_bits());
    processor.handle_events(&[ParamChange { param_id: 0, value: 880f64.to_bits() }]);
    assert_eq!(main_thread.get_value(0), Some(880f64.to_bits()));
    processor.handle_events(&[
        ParamChange { param_id: 0, value: 100f64.to_bits() },
        ParamChange { param_id: 0, value: 61.5f64.to_bits() },
    ]);
    assert_eq!(main_thread.get_value(0), Some(61.5f64.to_bits()));
    processor.handle_events(&[]);
    assert_eq!(main_thread.get_value(0), Some(61.5f64.to_bits()));
}

#[test]
fn a_frequency_is_shown_as_its_whole_part_and_the_unit() {
    let shared = PicosineShared::new();
    let main_thread = PicosineMainThread::new(&shared);
    assert_eq!(main_thread.value_to_text(0, 440f64.to_bits()), "440 hz");
    assert_eq!(main_thread.value_to_text(0, 30f64.to_bits()), "30 hz");
    assert_eq!(main_thread.value_to_text(0, 1000f64.to_bits()), "1000 hz");
    assert_eq!(main_thread.value_to_text(0, 440.99f64.to_bits()), "440 hz");
    assert_eq!(main_thread.value_to_text(0, 0.25f64.to_bits()), "0 hz");
}

#[test]
fn a_frequency_out_of_range_is_shown_at_the_nearest_end() {
    let shared = PicosineShared::new();
    let main_thread = PicosineMainThread::new(&shared);
    assert_eq!(main_thread.value_to_text(0, (-3f64).to_bits()), "0 hz");
    assert_eq!(main_thread.value_to_text(0, f64::NAN.to_bits()), "0 hz");
    assert_eq!(main_thread.value_to_text(0, 1e10f64.to_bits()), "4294967295 hz");
    assert_eq!(main_thread.value_to_text(0, f64::INFINITY.to_bits()), "4294967295 hz");
}

#[test]
fn the_text_agrees_with_the_standard_formatting() {
    let shared = PicosineShared::new();
    let main_thread = PicosineMainThread::new(&shared);
    for value in [0.0f64, 29.9, 30.0, 123.456, 999.5, 1000.0, 65_536.0, 4_000_000_000.0] {
        assert_eq!(
            main_thread.value_to_text(0, value.to_bits()),
            format!("{} hz", value as u32)
        );
    }
}

#[test]
fn another_parameter_has_no_text() {
    let shared = PicosineShared::new();
    let main_thread = PicosineMainThread::new(&shared);
    assert_eq!(main_thread.value_to_text(1, 440f64.to_bits()), "");
    assert_eq!(main_thread.value_to_text(u32::MAX, 440f64.to_bits()), "");
}

#[test]
fn no_text_is_read_back() {
    let shared = PicosineShared::new();
    let main_thread = PicosineMainThread::new(&shared);
    assert_eq!(main_thread.text_to_value(0, "440 hz"), None);
    assert_eq!(main_thread.text_to_value(0, "440"), None);
    assert_eq!(main_thread.text_to_value(1, ""), None);
}

#[test]
fn there_is_one_port_on_either_side() {
    let shared = PicosineShared::new();
    let main_thread = PicosineMainThread::new(&shared);
    assert_eq!(AudioPorts::count(&main_thread, true), 1);
    assert_eq!(AudioPorts::count(&main_thread, false), 1);
}

#[test]
fn the_port_is_the_main_stereo_port() {
    let shared = PicosineShared::new();
    let main_thread = PicosineMainThread::new(&shared);
    for is_input in [true, false] {
        let info = main_thread.get(is_input, 0).unwrap();
        assert_eq!(info.id, 0);
        assert_eq!(info.name, "main");
        assert_eq!(info.channel_count, 2);
        assert!(info.is_main);
        assert_eq!(info.port_type, Some(AudioPortType::Stereo));
        assert_eq!(info.in_place_pair, None);
    }
}

#[test]
fn no_port_beyond_the_first() {
    let shared = PicosineShared::new();
    let main_thread = PicosineMainThread::new(&shared);
    assert!(main_thread.get(true, 1).is_none());
    assert!(main_thread.get(false, 1).is_none());
    assert!(main_thread.get(false, u32::MAX).is_none());
}
