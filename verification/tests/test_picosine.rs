use picosine::audio_ports::AudioPorts;
use picosine::audio_processor::PicosineAudioProcessor;
use picosine::main_thread::PicosineMainThread;
use picosine::plugin::Picosine;
use picosine::shared::PicosineShared;

/// Renders one block the way the plugin's host-facing side does.
fn render(block: &picosine::audio_processor::RenderBlock, output: &mut [f32]) {
    let freq_hz = f64::from_bits(block.freq_hz);
    let rate_hz = f64::from_bits(block.rate_hz);
    let gain_factor = f64::from_bits(block.gain_factor);
    for (idx, sample) in output.iter_mut().enumerate() {
        let time = block.sample_time(idx as u32) as f64;
        *sample =
            (f64::sin(2.0f64 * std::f64::consts::PI * freq_hz * time / rate_hz) * gain_factor) as f32;
    }
}

#[test]
pub fn it_works() {
    let descriptor = Picosine::get_descriptor();
    assert_eq!(descriptor.id.as_bytes(), b"link.stef.audio.picosine");
    assert_eq!(descriptor.name.as_bytes(), b"PicoSine");

    assert!(descriptor.vendor.as_bytes().is_empty());
    assert!(descriptor.url.as_bytes().is_empty());
    assert!(descriptor.manual_url.as_bytes().is_empty());
    assert!(descriptor.support_url.as_bytes().is_empty());
    assert!(descriptor.description.as_bytes().is_empty());
    assert!(descriptor.version.as_bytes().is_empty());

    assert_eq!(
        descriptor
            .features
            .iter()
            .map(|s| s.as_bytes())
            .collect::<Vec<_>>(),
        &[&b"synthesizer"[..], &b"stereo"[..]]
    );

    let shared = PicosineShared::new();
    let plugin_main_thread = PicosineMainThread::new(&shared);
    assert_eq!(1, AudioPorts::count(&plugin_main_thread, true));
    assert_eq!(1, AudioPorts::count(&plugin_main_thread, false));

    let info = plugin_main_thread.get(false, 0).unwrap();

    assert_eq!(info.id, 0);
    assert_eq!(info.name.as_bytes(), b"main");

    let mut processor = PicosineAudioProcessor::activate(&shared, 44_100f64.to_bits());

    let inputs = [vec![69f32; 32], vec![69f32; 32]];
    let mut outputs = [vec![0f32; 32], vec![0f32; 32]];

    let block = processor.process(&[], inputs[0].len() as u32);
    for output in outputs.iter_mut() {
        render(&block, output);
    }

    // Check that the output is not static
    for channel_index in 0..1 {
        let _inbuf = &inputs[channel_index];
        let outbuf = &outputs[channel_index];
        for output_window in outbuf.windows(20) {
            assert!(output_window.iter().any(|sample| *sample != 0.0));
        }
    }
}
