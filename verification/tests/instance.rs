use plugin_host::audio_bus::{AudioBus, AudioBusDescriptor, ConfigMismatch, IOConfigutaion};
use plugin_host::channel::EventChannel;
use plugin_host::discovery::{Format, PluginDescriptor};
use plugin_host::error::Error;
use plugin_host::event::{
    HostIssuedEvent, HostIssuedEventType, MidiEvent, PluginIssuedEvent,
};
use plugin_host::heapless_vec::HeaplessVec;
use plugin_host::parameter::Parameter;
use plugin_host::plugin::{EditorError, PluginInner, PluginInstance};
use plugin_host::{load, BlockSize, ProcessDetails, SampleRate, Samples, WindowIDType};

struct MockBackend {
    latency: Samples,
    input_channels: Vec<usize>,
    output_channels: Vec<usize>,
    processed_batches: Vec<Vec<HostIssuedEvent>>,
    show_editor_calls: usize,
    hide_editor_calls: usize,
    resume_calls: usize,
    suspend_calls: usize,
    sample_rate_changes: Vec<SampleRate>,
    block_size_changes: Vec<BlockSize>,
    editor_updates_calls: usize,
    editor_size: Option<(usize, usize)>,
    flush_queue: Vec<PluginIssuedEvent>,
}

impl MockBackend {
    fn mono_in_stereo_out(latency: Samples) -> Self {
        MockBackend {
            latency,
            input_channels: vec![1],
            output_channels: vec![2],
            processed_batches: Vec::new(),
            show_editor_calls: 0,
            hide_editor_calls: 0,
            resume_calls: 0,
            suspend_calls: 0,
            sample_rate_changes: Vec::new(),
            block_size_changes: Vec::new(),
            editor_updates_calls: 0,
            editor_size: Some((640, 480)),
            flush_queue: Vec::new(),
        }
    }
}

impl PluginInner for MockBackend {
    type Sample = f32;

    fn process(
        &mut self,
        _inputs: &Vec<AudioBus<f32>>,
        _outputs: &mut Vec<AudioBus<f32>>,
        events: Vec<HostIssuedEvent>,
        _process_details: &ProcessDetails,
        _notifications: &mut EventChannel,
    ) {
        self.processed_batches.push(events);
    }

    fn set_preset_data(&mut self, _data: Vec<u8>) -> Result<(), String> {
        Ok(())
    }

    fn get_preset_data(&mut self) -> Result<Vec<u8>, String> {
        Ok(vec![1, 2, 3])
    }

    fn get_preset_name(&mut self, _id: i32) -> Result<String, String> {
        Ok("Init".to_string())
    }

    fn set_preset(&mut self, _id: i32) -> Result<(), String> {
        Ok(())
    }

    fn get_parameter(&self, index: i32) -> Parameter {
        Parameter {
            id: index,
            name: format!("p{}", index),
            index,
            value_bits: 0.5f32.to_bits(),
            formatted_value: "50 %".to_string(),
            hidden: index == 1,
            can_automate: true,
            is_wrap_around: false,
            read_only: false,
            default_value_bits: None,
        }
    }

    fn show_editor(
        &mut self,
        _window_id: usize,
        _window_id_type: WindowIDType,
    ) -> Result<(usize, usize), Error> {
        self.show_editor_calls += 1;
        match self.editor_size {
            Some(size) => Ok(size),
            None => Err(Error::new("plugin does not have an editor")),
        }
    }

    fn hide_editor(&mut self) {
        self.hide_editor_calls += 1;
    }

    fn change_sample_rate(&mut self, rate: SampleRate) {
        self.sample_rate_changes.push(rate);
    }

    fn change_block_size(&mut self, size: BlockSize) {
        self.block_size_changes.push(size);
    }

    fn suspend(&mut self) {
        self.suspend_calls += 1;
    }

    fn resume(&mut self) {
        self.resume_calls += 1;
    }

    fn get_io_configuration(&mut self) -> IOConfigutaion {
        let mut inputs: HeaplessVec<AudioBusDescriptor, 16> = HeaplessVec::new();
        for &channels in &self.input_channels {
            inputs.push(AudioBusDescriptor { channels }).unwrap();
        }
        let mut outputs: HeaplessVec<AudioBusDescriptor, 16> = HeaplessVec::new();
        for &channels in &self.output_channels {
            outputs.push(AudioBusDescriptor { channels }).unwrap();
        }
        IOConfigutaion {
            audio_inputs: inputs,
            audio_outputs: outputs,
            event_inputs_count: 1,
        }
    }

    fn get_latency(&mut self) -> Samples {
        self.latency
    }

    fn editor_updates(&mut self) -> Vec<PluginIssuedEvent> {
        self.editor_updates_calls += 1;
        std::mem::take(&mut self.flush_queue)
    }

    fn get_parameter_count(&self) -> usize {
        3
    }
}

fn descriptor(format: Format, initial_latency: Samples) -> PluginDescriptor {
    PluginDescriptor {
        name: "Mock".to_string(),
        id: "mock".to_string(),
        path: "/plugins/mock.vst3".to_string(),
        version: "1.0".to_string(),
        vendor: "Test".to_string(),
        format,
        initial_latency,
    }
}

fn instance(format: Format, latency: Samples) -> PluginInstance<MockBackend> {
    load(MockBackend::mono_in_stereo_out(latency), descriptor(format, latency))
}

fn bus(channels: usize) -> AudioBus<f32> {
    let mut data: Vec<Vec<f32>> = Vec::new();
    for _ in 0..channels {
        data.push(vec![0.0f32; 64]);
    }
    AudioBus::new(data)
}

fn midi_event(block_time: usize, note: u8) -> HostIssuedEvent {
    HostIssuedEvent {
        event_type: HostIssuedEventType::Midi(MidiEvent {
            note_length: 0,
            midi_data: [0x90, note, 100],
            detune_bits: 0,
            note_id: -1,
        }),
        block_time,
        ppq_time_bits: 0,
        bus_index: 0,
        is_live: false,
    }
}

#[test]
fn load_starts_suspended_with_editor_closed() {
    let instance = instance(Format::Vst3, 128);
    assert_eq!(instance.get_latency(), 128);
    assert!(!instance.is_showing_editor());
    assert!(!instance.resumed);
    let d = instance.get_descriptor();
    assert_eq!(d.name, "Mock");
    assert_eq!(d.initial_latency, 128);
}

// Matching buffers never raise a mismatch; any deviation does, and the
// backend never runs on a mismatch.
#[test]
fn process_validates_buffers() {
    let mut instance = instance(Format::Vst3, 0);
    let details = ProcessDetails::default();

    let inputs = vec![bus(1)];
    let mut outputs = vec![bus(2)];
    assert!(instance.process(&inputs, &mut outputs, vec![], &details).is_ok());
    assert_eq!(instance.inner.processed_batches.len(), 1);

    let bad_inputs = vec![bus(2)];
    let mut outputs = vec![bus(2)];
    match instance.process(&bad_inputs, &mut outputs, vec![], &details) {
        Err(ConfigMismatch::InputChannels { bus, expected, actual }) => {
            assert_eq!(bus, 0);
            assert_eq!(expected, 1);
            assert_eq!(actual, 2);
        }
        other => panic!("expected an input channel mismatch, got {:?}", other),
    }
    assert_eq!(instance.inner.processed_batches.len(), 1);

    let inputs = vec![bus(1)];
    let mut bad_outputs = vec![bus(2), bus(2)];
    assert!(matches!(
        instance.process(&inputs, &mut bad_outputs, vec![], &details),
        Err(ConfigMismatch::BusCount { .. })
    ));
    assert_eq!(instance.inner.processed_batches.len(), 1);
}

// The backend observes events in non-decreasing sample-offset order.
#[test]
fn process_sorts_events_for_the_backend() {
    let mut instance = instance(Format::Vst3, 0);
    let details = ProcessDetails::default();
    let inputs = vec![bus(1)];
    let mut outputs = vec![bus(2)];
    let events = vec![midi_event(40, 60), midi_event(3, 61), midi_event(21, 62)];
    instance.process(&inputs, &mut outputs, events, &details).unwrap();

    let batch = &instance.inner.processed_batches[0];
    let times: Vec<usize> = batch.iter().map(|e| e.block_time).collect();
    assert_eq!(times, vec![3, 21, 40]);
}

#[test]
fn process_auto_resumes_once() {
    let mut instance = instance(Format::Vst3, 0);
    let details = ProcessDetails::default();
    let inputs = vec![bus(1)];
    let mut outputs = vec![bus(2)];
    instance.process(&inputs, &mut outputs, vec![], &details).unwrap();
    assert!(instance.resumed);
    let mut outputs = vec![bus(2)];
    instance.process(&inputs, &mut outputs, vec![], &details).unwrap();
    assert_eq!(instance.inner.resume_calls, 1);

    instance.suspend();
    assert!(!instance.resumed);
    assert_eq!(instance.inner.suspend_calls, 1);
    instance.suspend();
    assert_eq!(instance.inner.suspend_calls, 1);
}

// The legacy format reconfigures synchronously on the audio thread; the
// others record the request and apply it on the next drain.
#[test]
fn reconfiguration_timing_depends_on_format() {
    let details = ProcessDetails::default();
    let inputs = vec![bus(1)];

    let mut legacy = instance(Format::Vst2, 0);
    let mut outputs = vec![bus(2)];
    legacy.process(&inputs, &mut outputs, vec![], &details).unwrap();
    assert_eq!(legacy.inner.sample_rate_changes, vec![44100]);
    assert_eq!(legacy.inner.block_size_changes, vec![512]);

    let mut modern = instance(Format::Clap, 0);
    let mut outputs = vec![bus(2)];
    modern.process(&inputs, &mut outputs, vec![], &details).unwrap();
    assert!(modern.inner.sample_rate_changes.is_empty());
    assert!(modern.inner.block_size_changes.is_empty());

    let drained = modern.get_events();
    assert!(drained.is_empty());
    assert_eq!(modern.inner.sample_rate_changes, vec![44100]);
    assert_eq!(modern.inner.block_size_changes, vec![512]);
    assert_eq!(modern.inner.editor_updates_calls, 1);

    // unchanged values are not re-applied on the next drain
    let _ = modern.get_events();
    assert_eq!(modern.inner.sample_rate_changes, vec![44100]);
}

// A configuration-change notification yields the synthesized latency
// event immediately before the forwarded notification, in that order.
#[test]
fn configuration_change_emits_latency_first() {
    let mut instance = instance(Format::Vst3, 0);
    instance.inner.latency = 128;
    instance.inner.output_channels = vec![2, 2];
    assert!(instance.plugin_issued_events.try_push(PluginIssuedEvent::IOChanged));

    let drained = instance.get_events();
    assert_eq!(
        drained,
        vec![PluginIssuedEvent::ChangeLatency(128), PluginIssuedEvent::IOChanged]
    );
    assert_eq!(instance.get_latency(), 128);
    // the cached configuration was re-queried at the same moment
    assert_eq!(instance.io_configuration.audio_inputs.len(), 1);
    assert_eq!(instance.io_configuration.audio_inputs.get(0).channels, 1);
    assert_eq!(instance.io_configuration.audio_outputs.len(), 2);
}

#[test]
fn get_events_forwards_other_notifications_in_order() {
    let mut instance = instance(Format::Vst3, 64);
    assert!(instance.plugin_issued_events.try_push(PluginIssuedEvent::UpdateDisplay));
    assert!(instance
        .plugin_issued_events
        .try_push(PluginIssuedEvent::ResizeWindow(800, 600)));

    let drained = instance.get_events();
    assert_eq!(
        drained,
        vec![PluginIssuedEvent::UpdateDisplay, PluginIssuedEvent::ResizeWindow(800, 600)]
    );
    // no configuration change: the cached latency stays
    assert_eq!(instance.get_latency(), 64);
    // the channel was drained
    assert!(instance.get_events().is_empty());
}

// A second show_editor returns AlreadyOpen without invoking the backend;
// hide_editor while closed is a no-op.
#[test]
fn editor_open_close_gating() {
    let mut instance = instance(Format::Vst3, 0);

    instance.hide_editor();
    assert_eq!(instance.inner.hide_editor_calls, 0);

    let size = instance.show_editor(0xBEEF, WindowIDType::XWNDX11).unwrap();
    assert_eq!(size, (640, 480));
    assert!(instance.is_showing_editor());
    assert_eq!(instance.inner.show_editor_calls, 1);

    match instance.show_editor(0xBEEF, WindowIDType::XWNDX11) {
        Err(EditorError::AlreadyOpen) => {}
        other => panic!("expected AlreadyOpen, got {:?}", other),
    }
    assert_eq!(instance.inner.show_editor_calls, 1);

    instance.hide_editor();
    assert!(!instance.is_showing_editor());
    assert_eq!(instance.inner.hide_editor_calls, 1);
    instance.hide_editor();
    assert_eq!(instance.inner.hide_editor_calls, 1);
}

#[test]
fn editor_failure_leaves_editor_closed() {
    let mut instance = instance(Format::Vst3, 0);
    instance.inner.editor_size = None;
    match instance.show_editor(0, WindowIDType::Other) {
        Err(EditorError::Backend(e)) => {
            assert_eq!(e.text(), "plugin does not have an editor");
        }
        other => panic!("expected a backend error, got {:?}", other),
    }
    assert!(!instance.is_showing_editor());
}

#[test]
fn parameter_queries_pass_through() {
    let instance = instance(Format::Vst3, 0);
    assert_eq!(instance.get_parameter_count(), 3);
    let p = instance.get_parameter(2);
    assert_eq!(p.id, 2);
    // the hidden parameter (index 1) is filtered out
    let all = instance.get_all_parameters();
    assert_eq!(all.len(), 2);
    assert!(all.iter().all(|p| !p.hidden));
}

#[test]
fn preset_calls_pass_through() {
    let mut instance = instance(Format::Vst3, 0);
    assert_eq!(instance.get_preset_data().unwrap(), vec![1, 2, 3]);
    assert!(instance.set_preset_data(vec![1, 2, 3]).is_ok());
    assert_eq!(instance.get_preset_name(0).unwrap(), "Init");
    assert!(instance.set_preset(0).is_ok());
}

#[test]
fn get_io_configuration_refreshes_cache() {
    let mut instance = instance(Format::Vst3, 0);
    instance.inner.input_channels = vec![2];
    let io = instance.get_io_configuration();
    assert_eq!(io.audio_inputs.len(), 1);
    assert_eq!(io.audio_inputs.get(0).channels, 2);

    // the refreshed cache now validates against the new layout
    let details = ProcessDetails::default();
    let inputs = vec![bus(2)];
    let mut outputs = vec![bus(2)];
    assert!(instance.process(&inputs, &mut outputs, vec![], &details).is_ok());
}

// Editor-flush notifications are queued behind what the channel already
// held, and both drain out in that order.
#[test]
fn get_events_appends_editor_flush_behind_held_events() {
    let mut instance = instance(Format::Vst3, 0);
    instance.inner.latency = 64;
    instance.inner.flush_queue = vec![PluginIssuedEvent::UpdateDisplay];
    assert!(instance.plugin_issued_events.try_push(PluginIssuedEvent::IOChanged));

    let drained = instance.get_events();
    assert_eq!(
        drained,
        vec![
            PluginIssuedEvent::ChangeLatency(64),
            PluginIssuedEvent::IOChanged,
            PluginIssuedEvent::UpdateDisplay,
        ]
    );
}
