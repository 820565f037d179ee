use plugin_host::audio_bus::{
    guess_bus_layout, total_channels, AudioBus, AudioBusDescriptor, ConfigMismatch,
    IOConfigutaion,
};
use plugin_host::channel::EventChannel;
use plugin_host::error::err;
use plugin_host::event::{
    dedup_parameter_updates, sort_events, HostIssuedEvent, HostIssuedEventType, MidiEvent,
    PluginIssuedEvent,
};
use plugin_host::heapless_vec::{HeaplessString, HeaplessVec};
use plugin_host::parameter::{
    is_nan_bits, EditorParamsState, ParameterUpdate, F32_NAN_BITS,
};
use plugin_host::preset_blob::{encode_preset_blob, split_preset_blob};
use plugin_host::thread_check::{
    ensure_main_thread, ensure_non_main_thread, is_main_thread, is_thread_checking_enabled,
    mark_current_as_main, ThreadDisciplineViolation, ThreadRegistry, ThreadType,
};
use plugin_host::PlayingState;

fn param_event(id: i32, value: f32, block_time: usize) -> HostIssuedEvent {
    HostIssuedEvent {
        event_type: HostIssuedEventType::Parameter(ParameterUpdate::new(id, value.to_bits())),
        block_time,
        ppq_time_bits: 0,
        bus_index: 0,
        is_live: false,
    }
}

fn midi_event(block_time: usize, note: u8) -> HostIssuedEvent {
    HostIssuedEvent {
        event_type: HostIssuedEventType::Midi(MidiEvent {
            note_length: 0,
            midi_data: [0x90, note, 100],
            detune_bits: 0,
            note_id: -1,
        }),
        block_time,
        ppq_time_bits: 0,
        bus_index: 0,
        is_live: false,
    }
}

// Fixed-capacity vector: the (N+1)th push fails and leaves N items;
// popping N times empties it.
#[test]
fn heapless_vec_capacity() {
    let mut v: HeaplessVec<u32, 3> = HeaplessVec::new();
    assert!(v.is_empty());
    assert!(v.push(10).is_ok());
    assert!(v.push(20).is_ok());
    assert!(v.push(30).is_ok());
    assert!(v.push(40).is_err());
    assert_eq!(v.len(), 3);
    assert_eq!(v.pop(), Some(30));
    assert_eq!(v.pop(), Some(20));
    assert_eq!(v.pop(), Some(10));
    assert!(v.is_empty());
    assert_eq!(v.pop(), None);
}

#[test]
fn heapless_vec_iter_and_contains() {
    let mut v: HeaplessVec<i32, 8> = HeaplessVec::new();
    v.push(1).unwrap();
    v.push(2).unwrap();
    v.push(3).unwrap();
    let mut it = v.iter();
    assert_eq!(it.next(), Some(1));
    assert_eq!(it.next(), Some(2));
    assert_eq!(it.next(), Some(3));
    assert_eq!(it.next(), None);
    assert!(v.contains(2));
    assert!(!v.contains(9));
    assert_eq!(v.get(1), 2);
    v.clear();
    assert!(v.is_empty());
}

#[test]
fn heapless_string_capacity() {
    let mut s: HeaplessString<5> = HeaplessString::new();
    assert!(s.push_str("abc").is_ok());
    assert!(s.push_str("de").is_ok());
    assert!(s.push_str("f").is_err());
    assert_eq!(s.as_str(), "abcde");
    assert_eq!(s.to_string(), "abcde");

    let ok = HeaplessString::<4>::from_str("wxyz").unwrap();
    assert_eq!(ok.as_str(), "wxyz");
    assert!(HeaplessString::<3>::from_str("wxyz").is_err());
}

#[test]
fn heapless_string_counts_utf8_bytes() {
    // two-byte encoding: four characters need eight bytes
    let s = HeaplessString::<8>::from_str("\u{e9}\u{e9}\u{e9}\u{e9}").unwrap();
    assert_eq!(s.as_str(), "\u{e9}\u{e9}\u{e9}\u{e9}");
    assert!(HeaplessString::<7>::from_str("\u{e9}\u{e9}\u{e9}\u{e9}").is_err());
}

fn bus(channels: usize) -> AudioBus<f32> {
    let mut data: Vec<Vec<f32>> = Vec::new();
    for _ in 0..channels {
        data.push(vec![0.0f32; 16]);
    }
    AudioBus::new(data)
}

fn mono_in_stereo_out() -> IOConfigutaion {
    let mut inputs: HeaplessVec<AudioBusDescriptor, 16> = HeaplessVec::new();
    inputs.push(AudioBusDescriptor { channels: 1 }).unwrap();
    let mut outputs: HeaplessVec<AudioBusDescriptor, 16> = HeaplessVec::new();
    outputs.push(AudioBusDescriptor { channels: 2 }).unwrap();
    IOConfigutaion { audio_inputs: inputs, audio_outputs: outputs, event_inputs_count: 0 }
}

// Matching buffers never yield a mismatch; any deviation in bus count or
// per-bus channel count always does.
#[test]
fn io_configuration_matches_exact() {
    let config = mono_in_stereo_out();
    let inputs = vec![bus(1)];
    let outputs = vec![bus(2)];
    assert!(config.matches(&inputs, &outputs).is_ok());
}

#[test]
fn io_configuration_rejects_bus_count_mismatch() {
    let config = mono_in_stereo_out();
    let inputs = vec![bus(1), bus(1)];
    let outputs = vec![bus(2)];
    match config.matches(&inputs, &outputs) {
        Err(ConfigMismatch::BusCount {
            expected_inputs,
            expected_outputs,
            actual_inputs,
            actual_outputs,
        }) => {
            assert_eq!(expected_inputs, 1);
            assert_eq!(expected_outputs, 1);
            assert_eq!(actual_inputs, 2);
            assert_eq!(actual_outputs, 1);
        }
        other => panic!("expected a bus count mismatch, got {:?}", other),
    }
}

#[test]
fn io_configuration_rejects_channel_mismatch() {
    let config = mono_in_stereo_out();
    let inputs = vec![bus(2)];
    let outputs = vec![bus(2)];
    match config.matches(&inputs, &outputs) {
        Err(ConfigMismatch::InputChannels { bus, expected, actual }) => {
            assert_eq!(bus, 0);
            assert_eq!(expected, 1);
            assert_eq!(actual, 2);
        }
        other => panic!("expected an input channel mismatch, got {:?}", other),
    }

    let inputs = vec![bus(1)];
    let outputs = vec![bus(1)];
    match config.matches(&inputs, &outputs) {
        Err(ConfigMismatch::OutputChannels { bus, expected, actual }) => {
            assert_eq!(bus, 0);
            assert_eq!(expected, 2);
            assert_eq!(actual, 1);
        }
        other => panic!("expected an output channel mismatch, got {:?}", other),
    }
}

#[test]
fn total_channels_sums_buses() {
    let mut buses: HeaplessVec<AudioBusDescriptor, 16> = HeaplessVec::new();
    assert_eq!(total_channels(&buses), 0);
    buses.push(AudioBusDescriptor { channels: 2 }).unwrap();
    buses.push(AudioBusDescriptor { channels: 5 }).unwrap();
    assert_eq!(total_channels(&buses), 7);
}

#[test]
fn guess_bus_layout_cases() {
    assert_eq!(guess_bus_layout(0).len(), 0);

    let mono = guess_bus_layout(1);
    assert_eq!(mono.len(), 1);
    assert_eq!(mono.get(0).channels, 1);

    let stereo = guess_bus_layout(2);
    assert_eq!(stereo.len(), 1);
    assert_eq!(stereo.get(0).channels, 2);

    let surround = guess_bus_layout(6);
    assert_eq!(surround.len(), 2);
    assert_eq!(surround.get(0).channels, 2);
    assert_eq!(surround.get(1).channels, 4);
    assert_eq!(total_channels(&surround), 6);
}

// Events supplied out of order come out in non-decreasing offset order.
#[test]
fn sort_events_orders_by_block_time() {
    let events = vec![midi_event(30, 60), midi_event(5, 61), midi_event(17, 62)];
    let sorted = sort_events(events);
    let times: Vec<usize> = sorted.iter().map(|e| e.block_time).collect();
    assert_eq!(times, vec![5, 17, 30]);
}

// Events at equal offsets keep their submission order.
#[test]
fn sort_events_is_stable() {
    let events = vec![
        midi_event(10, 1),
        midi_event(4, 2),
        midi_event(10, 3),
        midi_event(4, 4),
    ];
    let sorted = sort_events(events);
    let notes: Vec<u8> = sorted
        .iter()
        .map(|e| match &e.event_type {
            HostIssuedEventType::Midi(m) => m.midi_data[1],
            _ => panic!("expected a MIDI event"),
        })
        .collect();
    assert_eq!(notes, vec![2, 4, 1, 3]);
}

// Of N updates for one id, exactly one survives: the one with the
// largest offset, ties resolved toward the latest submitted.
#[test]
fn dedup_keeps_largest_offset() {
    let events = vec![
        param_event(7, 0.1, 4),
        param_event(7, 0.2, 9),
        param_event(7, 0.3, 2),
    ];
    let survivors = dedup_parameter_updates(&events);
    assert_eq!(survivors.len(), 1);
    assert_eq!(survivors[0].parameter_id, 7);
    assert_eq!(survivors[0].current_value_bits, 0.2f32.to_bits());
}

#[test]
fn dedup_breaks_ties_toward_latest() {
    let events = vec![
        param_event(7, 0.1, 5),
        param_event(7, 0.2, 5),
        param_event(7, 0.3, 5),
    ];
    let survivors = dedup_parameter_updates(&events);
    assert_eq!(survivors.len(), 1);
    assert_eq!(survivors[0].current_value_bits, 0.3f32.to_bits());
}

#[test]
fn dedup_keeps_one_per_id_and_ignores_other_events() {
    let events = vec![
        param_event(1, 0.5, 3),
        midi_event(0, 64),
        param_event(2, 0.7, 1),
        param_event(1, 0.9, 8),
    ];
    let survivors = dedup_parameter_updates(&events);
    assert_eq!(survivors.len(), 2);
    assert_eq!(survivors[0].parameter_id, 1);
    assert_eq!(survivors[0].current_value_bits, 0.9f32.to_bits());
    assert_eq!(survivors[1].parameter_id, 2);
    assert_eq!(survivors[1].current_value_bits, 0.7f32.to_bits());
}

// Overflow drops only the newest excess: the oldest events that fit are
// retained, in order, never more than the capacity.
#[test]
fn channel_drops_newest_on_overflow() {
    let mut channel = EventChannel::new(4);
    for latency in 0..6usize {
        let accepted = channel.try_push(PluginIssuedEvent::ChangeLatency(latency));
        assert_eq!(accepted, latency < 4);
    }
    assert_eq!(channel.len(), 4);
    for expected in 0..4usize {
        assert_eq!(
            channel.try_pop(),
            Some(PluginIssuedEvent::ChangeLatency(expected))
        );
    }
    assert_eq!(channel.try_pop(), None);
}

#[test]
fn channel_push_all_retains_prefix() {
    let mut channel = EventChannel::new(3);
    let burst: Vec<PluginIssuedEvent> = (0..5usize)
        .map(PluginIssuedEvent::TailLengthChanged)
        .collect();
    channel.push_all(&burst);
    assert_eq!(channel.len(), 3);
    assert_eq!(channel.try_pop(), Some(PluginIssuedEvent::TailLengthChanged(0)));
    assert_eq!(channel.try_pop(), Some(PluginIssuedEvent::TailLengthChanged(1)));
    assert_eq!(channel.try_pop(), Some(PluginIssuedEvent::TailLengthChanged(2)));
    assert_eq!(channel.try_pop(), None);
}

#[test]
fn channel_is_first_in_first_out() {
    let mut channel = EventChannel::new(8);
    assert!(channel.try_push(PluginIssuedEvent::UpdateDisplay));
    assert!(channel.try_push(PluginIssuedEvent::RequestEditorOpen));
    assert_eq!(channel.try_pop(), Some(PluginIssuedEvent::UpdateDisplay));
    assert!(channel.try_push(PluginIssuedEvent::RequestEditorClose));
    assert_eq!(channel.try_pop(), Some(PluginIssuedEvent::RequestEditorOpen));
    assert_eq!(channel.try_pop(), Some(PluginIssuedEvent::RequestEditorClose));
    assert_eq!(channel.try_pop(), None);
}

// Before marking, no violation is ever reported; after marking, each
// wrong-thread call reports exactly one violation.
#[test]
fn thread_checks_are_silent_before_marking() {
    let registry = ThreadRegistry::new();
    let tag = ThreadType::Unknown;
    assert!(!is_thread_checking_enabled(&registry));
    assert!(ensure_main_thread(&registry, &tag, "show_editor").is_none());
    assert!(ensure_non_main_thread(&registry, &tag, "process").is_none());
}

#[test]
fn thread_checks_report_after_marking() {
    let mut registry = ThreadRegistry::new();
    let mut main_tag = ThreadType::Unknown;
    mark_current_as_main(&mut registry, &mut main_tag);
    assert!(is_thread_checking_enabled(&registry));
    assert!(is_main_thread(&registry, &main_tag));

    // the main thread itself passes the main-thread check
    assert!(ensure_main_thread(&registry, &main_tag, "show_editor").is_none());
    // and trips the non-main check, once per call
    let first = ensure_non_main_thread(&registry, &main_tag, "process");
    match first {
        Some(ThreadDisciplineViolation::ExpectedNonMainThread { function_name }) => {
            assert_eq!(function_name, "process");
        }
        other => panic!("expected a violation, got {:?}", other),
    }
    assert!(ensure_non_main_thread(&registry, &main_tag, "process").is_some());

    // a different, unmarked thread trips the main-thread check
    let other_tag = ThreadType::Unknown;
    let violation = ensure_main_thread(&registry, &other_tag, "show_editor");
    match violation {
        Some(ThreadDisciplineViolation::ExpectedMainThread { function_name }) => {
            assert_eq!(function_name, "show_editor");
        }
        other => panic!("expected a violation, got {:?}", other),
    }
    assert!(ensure_non_main_thread(&registry, &other_tag, "process").is_none());
}

#[test]
fn preset_blob_round_trip() {
    let processor = vec![1u8, 2, 3, 4, 5];
    let controller = vec![9u8, 8];
    let blob = encode_preset_blob(&processor, &controller);
    assert_eq!(blob[0..4], [5, 0, 0, 0]);
    let (p, c) = split_preset_blob(&blob).unwrap();
    assert_eq!(p, processor);
    assert_eq!(c, controller);
}

#[test]
fn preset_blob_empty_parts_round_trip() {
    let blob = encode_preset_blob(&vec![], &vec![]);
    assert_eq!(blob, vec![0u8, 0, 0, 0]);
    let (p, c) = split_preset_blob(&blob).unwrap();
    assert!(p.is_empty());
    assert!(c.is_empty());
}

#[test]
fn preset_blob_rejects_malformed_data() {
    assert!(split_preset_blob(&vec![1u8, 0]).is_err());
    // header declares five processor bytes but only two follow
    assert!(split_preset_blob(&vec![5u8, 0, 0, 0, 1, 2]).is_err());
}

#[test]
fn discovery_suffix_checks() {
    assert!(plugin_host::discovery::is_vst3("/plugins/synth.vst3"));
    assert!(plugin_host::discovery::is_vst3("C:\\Plugins\\SYNTH.VST3"));
    assert!(!plugin_host::discovery::is_vst3("/plugins/synth.vst"));
    assert!(!plugin_host::discovery::is_vst3("vst3"));
    assert!(plugin_host::discovery::is_clap("/plugins/synth.clap"));
    assert!(plugin_host::discovery::is_clap("/plugins/SyNtH.ClAp"));
    assert!(!plugin_host::discovery::is_clap("/plugins/synth.clap.bak"));
}

#[test]
fn parameter_update_new_has_no_baseline() {
    let update = ParameterUpdate::new(3, 0.25f32.to_bits());
    assert_eq!(update.parameter_id, 3);
    assert_eq!(update.parameter_index, -1);
    assert_eq!(update.current_value_bits, 0.25f32.to_bits());
    assert_eq!(update.initial_value_bits, F32_NAN_BITS);
    assert!(!update.end_edit);
    assert!(f32::from_bits(update.initial_value_bits).is_nan());
}

#[test]
fn nan_bits_match_float_semantics() {
    assert!(is_nan_bits(f32::NAN.to_bits()));
    assert!(is_nan_bits(F32_NAN_BITS));
    assert!(!is_nan_bits(0.0f32.to_bits()));
    assert!(!is_nan_bits(1.0f32.to_bits()));
    assert!(!is_nan_bits(f32::INFINITY.to_bits()));
}

#[test]
fn editor_params_track_edit_baseline() {
    let mut state = EditorParamsState::new();

    // an announced edit starts with no baseline
    state.begin_edit(11);
    let first = state.automate(11, 0.4f32.to_bits());
    assert_eq!(first.parameter_id, 11);
    assert_eq!(first.initial_value_bits, F32_NAN_BITS);
    assert!(!first.end_edit);

    // further values report the value the edit started from
    let second = state.automate(11, 0.6f32.to_bits());
    assert_eq!(second.current_value_bits, 0.6f32.to_bits());
    assert_eq!(second.initial_value_bits, 0.4f32.to_bits());

    // the end of the edit carries the last value and the baseline
    let done = state.end_edit(11).unwrap();
    assert!(done.end_edit);
    assert_eq!(done.current_value_bits, 0.6f32.to_bits());
    assert_eq!(done.initial_value_bits, 0.4f32.to_bits());

    // ending an edit that is not open does nothing
    assert!(state.end_edit(11).is_none());
}

#[test]
fn error_helpers() {
    let r: Result<(), _> = err("broken");
    assert_eq!(r.unwrap_err().text(), "broken");
}

#[test]
fn playing_state_is_playing() {
    assert!(!PlayingState::Stopped.is_playing());
    assert!(PlayingState::Playing.is_playing());
    assert!(PlayingState::Recording.is_playing());
    assert!(PlayingState::OfflineRendering.is_playing());
}

#[test]
fn process_details_default_values() {
    let details = plugin_host::ProcessDetails::default();
    assert_eq!(details.sample_rate, 44100);
    assert_eq!(details.block_size, 512);
    assert_eq!(f64::from_bits(details.tempo_bits), 120.0);
    assert_eq!(details.time_signature_numerator, 4);
    assert_eq!(details.time_signature_denominator, 4);
    assert!(!details.cycle_enabled);
    assert_eq!(details.playing_state, PlayingState::Stopped);
}

#[test]
fn sort_and_dedup_handle_empty_batches() {
    assert!(sort_events(vec![]).is_empty());
    assert!(dedup_parameter_updates(&vec![]).is_empty());
}

#[test]
fn channel_of_capacity_one() {
    let mut channel = EventChannel::new(1);
    assert!(channel.try_push(PluginIssuedEvent::UpdateDisplay));
    assert!(!channel.try_push(PluginIssuedEvent::IOChanged));
    assert_eq!(channel.try_pop(), Some(PluginIssuedEvent::UpdateDisplay));
    assert!(channel.try_push(PluginIssuedEvent::IOChanged));
    assert_eq!(channel.try_pop(), Some(PluginIssuedEvent::IOChanged));
}

#[test]
fn empty_io_configuration_matches_empty_buffers() {
    let config = IOConfigutaion {
        audio_inputs: HeaplessVec::new(),
        audio_outputs: HeaplessVec::new(),
        event_inputs_count: 0,
    };
    let inputs: Vec<AudioBus<f32>> = vec![];
    let outputs: Vec<AudioBus<f32>> = vec![];
    assert!(config.matches(&inputs, &outputs).is_ok());
    assert!(config.matches(&vec![bus(1)], &outputs).is_err());
}

#[test]
fn track_carries_bounded_name() {
    let track = plugin_host::track::Track {
        name: HeaplessString::from_str("Drums").unwrap(),
        col: plugin_host::track::Colour { r: 255, g: 64, b: 0, a: 255 },
    };
    assert_eq!(track.name.as_str(), "Drums");
    assert_eq!(track.col.g, 64);
}

#[test]
fn automate_without_begin_edit_opens_fresh_edit() {
    let mut state = EditorParamsState::new();
    let first = state.automate(5, 0.2f32.to_bits());
    assert_eq!(first.initial_value_bits, F32_NAN_BITS);
    // a begin_edit gesture resets the baseline even mid-edit
    state.begin_edit(5);
    let second = state.automate(5, 0.8f32.to_bits());
    assert_eq!(second.initial_value_bits, F32_NAN_BITS);
}
