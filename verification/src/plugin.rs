use vstd::prelude::*;

use crate::audio_bus::{buffers_match_config, AudioBus, ConfigMismatch, IOConfigutaion};
use crate::channel::{channel_capacity, channel_contents, offer_all, EventChannel};
use crate::discovery::{Format, PluginDescriptor};
use crate::error::Error;
use crate::event::{sort_events, HostIssuedEvent, PluginIssuedEvent};
use crate::parameter::Parameter;
use crate::{BlockSize, ProcessDetails, SampleRate, Samples, WindowIDType};

verus! {

/// Capability contract each concrete plugin-format adapter implements:
/// processing, preset I/O, parameter access, editor control, lifecycle
/// control, and I/O and latency queries. Adapters decode one binary
/// plugin interface each and sit outside the verified core; a processing
/// call receives the notification channel to push into, and the editor
/// flush hands its notifications back as plain values.
pub trait PluginInner {
    /// Sample type of the audio buffers this adapter processes.
    type Sample;

    /// Runs one block on the realtime thread. Must not allocate or
    /// block; may push notifications into `notifications`, including
    /// re-entrantly from inside the native processing call.
    fn process(
        &mut self,
        inputs: &Vec<AudioBus<Self::Sample>>,
        outputs: &mut Vec<AudioBus<Self::Sample>>,
        events: Vec<HostIssuedEvent>,
        process_details: &ProcessDetails,
        notifications: &mut EventChannel,
    );

    fn set_preset_data(&mut self, data: Vec<u8>) -> Result<(), String>;

    fn get_preset_data(&mut self) -> Result<Vec<u8>, String>;

    fn get_preset_name(&mut self, id: i32) -> Result<String, String>;

    fn set_preset(&mut self, id: i32) -> Result<(), String>;

    fn get_parameter(&self, index: i32) -> Parameter;

    /// Opens the plugin editor in the caller-owned window named by the
    /// opaque pointer-sized `window_id`; returns the editor size in
    /// pixels. Must run on the main thread.
    fn show_editor(
        &mut self,
        window_id: usize,
        window_id_type: WindowIDType,
    ) -> Result<(usize, usize), Error>;

    fn hide_editor(&mut self);

    fn change_sample_rate(&mut self, rate: SampleRate);

    fn change_block_size(&mut self, size: BlockSize);

    fn suspend(&mut self);

    fn resume(&mut self);

    fn get_io_configuration(&mut self) -> IOConfigutaion;

    fn get_latency(&mut self) -> Samples;

    /// Lets the adapter flush parameter values queued for a secondary
    /// internal consumer; returns the notifications that flush produced,
    /// for the instance to queue on its channel.
    fn editor_updates(&mut self) -> Vec<PluginIssuedEvent>;

    fn get_parameter_count(&self) -> usize;
}

/// Failure of `show_editor`.
#[derive(Debug, Clone)]
pub enum EditorError {
    /// The editor is already open: at most one editor session per
    /// instance.
    AlreadyOpen,
    /// The adapter failed to open the editor.
    Backend(Error),
}

/// Number of notifications the event channel of an instance can hold
/// between two drains.
pub const EVENT_CHANNEL_CAPACITY: usize = 512;

/// A loaded plugin: the backend adapter plus the host-side lifecycle
/// state machine around it. Owned by one caller; the realtime thread
/// calls `process`, the main thread everything else.
pub struct PluginInstance<B: PluginInner> {
    pub descriptor: PluginDescriptor,
    pub inner: B,
    /// Consumer side of the notification channel; the producer side is
    /// handed to the adapter during every processing call.
    pub plugin_issued_events: EventChannel,
    /// Sample rate last applied to the backend.
    pub sample_rate: SampleRate,
    /// Block size last applied to the backend.
    pub block_size: BlockSize,
    /// Sample rate most recently requested by a processing call, applied
    /// lazily for formats that reconfigure on the main thread.
    pub last_seen_sample_rate: SampleRate,
    /// Block size most recently requested by a processing call.
    pub last_seen_block_size: BlockSize,
    pub showing_editor: bool,
    /// Cached plugin latency in samples.
    pub latency: Samples,
    pub io_configuration: IOConfigutaion,
    pub resumed: bool,
}

/// Wraps a freshly loaded backend: queries its I/O configuration, takes
/// the latency from the descriptor, and starts suspended with the editor
/// closed.
pub fn load<B: PluginInner>(mut inner: B, descriptor: PluginDescriptor) -> (r: PluginInstance<
    B,
>)
    ensures
        r.descriptor == descriptor,
        r.sample_rate == 0,
        r.block_size == 0,
        r.last_seen_sample_rate == 0,
        r.last_seen_block_size == 0,
        !r.showing_editor,
        !r.resumed,
        r.latency == descriptor.initial_latency,
        channel_contents(r.plugin_issued_events) == Seq::<PluginIssuedEvent>::empty(),
        channel_capacity(r.plugin_issued_events) == EVENT_CHANNEL_CAPACITY,
{
    let io_configuration = inner.get_io_configuration();
    let latency = descriptor.initial_latency;
    PluginInstance {
        descriptor,
        inner,
        plugin_issued_events: EventChannel::new(EVENT_CHANNEL_CAPACITY),
        sample_rate: 0,
        block_size: 0,
        last_seen_sample_rate: 0,
        last_seen_block_size: 0,
        showing_editor: false,
        latency,
        io_configuration,
        resumed: false,
    }
}

impl<B: PluginInner> PluginInstance<B> {
    /// Runs one audio block. The buffers must match the cached I/O
    /// configuration exactly; a mismatch is a caller allocation bug,
    /// reported as a fatal contract violation without running anything.
    /// Otherwise the events are stable-sorted by sample offset, a
    /// sample-rate or block-size change is applied (synchronously for
    /// the legacy format, else recorded for the main thread to pick up),
    /// the instance auto-resumes, and the batch goes to the backend.
    pub fn process(
        &mut self,
        inputs: &Vec<AudioBus<B::Sample>>,
        outputs: &mut Vec<AudioBus<B::Sample>>,
        events: Vec<HostIssuedEvent>,
        process_details: &ProcessDetails,
    ) -> (r: Result<(), ConfigMismatch>)
        ensures
            (r is Ok) == buffers_match_config(
                old(self).io_configuration, inputs@, old(outputs)@),
            r is Err ==> *final(self) == *old(self) && *final(outputs) == *old(outputs),
            (r matches Err(e) && e is BusCount) <==> (
                old(self).io_configuration.audio_inputs@.len() != inputs@.len()
                || old(self).io_configuration.audio_outputs@.len() != old(outputs)@.len()),
            r is Ok ==> final(self).resumed,
            r is Ok ==> final(self).descriptor == old(self).descriptor
                && final(self).showing_editor == old(self).showing_editor
                && final(self).latency == old(self).latency
                && final(self).io_configuration == old(self).io_configuration,
            r is Ok && old(self).descriptor.format == Format::Vst2 ==> (
                final(self).sample_rate == process_details.sample_rate
                && final(self).block_size == process_details.block_size
                && final(self).last_seen_sample_rate == old(self).last_seen_sample_rate
                && final(self).last_seen_block_size == old(self).last_seen_block_size),
            r is Ok && old(self).descriptor.format != Format::Vst2 ==> (
                final(self).sample_rate == old(self).sample_rate
                && final(self).block_size == old(self).block_size
                && final(self).last_seen_sample_rate == process_details.sample_rate
                && final(self).last_seen_block_size == process_details.block_size),
    {
        if let Err(mismatch) = self.io_configuration.matches(inputs, outputs) {
            return Err(mismatch);
        }

        let events = sort_events(events);

        // The legacy format wants reconfiguration on the audio thread;
        // the others reconfigure on the main thread, so the request is
        // only recorded here and applied on the next drain.
        if self.descriptor.format == Format::Vst2 {
            if self.sample_rate != process_details.sample_rate {
                self.sample_rate = process_details.sample_rate;
                self.inner.change_sample_rate(process_details.sample_rate);
            }
            if self.block_size != process_details.block_size {
                self.block_size = process_details.block_size;
                self.inner.change_block_size(process_details.block_size);
            }
        } else {
            self.last_seen_sample_rate = process_details.sample_rate;
            self.last_seen_block_size = process_details.block_size;
        }

        self.resume();

        self.inner.process(
            inputs,
            outputs,
            events,
            process_details,
            &mut self.plugin_issued_events,
        );
        Ok(())
    }

    /// Appends one drained notification to `out`. A configuration
    /// change makes the instance re-query the backend's I/O layout and
    /// latency, and emits the synthesized `ChangeLatency` immediately
    /// before the forwarded configuration-change notification; any other
    /// notification passes through unchanged.
    pub fn append_notification(
        &mut self,
        event: PluginIssuedEvent,
        out: &mut Vec<PluginIssuedEvent>,
    )
        ensures
            final(self).descriptor == old(self).descriptor,
            final(self).sample_rate == old(self).sample_rate,
            final(self).block_size == old(self).block_size,
            final(self).last_seen_sample_rate == old(self).last_seen_sample_rate,
            final(self).last_seen_block_size == old(self).last_seen_block_size,
            final(self).showing_editor == old(self).showing_editor,
            final(self).resumed == old(self).resumed,
            final(self).plugin_issued_events == old(self).plugin_issued_events,
            !(event is IOChanged) ==> final(out)@ == old(out)@.push(event)
                && final(self).latency == old(self).latency
                && final(self).io_configuration == old(self).io_configuration,
            event is IOChanged ==> final(out)@ == old(out)@.push(
                PluginIssuedEvent::ChangeLatency(final(self).latency)).push(event),
    {
        match event {
            PluginIssuedEvent::IOChanged => {
                self.io_configuration = self.inner.get_io_configuration();
                let latency = self.inner.get_latency();
                self.latency = latency;
                out.push(PluginIssuedEvent::ChangeLatency(latency));
            }
            _ => {}
        }
        out.push(event);
    }

    /// Drains the queued plugin notifications; must be called routinely
    /// by the main thread. First lets the adapter flush editor updates
    /// (queueing what the flush produced behind what the channel already
    /// held), then applies any pending sample-rate or block-size request
    /// for formats that reconfigure on the main thread — a request
    /// recorded by a processing call takes effect here, one drain later,
    /// an accepted staleness of at most one block — and then drains the
    /// channel, expanding each configuration change as
    /// `append_notification` does.
    ///
    /// The result is exactly the expansion of what the channel held plus
    /// what the flush produced (the flushed events and the latencies the
    /// backend reported are the backend's own, hence existential).
    pub fn get_events(&mut self) -> (r: Vec<PluginIssuedEvent>)
        ensures
            channel_contents(final(self).plugin_issued_events)
                == Seq::<PluginIssuedEvent>::empty(),
            final(self).descriptor == old(self).descriptor,
            final(self).showing_editor == old(self).showing_editor,
            final(self).resumed == old(self).resumed,
            exists|flushed: Seq<PluginIssuedEvent>, lats: Seq<usize>|
                #![trigger expand_notifications(offer_all(
                    channel_contents(old(self).plugin_issued_events), flushed,
                    channel_capacity(old(self).plugin_issued_events)), lats)]
                {
                    let drained = offer_all(
                        channel_contents(old(self).plugin_issued_events),
                        flushed,
                        channel_capacity(old(self).plugin_issued_events),
                    );
                    &&& r@ == expand_notifications(drained, lats)
                    &&& lats.len() == count_io_changed(drained)
                    &&& (lats.len() > 0 ==> final(self).latency == lats.last())
                    &&& (lats.len() == 0 ==> final(self).latency == old(self).latency
                        && final(self).io_configuration == old(self).io_configuration)
                },
    {
        let ghost held = channel_contents(self.plugin_issued_events);
        let ghost cap = channel_capacity(self.plugin_issued_events);

        let flushed = self.inner.editor_updates();

        if self.descriptor.format != Format::Vst2 {
            self.fix_configuration();
        }

        self.plugin_issued_events.push_all(&flushed);
        let ghost full = offer_all(held, flushed@, cap);

        let ghost mid = *self;
        let mut events: Vec<PluginIssuedEvent> = Vec::new();
        let ghost mut drained: Seq<PluginIssuedEvent> = Seq::empty();
        let ghost mut lats: Seq<usize> = Seq::empty();
        proof {
            assert(expand_notifications(drained, lats) =~= Seq::<PluginIssuedEvent>::empty());
            assert(drained + channel_contents(self.plugin_issued_events)
                =~= channel_contents(self.plugin_issued_events));
        }
        loop
            invariant
                drained + channel_contents(self.plugin_issued_events) == full,
                events@ == expand_notifications(drained, lats),
                lats.len() == count_io_changed(drained),
                lats.len() > 0 ==> self.latency == lats.last(),
                lats.len() == 0 ==> self.latency == mid.latency
                    && self.io_configuration == mid.io_configuration,
                self.descriptor == mid.descriptor,
                self.sample_rate == mid.sample_rate,
                self.block_size == mid.block_size,
                self.last_seen_sample_rate == mid.last_seen_sample_rate,
                self.last_seen_block_size == mid.last_seen_block_size,
                self.showing_editor == mid.showing_editor,
                self.resumed == mid.resumed,
            ensures
                channel_contents(self.plugin_issued_events).len() == 0,
                drained == full,
                events@ == expand_notifications(drained, lats),
                lats.len() == count_io_changed(drained),
                lats.len() > 0 ==> self.latency == lats.last(),
                lats.len() == 0 ==> self.latency == mid.latency
                    && self.io_configuration == mid.io_configuration,
                self.descriptor == mid.descriptor,
                self.showing_editor == mid.showing_editor,
                self.resumed == mid.resumed,
            decreases channel_contents(self.plugin_issued_events).len(),
        {
            let ghost before = channel_contents(self.plugin_issued_events);
            let next = self.plugin_issued_events.try_pop();
            match next {
                Some(event) => {
                    proof {
                        assert(drained.push(event)
                            + channel_contents(self.plugin_issued_events) =~= drained + before);
                    }
                    self.append_notification(event, &mut events);
                    proof {
                        lemma_expand_notifications_step(drained, lats, event, self.latency);
                        drained = drained.push(event);
                        if event is IOChanged {
                            lats = lats.push(self.latency);
                        }
                    }
                }
                None => {
                    proof {
                        assert(drained =~= full);
                    }
                    break;
                }
            }
        }
        proof {
            assert(channel_contents(self.plugin_issued_events)
                =~= Seq::<PluginIssuedEvent>::empty());
            assert(events@ == expand_notifications(
                offer_all(held, flushed@, cap), lats));
        }
        events
    }

    /// Cached plugin latency in samples; readable from any thread.
    pub fn get_latency(&self) -> (r: usize)
        ensures
            r == self.latency,
    {
        self.latency
    }

    /// Re-derives the current bus layout from the backend and caches it,
    /// replacing the previous configuration wholesale.
    pub fn get_io_configuration(&mut self) -> (r: IOConfigutaion)
        ensures
            final(self).io_configuration.audio_inputs@ == r.audio_inputs@,
            final(self).io_configuration.audio_outputs@ == r.audio_outputs@,
            final(self).io_configuration.event_inputs_count == r.event_inputs_count,
            final(self).descriptor == old(self).descriptor,
            final(self).sample_rate == old(self).sample_rate,
            final(self).block_size == old(self).block_size,
            final(self).last_seen_sample_rate == old(self).last_seen_sample_rate,
            final(self).last_seen_block_size == old(self).last_seen_block_size,
            final(self).showing_editor == old(self).showing_editor,
            final(self).latency == old(self).latency,
            final(self).resumed == old(self).resumed,
            final(self).plugin_issued_events == old(self).plugin_issued_events,
    {
        let io = self.inner.get_io_configuration();
        self.io_configuration = io.clone();
        io
    }

    /// Activates the plugin; already-resumed instances are left alone.
    pub fn resume(&mut self)
        ensures
            final(self).resumed,
            old(self).resumed ==> *final(self) == *old(self),
            final(self).descriptor == old(self).descriptor,
            final(self).sample_rate == old(self).sample_rate,
            final(self).block_size == old(self).block_size,
            final(self).last_seen_sample_rate == old(self).last_seen_sample_rate,
            final(self).last_seen_block_size == old(self).last_seen_block_size,
            final(self).showing_editor == old(self).showing_editor,
            final(self).latency == old(self).latency,
            final(self).io_configuration == old(self).io_configuration,
            final(self).plugin_issued_events == old(self).plugin_issued_events,
    {
        if self.resumed {
            return;
        }
        self.inner.resume();
        self.resumed = true;
    }

    /// Deactivates the plugin; already-suspended instances are left
    /// alone.
    pub fn suspend(&mut self)
        ensures
            !final(self).resumed,
            !old(self).resumed ==> *final(self) == *old(self),
            final(self).descriptor == old(self).descriptor,
            final(self).sample_rate == old(self).sample_rate,
            final(self).block_size == old(self).block_size,
            final(self).last_seen_sample_rate == old(self).last_seen_sample_rate,
            final(self).last_seen_block_size == old(self).last_seen_block_size,
            final(self).showing_editor == old(self).showing_editor,
            final(self).latency == old(self).latency,
            final(self).io_configuration == old(self).io_configuration,
            final(self).plugin_issued_events == old(self).plugin_issued_events,
    {
        if !self.resumed {
            return;
        }
        self.inner.suspend();
        self.resumed = false;
    }

    /// The static descriptor this instance was loaded from.
    pub fn get_descriptor(&self) -> (r: PluginDescriptor)
        ensures
            r.name@ == self.descriptor.name@,
            r.id@ == self.descriptor.id@,
            r.path@ == self.descriptor.path@,
            r.version@ == self.descriptor.version@,
            r.vendor@ == self.descriptor.vendor@,
            r.format == self.descriptor.format,
            r.initial_latency == self.descriptor.initial_latency,
    {
        self.descriptor.clone()
    }

    /// Opaque preset blob of the current plugin state, as the backend
    /// provides it. Only the backend is touched: every host-side field
    /// of the instance is left as it was.
    pub fn get_preset_data(&mut self) -> (r: Result<Vec<u8>, String>)
        ensures
            final(self).descriptor == old(self).descriptor,
            final(self).sample_rate == old(self).sample_rate,
            final(self).block_size == old(self).block_size,
            final(self).last_seen_sample_rate == old(self).last_seen_sample_rate,
            final(self).last_seen_block_size == old(self).last_seen_block_size,
            final(self).showing_editor == old(self).showing_editor,
            final(self).latency == old(self).latency,
            final(self).io_configuration == old(self).io_configuration,
            final(self).resumed == old(self).resumed,
            final(self).plugin_issued_events == old(self).plugin_issued_events,
    {
        self.inner.get_preset_data()
    }

    /// Restores plugin state from an opaque preset blob. Only the
    /// backend is touched: every host-side field of the instance is left
    /// as it was.
    pub fn set_preset_data(&mut self, data: Vec<u8>) -> (r: Result<(), String>)
        ensures
            final(self).descriptor == old(self).descriptor,
            final(self).sample_rate == old(self).sample_rate,
            final(self).block_size == old(self).block_size,
            final(self).last_seen_sample_rate == old(self).last_seen_sample_rate,
            final(self).last_seen_block_size == old(self).last_seen_block_size,
            final(self).showing_editor == old(self).showing_editor,
            final(self).latency == old(self).latency,
            final(self).io_configuration == old(self).io_configuration,
            final(self).resumed == old(self).resumed,
            final(self).plugin_issued_events == old(self).plugin_issued_events,
    {
        self.inner.set_preset_data(data)
    }

    /// Name of the preset with the given id. Only the backend is
    /// touched: every host-side field of the instance is left as it was.
    pub fn get_preset_name(&mut self, id: i32) -> (r: Result<String, String>)
        ensures
            final(self).descriptor == old(self).descriptor,
            final(self).sample_rate == old(self).sample_rate,
            final(self).block_size == old(self).block_size,
            final(self).last_seen_sample_rate == old(self).last_seen_sample_rate,
            final(self).last_seen_block_size == old(self).last_seen_block_size,
            final(self).showing_editor == old(self).showing_editor,
            final(self).latency == old(self).latency,
            final(self).io_configuration == old(self).io_configuration,
            final(self).resumed == old(self).resumed,
            final(self).plugin_issued_events == old(self).plugin_issued_events,
    {
        self.inner.get_preset_name(id)
    }

    /// Switches to the preset with the given id. Only the backend is
    /// touched: every host-side field of the instance is left as it was.
    pub fn set_preset(&mut self, id: i32) -> (r: Result<(), String>)
        ensures
            final(self).descriptor == old(self).descriptor,
            final(self).sample_rate == old(self).sample_rate,
            final(self).block_size == old(self).block_size,
            final(self).last_seen_sample_rate == old(self).last_seen_sample_rate,
            final(self).last_seen_block_size == old(self).last_seen_block_size,
            final(self).showing_editor == old(self).showing_editor,
            final(self).latency == old(self).latency,
            final(self).io_configuration == old(self).io_configuration,
            final(self).resumed == old(self).resumed,
            final(self).plugin_issued_events == old(self).plugin_issued_events,
    {
        self.inner.set_preset(id)
    }

    /// Queries one parameter from the backend.
    pub fn get_parameter(&self, index: i32) -> Parameter {
        self.inner.get_parameter(index)
    }

    /// Queries every parameter and keeps the visible ones.
    pub fn get_all_parameters(&self) -> (r: Vec<Parameter>)
        ensures
            forall|k: int| 0 <= k < r@.len() ==> !(#[trigger] r@[k].hidden),
    {
        let count = self.inner.get_parameter_count();
        let mut parameters: Vec<Parameter> = Vec::new();
        let mut i: usize = 0;
        while i < count
            invariant
                forall|k: int| 0 <= k < parameters@.len()
                    ==> !(#[trigger] parameters@[k].hidden),
            decreases count - i,
        {
            if i > i32::MAX as usize {
                return parameters;
            }
            let parameter = self.inner.get_parameter(i as i32);
            if !parameter.hidden {
                parameters.push(parameter);
            }
            i = i + 1;
        }
        parameters
    }

    /// Number of parameters the plugin exposes.
    pub fn get_parameter_count(&self) -> usize {
        self.inner.get_parameter_count()
    }

    /// Opens the plugin editor in the caller-owned window. With the
    /// editor already open nothing runs and `AlreadyOpen` comes back;
    /// otherwise the backend opens it and, on success, the instance
    /// records the editor as open and returns its size in pixels.
    pub fn show_editor(
        &mut self,
        window_id: usize,
        window_id_type: WindowIDType,
    ) -> (r: Result<(usize, usize), EditorError>)
        ensures
            old(self).showing_editor ==> (r matches Err(e) && e is AlreadyOpen)
                && *final(self) == *old(self),
            !old(self).showing_editor ==> final(self).showing_editor == (r is Ok),
            !old(self).showing_editor ==> (r matches Err(e) ==> e is Backend),
            final(self).descriptor == old(self).descriptor,
            final(self).sample_rate == old(self).sample_rate,
            final(self).block_size == old(self).block_size,
            final(self).last_seen_sample_rate == old(self).last_seen_sample_rate,
            final(self).last_seen_block_size == old(self).last_seen_block_size,
            final(self).latency == old(self).latency,
            final(self).io_configuration == old(self).io_configuration,
            final(self).resumed == old(self).resumed,
            final(self).plugin_issued_events == old(self).plugin_issued_events,
    {
        if self.showing_editor {
            return Err(EditorError::AlreadyOpen);
        }

        match self.inner.show_editor(window_id, window_id_type) {
            Ok(size) => {
                self.showing_editor = true;
                Ok(size)
            }
            Err(e) => Err(EditorError::Backend(e)),
        }
    }

    /// Closes the plugin editor; with the editor already closed this is
    /// a no-op.
    pub fn hide_editor(&mut self)
        ensures
            !final(self).showing_editor,
            !old(self).showing_editor ==> *final(self) == *old(self),
            final(self).descriptor == old(self).descriptor,
            final(self).sample_rate == old(self).sample_rate,
            final(self).block_size == old(self).block_size,
            final(self).last_seen_sample_rate == old(self).last_seen_sample_rate,
            final(self).last_seen_block_size == old(self).last_seen_block_size,
            final(self).latency == old(self).latency,
            final(self).io_configuration == old(self).io_configuration,
            final(self).resumed == old(self).resumed,
            final(self).plugin_issued_events == old(self).plugin_issued_events,
    {
        if !self.showing_editor {
            return;
        }

        self.inner.hide_editor();
        self.showing_editor = false;
    }

    /// Whether the editor is currently open.
    pub fn is_showing_editor(&self) -> (r: bool)
        ensures
            r == self.showing_editor,
    {
        self.showing_editor
    }

    /// Applies a sample-rate or block-size request recorded by the
    /// realtime thread but not yet applied, bringing the applied values
    /// up to the requested ones.
    fn fix_configuration(&mut self)
        ensures
            final(self).sample_rate == old(self).last_seen_sample_rate,
            final(self).block_size == old(self).last_seen_block_size,
            final(self).descriptor == old(self).descriptor,
            final(self).last_seen_sample_rate == old(self).last_seen_sample_rate,
            final(self).last_seen_block_size == old(self).last_seen_block_size,
            final(self).showing_editor == old(self).showing_editor,
            final(self).latency == old(self).latency,
            final(self).io_configuration == old(self).io_configuration,
            final(self).resumed == old(self).resumed,
            final(self).plugin_issued_events == old(self).plugin_issued_events,
    {
        let last_sample_rate = self.last_seen_sample_rate;
        let last_block_size = self.last_seen_block_size;

        if self.sample_rate != last_sample_rate {
            self.sample_rate = last_sample_rate;
            self.inner.change_sample_rate(last_sample_rate);
        }

        if self.block_size != last_block_size {
            self.block_size = last_block_size;
            self.inner.change_block_size(last_block_size);
        }
    }
}

/// How a drained notification sequence appears to the caller of
/// `get_events`: each configuration change is preceded by a synthesized
/// `ChangeLatency` carrying the latency queried at that moment (the
/// values in `lats`, one per configuration change, in drain order);
/// every other notification passes through unchanged.
pub open spec fn expand_notifications(
    drained: Seq<PluginIssuedEvent>,
    lats: Seq<usize>,
) -> Seq<PluginIssuedEvent>
    decreases drained.len(),
{
    if drained.len() == 0 {
        Seq::empty()
    } else {
        let rest = expand_notifications(drained.drop_last(), lats.drop_last());
        if drained.last() is IOChanged {
            rest.push(PluginIssuedEvent::ChangeLatency(lats.last())).push(drained.last())
        } else {
            expand_notifications(drained.drop_last(), lats).push(drained.last())
        }
    }
}

/// Number of configuration-change notifications in a drained sequence.
pub open spec fn count_io_changed(drained: Seq<PluginIssuedEvent>) -> nat
    decreases drained.len(),
{
    if drained.len() == 0 {
        0
    } else {
        count_io_changed(drained.drop_last()) + if drained.last() is IOChanged {
            1nat
        } else {
            0nat
        }
    }
}

/// One drain step extends the expansion: a configuration change appends
/// the synthesized `ChangeLatency` and itself, anything else appends
/// itself.
proof fn lemma_expand_notifications_step(
    drained: Seq<PluginIssuedEvent>,
    lats: Seq<usize>,
    event: PluginIssuedEvent,
    latency: usize,
)
    ensures
        event is IOChanged ==> expand_notifications(
            drained.push(event), lats.push(latency))
            == expand_notifications(drained, lats).push(
                PluginIssuedEvent::ChangeLatency(latency)).push(event),
        !(event is IOChanged) ==> expand_notifications(drained.push(event), lats)
            == expand_notifications(drained, lats).push(event),
        count_io_changed(drained.push(event)) == count_io_changed(drained)
            + if event is IOChanged { 1nat } else { 0nat },
{
    assert(drained.push(event).drop_last() =~= drained);
    assert(lats.push(latency).drop_last() =~= lats);
    assert(drained.push(event).last() == event);
    assert(lats.push(latency).last() == latency);
}

} // verus!
