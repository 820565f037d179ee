use vstd::prelude::*;

use crate::heapless_vec::HeaplessVec;

verus! {

/// One audio bus handed to a processing call: a group of equally long
/// channel buffers.
pub struct AudioBus<T> {
    pub data: Vec<Vec<T>>,
}

impl<T> AudioBus<T> {
    pub fn new(data: Vec<Vec<T>>) -> (r: Self)
        ensures
            r.data == data,
    {
        AudioBus { data }
    }

    /// Number of channels in this bus.
    pub fn channels(&self) -> (r: usize)
        ensures
            r == self.data@.len(),
    {
        self.data.len()
    }
}

/// Static description of one audio bus: its channel count.
#[derive(Clone, Copy, Debug, PartialEq, Eq, Structural)]
pub struct AudioBusDescriptor {
    pub channels: usize,
}

/// Input and output bus layout of a plugin, replaced wholesale whenever
/// the plugin reports a configuration change.
#[derive(Debug)]
pub struct IOConfigutaion {
    pub audio_inputs: HeaplessVec<AudioBusDescriptor, 16>,
    pub audio_outputs: HeaplessVec<AudioBusDescriptor, 16>,
    pub event_inputs_count: i32,
}

impl Clone for IOConfigutaion {
    fn clone(&self) -> (r: Self)
        ensures
            r.audio_inputs@ == self.audio_inputs@,
            r.audio_outputs@ == self.audio_outputs@,
            r.event_inputs_count == self.event_inputs_count,
    {
        IOConfigutaion {
            audio_inputs: self.audio_inputs.clone(),
            audio_outputs: self.audio_outputs.clone(),
            event_inputs_count: self.event_inputs_count,
        }
    }
}

/// Mismatch between the buffers handed to a processing call and the
/// plugin's I/O configuration. Indicates a caller allocation bug and is
/// treated as a fatal contract violation, never retried.
#[derive(Clone, Copy, Debug, PartialEq, Eq, Structural)]
pub enum ConfigMismatch {
    /// Wrong number of input or output buses.
    BusCount { expected_inputs: usize, expected_outputs: usize, actual_inputs: usize, actual_outputs: usize },
    /// Wrong channel count on the input bus with this index.
    InputChannels { bus: usize, expected: usize, actual: usize },
    /// Wrong channel count on the output bus with this index.
    OutputChannels { bus: usize, expected: usize, actual: usize },
}

/// Whether buffers with the given per-bus channel counts agree with a
/// configuration: equal bus counts in both directions and equal channel
/// counts on every bus.
pub open spec fn buffers_match_config<T>(
    cfg: IOConfigutaion,
    inputs: Seq<AudioBus<T>>,
    outputs: Seq<AudioBus<T>>,
) -> bool {
    &&& cfg.audio_inputs@.len() == inputs.len()
    &&& cfg.audio_outputs@.len() == outputs.len()
    &&& forall|i: int| 0 <= i < inputs.len()
        ==> #[trigger] inputs[i].data@.len() == cfg.audio_inputs@[i].channels
    &&& forall|i: int| 0 <= i < outputs.len()
        ==> #[trigger] outputs[i].data@.len() == cfg.audio_outputs@[i].channels
}

impl IOConfigutaion {
    /// Validates buffers against this configuration: bus counts first,
    /// then the channel count of each input bus in index order, then of
    /// each output bus. The first mismatch is reported with the bus index
    /// and the expected and actual channel counts.
    pub fn matches<T>(
        &self,
        inputs: &Vec<AudioBus<T>>,
        outputs: &Vec<AudioBus<T>>,
    ) -> (r: Result<(), ConfigMismatch>)
        ensures
            (r is Ok) == buffers_match_config(*self, inputs@, outputs@),
            (r matches Err(e) && e is BusCount) <==> (self.audio_inputs@.len() != inputs@.len()
                || self.audio_outputs@.len() != outputs@.len()),
            r matches Err(e) ==> (e matches ConfigMismatch::BusCount {
                expected_inputs, expected_outputs, actual_inputs, actual_outputs }
                ==> expected_inputs == self.audio_inputs@.len()
                    && expected_outputs == self.audio_outputs@.len()
                    && actual_inputs == inputs@.len() && actual_outputs == outputs@.len()),
            r matches Err(e) ==> (e matches ConfigMismatch::InputChannels { bus, expected, actual }
                ==> bus < inputs@.len()
                    && expected == self.audio_inputs@[bus as int].channels
                    && actual == inputs@[bus as int].data@.len()
                    && expected != actual
                    && (forall|j: int| 0 <= j < bus
                        ==> #[trigger] inputs@[j].data@.len() == self.audio_inputs@[j].channels)),
            r matches Err(e) ==> (e matches ConfigMismatch::OutputChannels { bus, expected, actual }
                ==> bus < outputs@.len()
                    && expected == self.audio_outputs@[bus as int].channels
                    && actual == outputs@[bus as int].data@.len()
                    && expected != actual
                    && (forall|j: int| 0 <= j < bus
                        ==> #[trigger] outputs@[j].data@.len() == self.audio_outputs@[j].channels)
                    && (forall|j: int| 0 <= j < inputs@.len()
                        ==> #[trigger] inputs@[j].data@.len() == self.audio_inputs@[j].channels)),
    {
        let expected_inputs = self.audio_inputs.len();
        let expected_outputs = self.audio_outputs.len();
        if expected_inputs != inputs.len() || expected_outputs != outputs.len() {
            return Err(ConfigMismatch::BusCount {
                expected_inputs,
                expected_outputs,
                actual_inputs: inputs.len(),
                actual_outputs: outputs.len(),
            });
        }

        let mut i: usize = 0;
        while i < expected_inputs
            invariant
                expected_inputs == self.audio_inputs@.len() == inputs@.len(),
                self.audio_outputs@.len() == outputs@.len(),
                i <= expected_inputs,
                forall|j: int| 0 <= j < i
                    ==> #[trigger] inputs@[j].data@.len() == self.audio_inputs@[j].channels,
            decreases expected_inputs - i,
        {
            let actual = inputs[i].channels();
            let expected = self.audio_inputs.get(i).channels;
            if actual != expected {
                return Err(ConfigMismatch::InputChannels { bus: i, expected, actual });
            }
            i = i + 1;
        }

        let mut i: usize = 0;
        while i < expected_outputs
            invariant
                expected_outputs == self.audio_outputs@.len() == outputs@.len(),
                self.audio_inputs@.len() == inputs@.len(),
                i <= expected_outputs,
                forall|j: int| 0 <= j < i
                    ==> #[trigger] outputs@[j].data@.len() == self.audio_outputs@[j].channels,
                forall|j: int| 0 <= j < inputs@.len()
                    ==> #[trigger] inputs@[j].data@.len() == self.audio_inputs@[j].channels,
            decreases expected_outputs - i,
        {
            let actual = outputs[i].channels();
            let expected = self.audio_outputs.get(i).channels;
            if actual != expected {
                return Err(ConfigMismatch::OutputChannels { bus: i, expected, actual });
            }
            i = i + 1;
        }

        Ok(())
    }
}

/// Sum of the channel counts of a bus list.
pub open spec fn spec_total_channels(buses: Seq<AudioBusDescriptor>) -> nat
    decreases buses.len(),
{
    if buses.len() == 0 {
        0
    } else {
        spec_total_channels(buses.drop_last()) + buses.last().channels as nat
    }
}

/// Total channel count over all buses in the list.
pub fn total_channels<const N: usize>(buses: &HeaplessVec<AudioBusDescriptor, N>) -> (r: usize)
    requires
        spec_total_channels(buses@) <= usize::MAX,
    ensures
        r == spec_total_channels(buses@),
{
    let n = buses.len();
    let mut sum: usize = 0;
    let mut i: usize = 0;
    while i < n
        invariant
            n == buses@.len(),
            i <= n,
            sum == spec_total_channels(buses@.subrange(0, i as int)),
            spec_total_channels(buses@) <= usize::MAX,
        decreases n - i,
    {
        proof {
            lemma_total_channels_prefix(buses@, i as int);
            assert(buses@.subrange(0, i + 1 as int).drop_last() =~= buses@.subrange(0, i as int));
        }
        sum = sum + buses.get(i).channels;
        i = i + 1;
    }
    proof {
        assert(buses@.subrange(0, n as int) =~= buses@);
    }
    sum
}

/// The channel total of a prefix never exceeds the total of the whole
/// list.
proof fn lemma_total_channels_prefix(buses: Seq<AudioBusDescriptor>, i: int)
    requires
        0 <= i < buses.len(),
    ensures
        spec_total_channels(buses.subrange(0, i + 1))
            == spec_total_channels(buses.subrange(0, i)) + buses[i].channels,
        spec_total_channels(buses.subrange(0, i + 1)) <= spec_total_channels(buses),
    decreases buses.len() - i,
{
    assert(buses.subrange(0, i + 1).drop_last() =~= buses.subrange(0, i));
    assert(buses.subrange(0, i + 1).last() == buses[i]);
    if i + 1 == buses.len() {
        assert(buses.subrange(0, i + 1) =~= buses);
    } else {
        lemma_total_channels_prefix(buses, i + 1);
    }
}

/// Fallback bus layout for plugins that only report flat channel totals:
/// no bus for zero channels, one bus for a mono or stereo total, and
/// otherwise a main stereo bus followed by one bus with the rest.
pub fn guess_bus_layout(total: usize) -> (r: HeaplessVec<AudioBusDescriptor, 16>)
    ensures
        total == 0 ==> r@ =~= Seq::<AudioBusDescriptor>::empty(),
        1 <= total <= 2 ==> r@ =~= seq![AudioBusDescriptor { channels: total }],
        total > 2 ==> r@ =~= seq![
            AudioBusDescriptor { channels: 2 },
            AudioBusDescriptor { channels: (total - 2) as usize },
        ],
        spec_total_channels(r@) == total,
{
    let mut buses: HeaplessVec<AudioBusDescriptor, 16> = HeaplessVec::new();
    if total == 0 {
        proof {
            assert(spec_total_channels(buses@) == 0);
        }
    } else if total <= 2 {
        let main = AudioBusDescriptor { channels: total };
        let _ = buses.push(main);
        proof {
            assert(buses@ =~= seq![main]);
            assert(buses@.drop_last() =~= Seq::<AudioBusDescriptor>::empty());
            assert(spec_total_channels(Seq::<AudioBusDescriptor>::empty()) == 0);
            assert(spec_total_channels(buses@) == total);
        }
    } else {
        let main = AudioBusDescriptor { channels: 2 };
        let rest = AudioBusDescriptor { channels: total - 2 };
        let _ = buses.push(main);
        let _ = buses.push(rest);
        proof {
            assert(buses@ =~= seq![main, rest]);
            assert(buses@.drop_last() =~= seq![main]);
            assert(buses@.drop_last().drop_last() =~= Seq::<AudioBusDescriptor>::empty());
            assert(spec_total_channels(Seq::<AudioBusDescriptor>::empty()) == 0);
            assert(spec_total_channels(buses@.drop_last())
                == spec_total_channels(buses@.drop_last().drop_last()) + main.channels);
            assert(spec_total_channels(buses@) == total);
        }
    }
    buses
}

} // verus!
