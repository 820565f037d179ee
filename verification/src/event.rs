use vstd::prelude::*;

use crate::parameter::ParameterUpdate;
use crate::{PpqTimeBits, Samples};

verus! {

/// A MIDI message handed to the plugin, with note bookkeeping.
///
/// `detune_bits` carries the bit pattern of an `f32` detune amount.
#[derive(Debug, Clone, Copy, PartialEq, Eq)]
pub struct MidiEvent {
    pub note_length: Samples,
    pub midi_data: [u8; 3],
    pub detune_bits: u32,
    pub note_id: i32,
}

impl Default for MidiEvent {
    fn default() -> (r: Self)
        ensures
            r.note_length == 0 && r.midi_data@ =~= seq![0u8, 0u8, 0u8] && r.detune_bits == 0
                && r.note_id == 0,
    {
        MidiEvent { note_length: 0, midi_data: [0, 0, 0], detune_bits: 0, note_id: 0 }
    }
}

/// Per-note expression dimensions a host can address.
#[derive(Debug, Clone, Copy, PartialEq, Eq, Structural)]
pub enum NoteExpressionType {
    Volume,
    Pan,
    Tuning,
    Vibrato,
    Expression,
    Brightness,
}

/// Payload of an event sent from the host to the plugin.
///
/// `value_bits` of a note expression carries the bit pattern of an `f64`.
#[derive(Debug, Clone, Copy, PartialEq, Eq)]
pub enum HostIssuedEventType {
    Midi(MidiEvent),
    Parameter(ParameterUpdate),
    NoteExpression { note_id: i32, expression_type: NoteExpressionType, value_bits: u64 },
}

impl Default for HostIssuedEventType {
    fn default() -> (r: Self)
        ensures
            r matches HostIssuedEventType::Midi(m) && m.note_length == 0 && m.detune_bits == 0
                && m.note_id == 0 && m.midi_data@ =~= seq![0u8, 0u8, 0u8],
    {
        HostIssuedEventType::Midi(MidiEvent::default())
    }
}

/// An event sent to the plugin from the host, supplied per processing
/// call and not retained past that call.
#[derive(Debug, Clone, Copy, PartialEq, Eq)]
pub struct HostIssuedEvent {
    pub event_type: HostIssuedEventType,
    /// Time in samples from the start of the next block.
    pub block_time: Samples,
    pub ppq_time_bits: PpqTimeBits,
    pub bus_index: usize,
    /// Whether the event came from a live input such as a MIDI controller.
    pub is_live: bool,
}

impl Default for HostIssuedEvent {
    fn default() -> (r: Self)
        ensures
            r.block_time == 0 && r.ppq_time_bits == 0 && r.bus_index == 0 && r.is_live == false,
            r.event_type matches HostIssuedEventType::Midi(m) && m.note_length == 0
                && m.detune_bits == 0 && m.note_id == 0 && m.midi_data@ =~= seq![0u8, 0u8, 0u8],
    {
        HostIssuedEvent {
            event_type: HostIssuedEventType::default(),
            block_time: 0,
            ppq_time_bits: 0,
            bus_index: 0,
            is_live: false,
        }
    }
}

/// A notification sent to the host from the plugin, transported through
/// the event channel and consumed exactly once.
#[derive(Debug, Clone, Copy, PartialEq, Eq)]
pub enum PluginIssuedEvent {
    /// The plugin changed its latency; the new latency is in samples.
    ChangeLatency(usize),
    /// The plugin changed its editor window size: width, then height.
    ResizeWindow(usize, usize),
    Parameter(ParameterUpdate),
    UpdateDisplay,
    /// The plugin changed its I/O configuration.
    IOChanged,
    RequestEditorOpen,
    RequestEditorClose,
    /// How long the plugin keeps producing audio after its last input
    /// sample, in samples.
    TailLengthChanged(usize),
}

/// Whether the events are ordered by non-decreasing block-relative
/// sample offset.
pub open spec fn sorted_by_block_time(s: Seq<HostIssuedEvent>) -> bool {
    forall|i: int, j: int| 0 <= i < j < s.len() ==> s[i].block_time <= s[j].block_time
}

/// Predicate selecting the events at one sample offset.
pub open spec fn has_time(t: Samples) -> spec_fn(HostIssuedEvent) -> bool {
    |e: HostIssuedEvent| e.block_time == t
}

/// The events of `s` at sample offset `t`, in order.
pub open spec fn events_with_time(s: Seq<HostIssuedEvent>, t: Samples) -> Seq<HostIssuedEvent> {
    s.filter(has_time(t))
}

/// Filtering a sequence with no matching element yields the empty
/// sequence.
pub(crate) proof fn lemma_filter_all_false<A>(s: Seq<A>, pred: spec_fn(A) -> bool)
    requires
        forall|i: int| 0 <= i < s.len() ==> !pred(s[i]),
    ensures
        s.filter(pred) == Seq::<A>::empty(),
    decreases s.len(),
{
    reveal(Seq::filter);
    if s.len() > 0 {
        lemma_filter_all_false(s.drop_last(), pred);
    }
}

/// Filtering a one-element sequence keeps or drops that element.
pub(crate) proof fn lemma_filter_single<A>(x: A, pred: spec_fn(A) -> bool)
    ensures
        pred(x) ==> seq![x].filter(pred) == seq![x],
        !pred(x) ==> seq![x].filter(pred) == Seq::<A>::empty(),
{
    reveal_with_fuel(Seq::filter, 3);
    assert(seq![x].drop_last() =~= Seq::<A>::empty());
    assert(Seq::<A>::empty().filter(pred) =~= Seq::<A>::empty());
    if pred(x) {
        assert(seq![x].filter(pred) =~= seq![x]);
    }
}

/// Stable sort by block-relative sample offset: the result is ordered by
/// `block_time`, and events at equal offsets keep their submission
/// order (the events at each offset are exactly those supplied, in the
/// order supplied).
pub fn sort_events(events: Vec<HostIssuedEvent>) -> (r: Vec<HostIssuedEvent>)
    ensures
        r@.len() == events@.len(),
        sorted_by_block_time(r@),
        forall|t: Samples| #[trigger] events_with_time(r@, t) == events_with_time(events@, t),
{
    let n = events.len();
    let mut result: Vec<HostIssuedEvent> = Vec::new();
    proof {
        assert(events@.subrange(0, 0) =~= Seq::<HostIssuedEvent>::empty());
        assert forall|t: Samples| #[trigger] events_with_time(result@, t)
            == events_with_time(events@.subrange(0, 0), t) by {
            lemma_filter_all_false(result@, has_time(t));
            lemma_filter_all_false(events@.subrange(0, 0), has_time(t));
        }
    }
    let mut i: usize = 0;
    while i < n
        invariant
            n == events@.len(),
            i <= n,
            result@.len() == i,
            sorted_by_block_time(result@),
            forall|t: Samples| #[trigger] events_with_time(result@, t)
                == events_with_time(events@.subrange(0, i as int), t),
        decreases n - i,
    {
        let e = events[i];
        let mut p: usize = result.len();
        while p > 0 && result[p - 1].block_time > e.block_time
            invariant
                p <= result@.len(),
                sorted_by_block_time(result@),
                forall|j: int| p <= j < result@.len()
                    ==> result@[j].block_time > e.block_time,
            decreases p,
        {
            p = p - 1;
        }
        let ghost prev = result@;
        result.insert(p, e);
        proof {
            let front = prev.subrange(0, p as int);
            let back = prev.subrange(p as int, prev.len() as int);
            assert(result@ =~= front + seq![e] + back);
            assert(prev =~= front + back);
            assert forall|a: int, b: int| 0 <= a < b < result@.len()
                implies result@[a].block_time <= result@[b].block_time by {
                assert(forall|j: int| 0 <= j < p ==> prev[j].block_time <= e.block_time);
            }
            assert(forall|m: int| 0 <= m < back.len()
                ==> #[trigger] back[m].block_time > e.block_time);
            assert forall|t: Samples| #[trigger] events_with_time(result@, t)
                == events_with_time(events@.subrange(0, i + 1), t) by {
                let pred = has_time(t);
                assert(events_with_time(prev, t)
                    == events_with_time(events@.subrange(0, i as int), t));
                Seq::filter_distributes_over_add(front + seq![e], back, pred);
                Seq::filter_distributes_over_add(front, seq![e], pred);
                Seq::filter_distributes_over_add(front, back, pred);
                lemma_filter_single(e, pred);
                assert(events@.subrange(0, i + 1) =~= events@.subrange(0, i as int) + seq![e]);
                Seq::filter_distributes_over_add(events@.subrange(0, i as int), seq![e], pred);
                if e.block_time == t {
                    lemma_filter_all_false(back, pred);
                    assert(events_with_time(result@, t)
                        =~= events_with_time(prev, t) + seq![e]);
                    assert(events_with_time(events@.subrange(0, i + 1), t)
                        =~= events_with_time(events@.subrange(0, i as int), t) + seq![e]);
                } else {
                    assert(events_with_time(result@, t) =~= events_with_time(prev, t));
                    assert(events_with_time(events@.subrange(0, i + 1), t)
                        =~= events_with_time(events@.subrange(0, i as int), t));
                }
            }
        }
        i = i + 1;
    }
    proof {
        assert(events@.subrange(0, n as int) =~= events@);
    }
    result
}

/// Whether an event carries a parameter change.
pub open spec fn is_parameter_event(e: HostIssuedEvent) -> bool {
    e.event_type is Parameter
}

/// The parameter change carried by a parameter event.
pub open spec fn event_parameter(e: HostIssuedEvent) -> ParameterUpdate {
    e.event_type->Parameter_0
}

/// Identifiers of the parameter events of `s`, each once, in order of
/// first appearance.
pub open spec fn param_ids_in_order(s: Seq<HostIssuedEvent>) -> Seq<i32>
    decreases s.len(),
{
    if s.len() == 0 {
        Seq::empty()
    } else {
        let rest = param_ids_in_order(s.drop_last());
        if is_parameter_event(s.last())
            && !rest.contains(event_parameter(s.last()).parameter_id) {
            rest.push(event_parameter(s.last()).parameter_id)
        } else {
            rest
        }
    }
}

/// Index of the parameter event for `id` that survives deduplication:
/// the one with the largest block-relative offset, the latest submitted
/// among equal offsets; -1 when `s` has no parameter event for `id`.
pub open spec fn winner_index(s: Seq<HostIssuedEvent>, id: i32) -> int
    decreases s.len(),
{
    if s.len() == 0 {
        -1
    } else {
        let rest = winner_index(s.drop_last(), id);
        if is_parameter_event(s.last()) && event_parameter(s.last()).parameter_id == id
            && (rest == -1 || s[rest].block_time <= s.last().block_time) {
            s.len() - 1
        } else {
            rest
        }
    }
}

/// The winner for `id` exists exactly when `id` has a parameter event,
/// and it is a parameter event for `id`.
pub proof fn lemma_winner_in_range(s: Seq<HostIssuedEvent>, id: i32)
    ensures
        winner_index(s, id) == -1 || (0 <= winner_index(s, id) < s.len()
            && is_parameter_event(s[winner_index(s, id)])
            && event_parameter(s[winner_index(s, id)]).parameter_id == id),
        (winner_index(s, id) >= 0) <==> param_ids_in_order(s).contains(id),
    decreases s.len(),
{
    if s.len() > 0 {
        lemma_winner_in_range(s.drop_last(), id);
        let rest = winner_index(s.drop_last(), id);
        let rest_ids = param_ids_in_order(s.drop_last());
        if 0 <= rest < s.len() - 1 {
            assert(s.drop_last()[rest] == s[rest]);
        }
        if is_parameter_event(s.last())
            && !rest_ids.contains(event_parameter(s.last()).parameter_id) {
            let pushed = rest_ids.push(event_parameter(s.last()).parameter_id);
            assert(pushed[rest_ids.len() as int] == event_parameter(s.last()).parameter_id);
            assert(forall|k: int| 0 <= k < rest_ids.len() ==> pushed[k] == rest_ids[k]);
            assert(rest_ids.contains(id) ==> pushed.contains(id)) by {
                if rest_ids.contains(id) {
                    let k = choose|k: int| 0 <= k < rest_ids.len() && rest_ids[k] == id;
                    assert(pushed[k] == id);
                }
            }
        }
    }
}

/// Deduplication law: every parameter event for `id` has an offset at
/// most the winner's, and an event at the winner's offset never comes
/// after the winner.
pub proof fn lemma_winner_takes_latest(s: Seq<HostIssuedEvent>, id: i32, j: int)
    requires
        0 <= j < s.len(),
        is_parameter_event(s[j]),
        event_parameter(s[j]).parameter_id == id,
    ensures
        ({
            let w = winner_index(s, id);
            &&& 0 <= w < s.len()
            &&& is_parameter_event(s[w])
            &&& event_parameter(s[w]).parameter_id == id
            &&& s[j].block_time <= s[w].block_time
            &&& (s[j].block_time == s[w].block_time ==> j <= w)
        }),
    decreases s.len(),
{
    let n = s.len() - 1;
    let rest = winner_index(s.drop_last(), id);
    lemma_winner_in_range(s.drop_last(), id);
    if 0 <= rest < n {
        assert(s.drop_last()[rest] == s[rest]);
    }
    if j < n {
        lemma_winner_takes_latest(s.drop_last(), id, j);
        assert(s.drop_last()[j] == s[j]);
        assert(s.drop_last()[rest] == s[rest]);
    }
}

/// The identifiers in `param_ids_in_order` are pairwise distinct: after
/// deduplication exactly one update per id remains.
pub proof fn lemma_param_ids_distinct(s: Seq<HostIssuedEvent>)
    ensures
        forall|k1: int, k2: int|
            0 <= k1 < k2 < param_ids_in_order(s).len()
                ==> param_ids_in_order(s)[k1] != param_ids_in_order(s)[k2],
    decreases s.len(),
{
    if s.len() > 0 {
        lemma_param_ids_distinct(s.drop_last());
        let rest = param_ids_in_order(s.drop_last());
        let ids = param_ids_in_order(s);
        if is_parameter_event(s.last())
            && !rest.contains(event_parameter(s.last()).parameter_id) {
            assert forall|k1: int, k2: int| 0 <= k1 < k2 < ids.len()
                implies ids[k1] != ids[k2] by {
                if k2 == ids.len() - 1 {
                    assert(!rest.contains(ids[k2]));
                    assert(rest[k1] == ids[k1]);
                }
            }
        }
    }
}

/// Membership and winning slot of one deduplication entry: slot `k`
/// holds the winning update for the `k`-th distinct id over the first
/// `i` events.
pub open spec fn dedup_slot_ok(
    events: Seq<HostIssuedEvent>,
    i: int,
    ids: Seq<i32>,
    winners: Seq<ParameterUpdate>,
    times: Seq<usize>,
    k: int,
) -> bool {
    let w = winner_index(events.subrange(0, i), ids[k]);
    &&& 0 <= w < i
    &&& winners[k] == event_parameter(events[w])
    &&& winners[k].parameter_id == ids[k]
    &&& times[k] == events[w].block_time
}

/// Collapses the parameter events of one batch to one update per id: the
/// survivor for each id is the event with the largest block-relative
/// offset, the latest submitted among equal offsets. Survivors come out
/// keyed by id in order of first appearance.
pub fn dedup_parameter_updates(events: &Vec<HostIssuedEvent>) -> (r: Vec<ParameterUpdate>)
    ensures
        r@.len() == param_ids_in_order(events@).len(),
        forall|k: int| #![trigger param_ids_in_order(events@)[k]] 0 <= k < r@.len() ==> {
            let id = param_ids_in_order(events@)[k];
            let w = winner_index(events@, id);
            &&& 0 <= w < events@.len()
            &&& r@[k] == event_parameter(events@[w])
            &&& r@[k].parameter_id == id
        },
{
    let n = events.len();
    let mut ids: Vec<i32> = Vec::new();
    let mut winners: Vec<ParameterUpdate> = Vec::new();
    let mut times: Vec<usize> = Vec::new();
    proof {
        assert(events@.subrange(0, 0) =~= Seq::<HostIssuedEvent>::empty());
    }
    let mut i: usize = 0;
    while i < n
        invariant
            n == events@.len(),
            i <= n,
            ids@ == param_ids_in_order(events@.subrange(0, i as int)),
            winners@.len() == ids@.len(),
            times@.len() == ids@.len(),
            forall|k: int| 0 <= k < ids@.len()
                ==> #[trigger] dedup_slot_ok(events@, i as int, ids@, winners@, times@, k),
        decreases n - i,
    {
        let ghost prefix = events@.subrange(0, i as int);
        let ghost next_prefix = events@.subrange(0, i + 1);
        proof {
            assert(next_prefix.drop_last() =~= prefix);
            assert(next_prefix.last() == events@[i as int]);
            assert(forall|w: int| 0 <= w < i ==> prefix[w] == events@[w]);
            assert(forall|w: int| 0 <= w <= i ==> next_prefix[w] == events@[w]);
        }
        let e = events[i];
        match e.event_type {
            HostIssuedEventType::Parameter(update) => {
                proof {
                    assert(event_parameter(events@[i as int]) == update);
                }
                let pid = update.parameter_id;
                let m = ids.len();
                let mut k: usize = 0;
                while k < m && ids[k] != pid
                    invariant
                        m == ids@.len(),
                        k <= m,
                        forall|j: int| 0 <= j < k ==> ids@[j] != pid,
                    decreases m - k,
                {
                    k = k + 1;
                }
                if k < m {
                    // id already seen: keep whichever of the recorded
                    // winner and this event has the later offset, with the
                    // newer event winning ties
                    let ghost w = winner_index(prefix, pid);
                    let ghost old_winners = winners@;
                    let ghost old_times = times@;
                    proof {
                        assert(ids@[k as int] == pid);
                        assert(param_ids_in_order(prefix).contains(pid));
                        assert(param_ids_in_order(next_prefix) == param_ids_in_order(prefix));
                        assert(dedup_slot_ok(events@, i as int, ids@, winners@, times@, k as int));
                        assert(0 <= w < i && winners@[k as int] == event_parameter(events@[w])
                            && times@[k as int] == events@[w].block_time);
                        lemma_param_ids_distinct(prefix);
                        assert(forall|q: int| 0 <= q < ids@.len() && q != k ==> ids@[q] != pid);
                        assert(forall|idq: i32| idq != pid
                            ==> winner_index(next_prefix, idq) == winner_index(prefix, idq));
                    }
                    if times[k] <= e.block_time {
                        winners.set(k, update);
                        times.set(k, e.block_time);
                        proof {
                            assert(next_prefix[w] == events@[w]);
                            assert(winner_index(next_prefix, pid) == i);
                            assert forall|q: int| 0 <= q < ids@.len()
                                implies #[trigger] dedup_slot_ok(
                                    events@, i + 1, ids@, winners@, times@, q) by {
                                if q == k as int {
                                    assert(winner_index(next_prefix, ids@[q]) == i);
                                } else {
                                    assert(dedup_slot_ok(
                                        events@, i as int, ids@, old_winners, old_times, q));
                                    assert(winners@[q] == old_winners[q]);
                                    assert(times@[q] == old_times[q]);
                                    assert(ids@[q] != pid);
                                }
                            }
                        }
                    } else {
                        proof {
                            assert(next_prefix[w] == events@[w]);
                            assert(winner_index(next_prefix, pid) == w);
                            assert forall|q: int| 0 <= q < ids@.len()
                                implies #[trigger] dedup_slot_ok(
                                    events@, i + 1, ids@, winners@, times@, q) by {
                                assert(dedup_slot_ok(
                                    events@, i as int, ids@, winners@, times@, q));
                                if q != k as int {
                                    assert(ids@[q] != pid);
                                }
                            }
                        }
                    }
                } else {
                    // first event for this id
                    let ghost old_ids = ids@;
                    let ghost old_winners = winners@;
                    let ghost old_times = times@;
                    proof {
                        lemma_winner_in_range(prefix, pid);
                        assert(!param_ids_in_order(prefix).contains(pid)) by {
                            if param_ids_in_order(prefix).contains(pid) {
                                let j = choose|j: int|
                                    0 <= j < param_ids_in_order(prefix).len()
                                        && param_ids_in_order(prefix)[j] == pid;
                                assert(ids@[j] == pid);
                            }
                        }
                        assert(winner_index(prefix, pid) == -1);
                        assert(winner_index(next_prefix, pid) == i);
                        assert(param_ids_in_order(next_prefix)
                            == param_ids_in_order(prefix).push(pid));
                        assert(forall|idq: i32| idq != pid
                            ==> winner_index(next_prefix, idq) == winner_index(prefix, idq));
                    }
                    ids.push(pid);
                    winners.push(update);
                    times.push(e.block_time);
                    proof {
                        assert forall|q: int| 0 <= q < ids@.len()
                            implies #[trigger] dedup_slot_ok(
                                events@, i + 1, ids@, winners@, times@, q) by {
                            if q == ids@.len() - 1 {
                                assert(ids@[q] == pid);
                                assert(winner_index(next_prefix, pid) == i);
                                assert(winners@[q] == update);
                            } else {
                                assert(dedup_slot_ok(
                                    events@, i as int, old_ids, old_winners, old_times, q));
                                assert(ids@[q] == old_ids[q]);
                                assert(winners@[q] == old_winners[q]);
                                assert(times@[q] == old_times[q]);
                                assert(old_ids[q] != pid);
                            }
                        }
                    }
                }
            }
            _ => {
                proof {
                    assert(!is_parameter_event(events@[i as int]));
                    assert(param_ids_in_order(next_prefix) == param_ids_in_order(prefix));
                    assert(forall|idq: i32|
                        winner_index(next_prefix, idq) == winner_index(prefix, idq));
                    assert forall|q: int| 0 <= q < ids@.len()
                        implies #[trigger] dedup_slot_ok(
                            events@, i + 1, ids@, winners@, times@, q) by {
                        assert(dedup_slot_ok(events@, i as int, ids@, winners@, times@, q));
                    }
                }
            }
        }
        i = i + 1;
    }
    proof {
        assert(events@.subrange(0, n as int) =~= events@);
        assert forall|k: int| #![trigger param_ids_in_order(events@)[k]] 0 <= k < winners@.len() implies {
            let id = param_ids_in_order(events@)[k];
            let w = winner_index(events@, id);
            &&& 0 <= w < events@.len()
            &&& winners@[k] == event_parameter(events@[w])
            &&& winners@[k].parameter_id == id
        } by {
            assert(dedup_slot_ok(events@, i as int, ids@, winners@, times@, k));
            assert(i as int == n as int);
            assert(events@.subrange(0, i as int) == events@);
        }
    }
    winners
}

} // verus!
