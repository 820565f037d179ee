use vstd::prelude::*;

verus! {

/// Bit pattern of the `f32` quiet NaN used to mean "no baseline value".
pub const F32_NAN_BITS: u32 = 0x7FC0_0000;

/// Whether a parameter-value bit pattern encodes an IEEE-754 `f32` NaN:
/// exponent all ones and a non-zero mantissa.
pub open spec fn spec_is_nan_bits(bits: u32) -> bool {
    bits & 0x7F80_0000 == 0x7F80_0000 && bits & 0x007F_FFFF != 0
}

/// Runtime check matching `spec_is_nan_bits`.
pub fn is_nan_bits(bits: u32) -> (r: bool)
    ensures
        r == spec_is_nan_bits(bits),
{
    bits & 0x7F80_0000 == 0x7F80_0000 && bits & 0x007F_FFFF != 0
}

/// Full description of one plugin parameter, as reported by a query.
///
/// `value_bits` and `default_value_bits` carry the bit pattern of a
/// normalized `f32` value in [0, 1].
#[derive(Debug, Clone)]
pub struct Parameter {
    pub id: i32,
    pub name: String,
    pub index: i32,
    pub value_bits: u32,
    /// Value as formatted by the plugin, e.g. "0 dB".
    pub formatted_value: String,
    pub hidden: bool,
    pub can_automate: bool,
    pub is_wrap_around: bool,
    pub read_only: bool,
    /// Default normalized value where the format supports one.
    pub default_value_bits: Option<u32>,
}

/// One change of one parameter's value.
///
/// `current_value_bits` and `initial_value_bits` carry the bit pattern of
/// a normalized `f32` value; an NaN pattern in `initial_value_bits` means
/// no pre-edit baseline was recorded.
#[derive(Debug, Clone, Copy, PartialEq, Eq, Structural)]
pub struct ParameterUpdate {
    pub parameter_id: i32,
    pub parameter_index: i32,
    pub current_value_bits: u32,
    /// Value at the start of the edit, for undo support in the host.
    pub initial_value_bits: u32,
    /// True when the user has released the control and this is the final
    /// value of the edit.
    pub end_edit: bool,
}

impl ParameterUpdate {
    pub fn new(id: i32, value_bits: u32) -> (r: Self)
        ensures
            r == (ParameterUpdate {
                parameter_id: id,
                parameter_index: -1i32,
                current_value_bits: value_bits,
                initial_value_bits: F32_NAN_BITS,
                end_edit: false,
            }),
    {
        ParameterUpdate {
            parameter_id: id,
            parameter_index: -1,
            current_value_bits: value_bits,
            initial_value_bits: F32_NAN_BITS,
            end_edit: false,
        }
    }
}

/// A parameter addressed by both its position and its identifier.
#[derive(Debug, Clone, Copy, PartialEq, Eq, Structural)]
pub struct IndexIdPair {
    pub index: i32,
    pub id: i32,
}

/// State of one in-progress edit of one parameter in the plugin editor:
/// the latest value seen and the value the edit started from, both as
/// `f32` bit patterns.
#[derive(Debug, Clone, Copy, PartialEq, Eq, Structural)]
pub struct ParamState {
    pub index: i32,
    pub current_bits: u32,
    pub initial_bits: u32,
}

/// Position of the first edit state for `index` in `s`, or -1 when none
/// exists.
pub open spec fn find_editing(s: Seq<ParamState>, index: i32) -> int
    decreases s.len(),
{
    if s.len() == 0 {
        -1
    } else if s[0].index == index {
        0
    } else {
        let r = find_editing(s.drop_first(), index);
        if r == -1 {
            -1
        } else {
            r + 1
        }
    }
}

/// Where the first edit state for `index` sits: either there is none, or
/// `find_editing` names the first one.
pub proof fn lemma_find_editing_props(s: Seq<ParamState>, index: i32)
    ensures
        find_editing(s, index) == -1 ==> forall|j: int|
            0 <= j < s.len() ==> #[trigger] s[j].index != index,
        find_editing(s, index) != -1 ==> 0 <= find_editing(s, index) < s.len()
            && s[find_editing(s, index)].index == index
            && forall|j: int| 0 <= j < find_editing(s, index) ==> #[trigger] s[j].index != index,
    decreases s.len(),
{
    if s.len() > 0 && s[0].index != index {
        lemma_find_editing_props(s.drop_first(), index);
        let rest = find_editing(s.drop_first(), index);
        if rest == -1 {
            assert forall|j: int| 0 <= j < s.len() implies #[trigger] s[j].index != index by {
                if j > 0 {
                    assert(s.drop_first()[j - 1] == s[j]);
                }
            }
        } else {
            assert(s.drop_first()[rest] == s[rest + 1]);
            assert forall|j: int| 0 <= j < find_editing(s, index)
                implies #[trigger] s[j].index != index by {
                if j > 0 {
                    assert(s.drop_first()[j - 1] == s[j]);
                }
            }
        }
    }
}

/// Predicate keeping every identifier other than `index`.
pub open spec fn not_index(index: i32) -> spec_fn(i32) -> bool {
    |x: i32| x != index
}

/// Tracks which parameters the plugin editor is editing, pairing each
/// automation callback with the value its edit started from.
pub struct EditorParamsState {
    /// Parameters whose edit gesture began but has not yet produced a
    /// value.
    pub just_started: Vec<i32>,
    /// Parameters mid-edit, with their running and starting values.
    pub currently_editing: Vec<ParamState>,
}

impl EditorParamsState {
    pub fn new() -> (r: Self)
        ensures
            r.just_started@ == Seq::<i32>::empty(),
            r.currently_editing@ == Seq::<ParamState>::empty(),
    {
        EditorParamsState { just_started: Vec::new(), currently_editing: Vec::new() }
    }

    /// Records that an edit gesture for `index` began.
    pub fn begin_edit(&mut self, index: i32)
        ensures
            final(self).just_started@ == old(self).just_started@.push(index),
            final(self).currently_editing@ == old(self).currently_editing@,
    {
        self.just_started.push(index);
    }

    /// Records one automation value for `index` and returns the update
    /// to publish. A fresh edit (just started, or never announced) opens
    /// a new edit state with no baseline; a continuing edit updates its
    /// running value and reports the baseline it started from.
    pub fn automate(&mut self, index: i32, value_bits: u32) -> (r: ParameterUpdate)
        ensures
            final(self).just_started@
                == old(self).just_started@.filter(not_index(index)),
            ({
                let pos = find_editing(old(self).currently_editing@, index);
                let fresh = old(self).just_started@.contains(index) || pos == -1;
                &&& fresh ==> final(self).currently_editing@
                    == old(self).currently_editing@.push(
                        ParamState { index, current_bits: value_bits, initial_bits: value_bits })
                    && r.initial_value_bits == F32_NAN_BITS
                &&& !fresh ==> final(self).currently_editing@
                    == old(self).currently_editing@.update(pos, ParamState {
                        index,
                        current_bits: value_bits,
                        initial_bits: old(self).currently_editing@[pos].initial_bits,
                    })
                    && r.initial_value_bits
                        == old(self).currently_editing@[pos].initial_bits
            }),
            r.parameter_id == index,
            r.parameter_index == index,
            r.current_value_bits == value_bits,
            r.end_edit == false,
    {
        proof {
            lemma_find_editing_props(self.currently_editing@, index);
        }
        let started = contains_i32(&self.just_started, index);
        let pos = position_of(&self.currently_editing, index);
        let initial_value_bits: u32;
        match pos {
            Some(k) if !started => {
                let prior = self.currently_editing[k];
                self.currently_editing.set(k, ParamState {
                    index,
                    current_bits: value_bits,
                    initial_bits: prior.initial_bits,
                });
                initial_value_bits = prior.initial_bits;
            }
            _ => {
                self.currently_editing.push(ParamState {
                    index,
                    current_bits: value_bits,
                    initial_bits: value_bits,
                });
                initial_value_bits = F32_NAN_BITS;
            }
        }
        retain_not_index(&mut self.just_started, index);
        ParameterUpdate {
            parameter_id: index,
            parameter_index: index,
            current_value_bits: value_bits,
            initial_value_bits,
            end_edit: false,
        }
    }

    /// Ends the edit of `index`, removing its edit state and returning
    /// the final update, flagged as the end of the edit; without an open
    /// edit for `index` nothing changes and nothing is returned.
    pub fn end_edit(&mut self, index: i32) -> (r: Option<ParameterUpdate>)
        ensures
            final(self).just_started@ == old(self).just_started@,
            ({
                let pos = find_editing(old(self).currently_editing@, index);
                &&& pos == -1 ==> r is None
                    && final(self).currently_editing@ == old(self).currently_editing@
                &&& pos != -1 ==> r == Some(ParameterUpdate {
                        parameter_id: index,
                        parameter_index: index,
                        current_value_bits: old(self).currently_editing@[pos].current_bits,
                        initial_value_bits: old(self).currently_editing@[pos].initial_bits,
                        end_edit: true,
                    })
                    && final(self).currently_editing@
                        == old(self).currently_editing@.remove(pos)
            }),
    {
        proof {
            lemma_find_editing_props(self.currently_editing@, index);
        }
        let pos = position_of(&self.currently_editing, index);
        let k = match pos {
            Some(k) => k,
            None => {
                return None;
            }
        };
        let state = self.currently_editing.remove(k);
        Some(ParameterUpdate {
            parameter_id: index,
            parameter_index: index,
            current_value_bits: state.current_bits,
            initial_value_bits: state.initial_bits,
            end_edit: true,
        })
    }
}

/// Whether `items` holds `value`.
fn contains_i32(items: &Vec<i32>, value: i32) -> (r: bool)
    ensures
        r == items@.contains(value),
{
    let n = items.len();
    let mut i: usize = 0;
    while i < n
        invariant
            n == items@.len(),
            i <= n,
            forall|j: int| 0 <= j < i ==> items@[j] != value,
        decreases n - i,
    {
        if items[i] == value {
            return true;
        }
        i = i + 1;
    }
    false
}

/// Position of the first edit state for `index`, matching
/// `find_editing`.
fn position_of(states: &Vec<ParamState>, index: i32) -> (r: Option<usize>)
    ensures
        r matches Some(k) ==> k == find_editing(states@, index),
        r is None ==> find_editing(states@, index) == -1,
{
    proof {
        lemma_find_editing_props(states@, index);
    }
    let n = states.len();
    let mut i: usize = 0;
    while i < n
        invariant
            n == states@.len(),
            i <= n,
            forall|j: int| 0 <= j < i ==> #[trigger] states@[j].index != index,
        decreases n - i,
    {
        if states[i].index == index {
            proof {
                lemma_find_editing_at(states@, index, i as int);
            }
            return Some(i);
        }
        i = i + 1;
    }
    proof {
        lemma_find_editing_props(states@, index);
        if find_editing(states@, index) != -1 {
            assert(states@[find_editing(states@, index)].index == index);
        }
    }
    None
}

/// A position whose earlier entries all miss `index` is the first match.
proof fn lemma_find_editing_at(s: Seq<ParamState>, index: i32, k: int)
    requires
        0 <= k < s.len(),
        s[k].index == index,
        forall|j: int| 0 <= j < k ==> #[trigger] s[j].index != index,
    ensures
        find_editing(s, index) == k,
    decreases k,
{
    if k > 0 {
        assert(forall|j: int| 0 <= j < s.drop_first().len()
            ==> #[trigger] s.drop_first()[j] == s[j + 1]);
        lemma_find_editing_at(s.drop_first(), index, k - 1);
    }
}

/// Removes every occurrence of `index`, keeping the rest in order.
fn retain_not_index(items: &mut Vec<i32>, index: i32)
    ensures
        final(items)@ == old(items)@.filter(not_index(index)),
{
    let n = items.len();
    let mut kept: Vec<i32> = Vec::new();
    proof {
        crate::event::lemma_filter_all_false(old(items)@.subrange(0, 0), not_index(index));
        assert(old(items)@.subrange(0, 0) =~= Seq::<i32>::empty());
        assert(kept@ =~= old(items)@.subrange(0, 0).filter(not_index(index)));
    }
    let mut i: usize = 0;
    while i < n
        invariant
            n == items@.len(),
            items@ == old(items)@,
            i <= n,
            kept@ == old(items)@.subrange(0, i as int).filter(not_index(index)),
        decreases n - i,
    {
        let x = items[i];
        proof {
            assert(old(items)@.subrange(0, i + 1)
                =~= old(items)@.subrange(0, i as int) + seq![x]);
            Seq::filter_distributes_over_add(
                old(items)@.subrange(0, i as int), seq![x], not_index(index));
            crate::event::lemma_filter_single(x, not_index(index));
            if x != index {
                assert(old(items)@.subrange(0, i as int).filter(not_index(index)) + seq![x]
                    =~= old(items)@.subrange(0, i as int).filter(not_index(index)).push(x));
            } else {
                assert(old(items)@.subrange(0, i as int).filter(not_index(index))
                    + Seq::<i32>::empty()
                    =~= old(items)@.subrange(0, i as int).filter(not_index(index)));
            }
        }
        if x != index {
            kept.push(x);
        }
        i = i + 1;
    }
    proof {
        assert(old(items)@.subrange(0, n as int) =~= old(items)@);
    }
    *items = kept;
}

} // verus!
