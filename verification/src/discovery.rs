use vstd::prelude::*;

use crate::Samples;

verus! {

/// Binary plugin interface a plugin file uses.
#[derive(Clone, Copy, Debug, PartialEq, Eq, Structural)]
pub enum Format {
    Vst2,
    Vst3,
    Clap,
}

impl Default for Format {
    fn default() -> (r: Self)
        ensures
            r == Format::Vst2,
    {
        Format::Vst2
    }
}

/// Static identifying metadata of one loadable plugin, created at
/// discovery or load time and immutable thereafter.
#[derive(Debug)]
pub struct PluginDescriptor {
    pub name: String,
    pub id: String,
    /// Filesystem path of the plugin file, as text.
    pub path: String,
    pub version: String,
    pub vendor: String,
    pub format: Format,
    pub initial_latency: Samples,
}

impl Clone for PluginDescriptor {
    fn clone(&self) -> (r: Self)
        ensures
            r.name@ == self.name@,
            r.id@ == self.id@,
            r.path@ == self.path@,
            r.version@ == self.version@,
            r.vendor@ == self.vendor@,
            r.format == self.format,
            r.initial_latency == self.initial_latency,
    {
        PluginDescriptor {
            name: self.name.clone(),
            id: self.id.clone(),
            path: self.path.clone(),
            version: self.version.clone(),
            vendor: self.vendor.clone(),
            format: self.format,
            initial_latency: self.initial_latency,
        }
    }
}

impl Default for PluginDescriptor {
    fn default() -> (r: Self)
        ensures
            r.name@ == Seq::<char>::empty(),
            r.id@ == Seq::<char>::empty(),
            r.path@ == Seq::<char>::empty(),
            r.version@ == Seq::<char>::empty(),
            r.vendor@ == Seq::<char>::empty(),
            r.format == Format::Vst2,
            r.initial_latency == 0,
    {
        PluginDescriptor {
            name: String::new(),
            id: String::new(),
            path: String::new(),
            version: String::new(),
            vendor: String::new(),
            format: Format::Vst2,
            initial_latency: 0,
        }
    }
}

/// Case-insensitive equality against a lowercase ASCII reference
/// character.
pub open spec fn ascii_eq_ci(c: char, lower: char) -> bool {
    c == lower || ('a' <= lower <= 'z' && c as u32 == lower as u32 - 32)
}

/// Whether `s` ends with `suffix`, compared case-insensitively against
/// the lowercase ASCII `suffix`.
pub open spec fn has_suffix_ci(s: Seq<char>, suffix: Seq<char>) -> bool {
    s.len() >= suffix.len() && forall|i: int| 0 <= i < suffix.len()
        ==> #[trigger] ascii_eq_ci(s[s.len() - suffix.len() + i], suffix[i])
}

/// Whether `s` ends with the lowercase ASCII `suffix`, ignoring ASCII
/// case.
fn has_suffix_ascii_ci(s: &str, suffix: &Vec<char>) -> (r: bool)
    requires
        forall|i: int| 0 <= i < suffix@.len()
            ==> 'a' <= #[trigger] suffix@[i] <= 'z' || suffix@[i] == '.'
                || '0' <= suffix@[i] <= '9',
    ensures
        r == has_suffix_ci(s@, suffix@),
{
    let n = s.unicode_len();
    let m = suffix.len();
    if n < m {
        return false;
    }
    let start = n - m;
    let mut i: usize = 0;
    while i < m
        invariant
            n == s@.len(),
            m == suffix@.len(),
            m <= n,
            start == n - m,
            i <= m,
            forall|j: int| 0 <= j < i
                ==> #[trigger] ascii_eq_ci(s@[start + j], suffix@[j]),
            forall|j: int| 0 <= j < suffix@.len()
                ==> 'a' <= #[trigger] suffix@[j] <= 'z' || suffix@[j] == '.'
                    || '0' <= suffix@[j] <= '9',
        decreases m - i,
    {
        let c = s.get_char(start + i);
        let want = suffix[i];
        let cv = c as u32;
        let wv = want as u32;
        if !(cv == wv || (97 <= wv && wv <= 122 && cv == wv - 32)) {
            proof {
                assert(!ascii_eq_ci(s@[start + i], suffix@[i as int]));
            }
            return false;
        }
        proof {
            assert(ascii_eq_ci(s@[start + i], suffix@[i as int]));
        }
        i = i + 1;
    }
    true
}

/// Whether the path names a VST3 plugin file: it ends in ".vst3",
/// ignoring ASCII case.
pub fn is_vst3(path: &str) -> (r: bool)
    ensures
        r == has_suffix_ci(path@, seq!['.', 'v', 's', 't', '3']),
{
    let suffix: Vec<char> = vec!['.', 'v', 's', 't', '3'];
    proof {
        assert(suffix@ =~= seq!['.', 'v', 's', 't', '3']);
    }
    has_suffix_ascii_ci(path, &suffix)
}

/// Whether the path names a CLAP plugin file: it ends in ".clap",
/// ignoring ASCII case.
pub fn is_clap(path: &str) -> (r: bool)
    ensures
        r == has_suffix_ci(path@, seq!['.', 'c', 'l', 'a', 'p']),
{
    let suffix: Vec<char> = vec!['.', 'c', 'l', 'a', 'p'];
    proof {
        assert(suffix@ =~= seq!['.', 'c', 'l', 'a', 'p']);
    }
    has_suffix_ascii_ci(path, &suffix)
}

} // verus!
