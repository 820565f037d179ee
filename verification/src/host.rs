use vstd::prelude::*;

verus! {

/// How the host prefers plugin editors to render rotary controls.
#[derive(Clone, Copy, Debug, PartialEq, Eq, Structural)]
pub enum KnobPreference {
    Circular,
    Linear,
}

/// Language the host asks plugin editors to use.
#[derive(Clone, Copy, Debug, PartialEq, Eq, Structural)]
pub enum Language {
    English,
    Spanish,
    French,
    German,
    Italian,
}

impl Default for Language {
    fn default() -> (r: Self)
        ensures
            r == Language::English,
    {
        Language::English
    }
}

/// Host identity and preferences handed to every plugin at load time.
#[derive(Clone, Copy, Debug)]
pub struct Host {
    pub name: &'static str,
    pub version: &'static str,
    pub vendor: &'static str,
    pub url: &'static str,
    pub knob_preference: Option<KnobPreference>,
    pub language: Option<Language>,
}

impl Host {
    pub fn new(name: &'static str, version: &'static str, vendor: &'static str) -> (r: Self)
        ensures
            r.name@ == name@,
            r.version@ == version@,
            r.vendor@ == vendor@,
            r.url@ == ""@,
            r.knob_preference is None,
            r.language is None,
    {
        Host {
            name,
            version,
            vendor,
            url: "",
            knob_preference: None,
            language: None,
        }
    }
}

impl Default for Host {
    fn default() -> (r: Self)
        ensures
            r.name@ == ""@,
            r.version@ == ""@,
            r.vendor@ == ""@,
            r.url@ == ""@,
            r.knob_preference is None,
            r.language is None,
    {
        Host {
            name: "",
            version: "",
            vendor: "",
            url: "",
            knob_preference: None,
            language: None,
        }
    }
}

} // verus!
