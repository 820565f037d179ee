use vstd::prelude::*;

verus! {

/// Role tag of one thread, kept by the caller per thread.
#[derive(Debug, PartialEq, Eq, Clone, Copy, Structural)]
pub enum ThreadType {
    Unknown,
    MainThread,
}

/// Process-wide thread-role registry: records whether some thread has
/// been marked as the main thread. Until that happens, every discipline
/// check is a no-op; it is advisory instrumentation, never enforcement.
#[derive(Debug, PartialEq, Eq, Clone, Copy, Structural)]
pub struct ThreadRegistry {
    pub main_identified: bool,
}

/// A reported thread-discipline violation: which function ran on the
/// wrong kind of thread. Advisory only, never fatal.
#[derive(Debug, Clone)]
pub enum ThreadDisciplineViolation {
    /// The function must run on the main thread but did not.
    ExpectedMainThread { function_name: String },
    /// The function must not run on the main thread but did.
    ExpectedNonMainThread { function_name: String },
}

impl ThreadRegistry {
    /// A fresh registry: no thread marked yet, checks disabled.
    pub fn new() -> (r: ThreadRegistry)
        ensures
            !r.main_identified,
    {
        ThreadRegistry { main_identified: false }
    }
}

/// Marks the calling thread (whose tag is `current`) as the main thread
/// and enables discipline checking. Meant to be called exactly once,
/// early; it is never reset.
pub fn mark_current_as_main(registry: &mut ThreadRegistry, current: &mut ThreadType)
    ensures
        final(registry).main_identified,
        *final(current) == ThreadType::MainThread,
{
    *current = ThreadType::MainThread;
    registry.main_identified = true;
}

/// Whether a main thread has been marked, so that checks are active.
pub fn is_thread_checking_enabled(registry: &ThreadRegistry) -> (r: bool)
    ensures
        r == registry.main_identified,
{
    registry.main_identified
}

/// Whether the calling thread is the marked main thread. Meaningful
/// only once checking is enabled.
pub fn is_main_thread(registry: &ThreadRegistry, current: &ThreadType) -> (r: bool)
    requires
        registry.main_identified,
    ensures
        r == (*current == ThreadType::MainThread),
{
    *current == ThreadType::MainThread
}

/// Checks that a main-thread-only function runs on the main thread.
/// Before any thread is marked this reports nothing; afterwards each
/// call from a wrong thread reports exactly one violation.
pub fn ensure_main_thread(
    registry: &ThreadRegistry,
    current: &ThreadType,
    fn_name: &str,
) -> (r: Option<ThreadDisciplineViolation>)
    ensures
        !registry.main_identified ==> r is None,
        registry.main_identified && *current == ThreadType::MainThread ==> r is None,
        registry.main_identified && *current != ThreadType::MainThread ==> (r matches Some(v)
            && v matches ThreadDisciplineViolation::ExpectedMainThread { function_name }
            && function_name@ == fn_name@),
{
    if !is_thread_checking_enabled(registry) {
        return None;
    }
    if !is_main_thread(registry, current) {
        Some(ThreadDisciplineViolation::ExpectedMainThread {
            function_name: fn_name.to_owned(),
        })
    } else {
        None
    }
}

/// Checks that a realtime-only function does not run on the main thread.
/// Before any thread is marked this reports nothing; afterwards each
/// call from the main thread reports exactly one violation.
pub fn ensure_non_main_thread(
    registry: &ThreadRegistry,
    current: &ThreadType,
    fn_name: &str,
) -> (r: Option<ThreadDisciplineViolation>)
    ensures
        !registry.main_identified ==> r is None,
        registry.main_identified && *current != ThreadType::MainThread ==> r is None,
        registry.main_identified && *current == ThreadType::MainThread ==> (r matches Some(v)
            && v matches ThreadDisciplineViolation::ExpectedNonMainThread { function_name }
            && function_name@ == fn_name@),
{
    if !is_thread_checking_enabled(registry) {
        return None;
    }
    if is_main_thread(registry, current) {
        Some(ThreadDisciplineViolation::ExpectedNonMainThread {
            function_name: fn_name.to_owned(),
        })
    } else {
        None
    }
}

} // verus!
