//! The BPMN engine's script runner: one-time set-up of the script engine,
//! the scripts it compiles, and how a script's result is read back.

use vstd::prelude::*;
use crate::text::concat;
use v_onto::individual::Individual;

verus! {

/// An individual of the platform, carried through unread.
#[verifier::external_type_specification]
#[verifier::external_body]
pub struct ExIndividual(Individual);

/// Proof that the script engine was set up; dropping it does nothing.
#[must_use]
pub struct SetupGuard {}

/// How many times the script engine was asked to be set up.
pub struct SetupCounter {
    count: u32,
}

impl SetupCounter {
    pub closed spec fn count(&self) -> u32 {
        self.count
    }

    /// The count of a fresh counter.
    pub open spec fn new_count() -> int {
        0
    }

    /// Nobody has asked yet.
    pub fn new() -> (c: SetupCounter)
        ensures
            c.count() == Self::new_count(),
    {
        SetupCounter { count: 0 }
    }

    /// Whether one more request can be counted.
    pub fn can_enter(&self) -> (r: bool)
        ensures
            r == (self.count() < u32::MAX),
    {
        self.count < u32::MAX
    }

    /// Counts a request to set up the engine; the platform and the engine
    /// are initialized on the first request only.
    pub fn enter(&mut self) -> (res: (SetupGuard, bool))
        requires
            old(self).count() < u32::MAX,
        ensures
            final(self).count() == old(self).count() + 1,
            res.1 == (final(self).count() == 1),
    {
        self.count = self.count + 1;
        (SetupGuard {}, self.count == 1)
    }
}

/// Whether a set-up request initializes the platform and the engine, when
/// `count_before` requests were counted before it.
pub open spec fn setup_initializes(count_before: int) -> bool {
    count_before == 0
}

/// Sets up the script engine: counts the request under the shared counter,
/// and tells whether the platform and the engine are to be initialized now,
/// which is on the first request only.
pub fn setup(counter: &mut SetupCounter) -> (res: (SetupGuard, bool))
    requires
        old(counter).count() < u32::MAX,
    ensures
        final(counter).count() == old(counter).count() + 1,
        res.1 == setup_initializes(old(counter).count() as int),
{
    counter.enter()
}

/// The context that compiled scripts carry; it holds nothing.
pub struct ScriptInfoContext {}

impl Default for ScriptInfoContext {
    fn default() -> (c: Self)
        ensures
            c == (ScriptInfoContext {}),
    {
        ScriptInfoContext {}
    }
}

/// Where a script's result is written, and in what form it is expected.
pub enum OutValue {
    Bool(bool),
    List(Vec<String>),
    Individual(Individual),
    /// The script is run for its effects alone.
    Nothing,
}

/// The text before the body of a script that is run for its effects: it
/// binds the ticket, the token and the process.
pub open spec fn script_prologue() -> Seq<char> {
    "(function () { try { var ticket = get_env_str_var ('$ticket'); var token = get_individual (ticket, '$token'); var process = get_individual (ticket, '$process'); "@
}

/// The text after the body: errors are logged, and the function is called.
pub open spec fn script_epilogue() -> Seq<char> {
    " } catch (e) { log_trace (e); } })();"@
}

/// The source of a script that is run for its effects.
pub fn wrapped_script_source(script_text: &str) -> (s: String)
    ensures
        s@ == script_prologue() + script_text@ + script_epilogue(),
{
    let a = concat(
        "(function () { try { var ticket = get_env_str_var ('$ticket'); var token = get_individual (ticket, '$token'); var process = get_individual (ticket, '$process'); ",
        script_text,
    );
    concat(a.as_str(), " } catch (e) { log_trace (e); } })();")
}

/// Where the compiled script comes from.
#[derive(Clone, Debug)]
pub enum ScriptSource {
    /// The script compiled before under the same id.
    Cached,
    /// Compile this source under the id and use the result.
    Compile(String),
    /// There is no script to run.
    Missing,
}

/// Whether a result is expected from the script.
pub open spec fn expects_result(out: &OutValue) -> bool {
    !(out is Nothing)
}

/// Where the script comes from: the cache, else the given text, wrapped
/// unless a result is expected.
pub fn script_source(cached: bool, script_text: Option<&str>, out: &OutValue) -> (s: ScriptSource)
    ensures
        cached ==> (s matches ScriptSource::Cached),
        !cached && script_text is None ==> (s matches ScriptSource::Missing),
        !cached ==> (script_text matches Some(t) ==> (s matches ScriptSource::Compile(src) && src@ == if expects_result(
            out,
        ) {
            t@
        } else {
            script_prologue() + t@ + script_epilogue()
        })),
{
    if cached {
        return ScriptSource::Cached;
    }
    match script_text {
        Some(t) => {
            let src = match out {
                OutValue::Nothing => wrapped_script_source(t),
                _ => t.to_owned(),
            };
            ScriptSource::Compile(src)
        },
        None => ScriptSource::Missing,
    }
}

/// The variables that a script sees: the ticket, and the work order when
/// there is one.
pub fn session_attrs(sys_ticket: &str, work_order: Option<&str>) -> (v: Vec<(String, String)>)
    ensures
        v@.len() == if work_order is Some { 2int } else { 1int },
        v@[0].0@ == "$ticket"@ && v@[0].1@ == sys_ticket@,
        work_order matches Some(w) ==> v@[1].0@ == "$work_order"@ && v@[1].1@ == w@,
{
    let mut v: Vec<(String, String)> = Vec::new();
    v.push(("$ticket".to_owned(), sys_ticket.to_owned()));
    if let Some(w) = work_order {
        v.push(("$work_order".to_owned(), w.to_owned()));
    }
    v
}

/// The result of a script that should answer a boolean: `None` when it did
/// not, else whether its integer value is not zero.
pub fn bool_result(is_boolean: bool, int_value: i64) -> (r: Option<bool>)
    ensures
        r == (if is_boolean { Some(int_value != 0) } else { None::<bool> }),
{
    if is_boolean {
        if int_value != 0 {
            Some(true)
        } else {
            Some(false)
        }
    } else {
        None
    }
}

/// The engine is initialized once: along set-ups made one after another on
/// a fresh counter (`counts[i]` is the count before the `i`-th, and each
/// set-up counts one more), the first initializes and no later one does.
pub proof fn law_setup_initializes_once(counts: Seq<int>)
    requires
        counts.len() > 0,
        counts[0] == SetupCounter::new_count(),
        forall|i: int| 0 <= i < counts.len() - 1 ==> #[trigger] counts[i + 1] == counts[i] + 1,
    ensures
        forall|i: int| 0 <= i < counts.len() ==> setup_initializes(#[trigger] counts[i]) == (i == 0),
{
    assert forall|i: int| 0 <= i < counts.len() implies #[trigger] counts[i] == i by {
        lemma_counts_from_zero(counts, i);
    }
}

proof fn lemma_counts_from_zero(counts: Seq<int>, i: int)
    requires
        counts.len() > 0,
        counts[0] == 0,
        forall|j: int| 0 <= j < counts.len() - 1 ==> #[trigger] counts[j + 1] == counts[j] + 1,
        0 <= i < counts.len(),
    ensures
        counts[i] == i,
    decreases i,
{
    if i > 0 {
        lemma_counts_from_zero(counts, i - 1);
        assert(counts[(i - 1) + 1] == counts[i - 1] + 1);
    }
}

} // verus!
