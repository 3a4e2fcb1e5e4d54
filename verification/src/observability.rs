//! Traces of runs and iterations.

use vstd::prelude::*;
use vstd::std_specs::hash::DefaultHasherAdditionalSpecFns;
use vstd::utf8::encode_utf8;

use std::collections::hash_map::DefaultHasher;
use std::hash::Hasher;

use crate::agent_spec::{
    patch_views, ActionSummary, ActionV, AgentRole, HarnessIterationOutput, PatchV, SemanticPhase, StatePatch,
};
use crate::text::{clone_list, clone_opt, opt_view, string_is, views};

verus! {

/// A part of an iteration.
#[derive(Clone, Copy, Debug, PartialEq, Eq, Structural)]
pub enum SpanName {
    BuildContext,
    LlmHttp,
    RunTool,
    Finalize,
    Transition,
    HandleEvent,
}

/// The record of one iteration.
#[derive(Debug, PartialEq, Eq)]
pub struct IterationTrace {
    pub run_id: String,
    pub agent_instance_id: String,
    pub agent_role: AgentRole,
    pub iteration_id: u32,
    pub phase: SemanticPhase,
    pub current_step_id: Option<String>,
    pub context_hash: String,
    pub visible_tools: Vec<String>,
    pub action: Option<ActionSummary>,
    pub observation: Option<String>,
    pub state_patches: Vec<StatePatch>,
    pub spans: Vec<SpanName>,
}

/// What an [`IterationTrace`] holds.
#[verifier::ext_equal]
pub struct TraceV {
    pub run_id: Seq<char>,
    pub agent: Seq<char>,
    pub role: AgentRole,
    pub iteration_id: u32,
    pub phase: SemanticPhase,
    pub step: Option<Seq<char>>,
    pub context_hash: Seq<char>,
    pub tools: Seq<Seq<char>>,
    pub action: Option<ActionV>,
    pub observation: Option<Seq<char>>,
    pub patches: Seq<PatchV>,
    pub spans: Seq<SpanName>,
}

/// What an optional summary holds.
pub open spec fn action_view(a: Option<ActionSummary>) -> Option<ActionV> {
    match a {
        Some(a) => Some(a@),
        None => None,
    }
}

impl View for IterationTrace {
    type V = TraceV;

    open spec fn view(&self) -> TraceV {
        TraceV {
            run_id: self.run_id@,
            agent: self.agent_instance_id@,
            role: self.agent_role,
            iteration_id: self.iteration_id,
            phase: self.phase,
            step: opt_view(self.current_step_id),
            context_hash: self.context_hash@,
            tools: views(self.visible_tools@),
            action: action_view(self.action),
            observation: opt_view(self.observation),
            patches: patch_views(self.state_patches@),
            spans: self.spans@,
        }
    }
}

/// What the traces hold.
pub open spec fn trace_views(t: Seq<IterationTrace>) -> Seq<TraceV> {
    t.map_values(|t: IterationTrace| t@)
}

fn dup_action(a: &ActionSummary) -> (r: ActionSummary)
    ensures
        r@ == a@,
{
    match a {
        ActionSummary::ToolCalls { names } => ActionSummary::ToolCalls { names: clone_list(names) },
        ActionSummary::PlainText { text } => ActionSummary::PlainText { text: text.clone() },
        ActionSummary::Preempted => ActionSummary::Preempted,
    }
}

fn dup_patches(p: &Vec<StatePatch>) -> (r: Vec<StatePatch>)
    ensures
        patch_views(r@) == patch_views(p@),
{
    let mut out: Vec<StatePatch> = Vec::new();
    let mut i: usize = 0;
    while i < p.len()
        invariant
            i <= p@.len(),
            out@.len() == i,
            forall|k: int| 0 <= k < i ==> (#[trigger] out@[k])@ == p@[k]@,
        decreases p@.len() - i,
    {
        out.push(p[i].dup());
        i = i + 1;
    }
    assert(patch_views(out@) =~= patch_views(p@));
    out
}

fn dup_spans(s: &Vec<SpanName>) -> (r: Vec<SpanName>)
    ensures
        r@ == s@,
{
    let mut out: Vec<SpanName> = Vec::new();
    let mut i: usize = 0;
    while i < s.len()
        invariant
            i <= s@.len(),
            out@ == s@.subrange(0, i as int),
        decreases s@.len() - i,
    {
        out.push(s[i]);
        i = i + 1;
    }
    assert(out@ =~= s@);
    out
}

impl IterationTrace {
    /// A copy of the record.
    pub fn dup(&self) -> (r: IterationTrace)
        ensures
            r@ == self@,
    {
        IterationTrace {
            run_id: self.run_id.clone(),
            agent_instance_id: self.agent_instance_id.clone(),
            agent_role: self.agent_role,
            iteration_id: self.iteration_id,
            phase: self.phase,
            current_step_id: clone_opt(&self.current_step_id),
            context_hash: self.context_hash.clone(),
            visible_tools: clone_list(&self.visible_tools),
            action: match &self.action {
                Some(a) => Some(dup_action(a)),
                None => None,
            },
            observation: clone_opt(&self.observation),
            state_patches: dup_patches(&self.state_patches),
            spans: dup_spans(&self.spans),
        }
    }
}

fn dup_traces(t: &Vec<IterationTrace>) -> (r: Vec<IterationTrace>)
    ensures
        trace_views(r@) == trace_views(t@),
{
    let mut out: Vec<IterationTrace> = Vec::new();
    let mut i: usize = 0;
    while i < t.len()
        invariant
            i <= t@.len(),
            out@.len() == i,
            forall|k: int| 0 <= k < i ==> (#[trigger] out@[k])@ == t@[k]@,
        decreases t@.len() - i,
    {
        out.push(t[i].dup());
        i = i + 1;
    }
    assert(trace_views(out@) =~= trace_views(t@));
    out
}

/// The records of one run, in the order of the iterations.
#[derive(Debug, PartialEq, Eq)]
pub struct RunTrace {
    pub run_id: String,
    pub iterations: Vec<IterationTrace>,
}

/// Where traces go.
pub trait TraceSink {
    /// The records of each run.
    spec fn recorded(&self) -> Map<Seq<char>, Seq<TraceV>>;

    /// Adds a record to its run.
    fn record_iteration(&mut self, trace: IterationTrace)
        ensures
            final(self).recorded() == old(self).recorded().insert(
                trace@.run_id,
                run_records(old(self).recorded(), trace@.run_id).push(trace@),
            ),
    ;

    /// The trace of a run that has records.
    fn run_trace(&self, run_id: &str) -> (r: Option<RunTrace>)
        ensures
            match r {
                Some(t) => self.recorded().dom().contains(run_id@) && t.run_id@ == run_id@ && trace_views(
                    t.iterations@,
                ) == self.recorded()[run_id@],
                None => !self.recorded().dom().contains(run_id@),
            },
    ;
}

/// The records of a run; a run that is not known has none.
pub open spec fn run_records(m: Map<Seq<char>, Seq<TraceV>>, run_id: Seq<char>) -> Seq<TraceV> {
    if m.dom().contains(run_id) {
        m[run_id]
    } else {
        Seq::empty()
    }
}

/// A sink that keeps its traces in memory.
pub struct InMemoryTraceSink {
    runs: Vec<RunTrace>,
}

spec fn runs_map(s: Seq<RunTrace>, n: nat) -> Map<Seq<char>, Seq<TraceV>>
    decreases n,
{
    if n == 0 || n > s.len() {
        Map::empty()
    } else {
        runs_map(s, (n - 1) as nat).insert(s[n - 1].run_id@, trace_views(s[n - 1].iterations@))
    }
}

spec fn distinct_runs(s: Seq<RunTrace>) -> bool {
    forall|i: int, j: int| 0 <= i < j < s.len() ==> (#[trigger] s[i]).run_id@ != (#[trigger] s[j]).run_id@
}

proof fn lemma_run_absent(s: Seq<RunTrace>, n: nat, id: Seq<char>)
    requires
        n <= s.len(),
        forall|i: int| 0 <= i < n ==> (#[trigger] s[i]).run_id@ != id,
    ensures
        !runs_map(s, n).dom().contains(id),
    decreases n,
{
    if n > 0 {
        assert(s[n - 1].run_id@ != id);
        lemma_run_absent(s, (n - 1) as nat, id);
    }
}

proof fn lemma_run_present(s: Seq<RunTrace>, n: nat, at: int)
    requires
        n <= s.len(),
        0 <= at < n,
        distinct_runs(s),
    ensures
        runs_map(s, n).dom().contains(s[at].run_id@),
        runs_map(s, n)[s[at].run_id@] == trace_views(s[at].iterations@),
    decreases n,
{
    if at < n - 1 {
        assert(s[at].run_id@ != s[n - 1].run_id@);
        lemma_run_present(s, (n - 1) as nat, at);
    }
}

proof fn lemma_runs_same(a: Seq<RunTrace>, b: Seq<RunTrace>, n: nat)
    requires
        n <= a.len(),
        n <= b.len(),
        forall|i: int| 0 <= i < n ==> (#[trigger] a[i]) == b[i],
    ensures
        runs_map(a, n) == runs_map(b, n),
    decreases n,
{
    if n > 0 {
        assert(a[n - 1] == b[n - 1]);
        lemma_runs_same(a, b, (n - 1) as nat);
    }
}

proof fn lemma_run_replaced(a: Seq<RunTrace>, b: Seq<RunTrace>, n: nat, at: int)
    requires
        a.len() == b.len(),
        n <= a.len(),
        0 <= at < n,
        distinct_runs(a),
        b[at].run_id@ == a[at].run_id@,
        forall|i: int| 0 <= i < a.len() && i != at ==> (#[trigger] a[i]) == b[i],
    ensures
        runs_map(b, n) == runs_map(a, n).insert(a[at].run_id@, trace_views(b[at].iterations@)),
    decreases n,
{
    if at < n - 1 {
        lemma_run_replaced(a, b, (n - 1) as nat, at);
        assert(a[at].run_id@ != a[n - 1].run_id@);
        assert(a[n - 1] == b[n - 1]);
    } else {
        lemma_runs_same(a, b, at as nat);
    }
    assert(runs_map(b, n) =~= runs_map(a, n).insert(a[at].run_id@, trace_views(b[at].iterations@)));
}

impl InMemoryTraceSink {
    #[verifier::type_invariant]
    spec fn inv(self) -> bool {
        distinct_runs(self.runs@)
    }

    /// The sink without traces.
    pub fn new() -> (r: InMemoryTraceSink)
        ensures
            r.recorded() == Map::<Seq<char>, Seq<TraceV>>::empty(),
    {
        InMemoryTraceSink { runs: Vec::new() }
    }

    fn position(runs: &Vec<RunTrace>, run_id: &str) -> (r: Option<usize>)
        ensures
            match r {
                Some(i) => i < runs@.len() && runs@[i as int].run_id@ == run_id@,
                None => forall|i: int| 0 <= i < runs@.len() ==> (#[trigger] runs@[i]).run_id@ != run_id@,
            },
    {
        let mut i: usize = 0;
        while i < runs.len()
            invariant
                i <= runs@.len(),
                forall|j: int| 0 <= j < i ==> (#[trigger] runs@[j]).run_id@ != run_id@,
            decreases runs@.len() - i,
        {
            if string_is(&runs[i].run_id, run_id) {
                return Some(i);
            }
            i = i + 1;
        }
        None
    }

    /// The records of a run, in the order in which they came.
    pub fn all_iterations(&self, run_id: &str) -> (r: Vec<IterationTrace>)
        ensures
            trace_views(r@) == run_records(self.recorded(), run_id@),
    {
        match self.run_trace(run_id) {
            Some(t) => t.iterations,
            None => {
                let out: Vec<IterationTrace> = Vec::new();
                assert(trace_views(out@) =~= Seq::<TraceV>::empty());
                out
            },
        }
    }
}

impl Default for InMemoryTraceSink {
    fn default() -> (r: InMemoryTraceSink)
        ensures
            r.recorded() == Map::<Seq<char>, Seq<TraceV>>::empty(),
    {
        InMemoryTraceSink::new()
    }
}

impl TraceSink for InMemoryTraceSink {
    closed spec fn recorded(&self) -> Map<Seq<char>, Seq<TraceV>> {
        runs_map(self.runs@, self.runs@.len())
    }

    fn record_iteration(&mut self, trace: IterationTrace) {
        proof {
            use_type_invariant(&*self);
        }
        let ghost record = trace@;
        let mut runs: Vec<RunTrace> = Vec::new();
        std::mem::swap(&mut runs, &mut self.runs);
        let ghost before = runs@;
        match InMemoryTraceSink::position(&runs, trace.run_id.as_str()) {
            Some(i) => {
                runs[i].iterations.push(trace);
                proof {
                    lemma_run_present(before, before.len(), i as int);
                    assert(trace_views(runs@[i as int].iterations@) =~= trace_views(
                        before[i as int].iterations@,
                    ).push(record));
                    lemma_run_replaced(before, runs@, before.len(), i as int);
                }
            },
            None => {
                let run_id = trace.run_id.clone();
                let mut iterations: Vec<IterationTrace> = Vec::new();
                iterations.push(trace);
                runs.push(RunTrace { run_id, iterations });
                proof {
                    lemma_run_absent(before, before.len(), record.run_id);
                    assert(trace_views(iterations@) =~= Seq::<TraceV>::empty().push(record));
                    lemma_runs_same(before, runs@, before.len());
                }
            },
        }
        self.runs = runs;
    }

    fn run_trace(&self, run_id: &str) -> (r: Option<RunTrace>) {
        proof {
            use_type_invariant(self);
        }
        match InMemoryTraceSink::position(&self.runs, run_id) {
            Some(i) => {
                proof {
                    lemma_run_present(self.runs@, self.runs@.len(), i as int);
                }
                Some(
                    RunTrace {
                        run_id: self.runs[i].run_id.clone(),
                        iterations: dup_traces(&self.runs[i].iterations),
                    },
                )
            },
            None => {
                proof {
                    lemma_run_absent(self.runs@, self.runs@.len(), run_id@);
                }
                None
            },
        }
    }
}

/// The hexadecimal digit for a number below sixteen.
pub open spec fn hex_digit(d: nat) -> char {
    if d < 10 {
        (d + 48) as char
    } else {
        (d + 87) as char
    }
}

/// The last `k` hexadecimal digits of a number.
pub open spec fn hex_digits(n: nat, k: nat) -> Seq<char>
    decreases k,
{
    if k == 0 {
        Seq::empty()
    } else {
        hex_digits(n / 16, (k - 1) as nat).push(hex_digit(n % 16))
    }
}

fn hex_text(d: u64) -> (r: &'static str)
    requires
        d < 16,
    ensures
        r@ == seq![hex_digit(d as nat)],
{
    proof {
        reveal_strlit("0");
        reveal_strlit("1");
        reveal_strlit("2");
        reveal_strlit("3");
        reveal_strlit("4");
        reveal_strlit("5");
        reveal_strlit("6");
        reveal_strlit("7");
        reveal_strlit("8");
        reveal_strlit("9");
        reveal_strlit("a");
        reveal_strlit("b");
        reveal_strlit("c");
        reveal_strlit("d");
        reveal_strlit("e");
        reveal_strlit("f");
    }
    match d {
        0 => "0",
        1 => "1",
        2 => "2",
        3 => "3",
        4 => "4",
        5 => "5",
        6 => "6",
        7 => "7",
        8 => "8",
        9 => "9",
        10 => "a",
        11 => "b",
        12 => "c",
        13 => "d",
        14 => "e",
        _ => "f",
    }
}

fn hex(n: u64, k: u64) -> (r: String)
    ensures
        r@ == hex_digits(n as nat, k as nat),
    decreases k,
{
    if k == 0 {
        let r = String::new();
        assert(r@ =~= Seq::<char>::empty());
        r
    } else {
        let mut r = hex(n / 16, k - 1);
        r.append(hex_text(n % 16));
        assert(hex_digits(n as nat, k as nat) =~= hex_digits(n as nat / 16, (k - 1) as nat) + seq![
            hex_digit(n as nat % 16),
        ]);
        r
    }
}

/// What is hashed of a prompt and its messages: the bytes of each, and a byte that
/// no text holds after each.
pub open spec fn hashed_bytes(system_prompt: Seq<char>, messages_json: Seq<char>) -> Seq<Seq<u8>> {
    seq![encode_utf8(system_prompt), seq![0xffu8], encode_utf8(messages_json), seq![0xffu8]]
}

/// The hash of a prompt and its messages as sixteen hexadecimal digits.
pub fn hash_context(system_prompt: &str, messages_json: &str) -> (r: String)
    ensures
        r@ == hex_digits(
            DefaultHasher::spec_finish(hashed_bytes(system_prompt@, messages_json@)) as nat,
            16,
        ),
{
    let end: [u8; 1] = [0xff];
    let mut hasher = DefaultHasher::new();
    hasher.write(system_prompt.as_bytes());
    hasher.write(&end);
    hasher.write(messages_json.as_bytes());
    hasher.write(&end);
    proof {
        assert(end@ =~= seq![0xffu8]);
        assert(hasher@ =~= hashed_bytes(system_prompt@, messages_json@));
    }
    hex(hasher.finish(), 16)
}

/// The record of an iteration.
pub fn trace_from_iteration(
    run_id: &str,
    instance_id: &str,
    role: AgentRole,
    iteration_id: u32,
    phase: SemanticPhase,
    current_step_id: Option<String>,
    context_hash: String,
    visible_tools: Vec<String>,
    output: Option<&HarnessIterationOutput>,
    patches: &Vec<StatePatch>,
    spans: Vec<SpanName>,
) -> (r: IterationTrace)
    ensures
        r@ == (TraceV {
            run_id: run_id@,
            agent: instance_id@,
            role,
            iteration_id,
            phase,
            step: opt_view(current_step_id),
            context_hash: context_hash@,
            tools: views(visible_tools@),
            action: match output {
                Some(o) => Some(o@.action),
                None => None,
            },
            observation: match output {
                Some(o) => o@.observation,
                None => None,
            },
            patches: patch_views(patches@),
            spans: spans@,
        }),
{
    IterationTrace {
        run_id: run_id.to_owned(),
        agent_instance_id: instance_id.to_owned(),
        agent_role: role,
        iteration_id,
        phase,
        current_step_id,
        context_hash,
        visible_tools,
        action: match output {
            Some(o) => Some(dup_action(&o.action)),
            None => None,
        },
        observation: match output {
            Some(o) => clone_opt(&o.observation),
            None => None,
        },
        state_patches: dup_patches(patches),
        spans,
    }
}

/// The records of a run are its own, and a run without any has none.
pub proof fn law_run_has_its_own_records(m: Map<Seq<char>, Seq<TraceV>>, run: Seq<char>, other: Seq<char>, records: Seq<TraceV>)
    ensures
        run_records(m.insert(run, records), run) == records,
        other != run ==> run_records(m.insert(run, records), other) == run_records(m, other),
        !m.contains_key(run) ==> run_records(m, run).len() == 0,
{
}

/// A number's hexadecimal notation has one digit for each four bits, the last for the
/// lowest, in small letters.
pub proof fn law_hex_digits_are_small_and_in_order(n: nat, k: nat, i: int)
    requires
        0 <= i < k,
    ensures
        hex_digits(n, k).len() == k,
        48 <= hex_digits(n, k)[i] as u32 <= 57 || 97 <= hex_digits(n, k)[i] as u32 <= 102,
        hex_digits(n, k).last() == hex_digit(n % 16),
        k > 1 ==> hex_digits(n, k).drop_last() == hex_digits(n / 16, (k - 1) as nat),
        n % 16 < 10 ==> hex_digit(n % 16) as u32 == 48 + n % 16,
        n % 16 >= 10 ==> hex_digit(n % 16) as u32 == 97 + (n % 16 - 10),
    decreases k,
{
    lemma_hex_len(n, k);
    lemma_hex_len(n / 16, (k - 1) as nat);
    if k > 1 {
        assert(hex_digits(n, k).drop_last() =~= hex_digits(n / 16, (k - 1) as nat));
        if i < k - 1 {
            law_hex_digits_are_small_and_in_order(n / 16, (k - 1) as nat, i);
            assert(hex_digits(n, k)[i] == hex_digits(n / 16, (k - 1) as nat)[i]);
        }
    }
}

proof fn lemma_hex_len(n: nat, k: nat)
    ensures
        hex_digits(n, k).len() == k,
    decreases k,
{
    if k > 0 {
        lemma_hex_len(n / 16, (k - 1) as nat);
    }
}

/// What a context's hash is made of is the prompt and then the messages, each with an end
/// that no text holds.
pub proof fn law_hash_is_made_of_prompt_and_messages(prompt: Seq<char>, messages: Seq<char>)
    ensures
        hashed_bytes(prompt, messages).len() == 4,
        hashed_bytes(prompt, messages)[0] == encode_utf8(prompt),
        hashed_bytes(prompt, messages)[1] == seq![255u8],
        hashed_bytes(prompt, messages)[2] == encode_utf8(messages),
        hashed_bytes(prompt, messages)[3] == seq![255u8],
{
}

} // verus!
