//! Memory in scopes, and what each role may read of it.

use vstd::prelude::*;

use crate::protocol::ids::TaskId;
use crate::text::{join, joined, opt_view, string_is, views};

verus! {

/// The role of a reader.
#[derive(Clone, Copy, Debug, PartialEq, Eq, Hash, Structural)]
pub enum RuntimeRole {
    Frontend,
    Worker,
}

/// A part of the memory.
#[derive(Clone, Copy, Debug, PartialEq, Eq, Hash, Structural)]
pub enum MemoryScope {
    FrontendPrivate,
    WorkerPrivate,
    TaskShared,
    ProjectShared,
    GlobalPolicy,
}

impl MemoryScope {
    /// The name of the scope.
    pub open spec fn name(self) -> Seq<char> {
        match self {
            MemoryScope::FrontendPrivate => "FrontendPrivate"@,
            MemoryScope::WorkerPrivate => "WorkerPrivate"@,
            MemoryScope::TaskShared => "TaskShared"@,
            MemoryScope::ProjectShared => "ProjectShared"@,
            MemoryScope::GlobalPolicy => "GlobalPolicy"@,
        }
    }

    /// The name of the scope.
    pub fn debug(&self) -> (r: &'static str)
        ensures
            r@ == self.name(),
    {
        match self {
            MemoryScope::FrontendPrivate => "FrontendPrivate",
            MemoryScope::WorkerPrivate => "WorkerPrivate",
            MemoryScope::TaskShared => "TaskShared",
            MemoryScope::ProjectShared => "ProjectShared",
            MemoryScope::GlobalPolicy => "GlobalPolicy",
        }
    }
}

/// What a memory holds: a text for each scope and key.
pub type Contents = Map<(MemoryScope, Seq<char>), Seq<char>>;

/// What a memory holds under a key of a scope.
pub open spec fn found(c: Contents, scope: MemoryScope, key: Seq<char>) -> Option<Seq<char>> {
    if c.dom().contains((scope, key)) {
        Some(c[(scope, key)])
    } else {
        None
    }
}

/// What is written under a key is read back, until it is written again; no other key
/// and no other scope notices.
pub proof fn law_write_is_read_back(
    before: Contents,
    scope: MemoryScope,
    key: Seq<char>,
    value: Seq<char>,
    other_scope: MemoryScope,
    other_key: Seq<char>,
)
    ensures
        found(before.insert((scope, key), value), scope, key) == Some(value),
        (other_scope, other_key) != (scope, key) ==> found(
            before.insert((scope, key), value),
            other_scope,
            other_key,
        ) == found(before, other_scope, other_key),
{
}

/// A memory with scopes.
pub trait ScopedMemoryStore {
    /// What the memory holds.
    spec fn contents(&self) -> Contents;

    /// The text under a key of a scope.
    fn read(&self, scope: MemoryScope, key: &str) -> (r: Option<String>)
        ensures
            opt_view(r) == found(self.contents(), scope, key@),
    ;

    /// Puts a text under a key of a scope.
    fn write(&mut self, scope: MemoryScope, key: &str, value: String)
        ensures
            final(self).contents() == old(self).contents().insert((scope, key@), value@),
    ;
}

/// One entry of a memory.
struct Entry {
    scope: MemoryScope,
    key: String,
    value: String,
}

/// A memory that lives as long as the process.
pub struct InMemoryScopedStore {
    data: Vec<Entry>,
}

spec fn entries(s: Seq<Entry>, n: nat) -> Contents
    decreases n,
{
    if n == 0 || n > s.len() {
        Map::empty()
    } else {
        entries(s, (n - 1) as nat).insert((s[n - 1].scope, s[n - 1].key@), s[n - 1].value@)
    }
}

spec fn holds_key(e: Entry, scope: MemoryScope, key: Seq<char>) -> bool {
    e.scope == scope && e.key@ == key
}

spec fn distinct_keys(s: Seq<Entry>) -> bool {
    forall|i: int, j: int|
        0 <= i < j < s.len() ==> !holds_key(#[trigger] s[i], (#[trigger] s[j]).scope, s[j].key@)
}

proof fn lemma_entry_absent(s: Seq<Entry>, n: nat, scope: MemoryScope, key: Seq<char>)
    requires
        n <= s.len(),
        forall|i: int| 0 <= i < n ==> !holds_key(#[trigger] s[i], scope, key),
    ensures
        !entries(s, n).dom().contains((scope, key)),
    decreases n,
{
    if n > 0 {
        assert(!holds_key(s[n - 1], scope, key));
        lemma_entry_absent(s, (n - 1) as nat, scope, key);
    }
}

proof fn lemma_entry_present(s: Seq<Entry>, n: nat, at: int)
    requires
        n <= s.len(),
        0 <= at < n,
        distinct_keys(s),
    ensures
        entries(s, n).dom().contains((s[at].scope, s[at].key@)),
        entries(s, n)[(s[at].scope, s[at].key@)] == s[at].value@,
    decreases n,
{
    if at < n - 1 {
        assert(!holds_key(s[at], s[n - 1].scope, s[n - 1].key@));
        lemma_entry_present(s, (n - 1) as nat, at);
    }
}

proof fn lemma_entries_same(a: Seq<Entry>, b: Seq<Entry>, n: nat)
    requires
        n <= a.len(),
        n <= b.len(),
        forall|i: int| 0 <= i < n ==> (#[trigger] a[i]) == b[i],
    ensures
        entries(a, n) == entries(b, n),
    decreases n,
{
    if n > 0 {
        assert(a[n - 1] == b[n - 1]);
        lemma_entries_same(a, b, (n - 1) as nat);
    }
}

proof fn lemma_entry_replaced(a: Seq<Entry>, b: Seq<Entry>, n: nat, at: int)
    requires
        a.len() == b.len(),
        n <= a.len(),
        0 <= at < n,
        distinct_keys(a),
        b[at].scope == a[at].scope,
        b[at].key@ == a[at].key@,
        forall|i: int| 0 <= i < a.len() && i != at ==> (#[trigger] a[i]) == b[i],
    ensures
        entries(b, n) == entries(a, n).insert((a[at].scope, a[at].key@), b[at].value@),
    decreases n,
{
    if at < n - 1 {
        lemma_entry_replaced(a, b, (n - 1) as nat, at);
        assert(!holds_key(a[at], a[n - 1].scope, a[n - 1].key@));
        assert(a[n - 1] == b[n - 1]);
        assert(entries(b, n) =~= entries(a, n).insert((a[at].scope, a[at].key@), b[at].value@));
    } else {
        lemma_entries_same(a, b, at as nat);
        assert(entries(b, n) =~= entries(a, n).insert((a[at].scope, a[at].key@), b[at].value@));
    }
}

impl InMemoryScopedStore {
    #[verifier::type_invariant]
    spec fn inv(self) -> bool {
        distinct_keys(self.data@)
    }

    /// The empty memory.
    pub fn new() -> (r: InMemoryScopedStore)
        ensures
            r.contents() == Contents::empty(),
    {
        InMemoryScopedStore { data: Vec::new() }
    }

    fn position(data: &Vec<Entry>, scope: MemoryScope, key: &str) -> (r: Option<usize>)
        ensures
            match r {
                Some(i) => i < data@.len() && holds_key(data@[i as int], scope, key@),
                None => forall|i: int| 0 <= i < data@.len() ==> !holds_key(#[trigger] data@[i], scope, key@),
            },
    {
        let mut i: usize = 0;
        while i < data.len()
            invariant
                i <= data@.len(),
                forall|j: int| 0 <= j < i ==> !holds_key(#[trigger] data@[j], scope, key@),
            decreases data@.len() - i,
        {
            if data[i].scope == scope && string_is(&data[i].key, key) {
                return Some(i);
            }
            i = i + 1;
        }
        None
    }
}

impl Default for InMemoryScopedStore {
    fn default() -> (r: InMemoryScopedStore)
        ensures
            r.contents() == Contents::empty(),
    {
        InMemoryScopedStore::new()
    }
}

impl ScopedMemoryStore for InMemoryScopedStore {
    closed spec fn contents(&self) -> Contents {
        entries(self.data@, self.data@.len())
    }

    fn read(&self, scope: MemoryScope, key: &str) -> (r: Option<String>) {
        proof {
            use_type_invariant(self);
        }
        match InMemoryScopedStore::position(&self.data, scope, key) {
            Some(i) => {
                proof {
                    lemma_entry_present(self.data@, self.data@.len(), i as int);
                }
                Some(self.data[i].value.clone())
            },
            None => {
                proof {
                    lemma_entry_absent(self.data@, self.data@.len(), scope, key@);
                }
                None
            },
        }
    }

    fn write(&mut self, scope: MemoryScope, key: &str, value: String) {
        proof {
            use_type_invariant(&*self);
        }
        let mut data: Vec<Entry> = Vec::new();
        std::mem::swap(&mut data, &mut self.data);
        let ghost before = data@;
        match InMemoryScopedStore::position(&data, scope, key) {
            Some(i) => {
                data.set(i, Entry { scope, key: key.to_owned(), value });
                proof {
                    lemma_entry_replaced(before, data@, before.len(), i as int);
                }
            },
            None => {
                data.push(Entry { scope, key: key.to_owned(), value });
                proof {
                    lemma_entries_same(before, data@, before.len());
                }
            },
        }
        self.data = data;
    }
}

/// Whether a role may read a scope.
pub open spec fn readable(role: RuntimeRole, scope: MemoryScope) -> bool {
    match scope {
        MemoryScope::GlobalPolicy | MemoryScope::TaskShared | MemoryScope::ProjectShared => true,
        MemoryScope::FrontendPrivate => role == RuntimeRole::Frontend,
        MemoryScope::WorkerPrivate => role == RuntimeRole::Worker,
    }
}

/// Whether a role may read a scope: what is shared, and what is its own.
pub fn role_may_read(role: RuntimeRole, scope: MemoryScope) -> (r: bool)
    ensures
        r == readable(role, scope),
{
    match (role, scope) {
        (_, MemoryScope::GlobalPolicy) => true,
        (
            RuntimeRole::Frontend,
            MemoryScope::FrontendPrivate | MemoryScope::TaskShared | MemoryScope::ProjectShared,
        ) => true,
        (
            RuntimeRole::Worker,
            MemoryScope::WorkerPrivate | MemoryScope::TaskShared | MemoryScope::ProjectShared,
        ) => true,
        _ => false,
    }
}

/// The scopes in the order in which a snapshot shows them.
pub open spec fn snapshot_scopes() -> Seq<MemoryScope> {
    seq![
        MemoryScope::GlobalPolicy,
        MemoryScope::TaskShared,
        MemoryScope::ProjectShared,
        MemoryScope::FrontendPrivate,
        MemoryScope::WorkerPrivate,
    ]
}

/// The key that a snapshot reads in a scope.
pub open spec fn snapshot_key(scope: MemoryScope, task: Option<TaskId>) -> Seq<char> {
    match scope {
        MemoryScope::TaskShared => (match task {
            Some(id) => id.wire(),
            None => "task"@,
        }) + ".shared"@,
        MemoryScope::FrontendPrivate => "frontend.notes"@,
        MemoryScope::WorkerPrivate => "worker.notes"@,
        MemoryScope::ProjectShared => "project.context"@,
        MemoryScope::GlobalPolicy => "global.policy"@,
    }
}

/// The lines that the first `n` scopes give.
pub open spec fn snapshot_lines(c: Contents, role: RuntimeRole, task: Option<TaskId>, n: nat) -> Seq<Seq<char>>
    decreases n,
{
    if n == 0 || n > snapshot_scopes().len() {
        Seq::empty()
    } else {
        let before = snapshot_lines(c, role, task, (n - 1) as nat);
        let scope = snapshot_scopes()[n - 1];
        let key = snapshot_key(scope, task);
        if readable(role, scope) && c.dom().contains((scope, key)) {
            before.push("["@ + scope.name() + "] "@ + key + "="@ + c[(scope, key)])
        } else {
            before
        }
    }
}

/// The snapshot of a memory for a role.
pub open spec fn snapshot(c: Contents, role: RuntimeRole, task: Option<TaskId>) -> Seq<char> {
    let lines = snapshot_lines(c, role, task, 5);
    if lines.len() == 0 {
        "(empty)"@
    } else {
        joined(lines, "\n"@)
    }
}

fn key_in(scope: MemoryScope, task_id: Option<TaskId>) -> (r: String)
    ensures
        r@ == snapshot_key(scope, task_id),
{
    match scope {
        MemoryScope::TaskShared => {
            let prefix = match task_id {
                Some(id) => id.to_wire(),
                None => "task".to_owned(),
            };
            prefix.concat(".shared")
        },
        MemoryScope::FrontendPrivate => "frontend.notes".to_owned(),
        MemoryScope::WorkerPrivate => "worker.notes".to_owned(),
        MemoryScope::ProjectShared => "project.context".to_owned(),
        MemoryScope::GlobalPolicy => "global.policy".to_owned(),
    }
}

/// The snapshot of a memory that a role's prompt carries: one line for each scope
/// that the role may read and that holds the scope's key.
pub fn snapshot_for_role<S: ScopedMemoryStore>(store: &S, role: RuntimeRole, task_id: Option<TaskId>) -> (r: String)
    ensures
        r@ == snapshot(store.contents(), role, task_id),
{
    let scopes: [MemoryScope; 5] = [
        MemoryScope::GlobalPolicy,
        MemoryScope::TaskShared,
        MemoryScope::ProjectShared,
        MemoryScope::FrontendPrivate,
        MemoryScope::WorkerPrivate,
    ];
    let mut lines: Vec<String> = Vec::new();
    assert(views(lines@) =~= Seq::<Seq<char>>::empty());
    let mut i: usize = 0;
    while i < 5
        invariant
            i <= 5,
            scopes@ == snapshot_scopes(),
            views(lines@) == snapshot_lines(store.contents(), role, task_id, i as nat),
        decreases 5 - i,
    {
        let scope = scopes[i];
        if role_may_read(role, scope) {
            let key = key_in(scope, task_id);
            match store.read(scope, key.as_str()) {
                Some(value) => {
                    let mut line = "[".to_owned();
                    line.append(scope.debug());
                    line.append("] ");
                    line.append(key.as_str());
                    line.append("=");
                    line.append(value.as_str());
                    let ghost before = lines@;
                    lines.push(line);
                    assert(views(lines@) =~= views(before).push(line@));
                },
                None => {},
            }
        }
        i = i + 1;
    }
    if lines.len() == 0 {
        "(empty)".to_owned()
    } else {
        join(&lines, "\n")
    }
}

/// Whether two memories hold the same under a key of a scope.
pub open spec fn agree(a: Contents, b: Contents, scope: MemoryScope, key: Seq<char>) -> bool {
    &&& a.dom().contains((scope, key)) <==> b.dom().contains((scope, key))
    &&& a.dom().contains((scope, key)) ==> a[(scope, key)] == b[(scope, key)]
}

/// What a role may not read does not show in its snapshot: two memories that agree
/// on the scopes that the role may read give it the same snapshot.
pub proof fn law_snapshot_respects_the_scopes(a: Contents, b: Contents, role: RuntimeRole, task: Option<TaskId>)
    requires
        forall|scope: MemoryScope, key: Seq<char>| readable(role, scope) ==> #[trigger] agree(a, b, scope, key),
    ensures
        snapshot(a, role, task) == snapshot(b, role, task),
{
    lemma_same_lines(a, b, role, task, 5);
}

proof fn lemma_same_lines(a: Contents, b: Contents, role: RuntimeRole, task: Option<TaskId>, n: nat)
    requires
        forall|scope: MemoryScope, key: Seq<char>| readable(role, scope) ==> #[trigger] agree(a, b, scope, key),
    ensures
        snapshot_lines(a, role, task, n) == snapshot_lines(b, role, task, n),
    decreases n,
{
    if n > 0 && n <= snapshot_scopes().len() {
        lemma_same_lines(a, b, role, task, (n - 1) as nat);
        let scope = snapshot_scopes()[n - 1];
        let key = snapshot_key(scope, task);
        assert(readable(role, scope) ==> agree(a, b, scope, key));
    }
}

/// What is private to one role is not read by the other; what is shared is read by both.
pub proof fn law_private_memory_is_read_by_its_role_alone(scope: MemoryScope)
    ensures
        readable(RuntimeRole::Frontend, scope) <==> !(scope is WorkerPrivate),
        readable(RuntimeRole::Worker, scope) <==> !(scope is FrontendPrivate),
{
}

/// A snapshot has a line for each scope that may be read and holds something under the
/// scope's own key; the line names the scope and the key and ends with what is held.
pub proof fn law_snapshot_shows_what_is_held(c: Contents, role: RuntimeRole, task: Option<TaskId>, n: nat)
    requires
        0 < n <= 5,
    ensures
        ({
            let scope = snapshot_scopes()[n - 1];
            let key = snapshot_key(scope, task);
            let before = snapshot_lines(c, role, task, (n - 1) as nat);
            let lines = snapshot_lines(c, role, task, n);
            &&& before.is_prefix_of(lines)
            &&& readable(role, scope) && c.contains_key((scope, key)) ==> lines.len() == before.len() + 1
                && lines.last() == "["@ + scope.name() + "] "@ + key + "="@ + c[(scope, key)]
            &&& !readable(role, scope) || !c.contains_key((scope, key)) ==> lines == before
        }),
        snapshot_scopes() == seq![
            MemoryScope::GlobalPolicy,
            MemoryScope::TaskShared,
            MemoryScope::ProjectShared,
            MemoryScope::FrontendPrivate,
            MemoryScope::WorkerPrivate,
        ],
        snapshot_lines(c, role, task, 0).len() == 0,
{
}

/// Each scope keeps its notes under a key of its own, the shared notes of a task under the
/// task's.
pub proof fn law_scopes_have_their_keys(task: Option<TaskId>)
    ensures
        task matches Some(id) ==> snapshot_key(MemoryScope::TaskShared, task) == id.wire() + ".shared"@,
        task is None ==> snapshot_key(MemoryScope::TaskShared, task) == "task"@ + ".shared"@,
        snapshot_key(MemoryScope::FrontendPrivate, task) == "frontend.notes"@,
        snapshot_key(MemoryScope::WorkerPrivate, task) == "worker.notes"@,
        snapshot_key(MemoryScope::ProjectShared, task) == "project.context"@,
        snapshot_key(MemoryScope::GlobalPolicy, task) == "global.policy"@,
{
}

/// A snapshot of nothing says that it is empty, and any other has its lines in order.
pub proof fn law_empty_snapshot_says_so(c: Contents, role: RuntimeRole, task: Option<TaskId>)
    ensures
        snapshot_lines(c, role, task, 5).len() == 0 ==> snapshot(c, role, task) == "(empty)"@,
        snapshot_lines(c, role, task, 5).len() > 0 ==> snapshot(c, role, task) == joined(
            snapshot_lines(c, role, task, 5),
            "\n"@,
        ),
{
}

} // verus!
