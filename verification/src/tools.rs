//! Tools: what the model may call, and what a call gives.

use vstd::prelude::*;

use crate::text::{concat2, concat3, join, joined, list_contains, opt_view, quote, quoted, views};

verus! {

/// A tool as the model sees it: its name and its schema, a JSON text.
#[derive(Clone, Debug, PartialEq, Eq)]
pub struct ToolSpec {
    pub name: String,
    pub schema: String,
}

/// What a tool call gives back to the model.
#[derive(Clone, Debug, PartialEq, Eq)]
pub struct ToolOutput {
    pub output: String,
    pub ok: bool,
}

/// A tool call that could not be carried out.
#[derive(Clone, Debug, PartialEq, Eq)]
pub enum ToolError {
    InvokeFailed(String),
}

impl ToolError {
    /// The text of the failure.
    pub open spec fn text(self) -> Seq<char> {
        match self {
            ToolError::InvokeFailed(m) => "tool invocation failed: "@ + m@,
        }
    }

    pub fn message(&self) -> (r: String)
        ensures
            r@ == self.text(),
    {
        match self {
            ToolError::InvokeFailed(m) => concat2("tool invocation failed: ", m.as_str()),
        }
    }
}

impl ToolError {
    /// The error as it is written for developers.
    pub open spec fn debug_text(self) -> Seq<char> {
        match self {
            ToolError::InvokeFailed(m) => "InvokeFailed("@ + quoted(m@) + ")"@,
        }
    }

    pub fn debug(&self) -> (r: String)
        ensures
            r@ == self.debug_text(),
    {
        match self {
            ToolError::InvokeFailed(m) => concat3("InvokeFailed(", quote(m.as_str()).as_str(), ")"),
        }
    }
}

/// Tools could not be put together: two of them have this name.
#[derive(Clone, Debug, PartialEq, Eq)]
pub enum ToolSetError {
    DuplicateName(String),
}

/// The schemas of some tools.
pub open spec fn tool_schemas(tools: Seq<ToolSpec>) -> Seq<Seq<char>> {
    tools.map_values(|t: ToolSpec| t.schema@)
}

/// The names of tools.
pub open spec fn tool_names(tools: Seq<ToolSpec>) -> Seq<Seq<char>> {
    tools.map_values(|t: ToolSpec| t.name@)
}

/// The first name that stands among those before it already.
pub open spec fn first_repeat(names: Seq<Seq<char>>) -> Option<Seq<char>>
    decreases names.len(),
{
    if names.len() == 0 {
        None
    } else {
        match first_repeat(names.drop_last()) {
            Some(n) => Some(n),
            None => if names.drop_last().contains(names.last()) {
                Some(names.last())
            } else {
                None
            },
        }
    }
}

/// Tools under distinct names.
pub struct ToolSet {
    tools: Vec<ToolSpec>,
}

impl View for ToolSet {
    type V = Seq<ToolSpec>;

    closed spec fn view(&self) -> Seq<ToolSpec> {
        self.tools@
    }
}

impl ToolSet {
    /// No name occurs twice.
    pub open spec fn distinct(&self) -> bool {
        first_repeat(tool_names(self@)) is None
    }

    pub fn empty() -> (r: ToolSet)
        ensures
            r@.len() == 0,
            r.distinct(),
    {
        ToolSet { tools: Vec::new() }
    }

    /// The set of the given tools.
    pub fn new(tools: Vec<ToolSpec>) -> (r: Result<ToolSet, ToolSetError>)
        ensures
            match r {
                Ok(s) => s@ == tools@ && s.distinct(),
                Err(ToolSetError::DuplicateName(n)) => first_repeat(tool_names(tools@)) == Some(n@),
            },
    {
        let mut set = ToolSet::empty();
        assert(set@ + tools@ =~= tools@);
        match set.extend_with_group(tools) {
            Ok(_) => Ok(set),
            Err(e) => Err(e),
        }
    }

    /// Adds tools. Where a name would occur twice, nothing is added.
    pub fn extend_with_group(&mut self, group: Vec<ToolSpec>) -> (r: Result<(), ToolSetError>)
        requires
            old(self).distinct(),
        ensures
            final(self).distinct(),
            match r {
                Ok(_) => final(self)@ == old(self)@ + group@,
                Err(ToolSetError::DuplicateName(n)) => {
                    &&& final(self)@ == old(self)@
                    &&& first_repeat(tool_names(old(self)@ + group@)) == Some(n@)
                },
            },
    {
        let ghost own = self@;
        let ghost all = own + group@;
        let mut names: Vec<String> = Vec::new();
        let mut i: usize = 0;
        while i < self.tools.len()
            invariant
                own == self@,
                i <= own.len(),
                views(names@) == tool_names(own.take(i as int)),
            decreases own.len() - i,
        {
            let ghost before = names@;
            let name = self.tools[i].name.clone();
            names.push(name);
            proof {
                assert(views(names@) =~= views(before).push(name@));
                assert(own.take(i + 1) =~= own.take(i as int).push(own[i as int]));
                assert(tool_names(own.take(i + 1)) =~= tool_names(own.take(i as int)).push(name@));
            }
            i = i + 1;
        }
        let mut j: usize = 0;
        assert(own.take(own.len() as int) =~= own);
        assert(all.take(own.len() as int) =~= own);
        while j < group.len()
            invariant
                *self == *old(self),
                old(self).distinct(),
                own == old(self)@,
                all == own + group@,
                j <= group@.len(),
                views(names@) == tool_names(all.take(own.len() + j)),
                first_repeat(tool_names(all.take(own.len() + j))) is None,
            decreases group@.len() - j,
        {
            let ghost at = own.len() + j;
            proof {
                assert(all.take(at + 1) =~= all.take(at as int).push(group@[j as int]));
                assert(tool_names(all.take(at + 1)).drop_last() =~= tool_names(all.take(at as int)));
            }
            let name = group[j].name.clone();
            if list_contains(&names, name.as_str()) {
                proof {
                    assert(tool_names(all).take(at + 1) =~= tool_names(all.take(at + 1)));
                    assert(first_repeat(tool_names(all.take(at + 1))) == Some(name@));
                    lemma_repeat_stays(tool_names(all), at + 1);
                }
                return Err(ToolSetError::DuplicateName(name));
            }
            let ghost before = names@;
            names.push(name);
            assert(views(names@) =~= views(before).push(name@));
            assert(views(names@) =~= tool_names(all.take(at + 1)));
            j = j + 1;
        }
        assert(all.take(all.len() as int) =~= all);
        let mut group = group;
        self.tools.append(&mut group);
        assert(self@ =~= all);
        Ok(())
    }

    /// Whether there is a tool of this name.
    pub fn contains(&self, name: &str) -> (r: bool)
        ensures
            r == tool_names(self@).contains(name@),
    {
        let mut i: usize = 0;
        while i < self.tools.len()
            invariant
                i <= self@.len(),
                forall|k: int| 0 <= k < i ==> (#[trigger] self@[k]).name@ != name@,
            decreases self@.len() - i,
        {
            if crate::text::string_is(&self.tools[i].name, name) {
                assert(tool_names(self@)[i as int] == name@);
                return true;
            }
            i = i + 1;
        }
        assert forall|k: int| 0 <= k < tool_names(self@).len() implies tool_names(self@)[k] != name@ by {
            assert(self@[k].name@ != name@);
        }
        false
    }

    /// The schemas of the tools as one JSON list; nothing where there is no tool.
    pub open spec fn schemas_text(self) -> Option<Seq<char>> {
        if self@.len() == 0 {
            None
        } else {
            Some("["@ + joined(tool_schemas(self@), ","@) + "]"@)
        }
    }

    /// The schemas of the tools as the model gets them.
    pub fn schemas_json(&self) -> (r: Option<String>)
        ensures
            opt_view(r) == self.schemas_text(),
    {
        if self.tools.len() == 0 {
            return None;
        }
        let mut schemas: Vec<String> = Vec::new();
        let mut i: usize = 0;
        while i < self.tools.len()
            invariant
                i <= self@.len(),
                views(schemas@) == tool_schemas(self@.take(i as int)),
            decreases self@.len() - i,
        {
            let ghost before = schemas@;
            let schema = self.tools[i].schema.clone();
            schemas.push(schema);
            proof {
                assert(views(schemas@) =~= views(before).push(schema@));
                assert(tool_schemas(self@.take(i + 1)) =~= tool_schemas(self@.take(i as int)).push(schema@));
            }
            i = i + 1;
        }
        assert(self@.take(self@.len() as int) =~= self@);
        Some(concat3("[", join(&schemas, ",").as_str(), "]"))
    }

    /// How many tools there are.
    pub fn len(&self) -> (r: usize)
        ensures
            r == self@.len(),
    {
        self.tools.len()
    }
}

pub proof fn lemma_repeat_stays(names: Seq<Seq<char>>, n: int)
    requires
        0 <= n <= names.len(),
        first_repeat(names.take(n)) is Some,
    ensures
        first_repeat(names) == first_repeat(names.take(n)),
    decreases names.len(),
{
    if n < names.len() {
        assert(names.drop_last().take(n) =~= names.take(n));
        lemma_repeat_stays(names.drop_last(), n);
    } else {
        assert(names.take(n) =~= names);
    }
}

/// The tools that may run; the model still sees the others.
#[derive(Debug)]
pub struct AllowedTools {
    names: Vec<String>,
}

impl View for AllowedTools {
    type V = Seq<Seq<char>>;

    closed spec fn view(&self) -> Seq<Seq<char>> {
        views(self.names@)
    }
}

impl AllowedTools {
    pub fn new(names: Vec<String>) -> (r: AllowedTools)
        ensures
            r@ == views(names@),
    {
        AllowedTools { names }
    }

    pub fn contains(&self, name: &str) -> (r: bool)
        ensures
            r == self@.contains(name@),
    {
        list_contains(&self.names, name)
    }

    /// A copy.
    pub fn dup(&self) -> (r: AllowedTools)
        ensures
            r@ == self@,
    {
        AllowedTools { names: crate::text::clone_list(&self.names) }
    }
}

/// Whether a tool of this name must not run.
pub open spec fn is_blocked(allowed: Option<AllowedTools>, name: Seq<char>) -> bool {
    match allowed {
        Some(a) => !a@.contains(name),
        None => false,
    }
}

/// A tool is kept from a round exactly where the tools are limited and it is not among
/// those that are allowed.
pub proof fn law_only_allowed_tools_run(allowed: AllowedTools, name: Seq<char>)
    ensures
        !is_blocked(None, name),
        is_blocked(Some(allowed), name) <==> !allowed@.contains(name),
{
}

/// The names of a set of tools are distinct, and the repeat that refuses a set is a name
/// that occurs twice.
pub proof fn law_repeated_name_occurs_twice(names: Seq<Seq<char>>)
    ensures
        first_repeat(names) is None <==> names.no_duplicates(),
        first_repeat(names) matches Some(name) ==> exists|i: int, j: int|
            0 <= i < j < names.len() && #[trigger] names[i] == name && #[trigger] names[j] == name,
    decreases names.len(),
{
    if names.len() > 0 {
        let front = names.drop_last();
        let last = names.len() - 1;
        law_repeated_name_occurs_twice(front);
        match first_repeat(front) {
            Some(name) => {
                let (i, j) = choose|i: int, j: int|
                    0 <= i < j < front.len() && #[trigger] front[i] == name && #[trigger] front[j] == name;
                assert(names[i] == name && names[j] == name);
            },
            None => {
                if front.contains(names.last()) {
                    let i = choose|i: int| 0 <= i < front.len() && front[i] == names.last();
                    assert(names[i] == names[last]);
                } else {
                    assert forall|i: int, j: int|
                        0 <= i < names.len() && 0 <= j < names.len() && i != j implies names[i] != names[j] by {
                        if i == last {
                            assert(front[j] == names[j]);
                        } else if j == last {
                            assert(front[i] == names[i]);
                        } else {
                            assert(front[i] == names[i] && front[j] == names[j]);
                        }
                    }
                }
            },
        }
    }
}

/// The description of a set of tools lists the schema of each, in order, and an empty set
/// has none.
pub proof fn law_tools_are_described_in_order(set: ToolSet)
    ensures
        set@.len() == 0 ==> set.schemas_text() is None,
        set@.len() == 1 ==> set.schemas_text() == Some("["@ + set@[0].schema@ + "]"@),
        set@.len() == 2 ==> set.schemas_text() == Some("["@ + (set@[0].schema@ + ","@ + set@[1].schema@) + "]"@),
{
    reveal_with_fuel(joined, 3);
    let schemas = tool_schemas(set@);
    if set@.len() == 1 {
        assert(schemas =~= seq![set@[0].schema@]);
        assert(joined(schemas, ","@) =~= set@[0].schema@);
    }
    if set@.len() == 2 {
        assert(schemas =~= seq![set@[0].schema@, set@[1].schema@]);
        assert(joined(schemas, ","@) =~= set@[0].schema@ + ","@ + set@[1].schema@);
    }
}

} // verus!
