//! The tools of an agent, each found by its name.

use crate::text::same_text;
use crate::tool::Tool;
use vstd::prelude::*;

verus! {

/// The first position in `tools` of a tool named `name`.
pub open spec fn position<T: Tool>(tools: Seq<T>, name: Seq<char>) -> Option<int>
    decreases tools.len(),
{
    if tools.len() == 0 {
        None
    } else {
        match position(tools.drop_last(), name) {
            Some(i) => Some(i),
            None => if tools.last().name_spec() == name {
                Some(tools.len() - 1)
            } else {
                None
            },
        }
    }
}

/// No two tools of `tools` have the same name.
pub open spec fn distinct_names<T: Tool>(tools: Seq<T>) -> bool {
    forall|i: int, j: int|
        0 <= i < j < tools.len() ==> (#[trigger] tools[i]).name_spec() != (
        #[trigger] tools[j]).name_spec()
}

/// What `position` finds is a place that holds a tool of that name, with no
/// such tool before it; it finds nothing only where no tool has that name.
pub proof fn lemma_position<T: Tool>(tools: Seq<T>, name: Seq<char>)
    ensures
        match position(tools, name) {
            Some(i) => 0 <= i < tools.len() && tools[i].name_spec() == name && forall|k: int|
                0 <= k < i ==> (#[trigger] tools[k]).name_spec() != name,
            None => forall|k: int| 0 <= k < tools.len() ==> (#[trigger] tools[k]).name_spec() != name,
        },
    decreases tools.len(),
{
    if tools.len() > 0 {
        let front = tools.drop_last();
        lemma_position(front, name);
        assert forall|k: int| 0 <= k < front.len() implies front[k] == tools[k] by {}
    }
}

/// The tools after `tool` is registered: it takes the place of the tool of
/// its name, or joins at the end where there is none.
pub open spec fn registered<T: Tool>(tools: Seq<T>, tool: T) -> Seq<T> {
    match position(tools, tool.name_spec()) {
        Some(i) => tools.update(i, tool),
        None => tools.push(tool),
    }
}

/// The tool found under `name` among `tools`.
pub open spec fn found<T: Tool>(tools: Seq<T>, name: Seq<char>) -> Option<T> {
    match position(tools, name) {
        Some(i) => Some(tools[i]),
        None => None,
    }
}

/// A place that holds a tool named `name`, with no such tool before it, is
/// what `position` finds.
pub proof fn lemma_position_is<T: Tool>(tools: Seq<T>, name: Seq<char>, i: int)
    requires
        0 <= i < tools.len(),
        tools[i].name_spec() == name,
        forall|k: int| 0 <= k < i ==> (#[trigger] tools[k]).name_spec() != name,
    ensures
        position(tools, name) == Some(i),
{
    lemma_position(tools, name);
}

/// Registering keeps names distinct; the registered tool is then found
/// under its name, whatever was registered under that name before; and what
/// is found under any other name stays as it was.
pub proof fn lemma_registered<T: Tool>(tools: Seq<T>, tool: T, name: Seq<char>)
    requires
        distinct_names(tools),
    ensures
        distinct_names(registered(tools, tool)),
        found(registered(tools, tool), tool.name_spec()) == Some(tool),
        name != tool.name_spec() ==> found(registered(tools, tool), name) == found(tools, name),
{
    let next = registered(tools, tool);
    lemma_position(tools, tool.name_spec());
    lemma_position(tools, name);
    let at = match position(tools, tool.name_spec()) {
        Some(i) => i,
        None => tools.len() as int,
    };
    lemma_position_is(next, tool.name_spec(), at);
    if name != tool.name_spec() {
        match position(tools, name) {
            Some(j) => {
                lemma_position_is(next, name, j);
            },
            None => {
                lemma_position(next, name);
            },
        }
    }
}

/// A mapping from tool names to tools. No name occurs twice; the tools keep
/// the order in which their names were first registered.
pub struct Registry<T: Tool> {
    tools: Vec<T>,
}

impl<T: Tool> Registry<T> {
    #[verifier::type_invariant]
    spec fn names_are_distinct(self) -> bool {
        distinct_names(self.tools@)
    }

    /// The registered tools, in the order of enumeration.
    pub closed spec fn entries(&self) -> Seq<T> {
        self.tools@
    }

    /// The tool registered under `name`.
    pub open spec fn lookup_spec(&self, name: Seq<char>) -> Option<T> {
        found(self.entries(), name)
    }

    /// A registry without tools.
    pub fn new() -> (r: Self)
        ensures
            r.entries() == Seq::<T>::empty(),
    {
        Registry { tools: Vec::new() }
    }

    /// The number of registered tools.
    pub fn len(&self) -> (n: usize)
        ensures
            n == self.entries().len(),
    {
        self.tools.len()
    }

    /// The position of the tool registered under `name`.
    pub fn index_of(&self, name: &str) -> (r: Option<usize>)
        ensures
            match r {
                Some(i) => i < self.entries().len() && position(self.entries(), name@) == Some(
                    i as int,
                ),
                None => position(self.entries(), name@).is_none(),
            },
    {
        let mut i: usize = 0;
        while i < self.tools.len()
            invariant
                i <= self.tools.len(),
                forall|k: int| 0 <= k < i ==> (#[trigger] self.tools@[k]).name_spec() != name@,
            decreases self.tools.len() - i,
        {
            if same_text(self.tools[i].name(), name) {
                proof {
                    lemma_position(self.tools@, name@);
                }
                return Some(i);
            }
            i += 1;
        }
        proof {
            lemma_position(self.tools@, name@);
        }
        None
    }

    /// Registers `tool` under its name. A tool registered before under that
    /// name gives way to it.
    pub fn register(&mut self, tool: T)
        ensures
            final(self).entries() == registered(old(self).entries(), tool),
            final(self).lookup_spec(tool.name_spec()) == Some(tool),
    {
        proof {
            use_type_invariant(&*self);
            lemma_position(self.tools@, tool.name_spec());
            lemma_registered(self.tools@, tool, tool.name_spec());
        }
        let found = self.index_of(tool.name());
        let mut tools: Vec<T> = Vec::new();
        std::mem::swap(&mut tools, &mut self.tools);
        match found {
            Some(i) => {
                tools.set(i, tool);
            },
            None => {
                tools.push(tool);
            },
        }
        self.tools = tools;
    }

    /// The tool registered under `name`.
    pub fn lookup(&self, name: &str) -> (r: Option<&T>)
        ensures
            match r {
                Some(tool) => self.lookup_spec(name@) == Some(*tool),
                None => self.lookup_spec(name@).is_none(),
            },
    {
        match self.index_of(name) {
            Some(i) => Some(&self.tools[i]),
            None => None,
        }
    }

    /// The registered tools, in the order of enumeration. The order does not
    /// change unless a new name is registered.
    pub fn all(&self) -> (r: &Vec<T>)
        ensures
            r@ == self.entries(),
            distinct_names(r@),
    {
        proof {
            use_type_invariant(self);
        }
        &self.tools
    }
}

} // verus!
