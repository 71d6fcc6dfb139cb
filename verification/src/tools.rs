//! Tool names and lists of them.
//!
//! A tool is nothing but the name under which the package manager knows a
//! package. Lists of tools are modelled as sequences of character
//! sequences; duplicates are allowed and order is kept.

use vstd::prelude::*;

verus! {

/// Mathematical model of a list of tool names.
pub type ToolNames = Seq<Seq<char>>;

/// Builds an owned tool list from string slices, keeping their order.
pub fn tool_list(names: &[&str]) -> (list: Vec<String>)
    ensures
        list.deep_view() == names.deep_view(),
{
    let mut list: Vec<String> = Vec::new();
    let mut i: usize = 0;
    while i < names.len()
        invariant
            i <= names.len(),
            list@.len() == i,
            forall|k: int| 0 <= k < i ==> list@[k]@ == names@[k]@,
        decreases names.len() - i,
    {
        list.push(names[i].to_owned());
        i = i + 1;
    }
    assert(list.deep_view() =~= names.deep_view());
    list
}

/// Copies a tool list, name by name.
pub fn copy_tools(tools: &[String]) -> (copy: Vec<String>)
    ensures
        copy.deep_view() == tools.deep_view(),
{
    let mut copy: Vec<String> = Vec::new();
    let mut i: usize = 0;
    while i < tools.len()
        invariant
            i <= tools.len(),
            copy@.len() == i,
            forall|k: int| 0 <= k < i ==> copy@[k]@ == tools@[k]@,
        decreases tools.len() - i,
    {
        copy.push(tools[i].clone());
        i = i + 1;
    }
    assert(copy.deep_view() =~= tools.deep_view());
    copy
}

} // verus!
