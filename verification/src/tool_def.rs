//! How a plugin describes its tools to the host.
use vstd::prelude::*;

use crate::request::keys_view;
use crate::text::{owned, strings_view};

verus! {

/// A tool: its name, what it does, its parameters with their descriptions,
/// and the names of those that are required.
#[derive(Debug, PartialEq)]
pub struct ToolDef {
    pub name: String,
    pub description: String,
    pub parameters: Vec<(String, String)>,
    pub required: Vec<String>,
}

pub struct ToolV {
    pub name: Seq<char>,
    pub description: Seq<char>,
    pub parameters: Seq<(Seq<char>, Seq<char>)>,
    pub required: Seq<Seq<char>>,
}

impl ToolDef {
    pub open spec fn view(&self) -> ToolV {
        ToolV {
            name: self.name@,
            description: self.description@,
            parameters: crate::request::pairs_view(self.parameters@),
            required: strings_view(self.required@),
        }
    }
}

/// The views of a list of tools.
pub open spec fn tools_view(v: Seq<ToolDef>) -> Seq<ToolV> {
    v.map_values(|t: ToolDef| t.view())
}

/// The names of a list of tools.
pub open spec fn tool_names(v: Seq<ToolV>) -> Seq<Seq<char>> {
    v.map_values(|t: ToolV| t.name)
}

/// The views of a list of string-slice pairs.
pub open spec fn str_pairs_view(ps: Seq<(&str, &str)>) -> Seq<(Seq<char>, Seq<char>)> {
    ps.map_values(|p: (&str, &str)| (p.0@, p.1@))
}

/// Owned copies of string slices.
pub fn owned_all(ks: &[&str]) -> (r: Vec<String>)
    ensures
        strings_view(r@) == keys_view(ks@),
{
    let mut rs: Vec<String> = Vec::new();
    let mut j: usize = 0;
    while j < ks.len()
        invariant
            0 <= j <= ks@.len(),
            strings_view(rs@) == keys_view(ks@).take(j as int),
        decreases ks@.len() - j,
    {
        let ghost before = rs@;
        let s = owned(ks[j]);
        rs.push(s);
        assert(strings_view(rs@) =~= strings_view(before).push(s@));
        assert(keys_view(ks@).take(j + 1) =~= keys_view(ks@).take(j as int).push(ks@[j as int]@));
        j = j + 1;
    }
    assert(keys_view(ks@).take(ks@.len() as int) == keys_view(ks@));
    rs
}

/// The views of compaction specs.
pub open spec fn specs_view(v: Seq<(String, Vec<String>)>) -> Seq<(Seq<char>, Seq<Seq<char>>)> {
    v.map_values(|e: (String, Vec<String>)| (e.0@, strings_view(e.1@)))
}

/// One compaction spec: a tool and the field paths worth keeping.
pub fn compact_entry(tool: &str, fields: &[&str]) -> (r: (String, Vec<String>))
    ensures
        r.0@ == tool@,
        strings_view(r.1@) == keys_view(fields@),
{
    (owned(tool), owned_all(fields))
}

/// Builds a tool description.
pub fn tool(name: &str, description: &str, parameters: &[(&str, &str)], required: &[&str]) -> (r: ToolDef)
    ensures
        r.view() == (ToolV {
            name: name@,
            description: description@,
            parameters: str_pairs_view(parameters@),
            required: keys_view(required@),
        }),
{
    let mut ps: Vec<(String, String)> = Vec::new();
    let mut i: usize = 0;
    while i < parameters.len()
        invariant
            0 <= i <= parameters@.len(),
            crate::request::pairs_view(ps@) == str_pairs_view(parameters@).take(i as int),
        decreases parameters@.len() - i,
    {
        let (k, v) = parameters[i];
        let ghost before = ps@;
        ps.push((owned(k), owned(v)));
        assert(crate::request::pairs_view(ps@) =~= crate::request::pairs_view(before).push((k@, v@)));
        assert(str_pairs_view(parameters@).take(i + 1) =~= str_pairs_view(parameters@).take(i as int).push((k@, v@)));
        i = i + 1;
    }
    let rs = owned_all(required);
    assert(str_pairs_view(parameters@).take(parameters@.len() as int) == str_pairs_view(parameters@));
    ToolDef { name: owned(name), description: owned(description), parameters: ps, required: rs }
}


/// No two of the names are equal.
pub open spec fn keys_distinct(ks: Seq<Seq<char>>) -> bool {
    forall|i: int, j: int| 0 <= i < j < ks.len() ==> ks[i] != ks[j]
}

/// The keys of key-value pairs, in order.
pub open spec fn pair_keys(ps: Seq<(Seq<char>, Seq<char>)>) -> Seq<Seq<char>> {
    ps.map_values(|p: (Seq<char>, Seq<char>)| p.0)
}

/// The tools that compaction specs are for, in order.
pub open spec fn spec_tools(v: Seq<(Seq<char>, Seq<Seq<char>>)>) -> Seq<Seq<char>> {
    v.map_values(|e: (Seq<char>, Seq<Seq<char>>)| e.0)
}

} // verus!
