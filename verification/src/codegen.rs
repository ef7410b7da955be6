//! The Rust generator: what it is made from, and the files it writes for a
//! workspace: each member's generated module, and the root module that
//! declares them.
use crate::ast::{NamespaceBody, RustTarget, Target};
use crate::member::{member_file, member_file_text};
use crate::output::strs_view;
use vstd::prelude::*;

verus! {

/// Generates Rust code for a workspace.
#[derive(Debug)]
pub struct Generator {
    pub target: RustTarget,
}

impl Generator {
    pub fn new(target: RustTarget) -> (g: Generator)
        ensures
            g.target == target,
    {
        Generator { target }
    }
}

/// The generator for the target of a rules file; only Rust has one.
pub fn codegen(target: &Target) -> (g: Generator)
    requires
        target is Rust,
    ensures
        g.target == target->Rust_0,
{
    match target {
        Target::Rust(t) => Generator::new(*t),
        _ => Generator::new(RustTarget { wrapper: crate::ast::RustTargetWrapper::Mod }),
    }
}

/// The lines that open every generated file.
pub open spec fn prelude_spec() -> Seq<char> {
    "// This file is generated by lavish: DO NOT EDIT\n"@
        + "// https://github.com/fasterthanlime/lavish\n"@ + "\n"@
        + "#![cfg_attr(rustfmt, rustfmt_skip)]\n"@
        + "#![allow(clippy::all, unknown_lints, unused, non_snake_case)]\n"@ + "\n"@
}

pub fn prelude_text() -> (r: String)
    ensures
        r@ == prelude_spec(),
{
    let mut r = String::from_str("// This file is generated by lavish: DO NOT EDIT\n");
    r.append("// https://github.com/fasterthanlime/lavish\n");
    r.append("\n");
    r.append("#![cfg_attr(rustfmt, rustfmt_skip)]\n");
    r.append("#![allow(clippy::all, unknown_lints, unused, non_snake_case)]\n");
    r.append("\n");
    r
}

/// One `pub mod name;` line per name.
pub open spec fn mod_lines(names: Seq<Seq<char>>) -> Seq<char>
    decreases names.len(),
{
    if names.len() == 0 {
        Seq::empty()
    } else {
        mod_lines(names.drop_last()) + "pub mod "@ + names.last() + ";\n"@
    }
}

/// The text of the workspace's root module: the prelude, then one module
/// declaration per member.
pub fn workspace_mod_text(names: &Vec<&str>) -> (r: String)
    ensures
        r@ == prelude_spec() + mod_lines(strs_view(names@)),
{
    let ghost v = strs_view(names@);
    let mut r = prelude_text();
    let n = names.len();
    assert(v.subrange(0, 0) =~= Seq::<Seq<char>>::empty());
    for i in 0..n
        invariant
            n == names@.len(),
            v == strs_view(names@),
            r@ == prelude_spec() + mod_lines(v.subrange(0, i as int)),
    {
        r.append("pub mod ");
        r.append(names[i]);
        r.append(";\n");
        assert(v.subrange(0, i + 1).drop_last() =~= v.subrange(0, i as int));
    }
    assert(v.subrange(0, n as int) =~= v);
    r
}


/// A file that a build writes: its path inside the workspace and its text.
#[derive(Debug)]
pub struct OutputFile {
    pub path: String,
    pub text: String,
}

impl Generator {
    /// The files that building a workspace writes, for the members named
    /// `names` whose schemas have the bodies `bodies`: each member's module
    /// `name/mod.rs`, in order, then the workspace's root module `mod.rs`,
    /// which declares the members.
    pub fn emit_workspace(&self, names: &Vec<&str>, bodies: &Vec<&NamespaceBody>) -> (r: Vec<OutputFile>)
        requires
            names@.len() == bodies@.len(),
        ensures
            r@.len() == names@.len() + 1,
            forall|i: int|
                0 <= i < names@.len() ==> (#[trigger] r@[i]).path@ == names@[i]@ + "/mod.rs"@
                    && member_file(r@[i].text@, bodies@[i]@),
            r@[names@.len() as int].path@ == "mod.rs"@,
            r@[names@.len() as int].text@ == prelude_spec() + mod_lines(strs_view(names@)),
    {
        let mut r: Vec<OutputFile> = Vec::new();
        let n = names.len();
        for i in 0..n
            invariant
                n == names@.len(),
                n == bodies@.len(),
                r@.len() == i,
                forall|j: int|
                    0 <= j < i ==> (#[trigger] r@[j]).path@ == names@[j]@ + "/mod.rs"@
                        && member_file(r@[j].text@, bodies@[j]@),
        {
            let mut path = String::from_str(names[i]);
            path.append("/mod.rs");
            let text = member_file_text(bodies[i]);
            r.push(OutputFile { path, text });
        }
        let text = workspace_mod_text(names);
        r.push(OutputFile { path: String::from_str("mod.rs"), text });
        r
    }
}

} // verus!
