//! The schema symbols of generated code: a struct or an enum with its
//! `Factual` impl, which reads it from and writes it to the facts encoding
//! through the protocol's translation tables; a module for each function
//! with its `Params` and `Results` structs; a module for each namespace;
//! and the `Factual` impl of the protocol's unions of functions.
//!
//! The builder steps this text is made of are taken as follows: a trait
//! impl is written as `impl Trait for Name` with its body in a block; a
//! bound on `Self` is written in the `where` clause before the bounds of
//! type parameters; a block closed by a terminator ends with `}` followed
//! by that terminator on the same line. A function's parameter list is
//! written as a struct named `Params`, and its result list as a struct
//! named `Results`, both declared in the function's module.
use crate::anchored::{Anchored, FrameKind};
use crate::ast::{fields_view, BaseType, Field, SpecField, SpecStructDecl, SpecTypeKind, StructDecl};
use crate::common::{facts_path, io_path, serde_derive_path, Mods};
use crate::lang::{debug_text, indented, quoted};
use crate::module::{doc_text, ind};
use crate::naming::{protocol_path, variant_name, RustFn, RustStack, RustStruct};
use crate::types::{as_rust, result_view, rust_type_text, SpecUnknownType, UnknownType};
use vstd::prelude::*;

verus! {

pub open spec fn digit(d: nat) -> char {
    if d == 0 {
        '0'
    } else if d == 1 {
        '1'
    } else if d == 2 {
        '2'
    } else if d == 3 {
        '3'
    } else if d == 4 {
        '4'
    } else if d == 5 {
        '5'
    } else if d == 6 {
        '6'
    } else if d == 7 {
        '7'
    } else if d == 8 {
        '8'
    } else {
        '9'
    }
}

/// A number in decimal digits.
pub open spec fn decimal(n: nat) -> Seq<char>
    decreases n,
{
    if n < 10 {
        seq![digit(n)]
    } else {
        decimal(n / 10).push(digit(n % 10))
    }
}

fn digit_exec(d: usize) -> (c: char)
    requires
        d < 10,
    ensures
        c == digit(d as nat),
{
    if d == 0 {
        '0'
    } else if d == 1 {
        '1'
    } else if d == 2 {
        '2'
    } else if d == 3 {
        '3'
    } else if d == 4 {
        '4'
    } else if d == 5 {
        '5'
    } else if d == 6 {
        '6'
    } else if d == 7 {
        '7'
    } else if d == 8 {
        '8'
    } else {
        '9'
    }
}

/// `n` in decimal digits.
pub fn decimal_text(n: usize) -> (r: String)
    ensures
        r@ == decimal(n as nat),
    decreases n,
{
    if n < 10 {
        let mut r = String::new();
        crate::output::push_char(&mut r, digit_exec(n));
        assert(r@ =~= seq![digit(n as nat)]);
        r
    } else {
        let mut r = decimal_text(n / 10);
        crate::output::push_char(&mut r, digit_exec(n % 10));
        r
    }
}

/// A field of a symbol: its comment, the serde attribute that a byte
/// string needs, then `pub name: type`.
pub open spec fn field_symbol(f: SpecField, frames: Seq<FrameKind>) -> Result<Seq<char>, SpecUnknownType> {
    match rust_type_text(f.typ, frames) {
        Err(e) => Err(e),
        Ok(t) => Ok(doc_text(f.comment) + (if f.typ.kind == SpecTypeKind::Base(BaseType::Bytes) {
            "#[serde(with = "@ + debug_text("::lavish::serde_bytes"@) + ")]\n"@
        } else {
            Seq::empty()
        }) + "pub "@ + f.name.text + ": "@ + t),
    }
}

/// Each field followed by `,` and a line end; the first field whose type
/// is unknown stops it.
pub open spec fn fields_symbol(v: Seq<SpecField>, frames: Seq<FrameKind>) -> Result<Seq<char>, SpecUnknownType>
    decreases v.len(),
{
    if v.len() == 0 {
        Ok(Seq::empty())
    } else {
        match fields_symbol(v.drop_last(), frames) {
            Err(e) => Err(e),
            Ok(p) => match field_symbol(v.last(), frames) {
                Err(e) => Err(e),
                Ok(x) => Ok(p + x + ",\n"@),
            },
        }
    }
}

pub open spec fn subread_lines(v: Seq<SpecField>) -> Seq<char>
    decreases v.len(),
{
    if v.len() == 0 {
        Seq::empty()
    } else {
        subread_lines(v.drop_last()) + v.last().name.text + ": Self::subread(rd)?,\n"@
    }
}

pub open spec fn write_arms(v: Seq<SpecField>) -> Seq<char>
    decreases v.len(),
{
    if v.len() == 0 {
        Seq::empty()
    } else {
        write_arms(v.drop_last()) + decimal((v.len() - 1) as nat) + " => self."@ + v.last().name.text
            + ".write(tt, wr),\n"@
    }
}

/// The text written for a struct seen from the scopes `frames`, whose
/// variant in the protocol's tables is `variant`.
pub open spec fn spec_struct_symbol(s: SpecStructDecl, frames: Seq<FrameKind>, variant: Seq<char>) -> Result<Seq<char>, SpecUnknownType> {
    spec_struct_of(s.name.text, s.fields, frames, variant)
}

/// The text written for a struct named `name` with the fields `fields`,
/// seen from the scopes `frames`, whose variant in the protocol's tables
/// is `variant`.
pub open spec fn spec_struct_of(name: Seq<char>, fields: Seq<SpecField>, frames: Seq<FrameKind>, variant: Seq<char>) -> Result<Seq<char>, SpecUnknownType> {
    let tt = protocol_path(frames.len()) + "::TranslationTables"@;
    match fields_symbol(fields, frames) {
        Err(e) => Err(e),
        Ok(field_lines) => Ok("#[derive(Clone, Debug, "@ + (serde_derive_path()) + "::Serialize, "@ + (serde_derive_path()) + "::Deserialize)]\n"@ + "pub struct "@ + (name) + " {\n"@ + ind((field_lines)) + "}\n"@ + "\n"@ + "impl "@ + (facts_path()) + "::Factual<"@ + (tt) + "> for "@ + (name) + " {\n"@ + ind("fn read<R>(rd: &mut "@ + (facts_path()) + "::Reader<R>) -> Result<Self, "@ + (facts_path()) + "::Error>"@ + "\n"@ + "where\n"@ + ind("Self: Sized,\n"@ + "R: "@ + (io_path()) + "::Read,\n"@) + " {\n"@ + ind("rd.expect_array_len("@ + (decimal(fields.len() as nat)) + ")?;\n"@ + "Ok(Self"@ + " {\n"@ + ind((subread_lines(fields))) + "})\n"@) + "}\n"@ + "\n"@ + "fn write<W>(&self, tt: &"@ + (tt) + ", wr: &mut W) -> Result<(), "@ + (facts_path()) + "::Error>"@ + "\n"@ + "where\n"@ + ind("Self: Sized,\n"@ + "W: "@ + (io_path()) + "::Write,\n"@) + " {\n"@ + ind("tt."@ + (variant) + ".write(wr, |wr, i| match i"@ + " {\n"@ + ind((write_arms(fields)) + "_ => unreachable!(),\n"@) + "})\n"@) + "}\n"@) + "}\n"@),
    }
}

fn cat(a: String, b: &str) -> (r: String)
    ensures
        r@ == a@ + b@,
{
    let mut r = a;
    r.append(b);
    r
}

fn field_symbol_exec<'a>(f: &Field, frames_of: &crate::anchored::Stack<'a>) -> (r: Result<String, UnknownType>)
    ensures
        result_view(r) == field_symbol(f@, frames_of.frames()),
{
    match as_rust(&f.typ, frames_of) {
        Err(e) => Err(e),
        Ok(t) => {
            let mut r = crate::module::doc_exec(&f.comment);
            let is_bytes = match &f.typ.kind {
                crate::ast::TypeKind::Base(BaseType::Bytes) => true,
                _ => false,
            };
            if is_bytes {
                r.append("#[serde(with = ");
                let q = quoted("::lavish::serde_bytes");
                r.append(q.as_str());
                r.append(")]\n");
            }
            r.append("pub ");
            r.append(f.name.text.as_str());
            r.append(": ");
            r.append(t.as_str());
            assert(r@ =~= field_symbol(f@, frames_of.frames())->Ok_0);
            Ok(r)
        },
    }
}

fn fields_symbol_exec<'a>(v: &Vec<Field>, stack: &crate::anchored::Stack<'a>) -> (r: Result<String, UnknownType>)
    ensures
        result_view(r) == fields_symbol(fields_view(v@), stack.frames()),
{
    let ghost fv = fields_view(v@);
    let mut r = String::new();
    let n = v.len();
    assert(fv.subrange(0, 0) =~= Seq::<SpecField>::empty());
    for i in 0..n
        invariant
            n == v.len(),
            fv == fields_view(v@),
            fields_symbol(fv.subrange(0, i as int), stack.frames()) == Ok::<Seq<char>, SpecUnknownType>(r@),
    {
        assert(fv.subrange(0, i + 1).drop_last() =~= fv.subrange(0, i as int));
        assert(fv.subrange(0, i + 1).last() == v@[i as int]@);
        match field_symbol_exec(&v[i], stack) {
            Err(e) => {
                proof {
                    lemma_fields_symbol_err(fv, i as int, stack.frames());
                }
                return Err(e);
            },
            Ok(x) => {
                r.append(x.as_str());
                r.append(",\n");
            },
        }
    }
    assert(fv.subrange(0, n as int) =~= fv);
    Ok(r)
}

/// Once a prefix of the fields fails, every longer prefix fails the same way.
proof fn lemma_fields_symbol_err(v: Seq<SpecField>, i: int, frames: Seq<FrameKind>)
    requires
        0 <= i < v.len(),
        fields_symbol(v.subrange(0, i + 1), frames) is Err,
    ensures
        fields_symbol(v, frames) == fields_symbol(v.subrange(0, i + 1), frames),
    decreases v.len(),
{
    if v.len() == i + 1 {
        assert(v.subrange(0, i + 1) =~= v);
    } else {
        assert(v.drop_last().subrange(0, i + 1) =~= v.subrange(0, i + 1));
        lemma_fields_symbol_err(v.drop_last(), i, frames);
    }
}

fn subreads_exec(v: &Vec<Field>) -> (r: String)
    ensures
        r@ == subread_lines(fields_view(v@)),
{
    let ghost fv = fields_view(v@);
    let mut r = String::new();
    let n = v.len();
    assert(fv.subrange(0, 0) =~= Seq::<SpecField>::empty());
    for i in 0..n
        invariant
            n == v.len(),
            fv == fields_view(v@),
            r@ == subread_lines(fv.subrange(0, i as int)),
    {
        assert(fv.subrange(0, i + 1).drop_last() =~= fv.subrange(0, i as int));
        assert(fv.subrange(0, i + 1).last() == v@[i as int]@);
        r.append(v[i].name.text.as_str());
        r.append(": Self::subread(rd)?,\n");
    }
    assert(fv.subrange(0, n as int) =~= fv);
    r
}

fn write_arms_exec(v: &Vec<Field>) -> (r: String)
    ensures
        r@ == write_arms(fields_view(v@)),
{
    let ghost fv = fields_view(v@);
    let mut r = String::new();
    let n = v.len();
    assert(fv.subrange(0, 0) =~= Seq::<SpecField>::empty());
    for i in 0..n
        invariant
            n == v.len(),
            fv == fields_view(v@),
            r@ == write_arms(fv.subrange(0, i as int)),
    {
        assert(fv.subrange(0, i + 1).drop_last() =~= fv.subrange(0, i as int));
        assert(fv.subrange(0, i + 1).last() == v@[i as int]@);
        let d = decimal_text(i);
        r.append(d.as_str());
        r.append(" => self.");
        r.append(v[i].name.text.as_str());
        r.append(".write(tt, wr),\n");
    }
    assert(fv.subrange(0, n as int) =~= fv);
    r
}

/// The declaration of a struct and its `Factual` impl; an unknown field
/// type is reported as the error.
pub fn struct_symbol_text<'a>(node: &Anchored<'a, &'a StructDecl>) -> (r: Result<String, UnknownType>)
    ensures
        result_view(r) == spec_struct_symbol(node.inner@, node.stack.frames(), variant_name(node.spec_names())),
{
    let variant = node.variant();
    struct_text_of(node.inner.name.text.as_str(), &node.inner.fields, &node.stack, variant)
}

fn struct_text_of<'a>(name: &str, fields: &Vec<Field>, stack: &crate::anchored::Stack<'a>, variant: String) -> (r: Result<String, UnknownType>)
    ensures
        result_view(r) == spec_struct_of(name@, fields_view(fields@), stack.frames(), variant@),
{
    let field_text = match fields_symbol_exec(fields, stack) {
        Err(e) => {
            return Err(e);
        },
        Ok(t) => t,
    };
    let tt = stack.TranslationTables();
    let facts = Mods::facts();
    let io = Mods::io();
    let sd = Mods::serde_derive();
    let len = decimal_text(fields.len());
    let subreads = subreads_exec(fields);
    let arms = write_arms_exec(fields);
    let mut r = String::new();
    r.append("#[derive(Clone, Debug, ");
    r.append(sd.as_str());
    r.append("::Serialize, ");
    r.append(sd.as_str());
    r.append("::Deserialize)]\n");
    r.append("pub struct ");
    r.append(name);
    r.append(" {\n");
    let mut t1 = String::new();
    t1.append(field_text.as_str());
    let t1i = indented(t1.as_str());
    r.append(t1i.as_str());
    r.append("}\n");
    r.append("\n");
    r.append("impl ");
    r.append(facts.as_str());
    r.append("::Factual<");
    r.append(tt.as_str());
    r.append("> for ");
    r.append(name);
    r.append(" {\n");
    let mut t2 = String::new();
    t2.append("fn read<R>(rd: &mut ");
    t2.append(facts.as_str());
    t2.append("::Reader<R>) -> Result<Self, ");
    t2.append(facts.as_str());
    t2.append("::Error>");
    t2.append("\n");
    t2.append("where\n");
    let mut t3 = String::new();
    t3.append("Self: Sized,\n");
    t3.append("R: ");
    t3.append(io.as_str());
    t3.append("::Read,\n");
    let t3i = indented(t3.as_str());
    t2.append(t3i.as_str());
    t2.append(" {\n");
    let mut t4 = String::new();
    t4.append("rd.expect_array_len(");
    t4.append(len.as_str());
    t4.append(")?;\n");
    t4.append("Ok(Self");
    t4.append(" {\n");
    let mut t5 = String::new();
    t5.append(subreads.as_str());
    let t5i = indented(t5.as_str());
    t4.append(t5i.as_str());
    t4.append("})\n");
    let t4i = indented(t4.as_str());
    t2.append(t4i.as_str());
    t2.append("}\n");
    t2.append("\n");
    t2.append("fn write<W>(&self, tt: &");
    t2.append(tt.as_str());
    t2.append(", wr: &mut W) -> Result<(), ");
    t2.append(facts.as_str());
    t2.append("::Error>");
    t2.append("\n");
    t2.append("where\n");
    let mut t6 = String::new();
    t6.append("Self: Sized,\n");
    t6.append("W: ");
    t6.append(io.as_str());
    t6.append("::Write,\n");
    let t6i = indented(t6.as_str());
    t2.append(t6i.as_str());
    t2.append(" {\n");
    let mut t7 = String::new();
    t7.append("tt.");
    t7.append(variant.as_str());
    t7.append(".write(wr, |wr, i| match i");
    t7.append(" {\n");
    let mut t8 = String::new();
    t8.append(arms.as_str());
    t8.append("_ => unreachable!(),\n");
    let t8i = indented(t8.as_str());
    t7.append(t8i.as_str());
    t7.append("})\n");
    let t7i = indented(t7.as_str());
    t2.append(t7i.as_str());
    t2.append("}\n");
    let t2i = indented(t2.as_str());
    r.append(t2i.as_str());
    r.append("}\n");
    assert(r@ =~= spec_struct_of(name@, fields_view(fields@), stack.frames(), variant@)->Ok_0);
    Ok(r)
}

pub open spec fn variant_lines(v: Seq<crate::ast::SpecEnumVariant>) -> Seq<char>
    decreases v.len(),
{
    if v.len() == 0 {
        Seq::empty()
    } else {
        variant_lines(v.drop_last()) + doc_text(v.last().comment) + v.last().name.text + " = "@
            + decimal((v.len() - 1) as nat) + ",\n"@
    }
}

pub open spec fn read_arms(v: Seq<crate::ast::SpecEnumVariant>) -> Seq<char>
    decreases v.len(),
{
    if v.len() == 0 {
        Seq::empty()
    } else {
        read_arms(v.drop_last()) + decimal((v.len() - 1) as nat) + " => E::"@ + v.last().name.text
            + ",\n"@
    }
}

/// The text written for an enum seen from the scopes `frames`: its
/// declaration, each variant numbered in order, and its `Factual` impl.
/// Its variant in the protocol's tables is named as a struct's is.
pub open spec fn spec_enum_symbol(e: crate::ast::SpecEnumDecl, frames: Seq<FrameKind>) -> Seq<char> {
    let name = e.name.text;
    let variants = e.variants;
    let tt = protocol_path(frames.len()) + "::TranslationTables"@;
    let variant = variant_name(crate::anchored::frame_names(frames).push(name));
    (doc_text(e.comment)) + "#[derive(Clone, Copy, Debug, "@ + (serde_derive_path()) + "::Serialize, "@ + (serde_derive_path()) + "::Deserialize)]\n"@ + "#[repr(u32)]\n"@ + "pub enum "@ + (name) + " {\n"@ + ind((variant_lines(variants))) + "}\n"@ + "\n"@ + "impl "@ + (facts_path()) + "::Factual<"@ + (tt) + "> for "@ + (name) + " {\n"@ + ind("fn read<R>(rd: &mut "@ + (facts_path()) + "::Reader<R>) -> Result<Self, "@ + (facts_path()) + "::Error>"@ + "\n"@ + "where\n"@ + ind("Self: Sized,\n"@ + "R: "@ + (io_path()) + "::Read,\n"@) + " {\n"@ + ind("let value: u32 = rd.read_int()?;\n"@ + "use "@ + (name) + " as E;\n"@ + "Ok(match value"@ + " {\n"@ + ind((read_arms(variants)) + "_ => return Err("@ + (facts_path()) + "::Error::IncompatibleSchema(format!("@ + (debug_text("Received unrecognized enum variant for "@ + name + ": {:#?}"@)) + ", value))),\n"@) + "})\n"@) + "}\n"@ + "\n"@ + "fn write<W>(&self, tt: &"@ + (tt) + ", wr: &mut W) -> Result<(), "@ + (facts_path()) + "::Error>"@ + "\n"@ + "where\n"@ + ind("Self: Sized,\n"@ + "W: "@ + (io_path()) + "::Write,\n"@) + " {\n"@ + ind("let offsets = tt."@ + (variant) + ".validate()?;\n"@ + "match offsets.get(*self as usize)\n"@ + " {\n"@ + ind("Some(value) => value.write(tt, wr),\n"@ + "None => Err("@ + (facts_path()) + "::Error::IncompatibleSchema(format!("@ + (debug_text("Enum variant for "@ + name + " not known by the peer: {:#?}"@)) + ", self))),\n"@) + "}\n"@) + "}\n"@) + "}\n"@
}

fn variant_lines_exec(v: &Vec<crate::ast::EnumVariant>) -> (r: String)
    ensures
        r@ == variant_lines(v@.map_values(|x: crate::ast::EnumVariant| x@)),
{
    let ghost vv = v@.map_values(|x: crate::ast::EnumVariant| x@);
    let mut r = String::new();
    let n = v.len();
    assert(vv.subrange(0, 0) =~= Seq::<crate::ast::SpecEnumVariant>::empty());
    for i in 0..n
        invariant
            n == v.len(),
            vv == v@.map_values(|x: crate::ast::EnumVariant| x@),
            r@ == variant_lines(vv.subrange(0, i as int)),
    {
        assert(vv.subrange(0, i + 1).drop_last() =~= vv.subrange(0, i as int));
        assert(vv.subrange(0, i + 1).last() == v@[i as int]@);
        let d = crate::module::doc_exec(&v[i].comment);
        r.append(d.as_str());
        r.append(v[i].name.text.as_str());
        r.append(" = ");
        let k = decimal_text(i);
        r.append(k.as_str());
        r.append(",\n");
    }
    assert(vv.subrange(0, n as int) =~= vv);
    r
}

fn read_arms_exec(v: &Vec<crate::ast::EnumVariant>) -> (r: String)
    ensures
        r@ == read_arms(v@.map_values(|x: crate::ast::EnumVariant| x@)),
{
    let ghost vv = v@.map_values(|x: crate::ast::EnumVariant| x@);
    let mut r = String::new();
    let n = v.len();
    assert(vv.subrange(0, 0) =~= Seq::<crate::ast::SpecEnumVariant>::empty());
    for i in 0..n
        invariant
            n == v.len(),
            vv == v@.map_values(|x: crate::ast::EnumVariant| x@),
            r@ == read_arms(vv.subrange(0, i as int)),
    {
        assert(vv.subrange(0, i + 1).drop_last() =~= vv.subrange(0, i as int));
        assert(vv.subrange(0, i + 1).last() == v@[i as int]@);
        let k = decimal_text(i);
        r.append(k.as_str());
        r.append(" => E::");
        r.append(v[i].name.text.as_str());
        r.append(",\n");
    }
    assert(vv.subrange(0, n as int) =~= vv);
    r
}

/// The declaration of an enum and its `Factual` impl.
pub fn enum_symbol_text<'a>(node: &Anchored<'a, &'a crate::ast::EnumDecl>) -> (r: String)
    ensures
        r@ == spec_enum_symbol(node.inner@, node.stack.frames()),
{
    let e = node.inner;
    let name = e.name.text.as_str();
    let mut names = node.stack.names();
    let ghost pre = names@;
    names.push(name);
    assert(crate::output::strs_view(names@) =~= crate::output::strs_view(pre).push(name@));
    let variant = crate::naming::camel_joined(&names);
    let tt = node.stack.TranslationTables();
    let facts = Mods::facts();
    let io = Mods::io();
    let sd = Mods::serde_derive();
    let doc = crate::module::doc_exec(&e.comment);
    let vlines = variant_lines_exec(&e.variants);
    let rarms = read_arms_exec(&e.variants);
    let m1s = cat(cat(String::from_str("Received unrecognized enum variant for "), name), ": {:#?}");
    let m1 = quoted(m1s.as_str());
    let m2s = cat(cat(String::from_str("Enum variant for "), name), " not known by the peer: {:#?}");
    let m2 = quoted(m2s.as_str());
    let mut r = String::new();
    r.append(doc.as_str());
    r.append("#[derive(Clone, Copy, Debug, ");
    r.append(sd.as_str());
    r.append("::Serialize, ");
    r.append(sd.as_str());
    r.append("::Deserialize)]\n");
    r.append("#[repr(u32)]\n");
    r.append("pub enum ");
    r.append(name);
    r.append(" {\n");
    let mut t1 = String::new();
    t1.append(vlines.as_str());
    let t1i = indented(t1.as_str());
    r.append(t1i.as_str());
    r.append("}\n");
    r.append("\n");
    r.append("impl ");
    r.append(facts.as_str());
    r.append("::Factual<");
    r.append(tt.as_str());
    r.append("> for ");
    r.append(name);
    r.append(" {\n");
    let mut t2 = String::new();
    t2.append("fn read<R>(rd: &mut ");
    t2.append(facts.as_str());
    t2.append("::Reader<R>) -> Result<Self, ");
    t2.append(facts.as_str());
    t2.append("::Error>");
    t2.append("\n");
    t2.append("where\n");
    let mut t3 = String::new();
    t3.append("Self: Sized,\n");
    t3.append("R: ");
    t3.append(io.as_str());
    t3.append("::Read,\n");
    let t3i = indented(t3.as_str());
    t2.append(t3i.as_str());
    t2.append(" {\n");
    let mut t4 = String::new();
    t4.append("let value: u32 = rd.read_int()?;\n");
    t4.append("use ");
    t4.append(name);
    t4.append(" as E;\n");
    t4.append("Ok(match value");
    t4.append(" {\n");
    let mut t5 = String::new();
    t5.append(rarms.as_str());
    t5.append("_ => return Err(");
    t5.append(facts.as_str());
    t5.append("::Error::IncompatibleSchema(format!(");
    t5.append(m1.as_str());
    t5.append(", value))),\n");
    let t5i = indented(t5.as_str());
    t4.append(t5i.as_str());
    t4.append("})\n");
    let t4i = indented(t4.as_str());
    t2.append(t4i.as_str());
    t2.append("}\n");
    t2.append("\n");
    t2.append("fn write<W>(&self, tt: &");
    t2.append(tt.as_str());
    t2.append(", wr: &mut W) -> Result<(), ");
    t2.append(facts.as_str());
    t2.append("::Error>");
    t2.append("\n");
    t2.append("where\n");
    let mut t6 = String::new();
    t6.append("Self: Sized,\n");
    t6.append("W: ");
    t6.append(io.as_str());
    t6.append("::Write,\n");
    let t6i = indented(t6.as_str());
    t2.append(t6i.as_str());
    t2.append(" {\n");
    let mut t7 = String::new();
    t7.append("let offsets = tt.");
    t7.append(variant.as_str());
    t7.append(".validate()?;\n");
    t7.append("match offsets.get(*self as usize)\n");
    t7.append(" {\n");
    let mut t8 = String::new();
    t8.append("Some(value) => value.write(tt, wr),\n");
    t8.append("None => Err(");
    t8.append(facts.as_str());
    t8.append("::Error::IncompatibleSchema(format!(");
    t8.append(m2.as_str());
    t8.append(", self))),\n");
    let t8i = indented(t8.as_str());
    t7.append(t8i.as_str());
    t7.append("}\n");
    let t7i = indented(t7.as_str());
    t2.append(t7i.as_str());
    t2.append("}\n");
    let t2i = indented(t2.as_str());
    r.append(t2i.as_str());
    r.append("}\n");
    assert(r@ =~= spec_enum_symbol(node.inner@, node.stack.frames()));
    r
}

/// The variant of each function in the protocol's enums, in order.
pub open spec fn fun_variants<'a>(funs: Seq<Anchored<'a, &'a crate::ast::FunctionDecl>>) -> Seq<Seq<char>> {
    funs.map_values(|f: Anchored<'a, &'a crate::ast::FunctionDecl>| variant_name(f.spec_names()))
}

pub open spec fn factual_read_arms(name: Seq<char>, vs: Seq<Seq<char>>) -> Seq<char>
    decreases vs.len(),
{
    if vs.len() == 0 {
        Seq::empty()
    } else {
        factual_read_arms(name, vs.drop_last()) + decimal((vs.len() - 1) as nat) + " => Ok("@ + name
            + "::"@ + vs.last() + "(Self::subread(rd)?)),\n"@
    }
}

pub open spec fn factual_write_arms(name: Seq<char>, vs: Seq<Seq<char>>) -> Seq<char>
    decreases vs.len(),
{
    if vs.len() == 0 {
        Seq::empty()
    } else {
        factual_write_arms(name, vs.drop_last()) + name + "::"@ + vs.last()
            + "(value) =>\n    o.write_union(wr, mapping, "@ + debug_text(name) + ", "@ + debug_text(
            vs.last(),
        ) + ", "@ + decimal((vs.len() - 1) as nat) + ", value),\n"@
    }
}

/// The `Factual` impl of one of the protocol's enums, named `name`, whose
/// variants are, in order, those of the functions `funs`: a value is read
/// as a pair of its variant's index and its struct, and written as a union
/// through the protocol mapping.
pub open spec fn spec_factual_impl(frames: Seq<FrameKind>, name: Seq<char>, variants: Seq<Seq<char>>) -> Seq<char> {
    let pm = protocol_path(frames.len()) + "::ProtocolMapping"@;
    "impl "@ + (facts_path()) + "::Factual<"@ + (pm) + "> for "@ + (name) + " {\n"@ + ind("fn read<R>(rd: &mut "@ + (facts_path()) + "::Reader<R>) -> Result<Self, "@ + (facts_path()) + "::Error>"@ + "\n"@ + "where\n"@ + ind("Self: Sized,\n"@ + "R: "@ + (io_path()) + "::Read,\n"@) + " {\n"@ + ind("let len = rd.read_array_len()?;\n"@ + "if len != 2"@ + " {\n"@ + ind("unreachable!();\n"@) + "}\n"@ + "let typ: u32 = rd.read_int()?;\n"@ + "match typ"@ + " {\n"@ + ind((factual_read_arms(name, variants)) + "_ => unreachable!(),\n"@) + "}\n"@) + "}\n"@ + "\n"@ + "fn write<W>(&self, mapping: &"@ + (pm) + ", wr: &mut W) -> Result<(), "@ + (facts_path()) + "::Error>"@ + "\n"@ + "where\n"@ + ind("W: "@ + (io_path()) + "::Write,\n"@) + " {\n"@ + ind("let o = &mapping.__"@ + (name) + ";\n"@ + "match self"@ + " {\n"@ + ind((factual_write_arms(name, variants)) + "_ => unreachable!(),\n"@) + "}\n"@) + "}\n"@) + "}\n"@
}

fn variants_exec<'a>(funs: &Vec<Anchored<'a, &'a crate::ast::FunctionDecl>>) -> (r: Vec<String>)
    ensures
        r@.map_values(|s: String| s@) == fun_variants(funs@),
{
    let mut r: Vec<String> = Vec::new();
    let n = funs.len();
    for i in 0..n
        invariant
            n == funs.len(),
            r@.map_values(|s: String| s@) == fun_variants(funs@).subrange(0, i as int),
    {
        let ghost pre = r@;
        let v = crate::naming::RustFn::variant(&funs[i]);
        assert(funs@[i as int].spec_path() == funs@[i as int].spec_names());
        assert(v@ == fun_variants(funs@)[i as int]);
        r.push(v);
        assert(r@ =~= pre.push(v));
        assert(r@.map_values(|s: String| s@) =~= pre.map_values(|s: String| s@).push(v@));
        assert(r@.map_values(|s: String| s@) =~= fun_variants(funs@).subrange(0, i + 1));
    }
    assert(fun_variants(funs@).subrange(0, n as int) =~= fun_variants(funs@));
    r
}

fn factual_arms_exec(name: &str, vs: &Vec<String>, write: bool) -> (r: String)
    ensures
        r@ == if write {
            factual_write_arms(name@, vs@.map_values(|s: String| s@))
        } else {
            factual_read_arms(name@, vs@.map_values(|s: String| s@))
        },
{
    let ghost vv = vs@.map_values(|s: String| s@);
    let mut r = String::new();
    let n = vs.len();
    assert(vv.subrange(0, 0) =~= Seq::<Seq<char>>::empty());
    let qn = quoted(name);
    for i in 0..n
        invariant
            n == vs.len(),
            vv == vs@.map_values(|s: String| s@),
            qn@ == debug_text(name@),
            r@ == if write {
                factual_write_arms(name@, vv.subrange(0, i as int))
            } else {
                factual_read_arms(name@, vv.subrange(0, i as int))
            },
    {
        assert(vv.subrange(0, i + 1).drop_last() =~= vv.subrange(0, i as int));
        assert(vv.subrange(0, i + 1).last() == vs@[i as int]@);
        let k = decimal_text(i);
        if write {
            r.append(name);
            r.append("::");
            r.append(vs[i].as_str());
            r.append("(value) =>\n    o.write_union(wr, mapping, ");
            r.append(qn.as_str());
            r.append(", ");
            let qv = quoted(vs[i].as_str());
            r.append(qv.as_str());
            r.append(", ");
            r.append(k.as_str());
            r.append(", value),\n");
        } else {
            r.append(k.as_str());
            r.append(" => Ok(");
            r.append(name);
            r.append("::");
            r.append(vs[i].as_str());
            r.append("(Self::subread(rd)?)),\n");
        }
    }
    assert(vv.subrange(0, n as int) =~= vv);
    r
}

/// The `Factual` impl of the protocol enum `name` seen from `stack`, for
/// the functions `funs` of its kind, in order.
pub fn factual_impl_text<'a>(stack: &crate::anchored::Stack<'a>, name: &str, funs: &Vec<Anchored<'a, &'a crate::ast::FunctionDecl>>) -> (r: String)
    ensures
        r@ == spec_factual_impl(stack.frames(), name@, fun_variants(funs@)),
{
    let vs = variants_exec(funs);
    factual_impl_of(stack, name, &vs)
}

/// The `Factual` impl of the protocol enum `name` seen from `stack`, whose
/// variants are `vs`, in order.
#[verifier::spinoff_prover]
pub(crate) fn factual_impl_of<'a>(stack: &crate::anchored::Stack<'a>, name: &str, vs: &Vec<String>) -> (r: String)
    ensures
        r@ == spec_factual_impl(stack.frames(), name@, vs@.map_values(|s: String| s@)),
{
    let pm = cat(stack.protocol(), "::ProtocolMapping");
    let facts = Mods::facts();
    let io = Mods::io();
    let rarms = factual_arms_exec(name, vs, false);
    let warms = factual_arms_exec(name, vs, true);
    let mut r = String::new();
    r.append("impl ");
    r.append(facts.as_str());
    r.append("::Factual<");
    r.append(pm.as_str());
    r.append("> for ");
    r.append(name);
    r.append(" {\n");
    let mut t1 = String::new();
    t1.append("fn read<R>(rd: &mut ");
    t1.append(facts.as_str());
    t1.append("::Reader<R>) -> Result<Self, ");
    t1.append(facts.as_str());
    t1.append("::Error>");
    t1.append("\n");
    t1.append("where\n");
    let mut t2 = String::new();
    t2.append("Self: Sized,\n");
    t2.append("R: ");
    t2.append(io.as_str());
    t2.append("::Read,\n");
    let t2i = indented(t2.as_str());
    t1.append(t2i.as_str());
    t1.append(" {\n");
    let mut t3 = String::new();
    t3.append("let len = rd.read_array_len()?;\n");
    t3.append("if len != 2");
    t3.append(" {\n");
    let mut t4 = String::new();
    t4.append("unreachable!();\n");
    let t4i = indented(t4.as_str());
    t3.append(t4i.as_str());
    t3.append("}\n");
    t3.append("let typ: u32 = rd.read_int()?;\n");
    t3.append("match typ");
    t3.append(" {\n");
    let mut t5 = String::new();
    t5.append(rarms.as_str());
    t5.append("_ => unreachable!(),\n");
    let t5i = indented(t5.as_str());
    t3.append(t5i.as_str());
    t3.append("}\n");
    let t3i = indented(t3.as_str());
    t1.append(t3i.as_str());
    t1.append("}\n");
    t1.append("\n");
    t1.append("fn write<W>(&self, mapping: &");
    t1.append(pm.as_str());
    t1.append(", wr: &mut W) -> Result<(), ");
    t1.append(facts.as_str());
    t1.append("::Error>");
    t1.append("\n");
    t1.append("where\n");
    let mut t6 = String::new();
    t6.append("W: ");
    t6.append(io.as_str());
    t6.append("::Write,\n");
    let t6i = indented(t6.as_str());
    t1.append(t6i.as_str());
    t1.append(" {\n");
    let mut t7 = String::new();
    t7.append("let o = &mapping.__");
    t7.append(name);
    t7.append(";\n");
    t7.append("match self");
    t7.append(" {\n");
    let mut t8 = String::new();
    t8.append(warms.as_str());
    t8.append("_ => unreachable!(),\n");
    let t8i = indented(t8.as_str());
    t7.append(t8i.as_str());
    t7.append("}\n");
    let t7i = indented(t7.as_str());
    t1.append(t7i.as_str());
    t1.append("}\n");
    let t1i = indented(t1.as_str());
    r.append(t1i.as_str());
    r.append("}\n");
    assert(r@ =~= spec_factual_impl(stack.frames(), name@, vs@.map_values(|s: String| s@)));
    r
}


/// The module written for a function whose path from the schema is
/// `names`, inside `depth` scopes: a `method` that names its slot, its
/// `Params` and `Results` structs (`ps`, `rs`), their `Callable` and
/// `Implementable` impls, then `nested`, the functions declared in its
/// body.
#[verifier::opaque]
pub open spec fn function_frame(depth: nat, names: Seq<Seq<char>>, ps: Seq<char>, rs: Seq<char>, nested: Seq<char>) -> Seq<char> {
    let name = names.last();
    let v = variant_name(names);
    let proto = protocol_path(depth);
    let slot = proto + "::Slottable"@;
    let pp = proto + "::Params"@;
    let rr = proto + "::Results"@;
    let callable = blk("fn upcast_params(self) -> "@ + pp, pp + "::"@ + v + "(self)\n"@) + blk(
        "fn downcast_results(results: "@ + rr + ") -> Option<Results>"@,
        blk("match results"@, match_arms(rr, v, "r"@)),
    );
    let implementable = blk("fn method() -> &'static str"@, debug_text(crate::output::join(names, "."@)) + "\n"@)
        + blk("fn upcast_results(self) -> "@ + rr, rr + "::"@ + v + "(self)\n"@) + blk(
        "fn downcast_params(params: "@ + pp + ") -> Option<Params>"@,
        blk("match params"@, match_arms(pp, v, "p"@)),
    );
    "pub use "@ + name + "::method as "@ + name + ";\n"@ + blk(
        "pub mod "@ + name,
        blk("pub fn method() -> "@ + slot + "<Params, Results>"@, slot + " { phantom: std::marker::PhantomData }\n"@)
            + ps + rs + "\n"@ + blk("impl "@ + proto + "::Callable<Results> for Params"@, callable) + "\n"@
            + blk("impl "@ + proto + "::Implementable<Params> for Results"@, implementable) + nested,
    )
}

/// `head`, then `body` in a block.
pub open spec fn blk(head: Seq<char>, body: Seq<char>) -> Seq<char> {
    head + " {\n"@ + ind(body) + "}\n"@
}

/// The arms of a match that picks the variant `v` of the union `path`.
pub open spec fn match_arms(path: Seq<char>, v: Seq<char>, bind: Seq<char>) -> Seq<char> {
    path + "::"@ + v + "("@ + bind + ") => Some("@ + bind + "),\n"@ + "_ => None,\n"@
}

/// The text written for the function `f` seen from `frames`. Its
/// parameter list is written as the struct `Params` and its result list
/// as the struct `Results`, both declared in the function's own module;
/// the first unknown field type, in the order of the text, is the error.
pub open spec fn spec_function_symbol<'a>(frames: Seq<FrameKind<'a>>, f: &'a crate::ast::FunctionDecl) -> Result<Seq<char>, SpecUnknownType>
    decreases f, 1int,
{
    let inner = frames.push(FrameKind::Function(f));
    let names = crate::anchored::frame_names(frames).push(f.name.text@);
    let inner_names = crate::anchored::frame_names(inner);
    match spec_struct_of("Params"@, fields_view(f.params@), inner, variant_name(inner_names.push("Params"@))) {
        Err(e) => Err(e),
        Ok(ps) => match spec_struct_of(
            "Results"@,
            fields_view(f.results@),
            inner,
            variant_name(inner_names.push("Results"@)),
        ) {
            Err(e) => Err(e),
            Ok(rs) => match &f.body {
                Some(b) => match funs_symbol(inner, &b.functions, b.functions.len() as int) {
                    Err(e) => Err(e),
                    Ok(ns) => Ok(function_frame(inner.len(), names, ps, rs, "\n"@ + ns)),
                },
                None => Ok(function_frame(inner.len(), names, ps, rs, Seq::empty())),
            },
        },
    }
}

/// The texts of the first `n` functions of `v`, in order.
pub open spec fn funs_symbol<'a>(frames: Seq<FrameKind<'a>>, v: &'a Vec<crate::ast::FunctionDecl>, n: int) -> Result<Seq<char>, SpecUnknownType>
    decreases v, n,
{
    if n <= 0 || n > v.len() {
        Ok(Seq::empty())
    } else {
        match funs_symbol(frames, v, n - 1) {
            Err(e) => Err(e),
            Ok(a) => match spec_function_symbol(frames, &v[n - 1]) {
                Err(e) => Err(e),
                Ok(b) => Ok(a + b),
            },
        }
    }
}

/// Once one of the functions fails, the texts of all the functions up to
/// any later one fail with the same error.
proof fn lemma_funs_symbol_err<'a>(frames: Seq<FrameKind<'a>>, v: &'a Vec<crate::ast::FunctionDecl>, k: int, m: int)
    requires
        0 <= k <= m <= v.len(),
        funs_symbol(frames, v, k) is Err,
    ensures
        funs_symbol(frames, v, m) == funs_symbol(frames, v, k),
    decreases m - k,
{
    if m > k {
        lemma_funs_symbol_err(frames, v, k, m - 1);
    }
}

fn struct_variant<'a>(stack: &crate::anchored::Stack<'a>, name: &str) -> (r: String)
    ensures
        r@ == variant_name(crate::anchored::frame_names(stack.frames()).push(name@)),
{
    let mut names = stack.names();
    let ghost pre = names@;
    names.push(name);
    assert(crate::output::strs_view(names@) =~= crate::output::strs_view(pre).push(name@));
    crate::naming::camel_joined(&names)
}

fn two_arms(head: &str, path: &String, v: &String, bind: &str) -> (r: String)
    ensures
        r@ == blk(head@, match_arms(path@, v@, bind@)),
{
    let mut t = path.clone();
    t.append("::");
    t.append(v.as_str());
    t.append("(");
    t.append(bind);
    t.append(") => Some(");
    t.append(bind);
    t.append("),\n");
    t.append("_ => None,\n");
    let ti = indented(t.as_str());
    let mut r = String::from_str(head);
    r.append(" {\n");
    r.append(ti.as_str());
    r.append("}\n");
    r
}

fn with_body(head: String, body: String) -> (r: String)
    ensures
        r@ == blk(head@, body@),
{
    let bi = indented(body.as_str());
    let mut r = head;
    r.append(" {\n");
    r.append(bi.as_str());
    r.append("}\n");
    r
}

#[verifier::spinoff_prover]
fn function_frame_exec<'a>(
    inner: &crate::anchored::Stack<'a>,
    node: &Anchored<'a, &'a crate::ast::FunctionDecl>,
    ps: String,
    rs: String,
    nested: String,
) -> (r: String)
    ensures
        r@ == function_frame(inner.frames().len(), node.spec_names(), ps@, rs@, nested@),
{
    let name = node.name();
    let v = RustFn::variant(node);
    let method = node.method();
    let qm = quoted(method.as_str());
    let slot = inner.Slottable();
    let pp = inner.Params();
    let rr = inner.Results();
    let proto = inner.protocol();
    let mut r = String::from_str("pub use ");
    r.append(name);
    r.append("::method as ");
    r.append(name);
    r.append(";\n");
    let mut m = String::from_str("pub fn method() -> ");
    m.append(slot.as_str());
    m.append("<Params, Results>");
    let mut mb = slot.clone();
    mb.append(" { phantom: std::marker::PhantomData }\n");
    let mut t = with_body(m, mb);
    t.append(ps.as_str());
    t.append(rs.as_str());
    t.append("\n");
    let mut up = String::from_str("fn upcast_params(self) -> ");
    up.append(pp.as_str());
    let mut upb = pp.clone();
    upb.append("::");
    upb.append(v.as_str());
    upb.append("(self)\n");
    let mut c = with_body(up, upb);
    let mut dr = String::from_str("fn downcast_results(results: ");
    dr.append(rr.as_str());
    dr.append(") -> Option<Results>");
    let drb = two_arms("match results", &rr, &v, "r");
    let drt = with_body(dr, drb);
    c.append(drt.as_str());
    let mut ch = String::from_str("impl ");
    ch.append(proto.as_str());
    ch.append("::Callable<Results> for Params");
    let ct = with_body(ch, c);
    t.append(ct.as_str());
    t.append("\n");
    let mut mh = String::from_str("fn method() -> &'static str");
    let mut mhb = qm;
    mhb.append("\n");
    let mut i = with_body(mh, mhb);
    let mut ur = String::from_str("fn upcast_results(self) -> ");
    ur.append(rr.as_str());
    let mut urb = rr.clone();
    urb.append("::");
    urb.append(v.as_str());
    urb.append("(self)\n");
    let urt = with_body(ur, urb);
    i.append(urt.as_str());
    let mut dp = String::from_str("fn downcast_params(params: ");
    dp.append(pp.as_str());
    dp.append(") -> Option<Params>");
    let dpb = two_arms("match params", &pp, &v, "p");
    let dpt = with_body(dp, dpb);
    i.append(dpt.as_str());
    let mut ih = String::from_str("impl ");
    ih.append(proto.as_str());
    ih.append("::Implementable<Params> for Results");
    let it = with_body(ih, i);
    t.append(it.as_str());
    t.append(nested.as_str());
    let mut mh2 = String::from_str("pub mod ");
    mh2.append(name);
    let mt = with_body(mh2, t);
    r.append(mt.as_str());
    assert(node.spec_names().last() == name@);
    assert(v@ == variant_name(node.spec_names()));
    assert(qm@ == debug_text(crate::output::join(node.spec_names(), "."@)));
    assert(proto@ == protocol_path(inner.frames().len()));
    assert(slot@ == protocol_path(inner.frames().len()) + "::Slottable"@);
    assert(pp@ == protocol_path(inner.frames().len()) + "::Params"@);
    assert(rr@ == protocol_path(inner.frames().len()) + "::Results"@);
    reveal(function_frame);
    assert(r@ =~= function_frame(inner.frames().len(), node.spec_names(), ps@, rs@, nested@));
    r
}

fn function_text<'a>(stack: &crate::anchored::Stack<'a>, f: &'a crate::ast::FunctionDecl) -> (r: Result<String, UnknownType>)
    ensures
        result_view(r) == spec_function_symbol(stack.frames(), f),
    decreases f, 1int,
{
    let inner = stack.push(FrameKind::Function(f));
    let node = stack.anchor(f);
    let pv = struct_variant(&inner, "Params");
    let ps = match struct_text_of("Params", &f.params, &inner, pv) {
        Err(e) => {
            proof {
                reveal_strlit("Params");
            }
            return Err(e);
        },
        Ok(t) => t,
    };
    let rv = struct_variant(&inner, "Results");
    let rs = match struct_text_of("Results", &f.results, &inner, rv) {
        Err(e) => {
            proof {
                reveal_strlit("Params");
                reveal_strlit("Results");
            }
            return Err(e);
        },
        Ok(t) => t,
    };
    proof {
        reveal_strlit("Params");
        reveal_strlit("Results");
    }
    let nested = match &f.body {
        Some(b) => {
            let ns = match funs_text(&inner, &b.functions) {
                Err(e) => {
                    return Err(e);
                },
                Ok(t) => t,
            };
            let mut n = String::from_str("\n");
            n.append(ns.as_str());
            n
        },
        None => String::new(),
    };
    let r = function_frame_exec(&inner, &node, ps, rs, nested);
    Ok(r)
}

fn funs_text<'a>(stack: &crate::anchored::Stack<'a>, v: &'a Vec<crate::ast::FunctionDecl>) -> (r: Result<String, UnknownType>)
    ensures
        result_view(r) == funs_symbol(stack.frames(), v, v.len() as int),
    decreases v, 2int,
{
    let ghost fr = stack.frames();
    let mut r = String::new();
    let n = v.len();
    for i in 0..n
        invariant
            n == v.len(),
            fr == stack.frames(),
            funs_symbol(fr, v, i as int) == Ok::<Seq<char>, SpecUnknownType>(r@),
    {
        let t = match function_text(stack, &v[i]) {
            Err(e) => {
                proof {
                    assert(funs_symbol(fr, v, i + 1) == Err::<Seq<char>, SpecUnknownType>(e@));
                    lemma_funs_symbol_err(fr, v, i + 1, n as int);
                }
                return Err(e);
            },
            Ok(t) => t,
        };
        assert(funs_symbol(fr, v, i + 1) == Ok::<Seq<char>, SpecUnknownType>(r@ + t@));
        r.append(t.as_str());
    }
    Ok(r)
}

/// The module written for a function: its `method`, its `Params` and
/// `Results` structs with their impls, and the functions of its body.
pub fn function_symbol_text<'a>(node: &Anchored<'a, &'a crate::ast::FunctionDecl>) -> (r: Result<String, UnknownType>)
    ensures
        result_view(r) == spec_function_symbol(node.stack.frames(), node.inner),
{
    function_text(&node.stack, node.inner)
}


/// The texts of the first `n` structs of `v`, declared in the scopes
/// `frames`, in order.
pub open spec fn structs_symbol<'a>(frames: Seq<FrameKind<'a>>, v: &'a Vec<StructDecl>, n: int) -> Result<Seq<char>, SpecUnknownType>
    decreases n,
{
    if n <= 0 || n > v.len() {
        Ok(Seq::empty())
    } else {
        match structs_symbol(frames, v, n - 1) {
            Err(e) => Err(e),
            Ok(a) => match spec_struct_symbol(
                v[n - 1]@,
                frames,
                variant_name(crate::anchored::frame_names(frames).push(v[n - 1].name.text@)),
            ) {
                Err(e) => Err(e),
                Ok(b) => Ok(a + b),
            },
        }
    }
}

/// The texts of the first `n` enums of `v`, declared in the scopes
/// `frames`, in order.
pub open spec fn enums_symbol<'a>(frames: Seq<FrameKind<'a>>, v: &'a Vec<crate::ast::EnumDecl>, n: int) -> Seq<char>
    decreases n,
{
    if n <= 0 || n > v.len() {
        Seq::empty()
    } else {
        enums_symbol(frames, v, n - 1) + spec_enum_symbol(v[n - 1]@, frames)
    }
}

/// The symbols of a namespace body seen from `frames`: its structs, its
/// enums, its functions, then a module for each of its namespaces.
pub open spec fn spec_symbols<'a>(frames: Seq<FrameKind<'a>>, body: &'a crate::ast::NamespaceBody) -> Result<Seq<char>, SpecUnknownType>
    decreases body, 2int,
{
    match structs_symbol(frames, &body.structs, body.structs.len() as int) {
        Err(e) => Err(e),
        Ok(st) => match funs_symbol(frames, &body.functions, body.functions.len() as int) {
            Err(e) => Err(e),
            Ok(fs) => match nss_symbol(frames, &body.namespaces, body.namespaces.len() as int) {
                Err(e) => Err(e),
                Ok(ns) => Ok(st + enums_symbol(frames, &body.enums, body.enums.len() as int) + fs + ns),
            },
        },
    }
}

/// The modules of the first `n` namespaces of `v`, in order.
pub open spec fn nss_symbol<'a>(frames: Seq<FrameKind<'a>>, v: &'a Vec<crate::ast::NamespaceDecl>, n: int) -> Result<Seq<char>, SpecUnknownType>
    decreases v, n,
{
    if n <= 0 || n > v.len() {
        Ok(Seq::empty())
    } else {
        match nss_symbol(frames, v, n - 1) {
            Err(e) => Err(e),
            Ok(a) => match spec_symbols(frames.push(FrameKind::Namespace(&v[n - 1])), &v[n - 1].body) {
                Err(e) => Err(e),
                Ok(b) => Ok(a + blk("pub mod "@ + v[n - 1].name.text@, b)),
            },
        }
    }
}

proof fn lemma_structs_symbol_err<'a>(frames: Seq<FrameKind<'a>>, v: &'a Vec<StructDecl>, k: int, m: int)
    requires
        0 <= k <= m <= v.len(),
        structs_symbol(frames, v, k) is Err,
    ensures
        structs_symbol(frames, v, m) == structs_symbol(frames, v, k),
    decreases m - k,
{
    if m > k {
        lemma_structs_symbol_err(frames, v, k, m - 1);
    }
}

proof fn lemma_nss_symbol_err<'a>(frames: Seq<FrameKind<'a>>, v: &'a Vec<crate::ast::NamespaceDecl>, k: int, m: int)
    requires
        0 <= k <= m <= v.len(),
        nss_symbol(frames, v, k) is Err,
    ensures
        nss_symbol(frames, v, m) == nss_symbol(frames, v, k),
    decreases m - k,
{
    if m > k {
        lemma_nss_symbol_err(frames, v, k, m - 1);
    }
}

fn structs_text<'a>(stack: &crate::anchored::Stack<'a>, v: &'a Vec<StructDecl>) -> (r: Result<String, UnknownType>)
    ensures
        result_view(r) == structs_symbol(stack.frames(), v, v.len() as int),
{
    let ghost fr = stack.frames();
    let mut r = String::new();
    let n = v.len();
    for i in 0..n
        invariant
            n == v.len(),
            fr == stack.frames(),
            structs_symbol(fr, v, i as int) == Ok::<Seq<char>, SpecUnknownType>(r@),
    {
        let node = stack.anchor(&v[i]);
        let t = match struct_symbol_text(&node) {
            Err(e) => {
                proof {
                    assert(structs_symbol(fr, v, i + 1) == Err::<Seq<char>, SpecUnknownType>(e@));
                    lemma_structs_symbol_err(fr, v, i + 1, n as int);
                }
                return Err(e);
            },
            Ok(t) => t,
        };
        assert(structs_symbol(fr, v, i + 1) == Ok::<Seq<char>, SpecUnknownType>(r@ + t@));
        r.append(t.as_str());
    }
    Ok(r)
}

fn enums_text<'a>(stack: &crate::anchored::Stack<'a>, v: &'a Vec<crate::ast::EnumDecl>) -> (r: String)
    ensures
        r@ == enums_symbol(stack.frames(), v, v.len() as int),
{
    let ghost fr = stack.frames();
    let mut r = String::new();
    let n = v.len();
    for i in 0..n
        invariant
            n == v.len(),
            fr == stack.frames(),
            enums_symbol(fr, v, i as int) == r@,
    {
        let node = stack.anchor(&v[i]);
        let t = enum_symbol_text(&node);
        r.append(t.as_str());
    }
    r
}

fn symbols_body_text<'a>(stack: &crate::anchored::Stack<'a>, body: &'a crate::ast::NamespaceBody) -> (r: Result<String, UnknownType>)
    ensures
        result_view(r) == spec_symbols(stack.frames(), body),
    decreases body, 3int,
{
    let st = match structs_text(stack, &body.structs) {
        Err(e) => {
            return Err(e);
        },
        Ok(t) => t,
    };
    let fs = match funs_text(stack, &body.functions) {
        Err(e) => {
            return Err(e);
        },
        Ok(t) => t,
    };
    let ns = match nss_text(stack, &body.namespaces) {
        Err(e) => {
            return Err(e);
        },
        Ok(t) => t,
    };
    let en = enums_text(stack, &body.enums);
    let mut r = st;
    r.append(en.as_str());
    r.append(fs.as_str());
    r.append(ns.as_str());
    Ok(r)
}

fn nss_text<'a>(stack: &crate::anchored::Stack<'a>, v: &'a Vec<crate::ast::NamespaceDecl>) -> (r: Result<String, UnknownType>)
    ensures
        result_view(r) == nss_symbol(stack.frames(), v, v.len() as int),
    decreases v, 2int,
{
    let ghost fr = stack.frames();
    let mut r = String::new();
    let n = v.len();
    for i in 0..n
        invariant
            n == v.len(),
            fr == stack.frames(),
            nss_symbol(fr, v, i as int) == Ok::<Seq<char>, SpecUnknownType>(r@),
    {
        let ns = &v[i];
        let inner = stack.push(FrameKind::Namespace(ns));
        let t = match symbols_body_text(&inner, &ns.body) {
            Err(e) => {
                proof {
                    assert(nss_symbol(fr, v, i + 1) == Err::<Seq<char>, SpecUnknownType>(e@));
                    lemma_nss_symbol_err(fr, v, i + 1, n as int);
                }
                return Err(e);
            },
            Ok(t) => t,
        };
        let head = String::from_str("pub mod ");
        let head = cat(head, ns.name.text.as_str());
        let m = with_body(head, t);
        assert(nss_symbol(fr, v, i + 1) == Ok::<Seq<char>, SpecUnknownType>(r@ + m@));
        r.append(m.as_str());
    }
    Ok(r)
}

/// The symbols of a namespace body: its structs and enums with their
/// `Factual` impls, a module for each function, and a module for each
/// namespace; the first unknown field type is the error.
pub fn symbols_text<'a>(body: &Anchored<'a, &'a crate::ast::NamespaceBody>) -> (r: Result<String, UnknownType>)
    ensures
        result_view(r) == spec_symbols(body.stack.frames(), body.inner),
{
    symbols_body_text(&body.stack, body.inner)
}

} // verus!
