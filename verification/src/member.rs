//! The generated module of a workspace member: the protocol, the
//! runtime glue (enums, client, atoms, handler, peer builder) and the
//! schema module, all inside a private module `__` re-exported at the top.
use crate::ast::{Kind, NamespaceBody, SpecNamespaceBody};
use crate::ir::{
    kind_word, of_kind, protocol_text, qualified_of, rpc_name_of, variant_of, Fun, FunStructKind,
    Protocol,
};
use crate::lang::{debug_text, indented, quoted};
use crate::module::{all_funs, body_funs, body_text, ind, ns_body_text};
use vstd::prelude::*;

verus! {

/// The path of a function's `Params` or `Results` struct.
pub open spec fn qtype<'a>(f: &'a Fun<'a>, k: FunStructKind) -> Seq<char> {
    qualified_of(f.spec_tokens()) + "::"@ + kind_word(k)
}

pub open spec fn no_params<'a>(f: &'a Fun<'a>) -> bool {
    f.spec_decl().params@.len() == 0
}

pub open spec fn no_results<'a>(f: &'a Fun<'a>) -> bool {
    f.spec_decl().results@.len() == 0
}

/// What is written once for each function of a list.
#[derive(Debug, Clone, Copy, PartialEq, Eq, Structural)]
pub enum Piece {
    /// A variant of a protocol enum that holds the function's struct.
    EnumLine,
    /// The client method that calls the function.
    ClientMethod,
    /// A match arm that gives the function's method name.
    MethodArm,
    /// A match arm that deserializes the function's struct.
    DeserArm,
    /// The handler field that holds the function's slot.
    Slot,
    /// The initial, empty value of that field.
    NoneInit,
    /// The handler method that fills the slot.
    OnMethod,
    /// A match arm that finds the slot for a request.
    HandleArm,
}

pub open spec fn client_call_arg<'a>(f: &'a Fun<'a>) -> Seq<char> {
    let v = variant_of(f.spec_tokens());
    if no_params(f) {
        "Params::"@ + v + "("@ + qtype(f, FunStructKind::Params) + " {}"@ + "),\n"@
    } else {
        "Params::"@ + v + "(p),\n"@
    }
}

pub open spec fn map_ok_line<'a>(f: &'a Fun<'a>) -> Seq<char> {
    let v = variant_of(f.spec_tokens());
    if no_results(f) {
        "}).map_ok(|_| "@ + "Results::"@ + v + "("@ + qtype(f, FunStructKind::Results) + " {}"@
            + "))\n"@
    } else {
        "}).map_ok("@ + "Results::"@ + v + ")\n"@
    }
}

pub open spec fn short_results<'a>(f: &'a Fun<'a>) -> Seq<char> {
    if no_results(f) {
        "()"@
    } else {
        qtype(f, FunStructKind::Results)
    }
}

/// The text of one piece for the function `f`; `side` and `strukt` name
/// the enum and the struct kind where a piece needs them.
pub open spec fn piece_text<'a>(p: Piece, f: &'a Fun<'a>, side: Seq<char>, strukt: Seq<char>) -> Seq<char> {
    let t = f.spec_tokens();
    let v = variant_of(t);
    match p {
        Piece::EnumLine => v + "("@ + qualified_of(t) + "::"@ + strukt + "),\n"@,
        Piece::ClientMethod => "pub async fn "@ + v + "(&self"@ + (if no_params(f) {
            Seq::empty()
        } else {
            ", p: "@ + qtype(f, FunStructKind::Params)
        }) + ") -> Result<"@ + qtype(f, FunStructKind::Results) + ", lavish_rpc::Error> {\n"@
            + ind(
            "self.root.call(\n"@ + ind(
                client_call_arg(f) + qtype(f, FunStructKind::Results) + "::downgrade,\n"@,
            ) + ").await\n"@,
        ) + "}\n"@ + "\n"@,
        Piece::MethodArm => side + "::"@ + v + "(_) => "@ + debug_text(rpc_name_of(t)) + ",\n"@,
        Piece::DeserArm => debug_text(rpc_name_of(t)) + " =>\n"@ + ind(
            "Ok("@ + side + "::"@ + v + "(deser::<"@ + qualified_of(t) + "::"@ + strukt
                + ">(de)?)),\n"@,
        ),
        Piece::Slot => v + ": Slot<T>,\n"@,
        Piece::NoneInit => v + ": None,\n"@,
        Piece::OnMethod => "\n"@ + "pub fn on_"@ + v + "<F, FT> (&mut self, f: F)\n"@ + "where\n"@
            + ind(
            "F: Fn(Call<T, "@ + qtype(f, FunStructKind::Params)
                + ">) -> FT + Sync + Send + 'static,\n"@ + "FT: Future<Output = Result<"@
                + short_results(f) + ", lavish_rpc::Error>> + Send + 'static,\n"@,
        ) + "{\n"@ + ind(
            "self."@ + v + " = Some(Box::new(move |state, client, params| {\n"@ + ind(
                "Box::pin(\n"@ + ind(
                    "f(Call {\n"@ + ind(
                        "state, client,\n"@ + "params: "@ + qtype(f, FunStructKind::Params)
                            + "::downgrade(params).unwrap(),\n"@,
                    ) + map_ok_line(f),
                ) + ")\n"@,
            ) + "}));\n"@,
        ) + "}\n"@,
        Piece::HandleArm => "Params::"@ + v + "(_) => self."@ + v + ".as_ref(),\n"@,
    }
}

/// One piece per function, in order.
pub open spec fn pieces_text<'a>(p: Piece, fs: Seq<&'a Fun<'a>>, side: Seq<char>, strukt: Seq<char>) -> Seq<char>
    decreases fs.len(),
{
    if fs.len() == 0 {
        Seq::empty()
    } else {
        pieces_text(p, fs.drop_last(), side, strukt) + piece_text(p, fs.last(), side, strukt)
    }
}

fn cat(a: String, b: &str) -> (r: String)
    ensures
        r@ == a@ + b@,
{
    let mut r = a;
    r.append(b);
    r
}

fn piece_exec<'a>(p: Piece, f: &'a Fun<'a>, side: &str, strukt: &str) -> (r: String)
    ensures
        r@ == piece_text(p, f, side@, strukt@),
{
    let v = f.variant();
    let v = v.as_str();
    match p {
        Piece::EnumLine => {
            let q = f.qualified_name();
            let mut r = String::from_str(v);
            r.append("(");
            r.append(q.as_str());
            r.append("::");
            r.append(strukt);
            r.append("),\n");
            r
        },
        Piece::ClientMethod => {
            let params = f.params();
            let results = f.results();
            let pq = params.qualified_type();
            let rq = results.qualified_type();
            let mut arg = String::from_str("Params::");
            arg.append(v);
            if params.is_empty() {
                arg.append("(");
                arg.append(pq.as_str());
                arg.append(" {}");
                arg.append("),\n");
            } else {
                arg.append("(p),\n");
            }
            assert(arg@ =~= client_call_arg(f));
            let mut call_args = arg;
            call_args.append(rq.as_str());
            call_args.append("::downgrade,\n");
            let mut call = String::from_str("self.root.call(\n");
            let ca = indented(call_args.as_str());
            call.append(ca.as_str());
            call.append(").await\n");
            let mut r = String::from_str("pub async fn ");
            r.append(v);
            r.append("(&self");
            if !params.is_empty() {
                r.append(", p: ");
                r.append(pq.as_str());
            }
            r.append(") -> Result<");
            r.append(rq.as_str());
            r.append(", lavish_rpc::Error> {\n");
            let ci = indented(call.as_str());
            r.append(ci.as_str());
            r.append("}\n");
            r.append("\n");
            assert(r@ =~= piece_text(p, f, side@, strukt@));
            r
        },
        Piece::MethodArm => {
            let rn = f.rpc_name();
            let q = quoted(rn.as_str());
            let mut r = String::from_str(side);
            r.append("::");
            r.append(v);
            r.append("(_) => ");
            r.append(q.as_str());
            r.append(",\n");
            r
        },
        Piece::DeserArm => {
            let rn = f.rpc_name();
            let q = quoted(rn.as_str());
            let qn = f.qualified_name();
            let mut line = String::from_str("Ok(");
            line.append(side);
            line.append("::");
            line.append(v);
            line.append("(deser::<");
            line.append(qn.as_str());
            line.append("::");
            line.append(strukt);
            line.append(">(de)?)),\n");
            let mut r = q;
            r.append(" =>\n");
            let li = indented(line.as_str());
            r.append(li.as_str());
            r
        },
        Piece::Slot => cat(String::from_str(v), ": Slot<T>,\n"),
        Piece::NoneInit => cat(String::from_str(v), ": None,\n"),
        Piece::OnMethod => {
            let params = f.params();
            let results = f.results();
            let pq = params.qualified_type();
            let rq = results.qualified_type();
            let rs = results.short_type();
            let mut bounds = String::from_str("F: Fn(Call<T, ");
            bounds.append(pq.as_str());
            bounds.append(">) -> FT + Sync + Send + 'static,\n");
            bounds.append("FT: Future<Output = Result<");
            bounds.append(rs.as_str());
            bounds.append(", lavish_rpc::Error>> + Send + 'static,\n");
            let mut fields = String::from_str("state, client,\n");
            fields.append("params: ");
            fields.append(pq.as_str());
            fields.append("::downgrade(params).unwrap(),\n");
            let mut mapl = String::new();
            if results.is_empty() {
                mapl.append("}).map_ok(|_| ");
                mapl.append("Results::");
                mapl.append(v);
                mapl.append("(");
                mapl.append(rq.as_str());
                mapl.append(" {}");
                mapl.append("))\n");
            } else {
                mapl.append("}).map_ok(");
                mapl.append("Results::");
                mapl.append(v);
                mapl.append(")\n");
            }
            assert(mapl@ =~= map_ok_line(f));
            let mut call = String::from_str("f(Call {\n");
            let fi = indented(fields.as_str());
            call.append(fi.as_str());
            call.append(mapl.as_str());
            let mut pin = String::from_str("Box::pin(\n");
            let ci = indented(call.as_str());
            pin.append(ci.as_str());
            pin.append(")\n");
            let mut set = String::from_str("self.");
            set.append(v);
            set.append(" = Some(Box::new(move |state, client, params| {\n");
            let pi = indented(pin.as_str());
            set.append(pi.as_str());
            set.append("}));\n");
            let mut r = String::from_str("\n");
            r.append("pub fn on_");
            r.append(v);
            r.append("<F, FT> (&mut self, f: F)\n");
            r.append("where\n");
            let bi = indented(bounds.as_str());
            r.append(bi.as_str());
            r.append("{\n");
            let si = indented(set.as_str());
            r.append(si.as_str());
            r.append("}\n");
            assert(r@ =~= piece_text(p, f, side@, strukt@));
            r
        },
        Piece::HandleArm => {
            let mut r = String::from_str("Params::");
            r.append(v);
            r.append("(_) => self.");
            r.append(v);
            r.append(".as_ref(),\n");
            r
        },
    }
}

fn pieces_exec<'a>(p: Piece, fs: &Vec<&'a Fun<'a>>, side: &str, strukt: &str) -> (r: String)
    ensures
        r@ == pieces_text(p, fs@, side@, strukt@),
{
    let mut r = String::new();
    let n = fs.len();
    for i in 0..n
        invariant
            n == fs@.len(),
            r@ == pieces_text(p, fs@.subrange(0, i as int), side@, strukt@),
    {
        assert(fs@.subrange(0, i + 1).drop_last() =~= fs@.subrange(0, i as int));
        let t = piece_exec(p, fs[i], side, strukt);
        r.append(t.as_str());
    }
    assert(fs@.subrange(0, n as int) =~= fs@);
    r
}

/// One `impl rpc::Atom` for a protocol enum: the method name of each
/// variant, and how each is deserialized from its method name.
pub open spec fn atom_text<'a>(side: Seq<char>, strukt: Seq<char>, fs: Seq<&'a Fun<'a>>) -> Seq<char> {
    "\n"@ + "impl rpc::Atom for "@ + (side) + " {\n"@ + ind("fn method(&self) -> &'static str {\n"@ + ind("match self {\n"@ + ind((pieces_text(Piece::MethodArm, fs, side, strukt)) + ((if fs.len() == 0 { "_ => unimplemented!()\n"@ } else { ""@ }))) + "}\n"@) + "}\n"@ + "\n"@ + "fn deserialize(\n"@ + ind("method: &str,\n"@ + "de: &mut erased_serde::Deserializer,\n"@) + ") -> erased_serde::Result<Self> {\n"@ + ind("use erased_serde::deserialize as deser;\n"@ + "use serde::de::Error;\n"@ + "\n"@ + "match method {\n"@ + ind((pieces_text(Piece::DeserArm, fs, side, strukt)) + "_ => Err(erased_serde::Error::custom(format!(\n"@ + ind((debug_text("unknown method: {}"@)) + ",\n"@ + "method,\n"@) + "))),\n"@) + "}\n"@) + "}\n"@) + "}\n"@
}

fn atom_exec<'a>(side: &str, strukt: &str, fs: &Vec<&'a Fun<'a>>) -> (r: String)
    ensures
        r@ == atom_text(side@, strukt@, fs@),
{
    let marms = pieces_exec(Piece::MethodArm, fs, side, strukt);
    let unimpl = if fs.len() == 0 {
        "_ => unimplemented!()\n"
    } else {
        ""
    };
    let darms = pieces_exec(Piece::DeserArm, fs, side, strukt);
    let qum = quoted("unknown method: {}");
    let mut r = String::new();
    r.append("\n");
    r.append("impl rpc::Atom for ");
    r.append(side);
    r.append(" {\n");
    let mut t1 = String::new();
    t1.append("fn method(&self) -> &'static str {\n");
    let mut t2 = String::new();
    t2.append("match self {\n");
    let mut t3 = String::new();
    t3.append(marms.as_str());
    t3.append(unimpl);
    let t3i = indented(t3.as_str());
    t2.append(t3i.as_str());
    t2.append("}\n");
    let t2i = indented(t2.as_str());
    t1.append(t2i.as_str());
    t1.append("}\n");
    t1.append("\n");
    t1.append("fn deserialize(\n");
    let mut t4 = String::new();
    t4.append("method: &str,\n");
    t4.append("de: &mut erased_serde::Deserializer,\n");
    let t4i = indented(t4.as_str());
    t1.append(t4i.as_str());
    t1.append(") -> erased_serde::Result<Self> {\n");
    let mut t5 = String::new();
    t5.append("use erased_serde::deserialize as deser;\n");
    t5.append("use serde::de::Error;\n");
    t5.append("\n");
    t5.append("match method {\n");
    let mut t6 = String::new();
    t6.append(darms.as_str());
    t6.append("_ => Err(erased_serde::Error::custom(format!(\n");
    let mut t7 = String::new();
    t7.append(qum.as_str());
    t7.append(",\n");
    t7.append("method,\n");
    let t7i = indented(t7.as_str());
    t6.append(t7i.as_str());
    t6.append("))),\n");
    let t6i = indented(t6.as_str());
    t5.append(t6i.as_str());
    t5.append("}\n");
    let t5i = indented(t5.as_str());
    t1.append(t5i.as_str());
    t1.append("}\n");
    let t1i = indented(t1.as_str());
    r.append(t1i.as_str());
    r.append("}\n");
    assert(r@ =~= atom_text(side@, strukt@, fs@));
    r
}

/// The functions of `fs` of one kind, in order.
pub fn funs_of_kind<'a>(fs: &Vec<&'a Fun<'a>>, kind: Kind) -> (r: Vec<&'a Fun<'a>>)
    ensures
        r@ == of_kind(fs@, kind),
{
    let mut r: Vec<&'a Fun<'a>> = Vec::new();
    let n = fs.len();
    for i in 0..n
        invariant
            n == fs@.len(),
            r@ == of_kind(fs@.subrange(0, i as int), kind),
    {
        let f = fs[i];
        assert(fs@.subrange(0, i + 1).drop_last() =~= fs@.subrange(0, i as int));
        if f.kind() == kind {
            r.push(f);
        }
        assert(r@ =~= of_kind(fs@.subrange(0, i + 1), kind));
    }
    assert(fs@.subrange(0, n as int) =~= fs@);
    r
}

/// What the private module `__` of a member module holds, for the
/// functions `fs` of the schema whose body is `body`.
pub open spec fn member_inner_text<'a>(fs: Seq<&'a Fun<'a>>, body: SpecNamespaceBody) -> Seq<char> {
    "// Notes: as of 2019-05-21, futures-preview is required\n"@ + "use futures::prelude::*;\n"@ + "use std::pin::Pin;\n"@ + "use std::sync::Arc;\n"@ + "\n"@ + "use lavish_rpc as rpc;\n"@ + "use rpc::{Atom, erased_serde, serde_derive::*};\n"@ + "\n"@ + "#[derive(Serialize, Debug)]\n"@ + "#[serde(untagged)]\n"@ + "#[allow(non_camel_case_types, unused)]\n"@ + "pub enum Params {\n"@ + ind((pieces_text(Piece::EnumLine, of_kind(fs, Kind::Request), ""@, "Params"@))) + "}\n"@ + "\n"@ + "#[derive(Serialize, Debug)]\n"@ + "#[serde(untagged)]\n"@ + "#[allow(non_camel_case_types, unused)]\n"@ + "pub enum Results {\n"@ + ind((pieces_text(Piece::EnumLine, of_kind(fs, Kind::Request), ""@, "Results"@))) + "}\n"@ + "\n"@ + "#[derive(Serialize, Debug)]\n"@ + "#[serde(untagged)]\n"@ + "#[allow(non_camel_case_types, unused)]\n"@ + "pub enum NotificationParams {\n"@ + ind((pieces_text(Piece::EnumLine, of_kind(fs, Kind::Notification), ""@, "Params"@))) + "}\n"@ + "\n"@ + "pub type Message = rpc::Message<Params, NotificationParams, Results>;\n"@ + "pub type RootClient = rpc::Client<Params, NotificationParams, Results>;\n"@ + "pub type Protocol = rpc::Protocol<Params, NotificationParams, Results>;\n"@ + "\n"@ + "pub fn protocol() -> Protocol {\n"@ + ind("Protocol::new()\n"@) + "}\n"@ + "\n"@ + "pub struct Client {\n"@ + ind("root: RootClient,\n"@) + "}\n"@ + "\n"@ + "impl Client {\n"@ + ind((pieces_text(Piece::ClientMethod, of_kind(fs, Kind::Request), ""@, ""@))) + "}\n"@ + (atom_text("Params"@, "Params"@, of_kind(fs, Kind::Request))) + (atom_text("Results"@, "Results"@, of_kind(fs, Kind::Request))) + (atom_text("NotificationParams"@, "Params"@, of_kind(fs, Kind::Notification))) + "\n"@ + "pub struct Call<T, PP> {\n"@ + ind("pub state: Arc<T>,\n"@ + "pub client: Client,\n"@ + "pub params: PP,\n"@) + "}\n"@ + "\n"@ + "pub type SlotFuture =\n"@ + ind("Future<Output = Result<Results, rpc::Error>> + Send + 'static;\n"@) + "\n"@ + "pub type SlotReturn = Pin<Box<SlotFuture>>;\n"@ + "\n"@ + "pub type SlotFn<T> =\n"@ + ind("Fn(Arc<T>, Client, Params) -> SlotReturn + 'static + Send + Sync;\n"@) + "\n"@ + "pub type Slot<T> = Option<Box<SlotFn<T>>>;\n"@ + "\n"@ + "pub struct Handler<T> {\n"@ + ind("state: Arc<T>,\n"@ + (pieces_text(Piece::Slot, of_kind(fs, Kind::Request), ""@, ""@))) + "}\n"@ + "\n"@ + "impl<T> Handler<T> {\n"@ + ind("pub fn new(state: Arc<T>) -> Self {\n"@ + ind("Self {\n"@ + ind("state,\n"@ + (pieces_text(Piece::NoneInit, of_kind(fs, Kind::Request), ""@, ""@))) + "}\n"@) + "}\n"@ + (pieces_text(Piece::OnMethod, of_kind(fs, Kind::Request), ""@, ""@)) + "\n"@) + "}\n"@ + "\n"@ + "type HandlerRet = Pin<Box<dyn Future<Output = Result<Results, rpc::Error>> + Send + 'static>>;\n"@ + "\n"@ + "impl<T> rpc::Handler<Params, NotificationParams, Results, HandlerRet> for Handler<T>\n"@ + "where\n"@ + ind("T: Send + Sync,\n"@) + "{\n"@ + ind("fn handle(&self, client: RootClient, params: Params) -> HandlerRet {\n"@ + ind("let method = params.method();\n"@ + "let slot = match params {\n"@ + ind((pieces_text(Piece::HandleArm, of_kind(fs, Kind::Request), ""@, ""@)) + "_ => None,\n"@) + "};\n"@ + "match slot {\n"@ + ind("Some(slot_fn) => {\n"@ + ind("let res = slot_fn(self.state.clone(), Client { root: client }, params);\n"@ + "Box::pin(async move { Ok(res.await?) })\n"@) + "}\n"@ + "None => Box::pin(async move { Err(rpc::Error::MethodUnimplemented(method)) }),\n"@) + "}\n"@) + "}\n"@) + "}\n"@ + "\n"@ + (body_text(body, Seq::empty(), 0)) + "\n"@ + "pub struct PeerBuilder<C>\n"@ + "where\n"@ + ind("C: lavish_rpc::Conn,\n"@) + "{\n"@ + ind("conn: C,\n"@ + "pool: futures::executor::ThreadPool,\n"@) + "}\n"@ + "\n"@ + "impl<C> PeerBuilder<C>\n"@ + "where\n"@ + ind("C: lavish_rpc::Conn,\n"@) + "{\n"@ + ind("pub fn new(conn: C, pool: futures::executor::ThreadPool) -> Self {\n"@ + ind("Self { conn, pool }\n"@) + "}\n"@ + "\n"@ + "pub fn with_noop_handler(self) -> Result<Client, lavish_rpc::Error> {\n"@ + ind("self.with_handler(|_| {})\n"@) + "}\n"@ + "\n"@ + "pub fn with_handler<S>(self, setup: S) -> Result<Client, lavish_rpc::Error>\n"@ + "where\n"@ + ind("S: Fn(&mut Handler<()>),\n"@) + "{\n"@ + ind("self.with_stateful_handler(std::sync::Arc::new(()), setup)\n"@) + "}\n"@ + "\n"@ + "pub fn with_stateful_handler<T, S>(self, state: Arc<T>, setup: S) -> Result<Client, lavish_rpc::Error>\n"@ + "where\n"@ + ind("S: Fn(&mut Handler<T>),\n"@ + "T: Sync + Send + 'static,\n"@) + "{\n"@ + ind("let mut handler = Handler::new(state);\n"@ + "setup(&mut handler);\n"@ + "let root = lavish_rpc::connect(protocol(), handler, self.conn, self.pool)?;\n"@ + "Ok(Client { root })\n"@) + "}\n"@) + "}\n"@ + "\n"@ + "pub fn peer<C>(conn: C, pool: futures::executor::ThreadPool) -> PeerBuilder<C>\n"@ + "where\n"@ + ind("C: lavish_rpc::Conn,\n"@) + "{\n"@ + ind("PeerBuilder::new(conn, pool)\n"@) + "}\n"@
}

fn member_inner_exec<'a>(fs: &Vec<&'a Fun<'a>>, body: &NamespaceBody) -> (r: String)
    ensures
        r@ == member_inner_text(fs@, body@),
{
    let req = funs_of_kind(fs, Kind::Request);
    let notif = funs_of_kind(fs, Kind::Notification);
    let enum_p = pieces_exec(Piece::EnumLine, &req, "", "Params");
    let enum_r = pieces_exec(Piece::EnumLine, &req, "", "Results");
    let enum_n = pieces_exec(Piece::EnumLine, &notif, "", "Params");
    let methods = pieces_exec(Piece::ClientMethod, &req, "", "");
    let atom_p = atom_exec("Params", "Params", &req);
    let atom_r = atom_exec("Results", "Results", &req);
    let atom_n = atom_exec("NotificationParams", "Params", &notif);
    let slots = pieces_exec(Piece::Slot, &req, "", "");
    let nones = pieces_exec(Piece::NoneInit, &req, "", "");
    let ons = pieces_exec(Piece::OnMethod, &req, "", "");
    let arms = pieces_exec(Piece::HandleArm, &req, "", "");
    let schema = ns_body_text(body, 0);
    let mut r = String::new();
    r.append("// Notes: as of 2019-05-21, futures-preview is required\n");
    r.append("use futures::prelude::*;\n");
    r.append("use std::pin::Pin;\n");
    r.append("use std::sync::Arc;\n");
    r.append("\n");
    r.append("use lavish_rpc as rpc;\n");
    r.append("use rpc::{Atom, erased_serde, serde_derive::*};\n");
    r.append("\n");
    r.append("#[derive(Serialize, Debug)]\n");
    r.append("#[serde(untagged)]\n");
    r.append("#[allow(non_camel_case_types, unused)]\n");
    r.append("pub enum Params {\n");
    let mut t8 = String::new();
    t8.append(enum_p.as_str());
    let t8i = indented(t8.as_str());
    r.append(t8i.as_str());
    r.append("}\n");
    r.append("\n");
    r.append("#[derive(Serialize, Debug)]\n");
    r.append("#[serde(untagged)]\n");
    r.append("#[allow(non_camel_case_types, unused)]\n");
    r.append("pub enum Results {\n");
    let mut t9 = String::new();
    t9.append(enum_r.as_str());
    let t9i = indented(t9.as_str());
    r.append(t9i.as_str());
    r.append("}\n");
    r.append("\n");
    r.append("#[derive(Serialize, Debug)]\n");
    r.append("#[serde(untagged)]\n");
    r.append("#[allow(non_camel_case_types, unused)]\n");
    r.append("pub enum NotificationParams {\n");
    let mut t10 = String::new();
    t10.append(enum_n.as_str());
    let t10i = indented(t10.as_str());
    r.append(t10i.as_str());
    r.append("}\n");
    r.append("\n");
    r.append("pub type Message = rpc::Message<Params, NotificationParams, Results>;\n");
    r.append("pub type RootClient = rpc::Client<Params, NotificationParams, Results>;\n");
    r.append("pub type Protocol = rpc::Protocol<Params, NotificationParams, Results>;\n");
    r.append("\n");
    r.append("pub fn protocol() -> Protocol {\n");
    let mut t11 = String::new();
    t11.append("Protocol::new()\n");
    let t11i = indented(t11.as_str());
    r.append(t11i.as_str());
    r.append("}\n");
    r.append("\n");
    r.append("pub struct Client {\n");
    let mut t12 = String::new();
    t12.append("root: RootClient,\n");
    let t12i = indented(t12.as_str());
    r.append(t12i.as_str());
    r.append("}\n");
    r.append("\n");
    r.append("impl Client {\n");
    let mut t13 = String::new();
    t13.append(methods.as_str());
    let t13i = indented(t13.as_str());
    r.append(t13i.as_str());
    r.append("}\n");
    r.append(atom_p.as_str());
    r.append(atom_r.as_str());
    r.append(atom_n.as_str());
    r.append("\n");
    r.append("pub struct Call<T, PP> {\n");
    let mut t14 = String::new();
    t14.append("pub state: Arc<T>,\n");
    t14.append("pub client: Client,\n");
    t14.append("pub params: PP,\n");
    let t14i = indented(t14.as_str());
    r.append(t14i.as_str());
    r.append("}\n");
    r.append("\n");
    r.append("pub type SlotFuture =\n");
    let mut t15 = String::new();
    t15.append("Future<Output = Result<Results, rpc::Error>> + Send + 'static;\n");
    let t15i = indented(t15.as_str());
    r.append(t15i.as_str());
    r.append("\n");
    r.append("pub type SlotReturn = Pin<Box<SlotFuture>>;\n");
    r.append("\n");
    r.append("pub type SlotFn<T> =\n");
    let mut t16 = String::new();
    t16.append("Fn(Arc<T>, Client, Params) -> SlotReturn + 'static + Send + Sync;\n");
    let t16i = indented(t16.as_str());
    r.append(t16i.as_str());
    r.append("\n");
    r.append("pub type Slot<T> = Option<Box<SlotFn<T>>>;\n");
    r.append("\n");
    r.append("pub struct Handler<T> {\n");
    let mut t17 = String::new();
    t17.append("state: Arc<T>,\n");
    t17.append(slots.as_str());
    let t17i = indented(t17.as_str());
    r.append(t17i.as_str());
    r.append("}\n");
    r.append("\n");
    r.append("impl<T> Handler<T> {\n");
    let mut t18 = String::new();
    t18.append("pub fn new(state: Arc<T>) -> Self {\n");
    let mut t19 = String::new();
    t19.append("Self {\n");
    let mut t20 = String::new();
    t20.append("state,\n");
    t20.append(nones.as_str());
    let t20i = indented(t20.as_str());
    t19.append(t20i.as_str());
    t19.append("}\n");
    let t19i = indented(t19.as_str());
    t18.append(t19i.as_str());
    t18.append("}\n");
    t18.append(ons.as_str());
    t18.append("\n");
    let t18i = indented(t18.as_str());
    r.append(t18i.as_str());
    r.append("}\n");
    r.append("\n");
    r.append("type HandlerRet = Pin<Box<dyn Future<Output = Result<Results, rpc::Error>> + Send + 'static>>;\n");
    r.append("\n");
    r.append("impl<T> rpc::Handler<Params, NotificationParams, Results, HandlerRet> for Handler<T>\n");
    r.append("where\n");
    let mut t21 = String::new();
    t21.append("T: Send + Sync,\n");
    let t21i = indented(t21.as_str());
    r.append(t21i.as_str());
    r.append("{\n");
    let mut t22 = String::new();
    t22.append("fn handle(&self, client: RootClient, params: Params) -> HandlerRet {\n");
    let mut t23 = String::new();
    t23.append("let method = params.method();\n");
    t23.append("let slot = match params {\n");
    let mut t24 = String::new();
    t24.append(arms.as_str());
    t24.append("_ => None,\n");
    let t24i = indented(t24.as_str());
    t23.append(t24i.as_str());
    t23.append("};\n");
    t23.append("match slot {\n");
    let mut t25 = String::new();
    t25.append("Some(slot_fn) => {\n");
    let mut t26 = String::new();
    t26.append("let res = slot_fn(self.state.clone(), Client { root: client }, params);\n");
    t26.append("Box::pin(async move { Ok(res.await?) })\n");
    let t26i = indented(t26.as_str());
    t25.append(t26i.as_str());
    t25.append("}\n");
    t25.append("None => Box::pin(async move { Err(rpc::Error::MethodUnimplemented(method)) }),\n");
    let t25i = indented(t25.as_str());
    t23.append(t25i.as_str());
    t23.append("}\n");
    let t23i = indented(t23.as_str());
    t22.append(t23i.as_str());
    t22.append("}\n");
    let t22i = indented(t22.as_str());
    r.append(t22i.as_str());
    r.append("}\n");
    r.append("\n");
    r.append(schema.as_str());
    r.append("\n");
    r.append("pub struct PeerBuilder<C>\n");
    r.append("where\n");
    let mut t27 = String::new();
    t27.append("C: lavish_rpc::Conn,\n");
    let t27i = indented(t27.as_str());
    r.append(t27i.as_str());
    r.append("{\n");
    let mut t28 = String::new();
    t28.append("conn: C,\n");
    t28.append("pool: futures::executor::ThreadPool,\n");
    let t28i = indented(t28.as_str());
    r.append(t28i.as_str());
    r.append("}\n");
    r.append("\n");
    r.append("impl<C> PeerBuilder<C>\n");
    r.append("where\n");
    let mut t29 = String::new();
    t29.append("C: lavish_rpc::Conn,\n");
    let t29i = indented(t29.as_str());
    r.append(t29i.as_str());
    r.append("{\n");
    let mut t30 = String::new();
    t30.append("pub fn new(conn: C, pool: futures::executor::ThreadPool) -> Self {\n");
    let mut t31 = String::new();
    t31.append("Self { conn, pool }\n");
    let t31i = indented(t31.as_str());
    t30.append(t31i.as_str());
    t30.append("}\n");
    t30.append("\n");
    t30.append("pub fn with_noop_handler(self) -> Result<Client, lavish_rpc::Error> {\n");
    let mut t32 = String::new();
    t32.append("self.with_handler(|_| {})\n");
    let t32i = indented(t32.as_str());
    t30.append(t32i.as_str());
    t30.append("}\n");
    t30.append("\n");
    t30.append("pub fn with_handler<S>(self, setup: S) -> Result<Client, lavish_rpc::Error>\n");
    t30.append("where\n");
    let mut t33 = String::new();
    t33.append("S: Fn(&mut Handler<()>),\n");
    let t33i = indented(t33.as_str());
    t30.append(t33i.as_str());
    t30.append("{\n");
    let mut t34 = String::new();
    t34.append("self.with_stateful_handler(std::sync::Arc::new(()), setup)\n");
    let t34i = indented(t34.as_str());
    t30.append(t34i.as_str());
    t30.append("}\n");
    t30.append("\n");
    t30.append("pub fn with_stateful_handler<T, S>(self, state: Arc<T>, setup: S) -> Result<Client, lavish_rpc::Error>\n");
    t30.append("where\n");
    let mut t35 = String::new();
    t35.append("S: Fn(&mut Handler<T>),\n");
    t35.append("T: Sync + Send + 'static,\n");
    let t35i = indented(t35.as_str());
    t30.append(t35i.as_str());
    t30.append("{\n");
    let mut t36 = String::new();
    t36.append("let mut handler = Handler::new(state);\n");
    t36.append("setup(&mut handler);\n");
    t36.append("let root = lavish_rpc::connect(protocol(), handler, self.conn, self.pool)?;\n");
    t36.append("Ok(Client { root })\n");
    let t36i = indented(t36.as_str());
    t30.append(t36i.as_str());
    t30.append("}\n");
    let t30i = indented(t30.as_str());
    r.append(t30i.as_str());
    r.append("}\n");
    r.append("\n");
    r.append("pub fn peer<C>(conn: C, pool: futures::executor::ThreadPool) -> PeerBuilder<C>\n");
    r.append("where\n");
    let mut t37 = String::new();
    t37.append("C: lavish_rpc::Conn,\n");
    let t37i = indented(t37.as_str());
    r.append(t37i.as_str());
    r.append("{\n");
    let mut t38 = String::new();
    t38.append("PeerBuilder::new(conn, pool)\n");
    let t38i = indented(t38.as_str());
    r.append(t38i.as_str());
    r.append("}\n");
    assert(r@ =~= member_inner_text(fs@, body@));
    r
}

/// The text of a member module: the prelude, the protocol module, then
/// everything else in a private module `__` whose items are re-exported.
#[verifier::opaque]
pub open spec fn member_text<'a>(fs: Seq<&'a Fun<'a>>, body: SpecNamespaceBody) -> Seq<char> {
    "// This file is generated by lavish: DO NOT EDIT\n"@ + "// https://github.com/fasterthanlime/lavish\n"@ + "\n"@ + "#![cfg_attr(rustfmt, rustfmt_skip)]\n"@ + "#![allow(clippy::all)]\n"@ + "#![allow(unknown_lints)]\n"@ + "#![allow(unused)]\n"@ + "\n"@ + "pub use __::*;\n"@ + "\n"@ + "\n"@ + "//============= FIXME: experimental (start)\n"@ + (protocol_text(0, fs)) + "\n"@ + "//============= FIXME: experimental (end)\n"@ + "\n"@ + "mod __ {\n"@ + ind((member_inner_text(fs, body))) + "}\n"@
}

/// The generated module of a member whose schema has the body `body` and
/// the functions `fs`, as `all_funs` lists them.
pub fn member_module_text<'a>(fs: &Vec<&'a Fun<'a>>, body: &NamespaceBody) -> (r: String)
    ensures
        r@ == member_text(fs@, body@),
{
    let p = Protocol { funs: fs.as_slice(), depth: 0 };
    let proto = p.to_string();
    let inner = member_inner_exec(fs, body);
    let mut r = String::new();
    r.append("// This file is generated by lavish: DO NOT EDIT\n");
    r.append("// https://github.com/fasterthanlime/lavish\n");
    r.append("\n");
    r.append("#![cfg_attr(rustfmt, rustfmt_skip)]\n");
    r.append("#![allow(clippy::all)]\n");
    r.append("#![allow(unknown_lints)]\n");
    r.append("#![allow(unused)]\n");
    r.append("\n");
    r.append("pub use __::*;\n");
    r.append("\n");
    r.append("\n");
    r.append("//============= FIXME: experimental (start)\n");
    r.append(proto.as_str());
    r.append("\n");
    r.append("//============= FIXME: experimental (end)\n");
    r.append("\n");
    r.append("mod __ {\n");
    let mut t39 = String::new();
    t39.append(inner.as_str());
    let t39i = indented(t39.as_str());
    r.append(t39i.as_str());
    r.append("}\n");
    reveal(member_text);
    assert(r@ =~= member_text(fs@, body@));
    r
}


/// The functions `r` are those of `s`, in order: same full names, same
/// declarations.
pub open spec fn refs_match<'a>(r: Seq<&'a Fun<'a>>, s: Seq<(Seq<char>, crate::ast::SpecFunctionDecl)>) -> bool {
    &&& r.len() == s.len()
    &&& forall|i: int|
        0 <= i < r.len() ==> #[trigger] r[i].spec_tokens() == crate::types::split_dots(s[i].0)
            && r[i].spec_decl()@ == s[i].1
}

/// `t` is the generated module of a member whose schema has the body
/// `body`: the member text for the schema's functions, in the order
/// `all_funs` lists them.
pub open spec fn member_file(t: Seq<char>, body: SpecNamespaceBody) -> bool {
    exists|fs: Seq<&Fun>| #[trigger] refs_match(fs, body_funs(body, Seq::empty())) && t == member_text(fs, body)
}

/// The generated module of a member whose schema has the body `body`.
pub fn member_file_text(body: &NamespaceBody) -> (r: String)
    ensures
        member_file(r@, body@),
{
    let funs = all_funs(body);
    let mut refs: Vec<&Fun> = Vec::new();
    let n = funs.len();
    for i in 0..n
        invariant
            n == funs@.len(),
            refs@.len() == i,
            forall|j: int| 0 <= j < i ==> *refs@[j] == funs@[j],
    {
        refs.push(&funs[i]);
    }
    let text = member_module_text(&refs, body);
    proof {
        let s = body_funs(body@, Seq::empty());
        assert forall|i: int| 0 <= i < refs@.len() implies #[trigger] refs@[i].spec_tokens()
            == crate::types::split_dots(s[i].0) && refs@[i].spec_decl()@ == s[i].1 by {
            assert(*refs@[i] == funs@[i]);
            assert(funs@[i].spec_tokens() == crate::types::split_dots(s[i].0));
        }
        lemma_member_file(refs@, body@, text@);
    }
    text
}

proof fn lemma_member_file<'a>(fs: Seq<&'a Fun<'a>>, body: SpecNamespaceBody, t: Seq<char>)
    requires
        refs_match(fs, body_funs(body, Seq::empty())),
        t == member_text(fs, body),
    ensures
        member_file(t, body),
{
}

} // verus!
