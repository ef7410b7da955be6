//! The client type of one side of a schema: it holds a caller and calls
//! through it.
use crate::anchored::Anchored;
use crate::ast::{NamespaceBody, Side};
use crate::common::{lavish_path, Structs};
use crate::lang::{_fn, block_text, fn_text, with_block};
use crate::naming::{protocol_path, RustStack};
use vstd::prelude::*;

verus! {

/// The client of one side, for the functions of a body.
pub struct Client<'a> {
    pub side: Side,
    pub body: Anchored<'a, &'a NamespaceBody>,
}

/// The text of a client: the struct that holds the caller, and an impl
/// with `new` and `call`.
pub open spec fn client_text(depth: nat) -> Seq<char> {
    let caller = protocol_path(depth) + "::Caller"@;
    let callable = protocol_path(depth) + "::Callable"@;
    "#[derive(Clone)]\n"@ + "pub struct Client"@ + block_text("caller: "@ + caller + ",\n"@)
        + "\n"@ + "impl Client"@ + block_text(
        fn_text(
            true,
            false,
            "new"@,
            Seq::empty(),
            None,
            seq!["caller: "@ + caller],
            Some("Self"@),
            Some("Self { caller }\n"@),
        ) + fn_text(
            true,
            false,
            "call"@,
            seq![("P"@, Some(callable + "<R>"@)), ("R"@, None)],
            Some("&self"@),
            seq!["p: P"@],
            Some("Result<R, "@ + lavish_path() + "::Error"@ + ">"@),
            Some(
                "self.caller.call(\n"@ + "    p.upcast_params(),\n"@ + "    P::downcast_results,\n"@
                    + ")\n"@,
            ),
        ),
    )
}

fn joined(a: &str, b: &str) -> (r: String)
    ensures
        r@ == a@ + b@,
{
    let mut r = String::from_str(a);
    r.append(b);
    r
}

impl<'a> Client<'a> {
    /// The client as source text.
    pub fn to_string(&self) -> (r: String)
        ensures
            r@ == client_text(self.body.stack.frames().len()),
    {
        let stack = &self.body.stack;
        let caller = stack.Caller();
        let callable = stack.Callable();

        let field = {
            let mut f = joined("caller: ", caller.as_str());
            f.append(",\n");
            f
        };
        let mut out = String::from_str("#[derive(Clone)]\n");
        let st = with_block("pub struct Client", field.as_str());
        out.append(st.as_str());
        out.append("\n");

        let caller_param = joined("caller: ", caller.as_str());
        let new_fn = _fn("new").kw_pub().param(caller_param.as_str()).return_type("Self").body(
            "Self { caller }\n",
        );
        let bound = joined(callable.as_str(), "<R>");
        let err = Structs::Error();
        let ret = {
            let mut r = joined("Result<R, ", err.as_str());
            r.append(">");
            r
        };
        let mut call_body = String::from_str("self.caller.call(\n");
        call_body.append("    p.upcast_params(),\n");
        call_body.append("    P::downcast_results,\n");
        call_body.append(")\n");
        let call_fn = _fn("call").kw_pub().type_param("P", Some(bound.as_str())).type_param(
            "R",
            None,
        ).self_param("&self").param("p: P").return_type(ret.as_str()).body(call_body.as_str());
        let mut methods = new_fn.to_string();
        let ct = call_fn.to_string();
        methods.append(ct.as_str());
        let it = with_block("impl Client", methods.as_str());
        out.append(it.as_str());
        proof {
            assert(new_fn.spec_params() =~= seq!["caller: "@ + (crate::naming::protocol_path(
                stack.frames().len(),
            ) + "::Caller"@)]);
            assert(call_fn.spec_params() =~= seq!["p: P"@]);
            assert(ret@ =~= "Result<R, "@ + lavish_path() + "::Error"@ + ">"@);
            assert(call_fn.spec_type_params() =~= seq![
                ("P"@, Some(protocol_path(stack.frames().len()) + "::Callable"@ + "<R>"@)),
                ("R"@, None),
            ]);
        }
        assert(out@ =~= client_text(self.body.stack.frames().len()));
        out
    }
}

} // verus!
