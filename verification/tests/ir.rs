use lavish::ast::{Kind, Side};
use lavish::ir::{Atom, Client, Fun, FunStructKind, Protocol, Stru};
use lavish::lang::{_fn, _impl, TypeParam};
use lavish::parser::parse_schema;

fn chars(s: &str) -> Vec<char> {
    s.chars().collect()
}

#[test]
fn function_declarations() {
    let f = _fn("method")
        .self_param("&self")
        .return_type("&'static str")
        .body("match self {\n    A => 1,\n}\n");
    assert_eq!(
        f.to_string(),
        "fn method(&self) -> &'static str {\n    match self {\n        A => 1,\n    }\n}\n"
    );
    let g = _fn("f").kw_pub().kw_async().type_param("T", Some("Clone")).param("x: T").param("y: u8");
    assert_eq!(g.to_string(), "pub async fn f<T>(x: T, y: u8)\nwhere\n    T: Clone,\n;\n");
}

#[test]
fn impl_blocks() {
    assert_eq!(_impl("Atom", "Params").to_string(), "impl Atom for Params {\n}\n");
    let i = _impl("Tr", "S")
        .type_param("T", Some("Clone"))
        .type_param("U", None)
        .body("fn f() {}\n");
    assert_eq!(i.to_string(), "impl<T, U> Tr for S<T: Clone, U> {\n    fn f() {}\n}\n");
    let more = vec![TypeParam { name: "V".to_string(), bound: Some("Copy".to_string()) }];
    let j = _impl("Tr", "S").type_params(&more);
    assert_eq!(j.to_string(), "impl<V> Tr for S<V: Copy> {\n}\n");
}

#[test]
fn functions_of_the_schema() {
    let schema = parse_schema(&chars(
        "namespace session {\n    server fn attemptLogin(user: string) -> (ok: bool)\n}\n",
    ))
    .unwrap();
    let decl = &schema.body.namespaces[0].body.functions[0];
    let f = Fun::new("session.", decl);
    assert_eq!(f.rpc_name(), "session.attemptLogin");
    assert_eq!(f.variant(), "session__attemptlogin");
    assert_eq!(f.qualified_name(), "session::attemptLogin");
    assert_eq!(f.mod_name(), "attempt_login");
    assert_eq!(f.name(), "attemptLogin");
    assert_eq!(f.side(), Side::Server);
    assert_eq!(f.kind(), Kind::Request);
    assert!(f.comment().is_none());

    let p = f.params();
    assert_eq!(p.kind, FunStructKind::Params);
    assert_eq!(p.kind(), "Params");
    assert_eq!(p.variant(), "Params::session__attemptlogin");
    assert_eq!(p.qualified_type(), "session::attemptLogin::Params");
    assert_eq!(p.short_type(), "session::attemptLogin::Params");
    assert!(!p.is_empty());
    assert_eq!(p.fields().len(), 1);
    assert_eq!(p.empty_literal(), "session::attemptLogin::Params {}");
    let r = f.results();
    assert_eq!(r.kind(), "Results");
    assert_eq!(r.qualified_type(), "session::attemptLogin::Results");
}

#[test]
fn empty_results_are_unit() {
    let schema = parse_schema(&chars("server fn ping()\n")).unwrap();
    let f = Fun::new("", &schema.body.functions[0]);
    assert_eq!(f.rpc_name(), "ping");
    assert_eq!(f.results().short_type(), "()");
    assert!(f.results().is_empty());
}

#[test]
fn structs_of_the_schema() {
    let schema = parse_schema(&chars("// A cookie\nstruct Cookie {\n    key: string,\n}\n")).unwrap();
    let s = Stru::new(&schema.body.structs[0], "Cookie".to_string());
    assert_eq!(s.name(), "Cookie");
    assert_eq!(s.fields().len(), 1);
    assert_eq!(s.comment().as_ref().unwrap().lines, vec!["A cookie".to_string()]);
}

const ATOM_PARAMS: &str = r#"#[derive(Debug, ::lavish::serde_derive::Serialize)]
#[allow(non_camel_case_types, unused)]
#[serde(untagged)]
pub enum Params {
    login(super::login::Params),
}
impl ::lavish::Atom for Params {
    fn method(&self) -> &'static str {
        match self {
            Params::login(_) => "login",
        }
    }
    fn deserialize(method: &str, de: &mut ::lavish::erased_serde::Deserializer) -> ::lavish::erased_serde::Result<Self> {
        use ::lavish::erased_serde::deserialize as __DS;
        use ::lavish::serde::de::Error;

        match method {
            "login" => 
                Ok(Params::login(__DS::<super::login::Params>(de)?)),
            _ =>
                Err(::lavish::erased_serde::Error::custom(format!("unknown method: {}", method))),
        }
    }
}
"#;

#[test]
fn atoms() {
    let schema = parse_schema(&chars("server fn login(user: string) -> (ok: bool)\n")).unwrap();
    let login = Fun::new("", &schema.body.functions[0]);
    let funs = vec![&login];
    let proto = Protocol { funs: &funs, depth: 0 };
    let a = Atom { proto: &proto, name: "Params", kind: Kind::Request, depth: 1 };
    assert_eq!(a.funs().len(), 1);
    assert_eq!(a.to_string(), ATOM_PARAMS);

    let none = Atom { proto: &proto, name: "NotificationParams", kind: Kind::Notification, depth: 1 };
    assert!(none.funs().is_empty());
    let text = none.to_string();
    assert!(text.contains("pub enum NotificationParams {}\n"));
    assert!(text.contains("    fn method(&self) -> &'static str {\n        panic!(\"no variants for NotificationParams\")\n    }\n"));
}

#[test]
fn protocol_module() {
    let schema = parse_schema(&chars("server fn login(user: string) -> (ok: bool)\n")).unwrap();
    let login = Fun::new("", &schema.body.functions[0]);
    let funs = vec![&login];
    let proto = Protocol { funs: &funs, depth: 0 };
    let text = proto.to_string();
    assert!(text.starts_with("pub mod protocol {\n    #[derive(Debug, ::lavish::serde_derive::Serialize)]\n"));
    assert!(text.contains("    pub enum Params {\n        login(super::login::Params),\n    }\n"));
    assert!(text.contains("    pub enum Results {\n        login(super::login::Results),\n    }\n"));
    assert!(text.ends_with("    }\n\n}\n"));
}

const CLIENT: &str = r#"pub struct Client {
    login: (),
    // TODO
}

pub struct Call<T, PP> {
    pub state: ::std::sync::Arc<T>,
    pub client: Client,
    pub params: PP,
}

pub type SlotReturn = Result<super::protocol::Results, ::lavish::Error>;
pub type SlotFn<T> = Fn(::std::sync::Arc<T>, Client, super::protocol::Params) -> SlotReturn + 'static + Send + Sync;
pub type Slot<T> = Option<Box<SlotFn<T>>>;
pub struct Handler<T> {
    state: std::sync::Arc<T>,
    on_logout: Slot<T>,
}

"#;

#[test]
fn client_module() {
    let schema =
        parse_schema(&chars("server fn login(user: string)\nclient fn logout()\n")).unwrap();
    let login = Fun::new("", &schema.body.functions[0]);
    let logout = Fun::new("", &schema.body.functions[1]);
    let called = vec![&login];
    let handled = vec![&logout];
    let c = Client { handled: &handled, called: &called, depth: 0, is_root: true };
    assert_eq!(c.to_string(), CLIENT);
}

const SIDE_CLIENT: &str = "#[derive(Clone)]
pub struct Client {
    caller: super::protocol::Caller,
}

impl Client {
    pub fn new(caller: super::protocol::Caller) -> Self {
        Self { caller }
    }
    pub fn call<P, R>(&self, p: P) -> Result<R, ::lavish::Error>
    where
        P: super::protocol::Callable<R>,
     {
        self.caller.call(
            p.upcast_params(),
            P::downcast_results,
        )
    }
}
";

#[test]
fn side_client() {
    let schema = parse_schema(&chars("server fn login(user: string)\n")).unwrap();
    let root = lavish::anchored::Stack::new(lavish::anchored::FrameKind::Schema(&schema));
    let c = lavish::client::Client { side: Side::Server, body: root.anchor(&schema.body) };
    assert_eq!(c.to_string(), SIDE_CLIENT);
}

#[test]
fn where_clauses() {
    let f = _fn("f").type_param("T", Some("Clone")).type_param("U", None).param("t: T").body("t\n");
    assert_eq!(f.to_string(), "fn f<T, U>(t: T)\nwhere\n    T: Clone,\n {\n    t\n}\n");
}
