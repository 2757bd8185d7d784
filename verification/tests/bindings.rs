//! The operations of the bindings, driven against a native layer made for
//! the tests: it keeps count of the objects it hands out, and panics when a
//! call names one that is not live, or frees one that another stands under.
use std::collections::HashMap;

use nix_bindings::context::ContextNew;
use nix_bindings::error::{NIX_ERR_NIX_ERROR, NIX_OK};
use nix_bindings::eval::{AllocValue, Build, BuilderNew, EvalFromString};
use nix_bindings::native::Float;
use nix_bindings::render::Render;
use nix_bindings::store::{Outputs, PathClone, PathName, PathParse, Realise, StoreOpen};
use nix_bindings::value::{AsBool, AsFloat, AsInt, AsString, Force, TypeQuery};
use nix_bindings::{
    Call, Context, Error, EvalState, EvalStateBuilder, Handle, Reply, Step, Store, StorePath, Value,
    ValueType,
};

/// What a value of the test evaluator holds.
#[derive(Clone, Debug, PartialEq)]
enum Node {
    Empty,
    Int(i64),
    Float(u64, String),
    Bool(bool),
    Text(Vec<u8>),
    Null,
    Attrs,
    List,
    Function,
}

/// The native layer of the tests.
struct Native {
    next: usize,
    live: HashMap<usize, &'static str>,
    /// For each live object, the objects it stands under.
    under: HashMap<usize, Vec<usize>>,
    nodes: HashMap<usize, Node>,
    names: HashMap<usize, Vec<u8>>,
    strings: HashMap<usize, Vec<u8>>,
    /// Calls that are to fail, by their name: the code and the message.
    failing: HashMap<&'static str, (i32, Option<Vec<u8>>)>,
    /// Calls that are to return a null pointer, by their name.
    null: Vec<&'static str>,
    /// Every call that was made, by its name.
    log: Vec<&'static str>,
    /// The URI of the store that was opened last.
    uri: Option<Option<Vec<u8>>>,
}

impl Native {
    fn new() -> Native {
        Native {
            next: 0x1000,
            live: HashMap::new(),
            under: HashMap::new(),
            nodes: HashMap::new(),
            names: HashMap::new(),
            strings: HashMap::new(),
            failing: HashMap::new(),
            null: Vec::new(),
            log: Vec::new(),
            uri: None,
        }
    }

    fn make(&mut self, name: &'static str, kind: &'static str, under: &[&Handle]) -> Reply {
        if self.null.contains(&name) {
            return Reply::Pointer(None);
        }
        self.next += 0x10;
        self.live.insert(self.next, kind);
        self.under.insert(self.next, under.iter().map(|h| h.addr()).collect());
        Reply::Pointer(Handle::new(self.next))
    }

    fn need(&self, handle: &Handle, kind: &'static str) {
        assert_eq!(self.live.get(&handle.addr()), Some(&kind), "not a live {kind}");
    }

    fn free(&mut self, handle: &Handle, kind: &'static str) -> Reply {
        self.need(handle, kind);
        for (object, under) in &self.under {
            assert!(!under.contains(&handle.addr()), "{object:#x} stands under the {kind}");
        }
        self.live.remove(&handle.addr());
        self.under.remove(&handle.addr());
        Reply::Nothing
    }

    fn status(&self, name: &'static str) -> Reply {
        match self.failing.get(name) {
            Some((code, message)) => Reply::Status { code: *code, message: message.clone() },
            None => Reply::Status { code: NIX_OK, message: None },
        }
    }

    fn node(&self, value: &Handle) -> Node {
        self.nodes.get(&value.addr()).cloned().unwrap_or(Node::Empty)
    }

    fn perform(&mut self, call: &Call) -> Reply {
        match call {
            Call::ContextCreate => {
                self.log.push("nix_c_context_create");
                self.make("nix_c_context_create", "context", &[])
            },
            Call::ContextFree { context } => {
                self.log.push("nix_c_context_free");
                self.free(context, "context")
            },
            Call::LibutilInit { context } => {
                self.log.push("nix_libutil_init");
                self.need(context, "context");
                self.status("nix_libutil_init")
            },
            Call::LibstoreInit { context } => {
                self.log.push("nix_libstore_init");
                self.need(context, "context");
                self.status("nix_libstore_init")
            },
            Call::LibexprInit { context } => {
                self.log.push("nix_libexpr_init");
                self.need(context, "context");
                self.status("nix_libexpr_init")
            },
            Call::StoreOpen { context, uri } => {
                self.log.push("nix_store_open");
                self.need(context, "context");
                self.uri = Some(uri.clone());
                self.make("nix_store_open", "store", &[context])
            },
            Call::StoreFree { store } => {
                self.log.push("nix_store_free");
                self.free(store, "store")
            },
            Call::StoreParsePath { context, store, text } => {
                self.log.push("nix_store_parse_path");
                self.need(context, "context");
                self.need(store, "store");
                let prefix = b"/nix/store/";
                if text.len() < prefix.len() + 34 || &text[..prefix.len()] != prefix
                    || text[prefix.len() + 32] != b'-'
                {
                    return Reply::Pointer(None);
                }
                let reply = self.make("nix_store_parse_path", "path", &[context]);
                if let Reply::Pointer(Some(h)) = &reply {
                    self.names.insert(h.addr(), text[prefix.len() + 33..].to_vec());
                }
                reply
            },
            Call::StorePathName { path } => {
                self.log.push("nix_store_path_name");
                self.need(path, "path");
                Reply::Bytes(self.names.get(&path.addr()).cloned())
            },
            Call::StorePathClone { path } => {
                self.log.push("nix_store_path_clone");
                self.need(path, "path");
                let name = self.names.get(&path.addr()).cloned();
                let under = self.under.get(&path.addr()).cloned().unwrap_or_default();
                let reply = self.make("nix_store_path_clone", "path", &[]);
                if let Reply::Pointer(Some(h)) = &reply {
                    self.under.insert(h.addr(), under);
                    if let Some(name) = name {
                        self.names.insert(h.addr(), name);
                    }
                }
                reply
            },
            Call::StorePathFree { path } => {
                self.log.push("nix_store_path_free");
                self.names.remove(&path.addr());
                self.free(path, "path")
            },
            Call::StoreRealise { context, store, path } => {
                self.log.push("nix_store_realise");
                self.need(context, "context");
                self.need(store, "store");
                self.need(path, "path");
                let name = self.names.get(&path.addr()).cloned();
                let mut outputs = Vec::new();
                for output in [Some(b"out".to_vec()), None, Some(vec![b'd', 0xff])] {
                    let clone = self.make("nix_store_path_clone", "path", &[context]);
                    if let (Reply::Pointer(Some(h)), Some(name)) = (&clone, &name) {
                        self.names.insert(h.addr(), name.clone());
                    }
                    let path = match clone {
                        Reply::Pointer(p) => p,
                        _ => None,
                    };
                    outputs.push(nix_bindings::native::RawOutput { name: output, path });
                }
                outputs.push(nix_bindings::native::RawOutput { name: None, path: None });
                match self.failing.get("nix_store_realise") {
                    Some((code, message)) => {
                        Reply::Realised { code: *code, message: message.clone(), outputs }
                    },
                    None => Reply::Realised { code: NIX_OK, message: None, outputs },
                }
            },
            Call::BuilderNew { context, store } => {
                self.log.push("nix_eval_state_builder_new");
                self.need(context, "context");
                self.need(store, "store");
                self.make("nix_eval_state_builder_new", "builder", &[context, store])
            },
            Call::BuilderLoad { context, builder } => {
                self.log.push("nix_eval_state_builder_load");
                self.need(context, "context");
                self.need(builder, "builder");
                self.status("nix_eval_state_builder_load")
            },
            Call::StateBuild { context, builder } => {
                self.log.push("nix_eval_state_build");
                self.need(context, "context");
                self.need(builder, "builder");
                let mut under = self.under.get(&builder.addr()).cloned().unwrap_or_default();
                under.retain(|h| *h != builder.addr());
                let reply = self.make("nix_eval_state_build", "state", &[context]);
                if let Reply::Pointer(Some(h)) = &reply {
                    self.under.insert(h.addr(), under);
                }
                reply
            },
            Call::BuilderFree { builder } => {
                self.log.push("nix_eval_state_builder_free");
                self.free(builder, "builder")
            },
            Call::StateFree { state } => {
                self.log.push("nix_state_free");
                self.free(state, "state")
            },
            Call::ValueAlloc { context, state } => {
                self.log.push("nix_alloc_value");
                self.need(context, "context");
                self.need(state, "state");
                self.make("nix_alloc_value", "value", &[context, state])
            },
            Call::ValueDecref { context, value } => {
                self.log.push("nix_value_decref");
                self.need(context, "context");
                self.nodes.remove(&value.addr());
                self.free(value, "value")
            },
            Call::ExprEvalFromString { context, state, expr, origin, value } => {
                self.log.push("nix_expr_eval_from_string");
                self.need(context, "context");
                self.need(state, "state");
                self.need(value, "value");
                assert!(!expr.contains(&0) && !origin.contains(&0));
                match evaluate(std::str::from_utf8(expr).unwrap()) {
                    Some(node) => {
                        self.nodes.insert(value.addr(), node);
                        Reply::Status { code: NIX_OK, message: None }
                    },
                    None => Reply::Status {
                        code: NIX_ERR_NIX_ERROR,
                        message: Some(b"error: syntax error, unexpected end of file".to_vec()),
                    },
                }
            },
            Call::ValueForce { context, state, value } => {
                self.log.push("nix_value_force");
                self.need(context, "context");
                self.need(state, "state");
                self.need(value, "value");
                self.status("nix_value_force")
            },
            Call::ValueForceDeep { context, state, value } => {
                self.log.push("nix_value_force_deep");
                self.need(context, "context");
                self.need(state, "state");
                self.need(value, "value");
                self.status("nix_value_force_deep")
            },
            Call::GetType { context, value } => {
                self.log.push("nix_get_type");
                self.need(context, "context");
                self.need(value, "value");
                Reply::Type(match self.node(value) {
                    Node::Empty => 0,
                    Node::Int(_) => 1,
                    Node::Float(_, _) => 2,
                    Node::Bool(_) => 3,
                    Node::Text(_) => 4,
                    Node::Null => 6,
                    Node::Attrs => 7,
                    Node::List => 8,
                    Node::Function => 9,
                })
            },
            Call::GetInt { context, value } => {
                self.log.push("nix_get_int");
                self.need(context, "context");
                match self.node(value) {
                    Node::Int(n) => Reply::Int(n),
                    other => panic!("no integer: {other:?}"),
                }
            },
            Call::GetFloat { context, value } => {
                self.log.push("nix_get_float");
                self.need(context, "context");
                match self.node(value) {
                    Node::Float(bits, text) => Reply::Float(Float { bits, text }),
                    other => panic!("no float: {other:?}"),
                }
            },
            Call::GetBool { context, value } => {
                self.log.push("nix_get_bool");
                self.need(context, "context");
                match self.node(value) {
                    Node::Bool(b) => Reply::Bool(b),
                    other => panic!("no boolean: {other:?}"),
                }
            },
            Call::StringRealise { context, state, value } => {
                self.log.push("nix_string_realise");
                self.need(context, "context");
                self.need(state, "state");
                let bytes = match self.node(value) {
                    Node::Text(bytes) => bytes,
                    other => panic!("no string: {other:?}"),
                };
                let reply = self.make("nix_string_realise", "string", &[]);
                if let Reply::Pointer(Some(h)) = &reply {
                    self.strings.insert(h.addr(), bytes);
                }
                reply
            },
            Call::RealisedStringBuffer { string } => {
                self.log.push("nix_realised_string_get_buffer_start");
                self.need(string, "string");
                if self.null.contains(&"nix_realised_string_get_buffer_start") {
                    Reply::Bytes(None)
                } else {
                    Reply::Bytes(self.strings.get(&string.addr()).cloned())
                }
            },
            Call::RealisedStringFree { string } => {
                self.log.push("nix_realised_string_free");
                self.strings.remove(&string.addr());
                self.free(string, "string")
            },
            Call::LixInit => {
                self.log.push("lix_wrapper_init");
                Reply::Nothing
            },
            Call::LixOpenStore => {
                self.log.push("lix_wrapper_open_store");
                self.make("lix_wrapper_open_store", "lix store", &[])
            },
            Call::LixParseStorePath { store, text } => {
                self.log.push("lix_wrapper_parse_store_path");
                self.need(store, "lix store");
                assert!(!text.contains(&0));
                self.make("lix_wrapper_parse_store_path", "lix path", &[store])
            },
            Call::LixBuildPath { store, path } => {
                self.log.push("lix_wrapper_build_path");
                self.need(store, "lix store");
                self.need(path, "lix path");
                self.status("lix_wrapper_build_path")
            },
            Call::LixStoreFree { store } => {
                self.log.push("lix_wrapper_free_pointer");
                self.free(store, "lix store")
            },
            Call::LixPathFree { path } => {
                self.log.push("lix_wrapper_free_pointer");
                self.free(path, "lix path")
            },
        }
    }

    /// Runs an operation to its end.
    fn run<S, T>(&mut self, first: Step<S, T>, resume: fn(S, Reply) -> Step<S, T>) -> Result<T, Error> {
        let mut step = first;
        loop {
            match step {
                Step::Call(state, call) => {
                    let reply = self.perform(&call);
                    step = resume(state, reply);
                },
                Step::Done(calls, value) => {
                    for call in &calls {
                        assert_eq!(self.perform(call), Reply::Nothing);
                    }
                    return Ok(value);
                },
                Step::Failed(calls, error) => {
                    for call in &calls {
                        assert_eq!(self.perform(call), Reply::Nothing);
                    }
                    return Err(error);
                },
            }
        }
    }

    fn count(&self, name: &str) -> usize {
        self.log.iter().filter(|n| **n == name).count()
    }
}

/// The evaluator of the tests: it knows the expressions that the tests use.
fn evaluate(expr: &str) -> Option<Node> {
    let text = |s: &str| Some(Node::Text(s.as_bytes().to_vec()));
    match expr {
        "1 + 2" => Some(Node::Int(3)),
        "1 + 1" => Some(Node::Int(2)),
        "5 + 3" => Some(Node::Int(8)),
        "42" => Some(Node::Int(42)),
        "-17" => Some(Node::Int(-17)),
        "(2 + 3) * (4 - 1)" => Some(Node::Int(15)),
        "(x: x + 1) 5" => Some(Node::Int(6)),
        "(x: x + 1) 41" => Some(Node::Int(42)),
        "{ foo = 123; }.foo" => Some(Node::Int(123)),
        "builtins.length [ 1 2 3 4 5 ]" => Some(Node::Int(5)),
        "1.5" => Some(Node::Float(0x3ff8_0000_0000_0000, "1.5".to_string())),
        "true" => Some(Node::Bool(true)),
        "false" => Some(Node::Bool(false)),
        "null" => Some(Node::Null),
        "\"hello\"" => text("hello"),
        "\"hello world\"" => text("hello world"),
        "\"test string\"" => text("test string"),
        "\"not a number\"" => text("not a number"),
        "\"say \\\"hello\\\"\"" => text("say \"hello\""),
        "\"The answer is ${toString (6 * 7)}\"" => text("The answer is 42"),
        "builtins.head [ \"first\" \"second\" \"third\" ]" => text("first"),
        "\"\\xff\"" => Some(Node::Text(vec![0xff])),
        "{ a = 1; }" | "{ foo = 123; }" | "{ a = 1; b = \"test\"; }"
        | "{ name = \"test\"; value = 42; }" => Some(Node::Attrs),
        "[ 1 2 3 ]" | "[ 1 2 3 \"hello\" ]" => Some(Node::List),
        "(x: x + 1)" => Some(Node::Function),
        _ => None,
    }
}

fn new_context(nix: &mut Native) -> Result<Context, Error> {
    nix.run(Context::new(), ContextNew::resume)
}

fn open_store(nix: &mut Native, context: &Context, uri: Option<&str>) -> Result<Store, Error> {
    nix.run(Store::open(context, uri), StoreOpen::resume)
}

fn new_builder(nix: &mut Native, store: &Store) -> Result<EvalStateBuilder, Error> {
    nix.run(EvalStateBuilder::new(store), BuilderNew::resume)
}

fn build(nix: &mut Native, builder: EvalStateBuilder) -> Result<EvalState, Error> {
    nix.run(builder.build(), Build::resume)
}

fn eval<'a>(nix: &mut Native, state: &'a EvalState, expr: &str, path: &str) -> Result<Value<'a>, Error> {
    nix.run(state.eval_from_string(expr, path), EvalFromString::resume)
}

fn value_type(nix: &mut Native, value: &Value) -> ValueType {
    nix.run(value.value_type(), TypeQuery::resume).expect("the type is always told")
}

fn as_int(nix: &mut Native, value: &Value) -> Result<i64, Error> {
    nix.run(value.as_int(), AsInt::resume)
}

fn as_bool(nix: &mut Native, value: &Value) -> Result<bool, Error> {
    nix.run(value.as_bool(), AsBool::resume)
}

fn as_float(nix: &mut Native, value: &Value) -> Result<Float, Error> {
    nix.run(value.as_float(), AsFloat::resume)
}

fn as_string(nix: &mut Native, value: &Value) -> Result<String, Error> {
    nix.run(value.as_string(), AsString::resume)
}

fn to_nix_string(nix: &mut Native, value: &Value) -> Result<String, Error> {
    nix.run(value.to_nix_string(), Render::resume)
}

fn display(nix: &mut Native, value: &Value) -> String {
    nix.run(value.display(), Render::resume).expect("a value can always be displayed")
}

fn debug(nix: &mut Native, value: &Value) -> String {
    nix.run(value.debug(), Render::resume).expect("a value can always be logged")
}

fn name(nix: &mut Native, path: &StorePath) -> Result<String, Error> {
    nix.run(path.name(), PathName::resume)
}

fn drop_value(nix: &mut Native, value: Value) {
    let call = value.release();
    nix.perform(&call);
}

/// A context, a store and a state, as every evaluation needs them.
fn chain(nix: &mut Native) -> (Context, Store, EvalState) {
    let ctx = new_context(nix).expect("Failed to create context");
    let store = open_store(nix, &ctx, None).expect("Failed to open store");
    let builder = new_builder(nix, &store).expect("Failed to create builder");
    let state = build(nix, builder).expect("Failed to build state");
    (ctx, store, state)
}

/// Gives up a chain in the order of its dependencies, and checks that the
/// native layer has nothing left.
fn unchain(nix: &mut Native, ctx: Context, store: Store, state: EvalState) {
    nix.perform(&state.release());
    nix.perform(&store.release());
    nix.perform(&ctx.release());
    assert!(nix.live.is_empty(), "left behind: {:?}", nix.live);
}

const VALID_PATH: &str = "/nix/store/00000000000000000000000000000000-test";

#[test]
fn util_context_create_and_free() {
    let mut nix = Native::new();
    let ctx = new_context(&mut nix).expect("Failed to create context");
    assert!(ctx.handle.addr() != 0);
    nix.perform(&ctx.release());
    assert!(nix.live.is_empty());
    assert_eq!(nix.count("nix_c_context_create"), 1);
    assert_eq!(nix.count("nix_c_context_free"), 1);
}

#[test]
fn util_libutil_init() {
    let mut nix = Native::new();
    let (state, call) = match Context::new() {
        Step::Call(state, call) => (state, call),
        other => panic!("no call: {other:?}"),
    };
    assert_eq!(call, Call::ContextCreate);
    let created = nix.perform(&call);
    let ctx = match &created {
        Reply::Pointer(Some(h)) => *h,
        other => panic!("null context: {other:?}"),
    };
    assert!(ctx.addr() != 0);
    let (state, call) = match state.resume(created) {
        Step::Call(state, call) => (state, call),
        other => panic!("no call: {other:?}"),
    };
    assert_eq!(call, Call::LibutilInit { context: ctx });
    let err = nix.perform(&call);
    assert_eq!(err, Reply::Status { code: NIX_OK, message: None });
    assert!(matches!(state.resume(err), Step::Call(ContextNew::Store(_), Call::LibstoreInit { .. })));
    nix.perform(&Call::ContextFree { context: ctx });
    assert!(nix.live.is_empty());
}

#[test]
fn store_libstore_init_and_open_free() {
    let mut nix = Native::new();
    let ctx = new_context(&mut nix).expect("Failed to create context");
    assert!(ctx.handle.addr() != 0);
    assert_eq!(nix.count("nix_libstore_init"), 1);

    // Open the default store (null URI, null params)
    let store = open_store(&mut nix, &ctx, None).expect("Failed to open store");
    assert!(store.handle.addr() != 0);
    assert_eq!(nix.uri, Some(None));

    // Free the store and context
    nix.perform(&store.release());
    nix.perform(&ctx.release());
    assert!(nix.live.is_empty());
}

#[test]
fn eval_eval_init_and_state_build() {
    let mut nix = Native::new();
    let ctx = new_context(&mut nix).expect("Failed to create context");
    assert!(ctx.handle.addr() != 0);
    assert_eq!(nix.count("nix_libutil_init"), 1, "nix_libutil_init failed: {}", 0);
    assert_eq!(nix.count("nix_libstore_init"), 1, "nix_libstore_init failed: {}", 0);
    assert_eq!(nix.count("nix_libexpr_init"), 1, "nix_libexpr_init failed: {}", 0);

    let store = open_store(&mut nix, &ctx, None).expect("Failed to open store");
    assert!(store.handle.addr() != 0);

    let builder = new_builder(&mut nix, &store).expect("Failed to create builder");
    assert!(builder.handle.addr() != 0);

    let state = build(&mut nix, builder).expect("Failed to build state");
    assert_eq!(nix.count("nix_eval_state_builder_load"), 1);
    assert!(state.handle.addr() != 0);
    assert_eq!(nix.count("nix_eval_state_builder_free"), 1);

    unchain(&mut nix, ctx, store, state);
}

#[test]
fn test_context_creation() {
    let mut nix = Native::new();
    let ctx = new_context(&mut nix).expect("Failed to create context");
    assert_eq!(
        nix.log,
        vec!["nix_c_context_create", "nix_libutil_init", "nix_libstore_init", "nix_libexpr_init"]
    );
    nix.perform(&ctx.release());
    assert!(nix.live.is_empty());
}

#[test]
fn test_eval_state_builder() {
    let mut nix = Native::new();
    let (ctx, store, state) = chain(&mut nix);
    assert_eq!(state.store, store.handle);
    assert_eq!(state.context, ctx.handle);
    unchain(&mut nix, ctx, store, state);
}

#[test]
fn test_simple_evaluation() {
    let mut nix = Native::new();
    let (ctx, store, state) = chain(&mut nix);

    let result = eval(&mut nix, &state, "1 + 2", "<eval>").expect("Failed to evaluate expression");

    assert_eq!(value_type(&mut nix, &result), ValueType::Int);
    assert_eq!(as_int(&mut nix, &result).expect("Failed to get int value"), 3);

    drop_value(&mut nix, result);
    unchain(&mut nix, ctx, store, state);
}

#[test]
fn test_value_types() {
    let mut nix = Native::new();
    let (ctx, store, state) = chain(&mut nix);

    // Test integer
    let int_val = eval(&mut nix, &state, "42", "<eval>").expect("Failed to evaluate int");
    assert_eq!(value_type(&mut nix, &int_val), ValueType::Int);
    assert_eq!(as_int(&mut nix, &int_val).expect("Failed to get int"), 42);

    // Test boolean
    let bool_val = eval(&mut nix, &state, "true", "<eval>").expect("Failed to evaluate bool");
    assert_eq!(value_type(&mut nix, &bool_val), ValueType::Bool);
    assert!(as_bool(&mut nix, &bool_val).expect("Failed to get bool"));

    // Test string
    let str_val = eval(&mut nix, &state, "\"hello\"", "<eval>").expect("Failed to evaluate string");
    assert_eq!(value_type(&mut nix, &str_val), ValueType::String);
    assert_eq!(as_string(&mut nix, &str_val).expect("Failed to get string"), "hello");

    drop_value(&mut nix, int_val);
    drop_value(&mut nix, bool_val);
    drop_value(&mut nix, str_val);
    unchain(&mut nix, ctx, store, state);
}

#[test]
fn test_value_formatting() {
    let mut nix = Native::new();
    let (ctx, store, state) = chain(&mut nix);

    // Test integer formatting
    let int_val = eval(&mut nix, &state, "42", "<eval>").expect("Failed to evaluate int");
    assert_eq!(display(&mut nix, &int_val), "42");
    assert_eq!(debug(&mut nix, &int_val), "Value::Int(42)");
    assert_eq!(to_nix_string(&mut nix, &int_val).expect("Failed to format"), "42");

    // Test boolean formatting
    let bool_val = eval(&mut nix, &state, "true", "<eval>").expect("Failed to evaluate bool");
    assert_eq!(display(&mut nix, &bool_val), "true");
    assert_eq!(debug(&mut nix, &bool_val), "Value::Bool(true)");
    assert_eq!(to_nix_string(&mut nix, &bool_val).expect("Failed to format"), "true");

    let false_val = eval(&mut nix, &state, "false", "<eval>").expect("Failed to evaluate bool");
    assert_eq!(display(&mut nix, &false_val), "false");
    assert_eq!(to_nix_string(&mut nix, &false_val).expect("Failed to format"), "false");

    // Test string formatting
    let str_val =
        eval(&mut nix, &state, "\"hello world\"", "<eval>").expect("Failed to evaluate string");
    assert_eq!(display(&mut nix, &str_val), "hello world");
    assert_eq!(debug(&mut nix, &str_val), "Value::String(\"hello world\")");
    assert_eq!(to_nix_string(&mut nix, &str_val).expect("Failed to format"), "\"hello world\"");

    // Test string with quotes
    let quoted_str = eval(&mut nix, &state, "\"say \\\"hello\\\"\"", "<eval>")
        .expect("Failed to evaluate quoted string");
    assert_eq!(display(&mut nix, &quoted_str), "say \"hello\"");
    assert_eq!(
        to_nix_string(&mut nix, &quoted_str).expect("Failed to format"),
        "\"say \\\"hello\\\"\""
    );

    // Test null formatting
    let null_val = eval(&mut nix, &state, "null", "<eval>").expect("Failed to evaluate null");
    assert_eq!(display(&mut nix, &null_val), "null");
    assert_eq!(debug(&mut nix, &null_val), "Value::Null");
    assert_eq!(to_nix_string(&mut nix, &null_val).expect("Failed to format"), "null");

    // Test collection formatting
    let attrs_val = eval(&mut nix, &state, "{ a = 1; }", "<eval>").expect("Failed to evaluate attrs");
    assert_eq!(display(&mut nix, &attrs_val), "{ <attrs> }");
    assert_eq!(debug(&mut nix, &attrs_val), "Value::Attrs({ <attrs> })");

    let list_val = eval(&mut nix, &state, "[ 1 2 3 ]", "<eval>").expect("Failed to evaluate list");
    assert_eq!(display(&mut nix, &list_val), "[ <list> ]");
    assert_eq!(debug(&mut nix, &list_val), "Value::List([ <list> ])");

    for value in [int_val, bool_val, false_val, str_val, quoted_str, null_val, attrs_val, list_val] {
        drop_value(&mut nix, value);
    }
    unchain(&mut nix, ctx, store, state);
}

#[test]
fn store_test_store_opening() {
    let mut nix = Native::new();
    let ctx = new_context(&mut nix).expect("Failed to create context");
    let store = open_store(&mut nix, &ctx, None).expect("Failed to open store");
    nix.perform(&store.release());
    nix.perform(&ctx.release());
    assert!(nix.live.is_empty());
}

#[test]
fn test_store_path_parse() {
    let mut nix = Native::new();
    let ctx = new_context(&mut nix).expect("Failed to create context");
    let store = open_store(&mut nix, &ctx, None).expect("Failed to open store");

    // Try parsing a well-formed store path
    let result = nix.run(StorePath::parse(&ctx, &store, VALID_PATH), PathParse::resume);

    match result {
        Ok(path) => {
            // Successfully parsed the path
            nix.perform(&path.release());
        },
        Err(_) => {
            // Path doesn't exist or is invalid, which is expected
        },
    }
    nix.perform(&store.release());
    nix.perform(&ctx.release());
    assert!(nix.live.is_empty());
}

#[test]
fn test_store_path_clone() {
    let mut nix = Native::new();
    let ctx = new_context(&mut nix).expect("Failed to create context");
    let store = open_store(&mut nix, &ctx, None).expect("Failed to open store");

    if let Ok(path) = nix.run(StorePath::parse(&ctx, &store, VALID_PATH), PathParse::resume) {
        let cloned = nix.run(path.duplicate(), PathClone::resume).expect("a clone is always made");

        // Assert that the cloned path has the same name as the original
        let original_name = name(&mut nix, &path).expect("Failed to get original path name");
        let cloned_name = name(&mut nix, &cloned).expect("Failed to get cloned path name");

        assert_eq!(original_name, cloned_name, "Cloned path should have the same name as original");
        assert_ne!(path.handle, cloned.handle);
        nix.perform(&cloned.release());
        nix.perform(&path.release());
    } else {
        panic!("the path of the test is well formed");
    }
    nix.perform(&store.release());
    nix.perform(&ctx.release());
    assert!(nix.live.is_empty());
}

#[test]
fn test_basic_arithmetic() {
    let mut nix = Native::new();
    let (ctx, store, state) = chain(&mut nix);

    // Test simple arithmetic
    let result = eval(&mut nix, &state, "5 + 3", "<test>").expect("Failed to evaluate expression");

    assert_eq!(value_type(&mut nix, &result), ValueType::Int);
    assert_eq!(as_int(&mut nix, &result).expect("Failed to get int value"), 8);

    drop_value(&mut nix, result);
    unchain(&mut nix, ctx, store, state);
}

#[test]
fn test_string_operations() {
    let mut nix = Native::new();
    let (ctx, store, state) = chain(&mut nix);

    // Test string literal
    let result =
        eval(&mut nix, &state, "\"hello world\"", "<test>").expect("Failed to evaluate string");

    assert_eq!(value_type(&mut nix, &result), ValueType::String);
    assert_eq!(as_string(&mut nix, &result).expect("Failed to get string"), "hello world");

    drop_value(&mut nix, result);
    unchain(&mut nix, ctx, store, state);
}

#[test]
fn test_boolean_values() {
    let mut nix = Native::new();
    let (ctx, store, state) = chain(&mut nix);

    // Test boolean true
    let result = eval(&mut nix, &state, "true", "<test>").expect("Failed to evaluate boolean");

    assert_eq!(value_type(&mut nix, &result), ValueType::Bool);
    assert!(as_bool(&mut nix, &result).expect("Failed to get bool"));
    drop_value(&mut nix, result);

    // Test boolean false
    let result = eval(&mut nix, &state, "false", "<test>").expect("Failed to evaluate boolean");

    assert_eq!(value_type(&mut nix, &result), ValueType::Bool);
    assert!(!as_bool(&mut nix, &result).expect("Failed to get bool"));
    drop_value(&mut nix, result);

    unchain(&mut nix, ctx, store, state);
}

#[test]
fn test_complex_expressions() {
    let mut nix = Native::new();
    let (ctx, store, state) = chain(&mut nix);

    // Test nested arithmetic
    let result =
        eval(&mut nix, &state, "(2 + 3) * (4 - 1)", "<test>").expect("Failed to evaluate expression");

    assert_eq!(value_type(&mut nix, &result), ValueType::Int);
    assert_eq!(as_int(&mut nix, &result).expect("Failed to get int value"), 15);
    drop_value(&mut nix, result);

    // Test string interpolation
    let result = eval(&mut nix, &state, "\"The answer is ${toString (6 * 7)}\"", "<test>")
        .expect("Failed to evaluate string interpolation");

    assert_eq!(value_type(&mut nix, &result), ValueType::String);
    assert_eq!(as_string(&mut nix, &result).expect("Failed to get string"), "The answer is 42");
    drop_value(&mut nix, result);

    unchain(&mut nix, ctx, store, state);
}

#[test]
fn test_attribute_sets() {
    let mut nix = Native::new();
    let (ctx, store, state) = chain(&mut nix);

    // Test attribute set creation
    let result = eval(&mut nix, &state, "{ name = \"test\"; value = 42; }", "<test>")
        .expect("Failed to evaluate attrset");

    assert_eq!(value_type(&mut nix, &result), ValueType::Attrs);

    drop_value(&mut nix, result);
    unchain(&mut nix, ctx, store, state);
}

#[test]
fn test_lists() {
    let mut nix = Native::new();
    let (ctx, store, state) = chain(&mut nix);

    // Test list creation
    let result =
        eval(&mut nix, &state, "[ 1 2 3 \"hello\" ]", "<test>").expect("Failed to evaluate list");

    assert_eq!(value_type(&mut nix, &result), ValueType::List);

    drop_value(&mut nix, result);
    unchain(&mut nix, ctx, store, state);
}

#[test]
fn test_functions() {
    let mut nix = Native::new();
    let (ctx, store, state) = chain(&mut nix);

    // Test function application
    let result = eval(&mut nix, &state, "(x: x + 1) 5", "<test>")
        .expect("Failed to evaluate function application");

    assert_eq!(value_type(&mut nix, &result), ValueType::Int);
    assert_eq!(as_int(&mut nix, &result).expect("Failed to get int value"), 6);

    drop_value(&mut nix, result);
    unchain(&mut nix, ctx, store, state);
}

#[test]
fn test_builtin_functions() {
    let mut nix = Native::new();
    let (ctx, store, state) = chain(&mut nix);

    // Test length builtin
    let result = eval(&mut nix, &state, "builtins.length [ 1 2 3 4 5 ]", "<test>")
        .expect("Failed to evaluate builtin function");

    assert_eq!(value_type(&mut nix, &result), ValueType::Int);
    assert_eq!(as_int(&mut nix, &result).expect("Failed to get int value"), 5);
    drop_value(&mut nix, result);

    // Test head builtin
    let result =
        eval(&mut nix, &state, "builtins.head [ \"first\" \"second\" \"third\" ]", "<test>")
            .expect("Failed to evaluate builtin function");

    assert_eq!(value_type(&mut nix, &result), ValueType::String);
    assert_eq!(as_string(&mut nix, &result).expect("Failed to get string"), "first");
    drop_value(&mut nix, result);

    unchain(&mut nix, ctx, store, state);
}

#[test]
fn test_null_value() {
    let mut nix = Native::new();
    let (ctx, store, state) = chain(&mut nix);

    // Test null value
    let result = eval(&mut nix, &state, "null", "<test>").expect("Failed to evaluate null");

    assert_eq!(value_type(&mut nix, &result), ValueType::Null);

    drop_value(&mut nix, result);
    unchain(&mut nix, ctx, store, state);
}

#[test]
fn test_error_handling() {
    let mut nix = Native::new();
    let (ctx, store, state) = chain(&mut nix);

    // Test invalid expression - this should fail
    let result = eval(&mut nix, &state, "invalid syntax here", "<test>");
    assert!(result.is_err(), "Expected evaluation to fail");

    // Test type mismatch - trying to get int from string should fail
    let string_val =
        eval(&mut nix, &state, "\"not a number\"", "<test>").expect("Failed to evaluate string");

    let int_result = as_int(&mut nix, &string_val);
    assert!(int_result.is_err(), "Expected type conversion to fail");

    drop_value(&mut nix, string_val);
    unchain(&mut nix, ctx, store, state);
}

#[test]
fn test_resource_cleanup() {
    // Test that resources are properly cleaned up when dropped
    let mut nix = Native::new();
    for _i in 0..10 {
        let (ctx, store, state) = chain(&mut nix);

        let result = eval(&mut nix, &state, "1 + 1", "<test>").expect("Failed to evaluate expression");

        drop_value(&mut nix, result);
        unchain(&mut nix, ctx, store, state);
    }
    assert_eq!(nix.count("nix_c_context_create"), 10);
    assert_eq!(nix.count("nix_c_context_free"), 10);
    assert_eq!(nix.count("nix_value_decref"), 10);
}

#[test]
fn test_value_formatting_display() {
    let mut nix = Native::new();
    let (ctx, store, state) = chain(&mut nix);

    // Test Display formatting
    let result = eval(&mut nix, &state, "42", "<test>").expect("Failed to evaluate");
    println!("Display: {}", display(&mut nix, &result));
    assert_eq!(display(&mut nix, &result), "42");
    drop_value(&mut nix, result);

    let result = eval(&mut nix, &state, "\"hello world\"", "<test>").expect("Failed to evaluate");
    println!("Display: {}", display(&mut nix, &result));
    assert_eq!(display(&mut nix, &result), "hello world");
    drop_value(&mut nix, result);

    // Test Debug formatting
    let result = eval(&mut nix, &state, "true", "<test>").expect("Failed to evaluate");
    println!("Debug: {}", debug(&mut nix, &result));
    assert_eq!(debug(&mut nix, &result), "Value::Bool(true)");
    drop_value(&mut nix, result);

    // Test Nix syntax formatting
    let result = eval(&mut nix, &state, "\"test string\"", "<test>").expect("Failed to evaluate");
    println!("Nix syntax: {}", to_nix_string(&mut nix, &result).expect("Failed to format"));
    assert_eq!(to_nix_string(&mut nix, &result).expect("Failed to format"), "\"test string\"");
    drop_value(&mut nix, result);

    // Test complex values
    let attrs =
        eval(&mut nix, &state, "{ a = 1; b = \"test\"; }", "<test>").expect("Failed to evaluate");
    println!("Attrs display: {}", display(&mut nix, &attrs));
    println!("Attrs debug: {}", debug(&mut nix, &attrs));
    drop_value(&mut nix, attrs);

    let list = eval(&mut nix, &state, "[ 1 2 3 ]", "<test>").expect("Failed to evaluate");
    println!("List display: {}", display(&mut nix, &list));
    println!("List debug: {}", debug(&mut nix, &list));
    drop_value(&mut nix, list);

    unchain(&mut nix, ctx, store, state);
}

#[test]
fn evaluation_then_force_yields_the_sum() {
    let mut nix = Native::new();
    let (ctx, store, state) = chain(&mut nix);
    let mut value = eval(&mut nix, &state, "1 + 2", "<eval>").unwrap();
    nix.run(value.force(), Force::resume).unwrap();
    assert_eq!(value_type(&mut nix, &value), ValueType::Int);
    assert_eq!(as_int(&mut nix, &value).unwrap(), 3);
    assert_eq!(nix.count("nix_value_force"), 1);
    drop_value(&mut nix, value);
    unchain(&mut nix, ctx, store, state);
}

#[test]
fn function_applied_to_forty_one_forces_to_forty_two() {
    let mut nix = Native::new();
    let (ctx, store, state) = chain(&mut nix);
    let function = eval(&mut nix, &state, "(x: x + 1)", "<eval>").unwrap();
    assert_eq!(value_type(&mut nix, &function), ValueType::Function);
    assert_eq!(to_nix_string(&mut nix, &function).unwrap(), "<function>");
    let mut applied = eval(&mut nix, &state, "(x: x + 1) 41", "<eval>").unwrap();
    nix.run(applied.force(), Force::resume).unwrap();
    assert_eq!(as_int(&mut nix, &applied).unwrap(), 42);
    drop_value(&mut nix, function);
    drop_value(&mut nix, applied);
    unchain(&mut nix, ctx, store, state);
}

#[test]
fn attribute_of_a_set_forces_to_its_integer() {
    let mut nix = Native::new();
    let (ctx, store, state) = chain(&mut nix);
    let set = eval(&mut nix, &state, "{ foo = 123; }", "<eval>").unwrap();
    assert_eq!(value_type(&mut nix, &set), ValueType::Attrs);
    let mut foo = eval(&mut nix, &state, "{ foo = 123; }.foo", "<eval>").unwrap();
    nix.run(foo.force_deep(), Force::resume).unwrap();
    assert_eq!(as_int(&mut nix, &foo).unwrap(), 123);
    assert_eq!(nix.count("nix_value_force_deep"), 1);
    drop_value(&mut nix, set);
    drop_value(&mut nix, foo);
    unchain(&mut nix, ctx, store, state);
}

#[test]
fn invalid_input_is_an_evaluation_error_and_leaves_no_value() {
    let mut nix = Native::new();
    let (ctx, store, state) = chain(&mut nix);
    let result = eval(&mut nix, &state, "this is not valid nix", "<eval>");
    assert_eq!(
        result,
        Err(Error::EvalError("error: syntax error, unexpected end of file".to_string()))
    );
    // the value that was to hold the result was given up
    assert_eq!(nix.count("nix_alloc_value"), 1);
    assert_eq!(nix.count("nix_value_decref"), 1);
    unchain(&mut nix, ctx, store, state);
}

#[test]
fn as_int_on_a_string_names_both_types() {
    let mut nix = Native::new();
    let (ctx, store, state) = chain(&mut nix);
    let value = eval(&mut nix, &state, "\"hello\"", "<eval>").unwrap();
    let calls = nix.log.len();
    let error = as_int(&mut nix, &value).unwrap_err();
    assert_eq!(error, Error::InvalidType { expected: "int", actual: "string".to_string() });
    assert_eq!(error.message(), "Invalid type: expected int, got string");
    // only the type was asked for
    assert_eq!(nix.log[calls..], ["nix_get_type"]);
    assert_eq!(
        as_bool(&mut nix, &value),
        Err(Error::InvalidType { expected: "bool", actual: "string".to_string() })
    );
    assert_eq!(
        as_float(&mut nix, &value),
        Err(Error::InvalidType { expected: "float", actual: "string".to_string() })
    );
    drop_value(&mut nix, value);
    unchain(&mut nix, ctx, store, state);
}

#[test]
fn numbers_are_not_coerced() {
    let mut nix = Native::new();
    let (ctx, store, state) = chain(&mut nix);
    let int = eval(&mut nix, &state, "42", "<eval>").unwrap();
    let float = eval(&mut nix, &state, "1.5", "<eval>").unwrap();
    assert_eq!(
        as_float(&mut nix, &int),
        Err(Error::InvalidType { expected: "float", actual: "int".to_string() })
    );
    assert_eq!(
        as_int(&mut nix, &float),
        Err(Error::InvalidType { expected: "int", actual: "float".to_string() })
    );
    assert_eq!(
        as_string(&mut nix, &int),
        Err(Error::InvalidType { expected: "string", actual: "int".to_string() })
    );
    let x = as_float(&mut nix, &float).unwrap();
    assert_eq!(f64::from_bits(x.bits), 1.5);
    assert_eq!(x.text, "1.5");
    assert_eq!(to_nix_string(&mut nix, &float).unwrap(), "1.5");
    assert_eq!(display(&mut nix, &float), "1.5");
    assert_eq!(debug(&mut nix, &float), "Value::Float(1.5)");
    drop_value(&mut nix, int);
    drop_value(&mut nix, float);
    unchain(&mut nix, ctx, store, state);
}

#[test]
fn cloning_a_path_twice_gives_three_equal_names() {
    let mut nix = Native::new();
    let ctx = new_context(&mut nix).unwrap();
    let store = open_store(&mut nix, &ctx, None).unwrap();
    let path = nix.run(store.store_path(VALID_PATH), PathParse::resume).unwrap();
    let first = nix.run(path.duplicate(), PathClone::resume).unwrap();
    let second = nix.run(path.duplicate(), PathClone::resume).unwrap();
    let names =
        [name(&mut nix, &path).unwrap(), name(&mut nix, &first).unwrap(), name(&mut nix, &second).unwrap()];
    assert_eq!(names, ["test", "test", "test"]);
    assert_eq!(first.context, ctx.handle);
    // the path that was cloned can go first: a clone is an object of its own
    nix.perform(&path.release());
    assert_eq!(name(&mut nix, &second).unwrap(), "test");
    nix.perform(&first.release());
    nix.perform(&second.release());
    nix.perform(&store.release());
    nix.perform(&ctx.release());
    assert!(nix.live.is_empty());
}

#[test]
fn a_thousand_values_made_and_dropped_leave_nothing() {
    let mut nix = Native::new();
    let (ctx, store, state) = chain(&mut nix);
    let before = nix.live.len();
    for _ in 0..1000 {
        let value = eval(&mut nix, &state, "42", "<eval>").unwrap();
        assert_eq!(as_int(&mut nix, &value).unwrap(), 42);
        drop_value(&mut nix, value);
        assert_eq!(nix.live.len(), before);
    }
    for _ in 0..1000 {
        let value = nix.run(state.alloc_value(), AllocValue::resume).unwrap();
        assert_eq!(value_type(&mut nix, &value), ValueType::Thunk);
        drop_value(&mut nix, value);
    }
    assert_eq!(nix.count("nix_alloc_value"), 2000);
    assert_eq!(nix.count("nix_value_decref"), 2000);
    unchain(&mut nix, ctx, store, state);
}

#[test]
fn nix_syntax_quotes_strings_and_not_integers() {
    let mut nix = Native::new();
    let (ctx, store, state) = chain(&mut nix);
    let hello = eval(&mut nix, &state, "\"hello\"", "<eval>").unwrap();
    let int = eval(&mut nix, &state, "42", "<eval>").unwrap();
    let negative = eval(&mut nix, &state, "-17", "<eval>").unwrap();
    assert_eq!(to_nix_string(&mut nix, &hello).unwrap(), "\"hello\"");
    assert_eq!(to_nix_string(&mut nix, &int).unwrap(), "42");
    assert_eq!(to_nix_string(&mut nix, &negative).unwrap(), "-17");
    assert_eq!(debug(&mut nix, &negative), "Value::Int(-17)");
    // every realised string was freed
    assert_eq!(nix.count("nix_string_realise"), 1);
    assert_eq!(nix.count("nix_realised_string_free"), 1);
    for value in [hello, int, negative] {
        drop_value(&mut nix, value);
    }
    unchain(&mut nix, ctx, store, state);
}

#[test]
fn a_failing_library_ends_the_context() {
    for (library, calls) in
        [("nix_libutil_init", 2usize), ("nix_libstore_init", 3), ("nix_libexpr_init", 4)]
    {
        let mut nix = Native::new();
        nix.failing.insert(library, (-2, None));
        assert_eq!(new_context(&mut nix), Err(Error::Overflow));
        // nothing after the failing call but the free
        assert_eq!(nix.log.len(), calls + 1);
        assert_eq!(nix.log.last(), Some(&"nix_c_context_free"));
        assert!(nix.live.is_empty());
    }
}

#[test]
fn a_null_context_is_an_error() {
    let mut nix = Native::new();
    nix.null.push("nix_c_context_create");
    let error = new_context(&mut nix).unwrap_err();
    assert_eq!(error, Error::NullPointer);
    assert_eq!(error.message(), "Null pointer error");
    assert_eq!(nix.log, vec!["nix_c_context_create"]);
}

#[test]
fn store_uri_is_handed_over_or_refused() {
    let mut nix = Native::new();
    let ctx = new_context(&mut nix).unwrap();
    let store = open_store(&mut nix, &ctx, Some("daemon")).unwrap();
    assert_eq!(nix.uri, Some(Some(b"daemon".to_vec())));
    assert_eq!(store.context, ctx.handle);

    let calls = nix.log.len();
    let error = open_store(&mut nix, &ctx, Some("dae\0mon")).unwrap_err();
    match &error {
        Error::StringConversion(nul) => {
            assert_eq!(nul.position, 3);
            assert_eq!(nul.bytes, b"dae\0mon".to_vec());
        },
        other => panic!("another error: {other:?}"),
    }
    assert_eq!(
        error.message(),
        "String conversion error: nul byte found in provided data at position: 3"
    );
    // no call was made for the refused URI
    assert_eq!(nix.log.len(), calls);

    nix.null.push("nix_store_open");
    assert_eq!(open_store(&mut nix, &ctx, None), Err(Error::NullPointer));

    nix.perform(&store.release());
    nix.perform(&ctx.release());
    assert!(nix.live.is_empty());
}

#[test]
fn store_paths_are_parsed_or_refused() {
    let mut nix = Native::new();
    let ctx = new_context(&mut nix).unwrap();
    let store = open_store(&mut nix, &ctx, None).unwrap();

    let invalid = nix.run(StorePath::parse(&ctx, &store, "/nix/store/dummy-path"), PathParse::resume);
    assert_eq!(invalid, Err(Error::NullPointer));

    let calls = nix.log.len();
    let nul = nix.run(store.store_path("/nix/\0store"), PathParse::resume).unwrap_err();
    assert!(matches!(nul, Error::StringConversion(ref e) if e.position == 5));
    assert_eq!(nix.log.len(), calls);

    let path = nix.run(StorePath::parse(&ctx, &store, VALID_PATH), PathParse::resume).unwrap();
    assert_eq!(path.context, ctx.handle);
    assert_eq!(name(&mut nix, &path).unwrap(), "test");
    nix.perform(&path.release());
    nix.perform(&store.release());
    nix.perform(&ctx.release());
    assert!(nix.live.is_empty());
}

#[test]
fn a_path_without_a_name_is_an_error() {
    let path = Handle::new(0x40).unwrap();
    let none = PathName {}.resume(Reply::Bytes(None));
    assert!(matches!(none, Step::Failed(calls, Error::NullPointer) if calls.is_empty()));
    let empty = PathName {}.resume(Reply::Bytes(Some(Vec::new())));
    assert!(matches!(empty, Step::Failed(_, Error::NullPointer)));
    let invalid = PathName {}.resume(Reply::Bytes(Some(vec![0xff, 0xfe])));
    assert!(matches!(invalid, Step::Failed(_, Error::NullPointer)));
    let named = PathName {}.resume(Reply::Bytes(Some("hello-1.0".as_bytes().to_vec())));
    assert!(matches!(named, Step::Done(calls, name) if calls.is_empty() && name == "hello-1.0"));
    let other = PathName {}.resume(Reply::Pointer(Some(path)));
    assert!(matches!(other, Step::Failed(_, Error::Unknown(_))));
}

#[test]
fn realisation_names_its_outputs() {
    let mut nix = Native::new();
    let ctx = new_context(&mut nix).unwrap();
    let store = open_store(&mut nix, &ctx, None).unwrap();
    let path = nix.run(store.store_path(VALID_PATH), PathParse::resume).unwrap();

    let Outputs { list } = nix.run(store.realize(&path), Realise::resume).unwrap();
    let names: Vec<&str> = list.iter().map(|(name, _)| name.as_str()).collect();
    // a null name reads as `out`, bytes that spell no text are read leniently,
    // and an output without a path is left out
    assert_eq!(names, ["out", "out", "d\u{fffd}"]);
    for (_, output) in &list {
        assert_eq!(output.context, ctx.handle);
        assert_eq!(name(&mut nix, output).unwrap(), "test");
    }
    for (_, output) in list {
        nix.perform(&output.release());
    }
    nix.perform(&path.release());
    nix.perform(&store.release());
    nix.perform(&ctx.release());
    assert!(nix.live.is_empty());
}

#[test]
fn a_failed_realisation_frees_the_outputs_it_got() {
    let mut nix = Native::new();
    let ctx = new_context(&mut nix).unwrap();
    let store = open_store(&mut nix, &ctx, None).unwrap();
    let path = nix.run(store.store_path(VALID_PATH), PathParse::resume).unwrap();
    let before = nix.live.len();

    nix.failing.insert("nix_store_realise", (-3, Some(b"no such output".to_vec())));
    let error = nix.run(store.realize(&path), Realise::resume).unwrap_err();
    assert_eq!(error, Error::KeyNotFound("no such output".to_string()));
    assert_eq!(error.message(), "Key not found: no such output");
    assert_eq!(nix.count("nix_store_path_free"), 3);
    assert_eq!(nix.live.len(), before);

    nix.perform(&path.release());
    nix.perform(&store.release());
    nix.perform(&ctx.release());
    assert!(nix.live.is_empty());
}

#[test]
fn a_builder_is_freed_exactly_once() {
    // built
    let mut nix = Native::new();
    let (ctx, store, state) = chain(&mut nix);
    assert_eq!(nix.count("nix_eval_state_builder_free"), 1);
    unchain(&mut nix, ctx, store, state);

    // configuration not loaded
    let mut nix = Native::new();
    let ctx = new_context(&mut nix).unwrap();
    let store = open_store(&mut nix, &ctx, None).unwrap();
    let builder = new_builder(&mut nix, &store).unwrap();
    nix.failing.insert("nix_eval_state_builder_load", (-1, None));
    assert_eq!(build(&mut nix, builder), Err(Error::Unknown("Unknown error".to_string())));
    assert_eq!(nix.count("nix_eval_state_build"), 0);
    assert_eq!(nix.count("nix_eval_state_builder_free"), 1);

    // state not built
    let builder = new_builder(&mut nix, &store).unwrap();
    nix.failing.clear();
    nix.null.push("nix_eval_state_build");
    assert_eq!(build(&mut nix, builder), Err(Error::NullPointer));
    assert_eq!(nix.count("nix_eval_state_builder_free"), 2);

    // never built
    let builder = new_builder(&mut nix, &store).unwrap();
    nix.perform(&builder.release());
    assert_eq!(nix.count("nix_eval_state_builder_free"), 3);

    nix.null.push("nix_eval_state_builder_new");
    assert_eq!(new_builder(&mut nix, &store), Err(Error::NullPointer));

    nix.perform(&store.release());
    nix.perform(&ctx.release());
    assert!(nix.live.is_empty());
}

#[test]
fn evaluation_refuses_nul_bytes_before_any_call() {
    let mut nix = Native::new();
    let (ctx, store, state) = chain(&mut nix);
    let calls = nix.log.len();
    let in_expr = eval(&mut nix, &state, "1 +\0 2", "<eval>").unwrap_err();
    assert!(matches!(in_expr, Error::StringConversion(ref e) if e.position == 3));
    let in_path = eval(&mut nix, &state, "1 + 2", "\0").unwrap_err();
    assert!(matches!(in_path, Error::StringConversion(ref e) if e.position == 0));
    // the expression is looked at first
    let in_both = eval(&mut nix, &state, "\0", "ab\0").unwrap_err();
    assert!(matches!(in_both, Error::StringConversion(ref e) if e.position == 0 && e.bytes == [0]));
    assert_eq!(nix.log.len(), calls);

    nix.null.push("nix_alloc_value");
    assert_eq!(eval(&mut nix, &state, "1 + 2", "<eval>"), Err(Error::NullPointer));
    assert_eq!(nix.count("nix_expr_eval_from_string"), 0);
    assert!(matches!(nix.run(state.alloc_value(), AllocValue::resume), Err(Error::NullPointer)));
    unchain(&mut nix, ctx, store, state);
}

#[test]
fn forcing_hands_on_the_evaluators_message() {
    let mut nix = Native::new();
    let (ctx, store, state) = chain(&mut nix);
    let mut value = eval(&mut nix, &state, "42", "<eval>").unwrap();
    nix.failing.insert("nix_value_force", (-4, Some(b"error: infinite recursion".to_vec())));
    nix.failing.insert("nix_value_force_deep", (-4, None));
    let error = nix.run(value.force(), Force::resume).unwrap_err();
    assert_eq!(error, Error::EvalError("error: infinite recursion".to_string()));
    assert_eq!(error.message(), "Evaluation error: error: infinite recursion");
    assert_eq!(
        nix.run(value.force_deep(), Force::resume),
        Err(Error::EvalError("Evaluation error".to_string()))
    );
    drop_value(&mut nix, value);
    unchain(&mut nix, ctx, store, state);
}

#[test]
fn a_string_that_is_no_text_is_an_error_and_is_freed() {
    let mut nix = Native::new();
    let (ctx, store, state) = chain(&mut nix);
    let value = eval(&mut nix, &state, "\"\\xff\"", "<eval>").unwrap();
    let error = as_string(&mut nix, &value).unwrap_err();
    assert_eq!(error, Error::Unknown("Invalid UTF-8 in string".to_string()));
    assert_eq!(error.message(), "Unknown error: Invalid UTF-8 in string");
    assert_eq!(nix.count("nix_realised_string_free"), 1);

    assert_eq!(to_nix_string(&mut nix, &value), Err(Error::Unknown("Invalid UTF-8 in string".to_string())));
    assert_eq!(display(&mut nix, &value), "<string error>");
    assert_eq!(debug(&mut nix, &value), "Value::String(<error>)");
    assert_eq!(nix.count("nix_realised_string_free"), 4);

    nix.null.push("nix_realised_string_get_buffer_start");
    assert_eq!(as_string(&mut nix, &value), Err(Error::NullPointer));
    assert_eq!(nix.count("nix_realised_string_free"), 5);

    nix.null.push("nix_string_realise");
    assert_eq!(as_string(&mut nix, &value), Err(Error::NullPointer));
    assert_eq!(display(&mut nix, &value), "<string error>");
    assert_eq!(nix.count("nix_realised_string_free"), 5);

    drop_value(&mut nix, value);
    unchain(&mut nix, ctx, store, state);
}

#[test]
fn a_reply_of_another_shape_is_an_error() {
    let context = Handle::new(0x10).unwrap();
    let unexpected = Error::Unknown("Unexpected reply from the native layer".to_string());
    let step = ContextNew::Create.resume(Reply::Int(7));
    assert!(matches!(step, Step::Failed(calls, e) if calls.is_empty() && e == unexpected));
    let step = ContextNew::Util(context).resume(Reply::Nothing);
    assert!(matches!(
        step,
        Step::Failed(calls, e) if calls == [Call::ContextFree { context }] && e == unexpected
    ));
    let step = AsInt::Int.resume(Reply::Bool(true));
    assert!(matches!(step, Step::Failed(_, e) if e == unexpected));
    let step = Render::Int(nix_bindings::render::Style::Display).resume(Reply::Bool(true));
    assert!(matches!(step, Step::Done(_, text) if text == "<int error>"));
    let step = Render::Bool(nix_bindings::render::Style::Debug).resume(Reply::Nothing);
    assert!(matches!(step, Step::Done(_, text) if text == "Value::Bool(<error>)"));
    let step = Render::Float(nix_bindings::render::Style::Display).resume(Reply::Nothing);
    assert!(matches!(step, Step::Done(_, text) if text == "<float error>"));
    // a reply without a tag reads as a thunk
    let step = TypeQuery {}.resume(Reply::Nothing);
    assert!(matches!(step, Step::Done(_, ValueType::Thunk)));
}

#[test]
fn lib_test_store_opening() {
    let mut nix = Native::new();
    let store = nix
        .run(nix_bindings::lix::Store::open(), nix_bindings::lix::StoreOpen::resume)
        .expect("Failed to open store");
    assert_eq!(nix.log, vec!["lix_wrapper_init", "lix_wrapper_open_store"]);
    nix.perform(&store.release());
    assert!(nix.live.is_empty());
}

#[test]
fn test_parse_store_path() {
    let mut nix = Native::new();
    let store = nix
        .run(nix_bindings::lix::Store::open(), nix_bindings::lix::StoreOpen::resume)
        .expect("Failed to open store");

    let path = nix
        .run(store.parse_store_path("/nix/store/test"), nix_bindings::lix::PathParse::resume)
        .expect("Failed to parse path");

    nix.perform(&path.release());
    nix.perform(&store.release());
    assert!(nix.live.is_empty());
}

#[test]
fn lix_builds_or_says_that_the_build_failed() {
    let mut nix = Native::new();
    let store =
        nix.run(nix_bindings::lix::Store::open(), nix_bindings::lix::StoreOpen::resume).unwrap();
    let path = nix
        .run(store.parse_store_path("/nix/store/test"), nix_bindings::lix::PathParse::resume)
        .unwrap();
    assert_eq!(nix.run(store.build_path(&path), nix_bindings::lix::PathBuild::resume), Ok(()));
    nix.failing.insert("lix_wrapper_build_path", (1, None));
    let error = nix.run(store.build_path(&path), nix_bindings::lix::PathBuild::resume).unwrap_err();
    assert_eq!(error, Error::Unknown("Build failed".to_string()));
    assert_eq!(error.message(), "Unknown error: Build failed");

    let calls = nix.log.len();
    let nul = nix.run(store.parse_store_path("a\0"), nix_bindings::lix::PathParse::resume);
    assert!(matches!(nul, Err(Error::StringConversion(ref e)) if e.position == 1));
    assert_eq!(nix.log.len(), calls);
    nix.null.push("lix_wrapper_parse_store_path");
    assert_eq!(
        nix.run(store.parse_store_path("/nix/store/test"), nix_bindings::lix::PathParse::resume),
        Err(Error::NullPointer)
    );
    nix.null.push("lix_wrapper_open_store");
    assert!(matches!(
        nix.run(nix_bindings::lix::Store::open(), nix_bindings::lix::StoreOpen::resume),
        Err(Error::NullPointer)
    ));

    nix.perform(&path.release());
    nix.perform(&store.release());
    assert!(nix.live.is_empty());
}

#[test]
fn eval_eval_simple_expression() {
    let mut nix = Native::new();
    let (ctx, store, state) = chain(&mut nix);

    // Evaluate a simple integer expression
    let mut value = eval(&mut nix, &state, "1 + 2", "<eval>").expect("evaluation failed");
    assert_eq!(nix.count("nix_expr_eval_from_string"), 1);

    // Force the value (should not be a thunk)
    assert_eq!(nix.run(value.force(), Force::resume), Ok(()));
    assert_ne!(value_type(&mut nix, &value), ValueType::Thunk);

    drop_value(&mut nix, value);
    unchain(&mut nix, ctx, store, state);
}

#[test]
fn store_parse_and_clone_free_store_path() {
    let mut nix = Native::new();
    let ctx = new_context(&mut nix).unwrap();
    let store = open_store(&mut nix, &ctx, None).unwrap();

    // a path that is not well formed gives no object, and nothing to free
    let dummy = nix.run(StorePath::parse(&ctx, &store, "/nix/store/dummy-path"), PathParse::resume);
    assert_eq!(dummy, Err(Error::NullPointer));

    let path = nix.run(StorePath::parse(&ctx, &store, VALID_PATH), PathParse::resume).unwrap();
    // Clone and free
    let cloned = nix.run(path.duplicate(), PathClone::resume).unwrap();
    assert!(cloned.handle.addr() != 0);
    nix.perform(&cloned.release());
    nix.perform(&path.release());

    nix.perform(&store.release());
    nix.perform(&ctx.release());
    assert!(nix.live.is_empty());
}

#[test]
fn store_path_name() {
    let mut nix = Native::new();
    let ctx = new_context(&mut nix).unwrap();
    let store = open_store(&mut nix, &ctx, None).unwrap();
    let path = nix
        .run(
            store.store_path("/nix/store/0123456789abcdfghijklmnpqrsvwxyz-hello-1.0"),
            PathParse::resume,
        )
        .unwrap();
    assert_eq!(name(&mut nix, &path).unwrap(), "hello-1.0");
    nix.perform(&path.release());
    nix.perform(&store.release());
    nix.perform(&ctx.release());
    assert!(nix.live.is_empty());
}

#[test]
fn error_handling_invalid_expression() {
    let mut nix = Native::new();
    let (ctx, store, state) = chain(&mut nix);
    let before = nix.live.len();
    let result = eval(&mut nix, &state, "this is not valid nix", "<eval>");
    assert!(matches!(result, Err(Error::EvalError(_))));
    assert_eq!(nix.live.len(), before);
    unchain(&mut nix, ctx, store, state);
}

#[test]
fn a_chain_is_released_in_the_order_of_its_dependencies() {
    let mut nix = Native::new();
    let (ctx, store, state) = chain(&mut nix);
    let value = eval(&mut nix, &state, "42", "<eval>").unwrap();
    // every owner names what it stands under
    assert_eq!(store.context, ctx.handle);
    assert_eq!((state.store, state.context), (store.handle, ctx.handle));
    assert_eq!(value.state.handle, state.handle);
    // the native layer of the tests panics where anything is freed before
    // what stands under it
    drop_value(&mut nix, value);
    nix.perform(&state.release());
    nix.perform(&store.release());
    nix.perform(&ctx.release());
    assert!(nix.live.is_empty());
    assert_eq!(
        nix.log[nix.log.len() - 4..],
        ["nix_value_decref", "nix_state_free", "nix_store_free", "nix_c_context_free"]
    );
}
