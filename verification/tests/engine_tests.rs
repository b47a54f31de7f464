use debot_engine::engine::{
    BrowserCallbacks, CallService, RoutineRegistry, DEngine, TonAddr, KeyPair, ServiceError,
    RunOutput, EncodedMessage, DecodedBody, load_ton_address, decode_follow_ups,
};
use debot_engine::value::Json;
use debot_engine::state::StateId;
use debot_engine::action::{DAction, ActionKind, ActionAttrs};
use debot_engine::routines::get_balance;
use debot_engine::state::resolve;

const SELF_ADDR: &str = "0:0123456789abcdef0123456789abcdef0123456789abcdef0123456789abcdef";

fn jstr(s: &str) -> Json {
    Json::Str(s.to_string())
}

fn jobj(pairs: Vec<(&str, Json)>) -> Json {
    Json::Obj(pairs.into_iter().map(|(k, v)| (k.to_string(), v)).collect())
}

fn version_output() -> Json {
    jobj(vec![("name", jstr("74657374")), ("semver", jstr("0x010203"))])
}

fn options_quiet() -> Json {
    jobj(vec![("options", jstr("0x0"))])
}

struct MockBrowser {
    logs: Vec<String>,
    switches: Vec<StateId>,
    shown: Vec<String>,
    input_value: String,
    panic_on_input: bool,
}

impl MockBrowser {
    fn new() -> MockBrowser {
        MockBrowser {
            logs: Vec::new(),
            switches: Vec::new(),
            shown: Vec::new(),
            input_value: String::new(),
            panic_on_input: false,
        }
    }
}

impl BrowserCallbacks for MockBrowser {
    fn switch(&mut self, ctx_id: StateId) {
        self.switches.push(ctx_id);
    }
    fn log(&mut self, msg: String) {
        self.logs.push(msg);
    }
    fn show_action(&mut self, act: DAction) {
        self.shown.push(act.name);
    }
    fn input(&mut self, _prompt: &str) -> String {
        if self.panic_on_input {
            panic!("input must not be requested");
        }
        self.input_value.clone()
    }
    fn load_key(&mut self) -> KeyPair {
        KeyPair { public: String::new(), secret: String::new() }
    }
    fn invoke_debot(&mut self, _debot: TonAddr, _action: DAction) -> Result<(), String> {
        Ok(())
    }
}

type JsonFn = fn() -> Json;

struct MockService {
    calls: Vec<(String, String)>,
    decode_bodies: Vec<Vec<u8>>,
    run_outputs: Vec<(String, JsonFn)>,
    fail_funcs: Vec<String>,
    decode_fails: bool,
    balances: Vec<String>,
}

impl MockService {
    fn new() -> MockService {
        MockService {
            calls: Vec::new(),
            decode_bodies: Vec::new(),
            run_outputs: Vec::new(),
            fail_funcs: Vec::new(),
            decode_fails: false,
            balances: Vec::new(),
        }
    }
}

impl CallService for MockService {
    fn run_local(
        &mut self,
        _addr: &TonAddr,
        _state: Option<&Json>,
        _abi: &str,
        func: &str,
        args: &Json,
        _emulate: bool,
    ) -> Result<RunOutput, ServiceError> {
        self.calls.push((func.to_string(), args.to_text()));
        if self.fail_funcs.iter().any(|f| f == func) {
            return Err(ServiceError::Other("boom".to_string()));
        }
        if func == "getVersion" {
            return Ok(RunOutput { output: version_output(), account: Some(Json::Null) });
        }
        if func == "getDebotOptions" {
            return Ok(RunOutput { output: options_quiet(), account: Some(Json::Null) });
        }
        for (name, f) in &self.run_outputs {
            if name == func {
                return Ok(RunOutput { output: f(), account: Some(Json::Null) });
            }
        }
        Ok(RunOutput { output: Json::Null, account: Some(Json::Null) })
    }

    fn create_message(
        &mut self,
        _addr: &TonAddr,
        _abi: &str,
        _func: &str,
        _args: &Json,
        _keys: Option<&KeyPair>,
    ) -> Result<EncodedMessage, ServiceError> {
        Ok(EncodedMessage { message_id: "m1".to_string(), body: Vec::new() })
    }

    fn attach_state(&mut self, msg: EncodedMessage, _state: Vec<u8>) -> Result<
        EncodedMessage,
        String,
    > {
        Ok(msg)
    }

    fn decode_input_body(&mut self, _abi: &str, body: &Vec<u8>) -> Result<
        DecodedBody,
        ServiceError,
    > {
        self.decode_bodies.push(body.clone());
        if self.decode_fails {
            return Err(ServiceError::Other("no such function".to_string()));
        }
        Ok(DecodedBody { function: "transfer".to_string(), args: Json::Null })
    }

    fn submit_message(
        &mut self,
        _msg: EncodedMessage,
        _abi: &str,
        _func: &str,
    ) -> Result<Json, ServiceError> {
        Ok(Json::Null)
    }

    fn query_accounts(&mut self, _filter: &Json, _fields: &str) -> Result<Vec<Json>, ServiceError> {
        Ok(self
            .balances
            .iter()
            .map(|b| jobj(vec![("balance", jstr(b))]))
            .collect())
    }
}

struct NoRoutines;

impl RoutineRegistry for NoRoutines {
    fn invoke_routine(&mut self, _name: &str, _args: &str, _keys: Option<KeyPair>) -> Result<
        String,
        String,
    > {
        Err("routine not found".to_string())
    }
}

fn attrs(text: &str) -> ActionAttrs {
    debot_engine::action::parse_attrs(text)
}

fn action(name: &str, kind: ActionKind, to: StateId, attrs_text: &str, misc: &str) -> DAction {
    DAction {
        name: name.to_string(),
        desc: String::new(),
        to,
        kind,
        misc: misc.to_string(),
        attrs: attrs(attrs_text),
    }
}

const EMPTY_CELL: &str = "te6ccgEBAQEAAgAAAA==";

fn make_engine(ton: MockService) -> DEngine<MockBrowser, MockService, NoRoutines> {
    let addr = load_ton_address(SELF_ADDR).unwrap();
    DEngine::new_with_client(addr, Some("{}".to_string()), ton, MockBrowser::new(), NoRoutines)
}

fn hello_contexts() -> Json {
    jobj(vec![(
        "contexts",
        Json::Arr(vec![jobj(vec![
            ("id", Json::Int(0)),
            ("desc", jstr("greeting context")),
            (
                "actions",
                Json::Arr(vec![jobj(vec![
                    ("name", jstr("Hello")),
                    ("actionType", Json::Int(5)),
                    ("to", Json::Int(0)),
                    ("attrs", jstr("instant")),
                ])]),
            ),
        ])]),
    )])
}

#[test]
fn start_enters_zero_and_logs_hello() {
    let mut svc = MockService::new();
    svc.run_outputs.push(("fetch".to_string(), hello_contexts as JsonFn));
    let mut engine = make_engine(svc);
    engine.start().unwrap();
    assert_eq!(engine.curr_state, StateId::Id(0));
    let hellos = engine.browser.logs.iter().filter(|l| l.as_str() == "Hello").count();
    assert_eq!(hellos, 1);
    assert_eq!(engine.browser.switches, vec![StateId::Id(0)]);
}

fn interactive_contexts() -> Json {
    jobj(vec![(
        "contexts",
        Json::Arr(vec![
            jobj(vec![
                ("id", Json::Int(0)),
                ("desc", jstr("first")),
                (
                    "actions",
                    Json::Arr(vec![jobj(vec![
                        ("name", jstr("choose me")),
                        ("actionType", Json::Int(6)),
                        ("to", Json::Int(1)),
                    ])]),
                ),
            ]),
            jobj(vec![("id", Json::Int(1)), ("desc", jstr("second")), ("actions", Json::Arr(
                Vec::new(),
            ))]),
        ]),
    )])
}

#[test]
fn interactive_action_is_presented_not_run() {
    let mut svc = MockService::new();
    svc.run_outputs.push(("fetch".to_string(), interactive_contexts as JsonFn));
    let mut engine = make_engine(svc);
    engine.start().unwrap();
    assert_eq!(engine.browser.shown, vec!["choose me".to_string()]);
    assert_eq!(engine.curr_state, StateId::Id(0));
}

#[test]
fn execute_goto_moves_to_declared_target() {
    let mut svc = MockService::new();
    svc.run_outputs.push(("fetch".to_string(), interactive_contexts as JsonFn));
    let mut engine = make_engine(svc);
    engine.start().unwrap();
    let act = action("choose me", ActionKind::Goto, StateId::Id(1), "", EMPTY_CELL);
    engine.execute_action(&act).unwrap();
    assert_eq!(engine.curr_state, StateId::Id(1));
    assert_eq!(engine.prev_state, StateId::Id(0));
}

fn sendmsg_output() -> Json {
    jobj(vec![("dest", jstr(SELF_ADDR)), ("body", jstr("aGk="))])
}

#[test]
fn sendmsg_decode_failure_falls_back() {
    let mut svc = MockService::new();
    svc.run_outputs.push(("fetch".to_string(), interactive_contexts as JsonFn));
    svc.run_outputs.push(("send1".to_string(), sendmsg_output as JsonFn));
    svc.decode_fails = true;
    let mut engine = make_engine(svc);
    engine.start().unwrap();
    let act = action("send1", ActionKind::SendMsg, StateId::Id(1), "", EMPTY_CELL);
    engine.execute_action(&act).unwrap();
    // the body reached the decoder base64-decoded
    assert_eq!(engine.ton.decode_bodies, vec![b"hi".to_vec()]);
    // the failure was logged and the declared target was never entered
    assert!(engine
        .browser
        .logs
        .iter()
        .any(|l| l.starts_with("Action failed: failed to decode msg body")));
    assert_ne!(engine.curr_state, StateId::Id(1));
}

#[test]
fn misc_value_is_passed_through_without_prompting() {
    let svc = MockService::new();
    let mut engine = make_engine(svc);
    engine.browser.panic_on_input = true;
    let act = action("act1", ActionKind::RunAction, StateId::Id(0), "", "te6MISC");
    let args = engine.query_action_args(&act).unwrap().unwrap();
    assert_eq!(args.to_text(), "{\"misc\":\"te6MISC\"}");
    // through the dispatcher, the same document reaches the call verbatim
    engine.execute_action(&act).unwrap();
    assert!(engine
        .ton
        .calls
        .iter()
        .any(|(f, a)| f == "act1" && a == "{\"misc\":\"te6MISC\"}"));
}

#[test]
fn empty_misc_prompts_declared_inputs() {
    let svc = MockService::new();
    let addr = load_ton_address(SELF_ADDR).unwrap();
    let abi = "{\"functions\":[{\"name\":\"act1\",\"inputs\":[{\"name\":\"x\",\"type\":\"bytes\"}]}]}";
    let mut engine = DEngine::new_with_client(
        addr,
        Some(abi.to_string()),
        svc,
        MockBrowser::new(),
        NoRoutines,
    );
    engine.browser.input_value = "AB".to_string();
    let act = action("act1", ActionKind::RunAction, StateId::Id(0), "", EMPTY_CELL);
    let args = engine.query_action_args(&act).unwrap().unwrap();
    assert_eq!(args.to_text(), "{\"x\":\"4142\"}");
}

#[test]
fn option_bit_sets_target_address_only() {
    let svc = MockService::new();
    let mut engine = make_engine(svc);
    let other = "0:aaaaaaaaaaaaaaaaaaaaaaaaaaaaaaaaaaaaaaaaaaaaaaaaaaaaaaaaaaaaaaaa";
    let output = jobj(vec![("options", jstr("0x4")), ("targetAddr", jstr(other))]);
    engine.apply_options(&output).unwrap();
    assert_eq!(engine.target_addr.as_ref().unwrap().text, other);
    assert!(engine.target_abi.is_none());
    assert_eq!(engine.abi, "{}");
}

#[test]
fn option_bit_replaces_self_abi() {
    let svc = MockService::new();
    let mut engine = make_engine(svc);
    // "7b7d" is the hex encoding of "{}" — here of a fresh interface text
    let output = jobj(vec![("options", jstr("0x1")), ("debotAbi", jstr("7b2261223a317d"))]);
    engine.apply_options(&output).unwrap();
    assert_eq!(engine.abi, "{\"a\":1}");
    assert!(engine.target_addr.is_none());
    assert!(engine.target_abi.is_none());
}

fn error_desc_output() -> Json {
    jobj(vec![("desc", jstr("626f6f6d"))])
}

#[test]
fn contract_exception_uses_decoded_description() {
    let mut svc = MockService::new();
    svc.run_outputs.push(("getErrorDescription".to_string(), error_desc_output as JsonFn));
    let mut engine = make_engine(svc);
    let err = ServiceError::Inner {
        message: "raw inner".to_string(),
        code: 3025,
        data: jobj(vec![("exit_code", Json::Int(7))]),
    };
    assert_eq!(engine.handle_sdk_err(err), "boom");
}

#[test]
fn contract_exception_falls_back_to_inner_message() {
    let mut svc = MockService::new();
    svc.fail_funcs.push("getErrorDescription".to_string());
    let mut engine = make_engine(svc);
    let err = ServiceError::Inner {
        message: "raw inner".to_string(),
        code: 3025,
        data: jobj(vec![("exit_code", Json::Int(7))]),
    };
    assert_eq!(engine.handle_sdk_err(err), "raw inner");
}

#[test]
fn wrong_format_is_rewritten() {
    let svc = MockService::new();
    let mut engine = make_engine(svc);
    let err = ServiceError::Inner {
        message: "call failed: Wrong data format in x".to_string(),
        code: 1,
        data: Json::Null,
    };
    assert_eq!(engine.handle_sdk_err(err), "invalid parameter");
    let other = ServiceError::Other("plain".to_string());
    assert_eq!(engine.handle_sdk_err(other), "plain");
}

#[test]
fn balance_lookup_reads_first_record() {
    let mut svc = MockService::new();
    svc.balances.push("100".to_string());
    let arg = format!("{{\"addr\":\"{}\"}}", SELF_ADDR);
    assert_eq!(get_balance(&mut svc, &arg).unwrap(), "100");
    assert!(get_balance(&mut svc, "not json").is_err());
    let mut empty = MockService::new();
    assert!(get_balance(&mut empty, &arg).is_err());
}

#[test]
fn version_renders_fetched_document() {
    let svc = MockService::new();
    let mut engine = make_engine(svc);
    let v = engine.version().unwrap();
    assert_eq!(v, "{\"name\":\"74657374\",\"semver\":\"0x010203\"}");
}

#[test]
fn sentinel_resolution_concrete() {
    let c = StateId::Id(3);
    let p = StateId::Id(9);
    assert_eq!(resolve(StateId::Current, c, p), c);
    assert_eq!(resolve(StateId::Prev, c, p), p);
    assert_eq!(resolve(StateId::Id(7), c, p), StateId::Id(7));
    assert_eq!(resolve(StateId::Exit, c, p), StateId::Exit);
}

fn chained_contexts() -> Json {
    let instant_goto = |to: i64| {
        jobj(vec![
            ("name", jstr("hop")),
            ("actionType", Json::Int(6)),
            ("to", Json::Int(to)),
            ("attrs", jstr("instant")),
        ])
    };
    jobj(vec![(
        "contexts",
        Json::Arr(vec![
            jobj(vec![
                ("id", Json::Int(0)),
                ("desc", jstr("hop off")),
                ("actions", Json::Arr(vec![instant_goto(1)])),
            ]),
            jobj(vec![("id", Json::Int(1)), ("desc", jstr("landed")), ("actions", Json::Arr(
                Vec::new(),
            ))]),
        ]),
    )])
}

#[test]
fn instant_action_chains_into_next_context() {
    let mut svc = MockService::new();
    svc.run_outputs.push(("fetch".to_string(), chained_contexts as JsonFn));
    let mut engine = make_engine(svc);
    engine.start().unwrap();
    assert_eq!(engine.curr_state, StateId::Id(1));
    assert!(engine.browser.logs.iter().any(|l| l == "landed"));
    assert_eq!(engine.browser.switches, vec![StateId::Id(0), StateId::Id(1)]);
}

fn cyclic_contexts() -> Json {
    let instant_goto = |name: &str, to: i64| {
        jobj(vec![
            ("name", jstr(name)),
            ("actionType", Json::Int(6)),
            ("to", Json::Int(to)),
            ("attrs", jstr("instant")),
        ])
    };
    jobj(vec![(
        "contexts",
        Json::Arr(vec![
            jobj(vec![
                ("id", Json::Int(0)),
                ("desc", jstr("ping")),
                ("actions", Json::Arr(vec![instant_goto("to one", 1)])),
            ]),
            jobj(vec![
                ("id", Json::Int(1)),
                ("desc", jstr("pong")),
                ("actions", Json::Arr(vec![instant_goto("to zero", 0)])),
            ]),
        ]),
    )])
}

#[test]
fn cyclic_instant_transitions_fail_loudly() {
    let mut svc = MockService::new();
    svc.run_outputs.push(("fetch".to_string(), cyclic_contexts as JsonFn));
    let mut engine = make_engine(svc);
    let err = engine.start().unwrap_err();
    assert_eq!(err, "instant transition chain too long");
}

#[test]
fn missing_context_is_reported_and_state_reverts() {
    let mut svc = MockService::new();
    svc.run_outputs.push(("fetch".to_string(), interactive_contexts as JsonFn));
    let mut engine = make_engine(svc);
    engine.start().unwrap();
    let prev_before = engine.prev_state;
    let act = action("leap", ActionKind::Goto, StateId::Id(9), "", EMPTY_CELL);
    engine.execute_action(&act).unwrap();
    // the missing target is logged, and the session stays on the last
    // successfully entered context
    assert_eq!(engine.curr_state, StateId::Id(0));
    assert_eq!(engine.prev_state, prev_before);
    assert!(engine
        .browser
        .logs
        .iter()
        .any(|l| l == "Debot context #9 not found. Exit."));
}

fn fmt_params() -> Json {
    jobj(vec![("param0", jstr("Bob"))])
}

#[test]
fn print_action_renders_template_from_fargs() {
    let mut svc = MockService::new();
    svc.run_outputs.push(("fetch".to_string(), interactive_contexts as JsonFn));
    svc.run_outputs.push(("getFmt".to_string(), fmt_params as JsonFn));
    let mut engine = make_engine(svc);
    engine.start().unwrap();
    let act = action("Hi {}", ActionKind::Print, StateId::Id(0), "fargs=getFmt", EMPTY_CELL);
    engine.execute_action(&act).unwrap();
    assert!(engine.browser.logs.iter().any(|l| l == "Hi Bob"));
}

struct ConvertRoutines;

impl RoutineRegistry for ConvertRoutines {
    fn invoke_routine(&mut self, name: &str, args: &str, _keys: Option<KeyPair>) -> Result<
        String,
        String,
    > {
        if name == "convertTokens" {
            debot_engine::routines::convert_string_to_tokens(args)
        } else {
            Err("routine not found".to_string())
        }
    }
}

#[test]
fn call_engine_routes_result_to_setter() {
    let svc = MockService::new();
    let addr = load_ton_address(SELF_ADDR).unwrap();
    let mut engine = DEngine::new_with_client(
        addr,
        Some("{}".to_string()),
        svc,
        MockBrowser::new(),
        ConvertRoutines,
    );
    let mut act = action("convertTokens", ActionKind::CallEngine, StateId::Id(0), "func=setRes",
        EMPTY_CELL);
    act.desc = "1.5".to_string();
    let follow = engine.handle_action(&act).unwrap();
    assert!(follow.is_none());
    assert!(engine
        .ton
        .calls
        .iter()
        .any(|(f, a)| f == "setRes" && a == "{\"arg1\":\"1500000000\"}"));
}

fn method_output() -> Json {
    jobj(vec![("value0", jstr("0x2a"))])
}

#[test]
fn get_method_feeds_result_handler() {
    let mut svc = MockService::new();
    svc.run_outputs.push(("getX".to_string(), method_output as JsonFn));
    let mut engine = make_engine(svc);
    engine.target_addr = Some(load_ton_address(SELF_ADDR).unwrap());
    engine.target_abi = Some("{}".to_string());
    let act = action("onX", ActionKind::RunMethod, StateId::Id(0), "func=getX", EMPTY_CELL);
    let follow = engine.handle_action(&act).unwrap();
    assert!(follow.is_none());
    assert!(engine
        .ton
        .calls
        .iter()
        .any(|(f, a)| f == "onX" && a == "{\"value0\":\"0x2a\"}"));
}

#[test]
fn switching_with_sentinels_lands_where_stated() {
    let mut svc = MockService::new();
    svc.run_outputs.push(("fetch".to_string(), interactive_contexts as JsonFn));
    let mut engine = make_engine(svc);
    engine.start().unwrap();
    engine.switch_state(StateId::Id(1), false).unwrap();
    assert_eq!(engine.curr_state, StateId::Id(1));
    assert_eq!(engine.prev_state, StateId::Id(0));
    // the previous-state sentinel lands on what was previous before the call
    engine.switch_state(StateId::Prev, false).unwrap();
    assert_eq!(engine.curr_state, StateId::Id(0));
    // the current-state sentinel without force leaves everything in place
    engine.switch_state(StateId::Current, false).unwrap();
    assert_eq!(engine.curr_state, StateId::Id(0));
}

#[test]
fn get_method_without_target_fails() {
    let svc = MockService::new();
    let mut engine = make_engine(svc);
    let act = action("onX", ActionKind::RunMethod, StateId::Id(0), "func=getX", EMPTY_CELL);
    let err = match engine.handle_action(&act) {
        Err(e) => e,
        Ok(_) => panic!("expected failure"),
    };
    assert_eq!(err, "target address is undefined");
}

#[test]
fn unsupported_action_always_fails() {
    let svc = MockService::new();
    let mut engine = make_engine(svc);
    let act = action("??", ActionKind::Unsupported, StateId::Id(0), "", EMPTY_CELL);
    let err = match engine.handle_action(&act) {
        Err(e) => e,
        Ok(_) => panic!("expected failure"),
    };
    assert_eq!(err, "unsupported action type");
    assert!(engine.browser.logs.iter().any(|l| l == "unsupported action type"));
}

#[test]
fn bad_option_mask_changes_nothing() {
    let svc = MockService::new();
    let mut engine = make_engine(svc);
    let output = jobj(vec![("options", jstr("zz"))]);
    assert!(engine.apply_options(&output).is_err());
    assert_eq!(engine.abi, "{}");
    assert!(engine.target_addr.is_none());
    assert!(engine.target_abi.is_none());
}

#[test]
fn version_line_renders_name_and_triple() {
    let line = debot_engine::engine::version_line(&version_output()).unwrap();
    assert_eq!(line, "test, version 1.2.3");
    assert!(debot_engine::engine::version_line(&jobj(vec![("name", jstr("zz"))])).is_err());
}

#[test]
fn sendmsg_plan_chooses_target_abi() {
    let other = "0:aaaaaaaaaaaaaaaaaaaaaaaaaaaaaaaaaaaaaaaaaaaaaaaaaaaaaaaaaaaaaaaa";
    let out = jobj(vec![("dest", jstr(other)), ("body", jstr("aGk="))]);
    let self_addr = load_ton_address(SELF_ADDR).unwrap();
    let self_abi = "{}".to_string();
    let plan = debot_engine::engine::plan_sendmsg(
        &out,
        &self_addr,
        &self_abi,
        &Some("TARGET".to_string()),
    )
    .unwrap();
    assert_eq!(plan.abi, "TARGET");
    assert_eq!(plan.dest.text, other);
    assert_eq!(plan.body, b"hi".to_vec());
    assert!(plan.state.is_none());
    // without a configured target interface the plan fails
    assert!(debot_engine::engine::plan_sendmsg(&out, &self_addr, &self_abi, &None).is_err());
}

#[test]
fn follow_up_decoding_cases() {
    assert!(decode_follow_ups(&Json::Null).unwrap().is_none());
    assert!(decode_follow_ups(&jobj(vec![("x", jstr("y"))])).unwrap().is_none());
    let good = jobj(vec![(
        "actions",
        Json::Arr(vec![jobj(vec![
            ("name", jstr("next")),
            ("actionType", Json::Int(6)),
            ("to", Json::Int(2)),
        ])]),
    )]);
    let acts = decode_follow_ups(&good).unwrap().unwrap();
    assert_eq!(acts.len(), 1);
    assert_eq!(acts[0].name, "next");
    assert_eq!(acts[0].to, StateId::Id(2));
    let bad = jobj(vec![("actions", jstr("nope"))]);
    assert!(decode_follow_ups(&bad).is_err());
}

fn zeroless_contexts() -> Json {
    jobj(vec![(
        "contexts",
        Json::Arr(vec![jobj(vec![("id", Json::Int(5)), ("desc", jstr("only five")), (
            "actions",
            Json::Arr(Vec::new()),
        )])]),
    )])
}

#[test]
fn start_without_initial_context_reverts_to_exit() {
    let mut svc = MockService::new();
    svc.run_outputs.push(("fetch".to_string(), zeroless_contexts as JsonFn));
    let mut engine = make_engine(svc);
    engine.start().unwrap();
    // no context bears the initial id, so the session never leaves the
    // exit sentinel
    assert_eq!(engine.curr_state, StateId::Exit);
    assert!(engine
        .browser
        .logs
        .iter()
        .any(|l| l == "Debot context #0 not found. Exit."));
}
