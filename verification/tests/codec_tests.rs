use debot_engine::routines::{format_string, convert_string_to_tokens};
use debot_engine::codec::str_hex_to_utf8;
use debot_engine::value::Json;
use debot_engine::state::StateId;
use debot_engine::action::{parse_attrs, parse_action, ActionKind};
use debot_engine::engine::load_ton_address;

fn params(pairs: Vec<(&str, &str)>) -> Json {
    Json::Obj(pairs.into_iter().map(|(k, v)| (k.to_string(), Json::Str(v.to_string()))).collect())
}

#[test]
fn format_without_placeholder_is_identity() {
    let p = params(vec![("param0", "unused")]);
    assert_eq!(format_string("Hello, world", &p), "Hello, world");
    assert_eq!(format_string("", &p), "");
}

#[test]
fn format_param_field() {
    let p = params(vec![("param0", "alice"), ("param1", "bob")]);
    assert_eq!(format_string("{} meets {}", &p), "alice meets bob");
}

#[test]
fn format_str_field_decodes_hex_utf8() {
    let p = params(vec![("str0", "68656c6c6f")]);
    assert_eq!(format_string("say {}", &p), "say hello");
}

#[test]
fn format_str_field_empty_on_bad_hex() {
    let p = params(vec![("str0", "zz")]);
    assert_eq!(format_string("say {}", &p), "say ");
}

#[test]
fn format_number_field_renders_decimal() {
    let p = params(vec![("number0", "0x2a")]);
    assert_eq!(format_string("n = {}", &p), "n = 42");
}

#[test]
fn format_utime_zero_renders_undefined() {
    let p = params(vec![("utime0", "0x00000000")]);
    assert_eq!(format_string("{}", &p), "undefined");
}

#[test]
fn format_utime_nonzero_renders_date() {
    let p = params(vec![("utime0", "0x5f5e1000")]);
    let out = format_string("{}", &p);
    assert!(!out.is_empty());
    assert_ne!(out, "undefined");
}

#[test]
fn format_missing_arg_is_empty() {
    let p = params(vec![]);
    assert_eq!(format_string("a{}b", &p), "ab");
}

#[test]
fn convert_tokens_whole_and_fraction() {
    assert_eq!(convert_string_to_tokens("12").unwrap(), "12000000000");
    assert_eq!(convert_string_to_tokens("1.5").unwrap(), "1500000000");
    assert_eq!(convert_string_to_tokens("0.000000001").unwrap(), "0000000001");
}

#[test]
fn convert_tokens_rejects_long_fraction() {
    assert!(convert_string_to_tokens("1.1234567890").is_err());
}

#[test]
fn convert_tokens_rejects_nondigits() {
    assert!(convert_string_to_tokens("a.b").is_err());
    assert!(convert_string_to_tokens("1.2.3").is_err());
}

#[test]
fn hex_to_utf8_roundtrip() {
    assert_eq!(str_hex_to_utf8("68656c6c6f").unwrap(), "hello");
    assert!(str_hex_to_utf8("6").is_none());
    assert!(str_hex_to_utf8("zz").is_none());
}

#[test]
fn address_parsing() {
    let hex64 = "0123456789abcdef0123456789abcdef0123456789abcdef0123456789abcdef";
    let good = format!("0:{}", hex64);
    assert_eq!(load_ton_address(&good).unwrap().text, good);
    let neg = format!("-1:{}", hex64);
    assert!(load_ton_address(&neg).is_ok());
    assert!(load_ton_address("nonsense").is_err());
    assert!(load_ton_address("0:abc").is_err());
    assert!(load_ton_address(&format!(":{}", hex64)).is_err());
}

#[test]
fn attrs_parsing() {
    let a = parse_attrs("instant,sign=by_user,func=setRes,args=getArgs,fargs=getFmt");
    assert!(a.instant);
    assert!(a.sign_by_user);
    assert_eq!(a.func.as_deref(), Some("setRes"));
    assert_eq!(a.args.as_deref(), Some("getArgs"));
    assert_eq!(a.fargs.as_deref(), Some("getFmt"));

    let b = parse_attrs("");
    assert!(!b.instant);
    assert!(!b.sign_by_user);
    assert!(b.func.is_none());

    let c = parse_attrs("noninstant,funcx");
    assert!(!c.instant);
    assert!(c.func.is_none());
}

#[test]
fn json_rendering() {
    let v = Json::Obj(vec![
        ("a".to_string(), Json::Int(-5)),
        ("b".to_string(), Json::Str("x\"y".to_string())),
        ("c".to_string(), Json::Arr(vec![Json::Null, Json::Bool(true), Json::Int(7)])),
    ]);
    assert_eq!(v.to_text(), "{\"a\":-5,\"b\":\"x\\\"y\",\"c\":[null,true,7]}");
    let ctl = Json::Str("a\u{1}b\nc".to_string());
    assert_eq!(ctl.to_text(), "\"a\\u0001b\\nc\"");
}

#[test]
fn action_decoding() {
    let v = Json::Obj(vec![
        ("name".to_string(), Json::Str("go".to_string())),
        ("actionType".to_string(), Json::Int(6)),
        ("to".to_string(), Json::Int(255)),
        ("attrs".to_string(), Json::Str("instant".to_string())),
    ]);
    let a = parse_action(&v).unwrap();
    assert_eq!(a.name, "go");
    assert!(matches!(a.kind, ActionKind::Goto));
    assert_eq!(a.to, StateId::Exit);
    assert!(a.attrs.instant);
    assert_eq!(a.misc, "te6ccgEBAQEAAgAAAA==");

    let bad = Json::Obj(vec![("name".to_string(), Json::Int(1))]);
    assert!(parse_action(&bad).is_none());
}
