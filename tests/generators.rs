use signal_bridge::descriptor::{
    Descriptor, GenError, GenErrorKind, InputArg, Location, Param, ParamShape, ResultKind,
};
use signal_bridge::ffi_bridge::{self, FfiConversion, FfiOutput, FfiParam};
use signal_bridge::jni_bridge::{self, JniOutput};
use signal_bridge::node_bridge::{self, NodeCall};

fn named(name: &str, ty: &str, is_slice: bool) -> Param {
    Param {
        shape: ParamShape::Named { name: name.to_string(), ty: ty.to_string(), is_slice },
        source: format!("{}: {}", name, ty),
    }
}

fn descriptor(
    name: &str,
    params: Vec<Param>,
    return_type: Option<&str>,
    is_async: bool,
    result_kind: ResultKind,
    needs_env: bool,
) -> Descriptor {
    Descriptor {
        name: name.to_string(),
        params,
        return_type: return_type.map(|t| t.to_string()),
        is_async,
        result_kind,
        needs_env,
    }
}

fn missing_result_type() -> GenError {
    GenError { kind: GenErrorKind::MissingResultType, location: Location::Signature }
}

#[test]
fn buffer_without_result_type_is_refused() {
    let d = descriptor("Foo_Bar", vec![named("a", "u32", false)], None, false, ResultKind::Buffer, false);
    let e = ffi_bridge::bridge_fn(&d).unwrap_err();
    assert_eq!(e, missing_result_type());
    assert!(e.message().contains("missing result type"));
    assert_eq!(jni_bridge::bridge_fn(&d).unwrap_err(), missing_result_type());
    assert_eq!(node_bridge::bridge_fn(&d).unwrap_err(), missing_result_type());
}

#[test]
fn receiver_and_pattern_are_refused_at_their_place() {
    let receiver = Param { shape: ParamShape::Receiver, source: "&self".to_string() };
    let pattern = Param { shape: ParamShape::Pattern, source: "(a, b): (u8, u8)".to_string() };
    let d = descriptor(
        "F",
        vec![named("x", "u8", false), receiver, pattern],
        None,
        false,
        ResultKind::Regular,
        false,
    );
    let expected = GenError { kind: GenErrorKind::ReceiverParameter, location: Location::Parameter(1) };
    assert_eq!(ffi_bridge::bridge_fn(&d).unwrap_err(), expected);
    assert_eq!(jni_bridge::bridge_fn(&d).unwrap_err(), expected);
    assert_eq!(node_bridge::bridge_fn(&d).unwrap_err(), expected);
    assert_eq!(expected.message(), "cannot have 'self' parameter");

    let pattern = Param { shape: ParamShape::Pattern, source: "(a, b): (u8, u8)".to_string() };
    let d = descriptor("F", vec![pattern], None, false, ResultKind::Void, false);
    let e = ffi_bridge::bridge_fn(&d).unwrap_err();
    assert_eq!(e, GenError { kind: GenErrorKind::PatternParameter, location: Location::Parameter(0) });
    assert_eq!(e.message(), "cannot use patterns in parameter");
}

#[test]
fn context_parameter_is_skipped() {
    let receiver = Param { shape: ParamShape::Receiver, source: "&self".to_string() };
    let d = descriptor(
        "F",
        vec![receiver, named("data", "&[u8]", true)],
        Some("Vec<u8>"),
        false,
        ResultKind::Buffer,
        true,
    );
    let ep = ffi_bridge::bridge_fn(&d).unwrap();
    assert!(ep.passes_env);
    assert_eq!(ep.conversions.len(), 1);
}

#[test]
fn ffi_entry_point_plan() {
    let d = descriptor(
        "SessionCipher_EncryptMessage",
        vec![named("message", "&[u8]", true), named("address", "&ProtocolAddress", false)],
        Some("CiphertextMessage"),
        true,
        ResultKind::Regular,
        false,
    );
    let ep = ffi_bridge::bridge_fn(&d).unwrap();
    assert_eq!(ep.symbol, "signal_session_cipher_encrypt_message");
    assert_eq!(ep.function, "SessionCipher_EncryptMessage");
    assert_eq!(ep.output, FfiOutput::OutParam { ty: "CiphertextMessage".to_string() });
    assert_eq!(
        ep.params,
        vec![
            FfiParam::Value { name: "message".to_string(), ty: "&[u8]".to_string() },
            FfiParam::Length { name: "message_len".to_string() },
            FfiParam::Value { name: "address".to_string(), ty: "&ProtocolAddress".to_string() },
        ]
    );
    assert_eq!(
        ep.conversions,
        vec![
            FfiConversion::Sized {
                name: "message".to_string(),
                ty: "&[u8]".to_string(),
                len_name: "message_len".to_string(),
            },
            FfiConversion::BorrowLoad {
                name: "address".to_string(),
                ty: "&ProtocolAddress".to_string(),
            },
        ]
    );
    assert!(ep.expect_ready);
    assert!(!ep.passes_env);
}

#[test]
fn ffi_outputs_by_result_kind() {
    let out = |kind, ret: Option<&str>| {
        ffi_bridge::ffi_output(kind, &ret.map(|t| t.to_string()))
    };
    assert_eq!(out(ResultKind::Regular, None), Ok(FfiOutput::Nothing));
    assert_eq!(out(ResultKind::Void, None), Ok(FfiOutput::Nothing));
    assert_eq!(out(ResultKind::Void, Some("u8")), Ok(FfiOutput::Discard));
    assert_eq!(out(ResultKind::Buffer, Some("Vec<u8>")), Ok(FfiOutput::ByteBuffer));
    assert_eq!(out(ResultKind::Buffer, None), Err(missing_result_type()));
}

#[test]
fn snake_case_names() {
    assert_eq!(ffi_bridge::name_from_ident("SessionCipher_EncryptMessage"), "session_cipher_encrypt_message");
    assert_eq!(ffi_bridge::name_from_ident("HKDF_DeriveSecrets"), "hkdf_derive_secrets");
    assert_eq!(ffi_bridge::ffi_symbol("hkdf_derive_secrets"), "signal_hkdf_derive_secrets");
}

#[test]
fn jni_entry_point_plan() {
    let d = descriptor(
        "Logger_SetMaxLevel",
        vec![named("level", "i32", false)],
        Some("Vec<u8>"),
        false,
        ResultKind::Buffer,
        false,
    );
    let ep = jni_bridge::bridge_fn(&d).unwrap();
    assert_eq!(ep.symbol, "Java_org_signal_client_internal_Native_Logger_1SetMaxLevel");
    assert_eq!(ep.output, JniOutput::ByteArray);
    assert_eq!(
        ep.inputs,
        vec![InputArg { name: "level".to_string(), ty: "i32".to_string(), is_slice: false }]
    );
    assert!(!ep.expect_ready);
    let d = descriptor("A", vec![], Some("u8"), true, ResultKind::Void, false);
    let ep = jni_bridge::bridge_fn(&d).unwrap();
    assert_eq!(ep.output, JniOutput::Nothing);
    assert!(ep.expect_ready);
    let d = descriptor("A", vec![], Some("u8"), false, ResultKind::Regular, false);
    assert_eq!(jni_bridge::bridge_fn(&d).unwrap().output, JniOutput::Typed { ty: "u8".to_string() });
}

#[test]
fn jni_name_escaping() {
    assert_eq!(jni_bridge::name_from_ident("a_b__c"), "a_1b_1_1c");
    assert_eq!(jni_bridge::name_from_ident("plain"), "plain");
    assert_eq!(jni_bridge::name_from_ident(""), "");
    assert_eq!(jni_bridge::jni_symbol("X_1Y"), "Java_org_signal_client_internal_Native_X_1Y");
}

#[test]
fn node_entry_point_plan() {
    let d = descriptor(
        "SealedSender_Encrypt",
        vec![named("destination", "&ProtocolAddress", false), named("content", "&[u8]", true)],
        Some("Vec<u8>"),
        true,
        ResultKind::Regular,
        false,
    );
    let ep = node_bridge::bridge_fn(&d).unwrap();
    assert_eq!(ep.symbol, "node_SealedSender_Encrypt");
    assert_eq!(ep.registration, "SealedSender_Encrypt");
    assert_eq!(ep.call, NodeCall::Async);
    assert_eq!(ep.inputs.len(), 2);
    assert_eq!(
        ep.annotation,
        "ts: export function SealedSender_Encrypt(destination: &ProtocolAddress, content: &[u8]): Promise<Vec<u8>>"
    );
}

#[test]
fn node_annotation_result_types() {
    let env = named("env", "Env", false);
    let d = descriptor("B", vec![env, named("x", "u8", false)], Some("Vec<u8>"), false, ResultKind::Buffer, true);
    let ep = node_bridge::bridge_fn(&d).unwrap();
    assert_eq!(ep.annotation, "ts: export function B(x: u8): Buffer");
    assert_eq!(ep.call, NodeCall::Sync);
    assert!(ep.passes_env);
    let d = descriptor("V", vec![], Some("u8"), true, ResultKind::Void, false);
    assert_eq!(node_bridge::bridge_fn(&d).unwrap().annotation, "ts: export function V(): Promise<()>");
    let d = descriptor("R", vec![], None, false, ResultKind::Regular, false);
    assert_eq!(node_bridge::bridge_fn(&d).unwrap().annotation, "ts: export function R(): ()");
}
