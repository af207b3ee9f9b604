use ledger_collation::status::{
    decode_to_rpc_err, deser_to_rpc_err, encode_to_rpc_err, rpc_database_err, rpc_internal_error,
    rpc_invalid_arg_error, rpc_out_of_range_error, rpc_permissions_error, rpc_precondition_error,
    rpc_unavailable_error, send_result, ser_to_rpc_err, ErrorReport, Level, RpcStatus,
    RpcStatusCode,
};

fn report(code: RpcStatusCode, message: &str, level: Level) -> ErrorReport {
    ErrorReport {
        status: RpcStatus {
            code,
            message: message.to_string(),
        },
        level,
    }
}

#[test]
fn database_error_is_internal_and_logged_as_error() {
    assert_eq!(
        rpc_database_err("disk full"),
        report(
            RpcStatusCode::INTERNAL,
            "Database Error: disk full",
            Level::Error
        )
    );
}

#[test]
fn internal_error_is_internal_and_logged_as_error() {
    assert_eq!(
        rpc_internal_error("get_outputs", "index missing"),
        report(
            RpcStatusCode::INTERNAL,
            "get_outputs: index missing",
            Level::Error
        )
    );
}

#[test]
fn invalid_argument_is_logged_for_debugging() {
    assert_eq!(
        rpc_invalid_arg_error("check_key_images", "empty request"),
        report(
            RpcStatusCode::INVALID_ARGUMENT,
            "check_key_images: empty request",
            Level::Debug
        )
    );
}

#[test]
fn permissions_error_is_logged_for_debugging() {
    assert_eq!(
        rpc_permissions_error("auth", "token expired"),
        report(
            RpcStatusCode::PERMISSION_DENIED,
            "auth: token expired",
            Level::Debug
        )
    );
}

#[test]
fn out_of_range_error_is_logged_for_debugging() {
    assert_eq!(
        rpc_out_of_range_error("get_block", "block 7 of 5"),
        report(
            RpcStatusCode::OUT_OF_RANGE,
            "get_block: block 7 of 5",
            Level::Debug
        )
    );
}

#[test]
fn precondition_error_is_logged_as_information() {
    assert_eq!(
        rpc_precondition_error("activate", "already active"),
        report(
            RpcStatusCode::FAILED_PRECONDITION,
            "activate: already active",
            Level::Info
        )
    );
}

#[test]
fn unavailable_error_is_logged_for_debugging() {
    assert_eq!(
        rpc_unavailable_error("query", "shard down"),
        report(
            RpcStatusCode::UNAVAILABLE,
            "query: shard down",
            Level::Debug
        )
    );
}

#[test]
fn codec_errors_are_internal_errors_with_their_own_context() {
    assert_eq!(
        ser_to_rpc_err("too deep"),
        report(
            RpcStatusCode::INTERNAL,
            "Serialization: too deep",
            Level::Error
        )
    );
    assert_eq!(
        deser_to_rpc_err("trailing bytes"),
        report(
            RpcStatusCode::INTERNAL,
            "Deserialization: trailing bytes",
            Level::Error
        )
    );
    assert_eq!(
        encode_to_rpc_err("buffer too small"),
        report(
            RpcStatusCode::INTERNAL,
            "Encode: buffer too small",
            Level::Error
        )
    );
    assert_eq!(
        decode_to_rpc_err("bad tag"),
        report(RpcStatusCode::INTERNAL, "Decode: bad tag", Level::Error)
    );
}

#[test]
fn message_keeps_empty_and_unusual_parts() {
    assert_eq!(rpc_internal_error("", "").status.message, ": ");
    assert_eq!(rpc_internal_error("a: b", ": c").status.message, "a: b: : c");
    assert_eq!(
        rpc_database_err("gr\u{fc}n \u{1f4be}").status.message,
        "Database Error: gr\u{fc}n \u{1f4be}"
    );
}

#[test]
fn reply_to_a_response() {
    let reply = send_result::<u32>(Ok(17));
    assert_eq!(reply.response, Ok(17));
    assert!(reply.success);
    assert_eq!(reply.code, RpcStatusCode::OK);
}

#[test]
fn reply_to_a_failure() {
    let status = rpc_unavailable_error("query", "shard down").status;
    let reply = send_result::<u32>(Err(status.clone()));
    assert_eq!(reply.response, Err(status));
    assert!(!reply.success);
    assert_eq!(reply.code, RpcStatusCode::UNAVAILABLE);

    let reply = send_result::<()>(Err(RpcStatus {
        code: RpcStatusCode::OK,
        message: String::new(),
    }));
    assert!(!reply.success);
    assert_eq!(reply.code, RpcStatusCode::OK);
}
