use cut_optimizer_server::admission::{
    handle_error, respond_to_event, settle, AdmissionError, Limiter, RequestEvent, RequestPhase,
    SettleAction,
};
use cut_optimizer_server::decode::{
    assemble_cut_piece, assemble_stock_piece, decode_request, parse_direction, parse_method,
};
use cut_optimizer_server::envelope::{
    cut_piece_json, error_envelope_text_data, response_channel_error, response_no_fit,
};
use cut_optimizer_server::model::{CutPiece, OptimizeMethod, PatternDirection, StockPiece};
use cut_optimizer_server::text::{push_decimal, push_escaped};

#[test]
fn decode_applies_documented_defaults() {
    let input = r#"
        {
            "cutWidth": 3,
            "stockPieces": [
                { "width": 5, "length": 6, "patternDirection": "parallelToWidth" }
            ],
            "cutPieces": [
                {
                    "width": 1,
                    "length": 2,
                    "patternDirection": "parallelToLength",
                    "canRotate": false
                }
            ]
        }
    "#;
    let decoded = decode_request(input.as_bytes()).unwrap();
    assert_eq!(decoded.method, OptimizeMethod::Guillotine);
    assert_eq!(decoded.random_seed, 1);
    assert!(decoded.allow_mixed_stock_sizes);
    assert_eq!(decoded.cut_width, 3);
    assert_eq!(decoded.stock_pieces.len(), 1);
    assert_eq!(
        decoded.stock_pieces[0],
        StockPiece {
            width: 5,
            length: 6,
            pattern_direction: PatternDirection::ParallelToWidth,
            price: 0,
        }
    );
    assert_eq!(decoded.cut_pieces.len(), 1);
    assert_eq!(
        decoded.cut_pieces[0],
        CutPiece {
            external_id: None,
            width: 1,
            length: 2,
            pattern_direction: PatternDirection::ParallelToLength,
            can_rotate: false,
        }
    );
}

#[test]
fn decode_reports_the_missing_field() {
    let missing_cut_width = r#"{ "stockPieces": [], "cutPieces": [] }"#;
    let err = decode_request(missing_cut_width.as_bytes()).unwrap_err();
    assert_eq!(err, "missing or invalid field `cutWidth`");

    let missing_stock = r#"{ "cutWidth": 1, "cutPieces": [] }"#;
    let err = decode_request(missing_stock.as_bytes()).unwrap_err();
    assert_eq!(err, "missing or invalid field `stockPieces`");

    let missing_cuts = r#"{ "cutWidth": 1, "stockPieces": [] }"#;
    let err = decode_request(missing_cuts.as_bytes()).unwrap_err();
    assert_eq!(err, "missing or invalid field `cutPieces`");

    let bad_method = r#"{ "method": "laser", "cutWidth": 1, "stockPieces": [], "cutPieces": [] }"#;
    let err = decode_request(bad_method.as_bytes()).unwrap_err();
    assert_eq!(err, "missing or invalid field `method`");

    let bad_piece = r#"{ "cutWidth": 1, "stockPieces": [ { "width": 5 } ], "cutPieces": [] }"#;
    let err = decode_request(bad_piece.as_bytes()).unwrap_err();
    assert_eq!(err, "missing or invalid field `length`");
}

#[test]
fn decode_rejects_dimensions_beyond_the_bound() {
    let huge_width = r#"
        {
            "cutWidth": 1,
            "stockPieces": [
                { "width": 1000001, "length": 6, "patternDirection": "none" }
            ],
            "cutPieces": []
        }
    "#;
    let err = decode_request(huge_width.as_bytes()).unwrap_err();
    assert_eq!(err, "missing or invalid field `width`");

    let huge_cut_width = r#"
        { "cutWidth": 1000001, "stockPieces": [], "cutPieces": [] }
    "#;
    let err = decode_request(huge_cut_width.as_bytes()).unwrap_err();
    assert_eq!(err, "missing or invalid field `cutWidth`");

    let at_the_bound = r#"
        {
            "cutWidth": 1000000,
            "stockPieces": [
                { "width": 1000000, "length": 1000000, "patternDirection": "none" }
            ],
            "cutPieces": []
        }
    "#;
    assert!(decode_request(at_the_bound.as_bytes()).is_ok());
}

#[test]
fn decode_rejects_malformed_json_with_parser_message() {
    let err = decode_request(b"{ not json").unwrap_err();
    assert!(!err.is_empty());
}

#[test]
fn parse_method_names_both_methods() {
    assert_eq!(
        parse_method(&String::from("guillotine")),
        Some(OptimizeMethod::Guillotine)
    );
    assert_eq!(parse_method(&String::from("nested")), Some(OptimizeMethod::Nested));
    assert_eq!(parse_method(&String::from("laser")), None);
    assert_eq!(parse_method(&String::from("")), None);
}

#[test]
fn parse_direction_names_all_directions() {
    assert_eq!(
        parse_direction(&String::from("none")),
        Some(PatternDirection::NoPattern)
    );
    assert_eq!(
        parse_direction(&String::from("parallelToWidth")),
        Some(PatternDirection::ParallelToWidth)
    );
    assert_eq!(
        parse_direction(&String::from("parallelToLength")),
        Some(PatternDirection::ParallelToLength)
    );
    assert_eq!(parse_direction(&String::from("diagonal")), None);
}

#[test]
fn assemble_stock_piece_defaults_price_to_zero() {
    let piece = assemble_stock_piece(
        Some(4),
        Some(8),
        Some(PatternDirection::NoPattern),
        None,
    )
    .unwrap();
    assert_eq!(piece.price, 0);
    let err = assemble_stock_piece(None, Some(8), Some(PatternDirection::NoPattern), None)
        .unwrap_err();
    assert_eq!(err, "missing or invalid field `width`");
}

#[test]
fn assemble_cut_piece_requires_rotate_flag() {
    let err = assemble_cut_piece(
        Some(1),
        Some(4),
        Some(8),
        Some(PatternDirection::NoPattern),
        None,
    )
    .unwrap_err();
    assert_eq!(err, "missing or invalid field `canRotate`");
}

#[test]
fn decimal_rendering_is_exact() {
    let mut s = String::new();
    push_decimal(&mut s, 0);
    assert_eq!(s, "0");
    let mut s = String::new();
    push_decimal(&mut s, 12034);
    assert_eq!(s, "12034");
    let mut s = String::new();
    push_decimal(&mut s, u64::MAX);
    assert_eq!(s, "18446744073709551615");
}

#[test]
fn escaping_is_exact() {
    let mut s = String::new();
    push_escaped(&mut s, "say \"hi\"\\\n\tdone\u{1}");
    assert_eq!(s, "say \\\"hi\\\"\\\\\\n\\tdone\\u0001");
}

#[test]
fn cut_piece_json_is_exact() {
    let piece = CutPiece {
        external_id: Some(7),
        width: 10,
        length: 300,
        pattern_direction: PatternDirection::NoPattern,
        can_rotate: true,
    };
    assert_eq!(
        cut_piece_json(&piece),
        "{\"externalId\":7,\"width\":10,\"length\":300,\"patternDirection\":\"none\",\"canRotate\":true}"
    );
    let anonymous = CutPiece {
        external_id: None,
        width: 1,
        length: 2,
        pattern_direction: PatternDirection::ParallelToWidth,
        can_rotate: false,
    };
    assert_eq!(
        cut_piece_json(&anonymous),
        "{\"externalId\":null,\"width\":1,\"length\":2,\"patternDirection\":\"parallelToWidth\",\"canRotate\":false}"
    );
}

#[test]
fn no_fit_response_wraps_the_piece() {
    let piece = CutPiece {
        external_id: Some(2),
        width: 45,
        length: 100,
        pattern_direction: PatternDirection::NoPattern,
        can_rotate: true,
    };
    let resp = response_no_fit(&piece);
    assert_eq!(resp.status, 422);
    assert_eq!(
        resp.body,
        "{\"error\":{\"message\":\"Cut piece doesn't fit in any stock pieces\",\"data\":{\"externalId\":2,\"width\":45,\"length\":100,\"patternDirection\":\"none\",\"canRotate\":true}}}"
    );
}

#[test]
fn channel_error_response_carries_the_description() {
    let resp = response_channel_error("receiver dropped");
    assert_eq!(resp.status, 500);
    assert_eq!(
        resp.body,
        "{\"error\":{\"message\":\"Couldn't receive result from channel\",\"data\":\"receiver dropped\"}}"
    );
}

#[test]
fn envelope_escapes_its_data() {
    let body = error_envelope_text_data("m", "a\"b");
    assert_eq!(body, "{\"error\":{\"message\":\"m\",\"data\":\"a\\\"b\"}}");
}

#[test]
fn normalization_maps_every_admission_error() {
    let timeout = handle_error(&AdmissionError::Elapsed);
    assert_eq!(timeout.status, 408);
    assert_eq!(timeout.body, "Request took too long");

    let shed = handle_error(&AdmissionError::Overloaded);
    assert_eq!(shed.status, 503);
    assert_eq!(shed.body, "Too many requests");

    let other = handle_error(&AdmissionError::Other(String::from("boom")));
    assert_eq!(other.status, 500);
    assert_eq!(other.body, "Unhandled internal error: boom");
}

#[test]
fn limiter_sheds_beyond_the_cap() {
    let mut limiter = Limiter::new(2);
    assert!(limiter.try_admit());
    assert!(limiter.try_admit());
    assert!(!limiter.try_admit());
    assert_eq!(limiter.in_flight, 2);
    limiter.release();
    assert!(limiter.try_admit());
    assert!(!limiter.try_admit());
}

#[test]
fn limiter_with_cap_one_admits_one() {
    let mut limiter = Limiter::new(1);
    assert!(limiter.try_admit());
    assert!(!limiter.try_admit());
    limiter.release();
    assert!(limiter.try_admit());
}

#[test]
fn saturated_stack_sheds_with_service_unavailable() {
    let mut limiter = Limiter::new(0);
    let resp = cut_optimizer_server::server::handle_with_admission(
        &mut limiter,
        "POST",
        "/optimize",
        b"{}",
        1024,
    );
    assert_eq!(resp.status, 503);
    assert_eq!(resp.body, "Too many requests");
    assert_eq!(limiter.in_flight, 0);
}

#[test]
fn admitted_request_is_released_after_handling() {
    let mut limiter = Limiter::new(1);
    let resp = cut_optimizer_server::server::handle_with_admission(
        &mut limiter,
        "POST",
        "/optimize",
        b"{}",
        1024,
    );
    assert_eq!(resp.status, 400);
    assert_eq!(limiter.in_flight, 0);
    assert!(limiter.try_admit());
}

#[test]
fn pending_request_settles_on_timeout() {
    let (phase, action) = settle(RequestPhase::Pending, RequestEvent::DeadlineElapsed);
    assert_eq!(phase, RequestPhase::Responded);
    match action {
        SettleAction::Respond(resp) => {
            assert_eq!(resp.status, 408);
            assert_eq!(resp.body, "Request took too long");
        }
        SettleAction::Discard => panic!("a pending request must settle with a response"),
    }
}

#[test]
fn late_engine_result_is_discarded() {
    let (phase, action) = settle(
        RequestPhase::Responded,
        RequestEvent::EngineDone(Ok(String::from("late solution"))),
    );
    assert_eq!(phase, RequestPhase::Responded);
    match action {
        SettleAction::Respond(_) => panic!("a settled request must not respond again"),
        SettleAction::Discard => {}
    }
}

#[test]
fn engine_completion_settles_with_the_solution() {
    let resp = respond_to_event(RequestEvent::EngineDone(Ok(String::from("{\"ok\":true}"))));
    assert_eq!(resp.status, 200);
    assert_eq!(resp.body, "{\"ok\":true}");
}

#[test]
fn channel_failure_settles_with_internal_error() {
    let resp = respond_to_event(RequestEvent::ChannelClosed(String::from("closed")));
    assert_eq!(resp.status, 500);
    assert!(resp.body.contains("Couldn't receive result from channel"));
    assert!(resp.body.contains("closed"));
}
