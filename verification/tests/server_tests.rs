use cut_optimizer_server::server::{process_request, DEFAULT_MAX_BODY_BYTES};

fn test_input() -> &'static str {
    r#"
    {
        "method": "guillotine",
        "randomSeed": 1,
        "cutWidth": 2,
        "stockPieces": [
            {
                "width": 48,
                "length": 96,
                "patternDirection": "none",
                "price": 0
            },
            {
                "width": 48,
                "length": 120,
                "patternDirection": "none",
                "price": 0
            }
        ],
        "cutPieces": [
            {
                "externalId": 1,
                "width": 10,
                "length": 30,
                "patternDirection": "none",
                "canRotate": true
            },
            {
                "externalId": 2,
                "width": 45,
                "length": 100,
                "patternDirection": "none",
                "canRotate": true
            }
        ]
    }
    "#
}

#[test]
fn optimize_should_return_ok() {
    let resp = process_request("POST", "/optimize", test_input().as_bytes(), DEFAULT_MAX_BODY_BYTES);
    assert_eq!(resp.status, 200);
}

fn optimize_with_wrong_http_method(http_method: &str) {
    let resp = process_request(
        http_method,
        "/optimize",
        test_input().as_bytes(),
        DEFAULT_MAX_BODY_BYTES,
    );
    assert_eq!(resp.status, 405);
}

#[test]
fn optimize_with_delete_should_fail() {
    optimize_with_wrong_http_method("DELETE")
}

#[test]
fn optimize_with_get_should_fail() {
    optimize_with_wrong_http_method("GET")
}

#[test]
fn optimize_with_patch_should_fail() {
    optimize_with_wrong_http_method("PATCH")
}

#[test]
fn optimize_with_put_should_fail() {
    optimize_with_wrong_http_method("PUT")
}

#[test]
fn invalid_input_should_return_bad_request() {
    let invalid_input = "{}";
    let resp = process_request(
        "POST",
        "/optimize",
        invalid_input.as_bytes(),
        DEFAULT_MAX_BODY_BYTES,
    );
    assert_eq!(resp.status, 400);
}

#[test]
fn non_fitting_price_should_return_unprocessable_entity() {
    let non_fitting_input = r#"
        {
            "method": "guillotine",
            "randomSeed": 1,
            "cutWidth": 2,
            "stockPieces": [
                {
                    "width": 48,
                    "length": 96,
                    "patternDirection": "none",
                    "price": 0
                }
            ],
            "cutPieces": [
                {
                    "externalId": 1,
                    "width": 10,
                    "length": 300,
                    "patternDirection": "none",
                    "canRotate": true
                }
            ]
        }
    "#;
    let resp = process_request(
        "POST",
        "/optimize",
        non_fitting_input.as_bytes(),
        DEFAULT_MAX_BODY_BYTES,
    );
    assert_eq!(resp.status, 422);
}

#[test]
fn unknown_path_returns_not_found() {
    let resp = process_request("POST", "/other", test_input().as_bytes(), DEFAULT_MAX_BODY_BYTES);
    assert_eq!(resp.status, 404);
}

#[test]
fn oversized_body_returns_payload_too_large() {
    let resp = process_request("POST", "/optimize", test_input().as_bytes(), 100);
    assert_eq!(resp.status, 413);
}

#[test]
fn malformed_json_returns_bad_request() {
    let resp = process_request("POST", "/optimize", b"not json at all", DEFAULT_MAX_BODY_BYTES);
    assert_eq!(resp.status, 400);
    assert!(!resp.body.is_empty());
}

#[test]
fn same_request_twice_yields_identical_responses() {
    let r1 = process_request("POST", "/optimize", test_input().as_bytes(), DEFAULT_MAX_BODY_BYTES);
    let r2 = process_request("POST", "/optimize", test_input().as_bytes(), DEFAULT_MAX_BODY_BYTES);
    assert_eq!(r1.status, r2.status);
    assert_eq!(r1.body, r2.body);
}

#[test]
fn no_fit_envelope_names_the_external_id() {
    let input = r#"
        {
            "method": "guillotine",
            "cutWidth": 2,
            "stockPieces": [
                { "width": 48, "length": 96, "patternDirection": "none", "price": 0 }
            ],
            "cutPieces": [
                {
                    "externalId": 7,
                    "width": 500,
                    "length": 500,
                    "patternDirection": "none",
                    "canRotate": true
                }
            ]
        }
    "#;
    let resp = process_request("POST", "/optimize", input.as_bytes(), DEFAULT_MAX_BODY_BYTES);
    assert_eq!(resp.status, 422);
    assert!(resp.body.contains("\"externalId\":7"));
    assert!(resp.body.contains("Cut piece doesn't fit in any stock pieces"));
}

#[test]
fn solution_placed_area_does_not_exceed_stock_area_used() {
    let resp = process_request("POST", "/optimize", test_input().as_bytes(), DEFAULT_MAX_BODY_BYTES);
    assert_eq!(resp.status, 200);
    let v: serde_json::Value = serde_json::from_str(&resp.body).unwrap();
    let sheets = v.get("stockPieces").unwrap().as_array().unwrap();
    let mut used_area: u64 = 0;
    let mut placed_area: u64 = 0;
    for sheet in sheets {
        let w = sheet.get("width").unwrap().as_u64().unwrap();
        let l = sheet.get("length").unwrap().as_u64().unwrap();
        used_area += w * l;
        let cuts = sheet.get("cutPieces").unwrap().as_array().unwrap();
        for cut in cuts {
            let cw = cut.get("width").unwrap().as_u64().unwrap();
            let cl = cut.get("length").unwrap().as_u64().unwrap();
            placed_area += cw * cl;
        }
    }
    assert!(placed_area <= used_area);
}

#[test]
fn nested_method_also_optimizes() {
    let input = r#"
        {
            "method": "nested",
            "randomSeed": 1,
            "cutWidth": 2,
            "stockPieces": [
                { "width": 48, "length": 96, "patternDirection": "none", "price": 0 }
            ],
            "cutPieces": [
                {
                    "externalId": 1,
                    "width": 10,
                    "length": 30,
                    "patternDirection": "none",
                    "canRotate": true
                }
            ]
        }
    "#;
    let resp = process_request("POST", "/optimize", input.as_bytes(), DEFAULT_MAX_BODY_BYTES);
    assert_eq!(resp.status, 200);
}
