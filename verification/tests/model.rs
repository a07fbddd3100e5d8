use rtb_mock::rtb_model::{
    parse_request, Imp, Native, NativeAsset, NativeImage, NativeRequest, NativeVideo, Request,
};

fn parse(doc: &str) -> Request {
    parse_request(doc).unwrap()
}

#[test]
fn empty_imp() {
    let expected = Request {
        id: "req_id".to_owned(),
        imp: Vec::new(),
    };
    assert!(parse(r#"{"id":"req_id", "imp":[]}"#) == expected);
}

#[test]
fn null_imp() {
    let expected = Request {
        id: "req_id".to_owned(),
        imp: Vec::new(),
    };
    assert!(parse(r#"{"id":"req_id"}"#) == expected);
}

#[test]
fn explicit_null_imp() {
    let expected = Request {
        id: "req_id".to_owned(),
        imp: Vec::new(),
    };
    assert!(parse(r#"{"id":"req_id", "imp":null}"#) == expected);
}

#[test]
fn native_as_struct() {
    let native_req = NativeRequest {
        ver: "1.2".to_owned(),
        assets: vec![
            NativeAsset {
                id: 1,
                img: None,
                video: Some(NativeVideo {}),
            },
            NativeAsset {
                id: 2,
                img: Some(NativeImage { img_type: 3 }),
                video: None,
            },
        ],
    };

    let expected = Request {
        id: "req_id".to_owned(),
        imp: vec![Imp {
            id: "imp_id".to_owned(),
            video: None,
            native: Some(Native {
                request: native_req,
            }),
            ext: None,
        }],
    };
    assert!(
        parse(
            r#"
{
  "id": "req_id",
  "imp": [
    {
      "id": "imp_id",
      "native": {
        "request": {
          "ver": "1.2",
          "assets": [
            {
              "id": 1,
              "video": {}
            },
            {
              "id": 2,
              "img": {
                "type": 3
              }
            }
          ]
        }
      }
    }
  ]
}
"#
        ) == expected
    );
}

#[test]
fn native_as_string() {
    let native_req = NativeRequest {
        ver: "1.2".to_owned(),
        assets: vec![
            NativeAsset {
                id: 1,
                img: None,
                video: Some(NativeVideo {}),
            },
            NativeAsset {
                id: 2,
                img: Some(NativeImage { img_type: 3 }),
                video: None,
            },
        ],
    };

    let expected = Request {
        id: "req_id".to_owned(),
        imp: vec![Imp {
            id: "imp_id".to_owned(),
            video: None,
            native: Some(Native {
                request: native_req,
            }),
            ext: None,
        }],
    };
    assert!(
        parse(
            r#"
{
  "id": "req_id",
  "imp": [
    {
      "id": "imp_id",
      "native": {
        "request": "{\"ver\":\"1.2\",\"assets\":[{\"id\":1,\"video\":{}},{\"id\":2,\"img\":{\"type\":3}}]}"
      }
    }
  ]
}
"#
        ) == expected
    );
}

#[test]
fn both_native_encodings_agree() {
    let embedded = parse(
        r#"{"id":"r","imp":[{"id":"i","native":{"request":{"ver":"1.0","assets":[{"id":7,"img":{"type":3}}]}}}]}"#,
    );
    let wrapped = parse(
        r#"{"id":"r","imp":[{"id":"i","native":{"request":"{\"ver\":\"1.0\",\"assets\":[{\"id\":7,\"img\":{\"type\":3}}]}"}}]}"#,
    );
    assert!(embedded == wrapped);
}

#[test]
fn unknown_fields_ignored() {
    let expected = Request {
        id: "r".to_owned(),
        imp: vec![Imp {
            id: "i".to_owned(),
            video: Some(rtb_mock::rtb_model::Video {}),
            native: None,
            ext: None,
        }],
    };
    let parsed = parse(
        r#"{"id":"r","at":1,"cur":["USD"],"imp":[{"id":"i","video":{"mimes":["video/mp4"],"w":640},"bidfloor":0.5}]}"#,
    );
    assert!(parsed == expected);
}

#[test]
fn missing_id_is_malformed() {
    let e = parse_request(r#"{"imp":[]}"#).unwrap_err();
    assert!(!e.diagnostic.is_empty());
}

#[test]
fn non_string_id_is_malformed() {
    let e = parse_request(r#"{"id":7}"#).unwrap_err();
    assert!(!e.diagnostic.is_empty());
}

#[test]
fn non_array_imp_is_malformed() {
    let e = parse_request(r#"{"id":"r","imp":{}}"#).unwrap_err();
    assert!(!e.diagnostic.is_empty());
}

#[test]
fn impression_without_id_is_malformed() {
    let e = parse_request(r#"{"id":"r","imp":[{"video":{}}]}"#).unwrap_err();
    assert!(!e.diagnostic.is_empty());
}

#[test]
fn video_of_wrong_shape_is_malformed() {
    let e = parse_request(r#"{"id":"r","imp":[{"id":"i","video":"x"}]}"#).unwrap_err();
    assert!(!e.diagnostic.is_empty());
}

#[test]
fn native_request_of_neither_shape_is_malformed() {
    let e = parse_request(r#"{"id":"r","imp":[{"id":"i","native":{"request":42}}]}"#).unwrap_err();
    assert!(!e.diagnostic.is_empty());
}

#[test]
fn native_request_string_of_bad_json_is_malformed() {
    let e =
        parse_request(r#"{"id":"r","imp":[{"id":"i","native":{"request":"not-json"}}]}"#)
            .unwrap_err();
    assert!(!e.diagnostic.is_empty());
}

#[test]
fn native_request_without_ver_is_malformed() {
    let e = parse_request(r#"{"id":"r","imp":[{"id":"i","native":{"request":{"assets":[]}}}]}"#)
        .unwrap_err();
    assert!(!e.diagnostic.is_empty());
}

#[test]
fn native_request_without_assets_is_malformed() {
    let e = parse_request(r#"{"id":"r","imp":[{"id":"i","native":{"request":{"ver":"1"}}}]}"#)
        .unwrap_err();
    assert!(!e.diagnostic.is_empty());
}

#[test]
fn fractional_image_type_is_malformed() {
    let e = parse_request(
        r#"{"id":"r","imp":[{"id":"i","native":{"request":{"ver":"1","assets":[{"id":1,"img":{"type":3.5}}]}}}]}"#,
    )
    .unwrap_err();
    assert!(!e.diagnostic.is_empty());
}

#[test]
fn oversized_asset_id_is_malformed() {
    let e = parse_request(
        r#"{"id":"r","imp":[{"id":"i","native":{"request":{"ver":"1","assets":[{"id":4294967296}]}}}]}"#,
    )
    .unwrap_err();
    assert!(!e.diagnostic.is_empty());
}

#[test]
fn not_json_is_malformed() {
    let e = parse_request("not-json").unwrap_err();
    assert!(!e.diagnostic.is_empty());
}
