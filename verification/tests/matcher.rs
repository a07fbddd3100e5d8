use rtb_mock::app_conf::{ImpCondition, ResResource};
use rtb_mock::content_builder::build_content_with_replacing_macro;
use rtb_mock::resource_selector::select_resource_with_replacing_macro;
use rtb_mock::rtb_model::parse_request;

fn resource(cond: ImpCondition, content: &str) -> ResResource {
    ResResource {
        uri: String::from("/bid"),
        imp_condition: cond,
        content: String::from(content),
    }
}

#[test]
fn video_policy_takes_first_video_impression() {
    let request = parse_request(
        r#"{"id":"r","imp":[{"id":"a"},{"id":"b","video":{}},{"id":"c","video":{}}]}"#,
    )
    .unwrap();
    let info = ImpCondition::Video.apply(&request).unwrap();
    assert_eq!(info.imp_id, "b");
}

#[test]
fn video_policy_without_video_matches_nothing() {
    let request = parse_request(r#"{"id":"r","imp":[{"id":"a"},{"id":"b"}]}"#).unwrap();
    assert!(ImpCondition::Video.apply(&request).is_none());
}

#[test]
fn video_policy_on_empty_request_matches_nothing() {
    let request = parse_request(r#"{"id":"r"}"#).unwrap();
    assert!(ImpCondition::Video.apply(&request).is_none());
}

#[test]
fn native_video_policy_needs_a_video_asset() {
    let request = parse_request(
        r#"{"id":"r","imp":[
            {"id":"a","native":{"request":{"ver":"1","assets":[{"id":1,"img":{"type":3}}]}}},
            {"id":"b","native":{"request":{"ver":"1","assets":[{"id":1},{"id":2,"video":{}}]}}}
        ]}"#,
    )
    .unwrap();
    let info = ImpCondition::NativeVideo.apply(&request).unwrap();
    assert_eq!(info.imp_id, "b");
}

#[test]
fn native_image_policy_needs_kind_three() {
    let request = parse_request(
        r#"{"id":"r","imp":[{"id":"a","native":{"request":{"ver":"1","assets":[
            {"id":1,"img":{"type":1}},{"id":2,"img":{"type":2}}
        ]}}}]}"#,
    )
    .unwrap();
    assert!(ImpCondition::NativeImage.apply(&request).is_none());
}

#[test]
fn native_image_policy_finds_main_image() {
    let request = parse_request(
        r#"{"id":"r","imp":[{"id":"a","native":{"request":{"ver":"1","assets":[
            {"id":1,"img":{"type":1}},{"id":2,"img":{"type":3}}
        ]}}}]}"#,
    )
    .unwrap();
    let info = ImpCondition::NativeImage.apply(&request).unwrap();
    assert_eq!(info.imp_id, "a");
}

#[test]
fn top_level_video_does_not_satisfy_native_policies() {
    let request = parse_request(r#"{"id":"r","imp":[{"id":"a","video":{}}]}"#).unwrap();
    assert!(ImpCondition::NativeVideo.apply(&request).is_none());
    assert!(ImpCondition::NativeImage.apply(&request).is_none());
}

#[test]
fn build_content_renders_for_match() {
    let request = parse_request(r#"{"id":"r","imp":[{"id":"win","video":{}}]}"#).unwrap();
    let res = resource(ImpCondition::Video, r#"{"seat":"$[XX_IMP_ID]"}"#);
    assert_eq!(
        build_content_with_replacing_macro(&res, &request).unwrap(),
        r#"{"seat":"win"}"#
    );
}

#[test]
fn build_content_yields_nothing_without_match() {
    let request = parse_request(r#"{"id":"r","imp":[{"id":"a"}]}"#).unwrap();
    let res = resource(ImpCondition::Video, r#"{"seat":"$[XX_IMP_ID]"}"#);
    assert!(build_content_with_replacing_macro(&res, &request).is_none());
}

#[test]
fn select_resource_agrees_with_build_content() {
    let request =
        parse_request(r#"{"id":"r","imp":[{"id":"a"},{"id":"b","video":{}}]}"#).unwrap();
    let res = resource(ImpCondition::Video, r#"["$[XX_IMP_ID]","$[XX_IMP_ID]"]"#);
    let built = build_content_with_replacing_macro(&res, &request);
    let selected = select_resource_with_replacing_macro(&res, &request);
    assert_eq!(built, selected);
    assert_eq!(selected.unwrap(), r#"["b","b"]"#);
}
