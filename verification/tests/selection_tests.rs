use rtb_mock::app_conf::{AppConf, ImpCondition, ResResource};
use rtb_mock::arg_option::Args;
use rtb_mock::selection::{select, SelectionOutcome};

fn resource(cond: ImpCondition, content: &str) -> ResResource {
    ResResource {
        uri: String::from("/bid"),
        imp_condition: cond,
        content: String::from(content),
    }
}

#[test]
fn scenario_video_match_renders_template() {
    let res = resource(ImpCondition::Video, r#"{"imp":"$[XX_IMP_ID]"}"#);
    let body = r#"{"id":"r1","imp":[{"id":"impA","video":{}}]}"#;
    match select(&res, Some(body)) {
        SelectionOutcome::RenderedContent(c) => assert_eq!(c, r#"{"imp":"impA"}"#),
        other => panic!("unexpected outcome: {:?}", other),
    }
}

#[test]
fn scenario_no_impressions_yields_no_match() {
    let res = resource(ImpCondition::Video, r#"{"imp":"$[XX_IMP_ID]"}"#);
    match select(&res, Some(r#"{"id":"r1"}"#)) {
        SelectionOutcome::NoMatch => {}
        other => panic!("unexpected outcome: {:?}", other),
    }
}

#[test]
fn scenario_string_encoded_native_matches() {
    let res = resource(ImpCondition::NativeImage, r#"["$[XX_IMP_ID]"]"#);
    let body = r#"{"id":"r1","imp":[{"id":"i1","native":{"request":"{\"ver\":\"1.0\",\"assets\":[{\"id\":1,\"img\":{\"type\":3}}]}"}}]}"#;
    match select(&res, Some(body)) {
        SelectionOutcome::RenderedContent(c) => assert_eq!(c, r#"["i1"]"#),
        other => panic!("unexpected outcome: {:?}", other),
    }
}

#[test]
fn scenario_malformed_body_carries_diagnostic() {
    for cond in [
        ImpCondition::Video,
        ImpCondition::NativeVideo,
        ImpCondition::NativeImage,
    ] {
        let res = resource(cond, r#"{"imp":"$[XX_IMP_ID]"}"#);
        match select(&res, Some("not-json")) {
            SelectionOutcome::Malformed(m) => assert!(!m.diagnostic.is_empty()),
            other => panic!("unexpected outcome: {:?}", other),
        }
    }
}

#[test]
fn no_body_yields_static_content() {
    let res = resource(ImpCondition::Video, r#"{"imp":"$[XX_IMP_ID]"}"#);
    match select(&res, None) {
        SelectionOutcome::StaticContent(c) => assert_eq!(c, r#"{"imp":"$[XX_IMP_ID]"}"#),
        other => panic!("unexpected outcome: {:?}", other),
    }
}

#[test]
fn find_resource_takes_first_matching_path() {
    let conf = AppConf {
        resources: vec![
            resource_at("/a", "one"),
            resource_at("/b", "two"),
            resource_at("/b", "three"),
        ],
    };
    assert_eq!(conf.find_resource(&String::from("/b")).unwrap().content, "two");
    assert!(conf.find_resource(&String::from("/c")).is_none());
}

fn resource_at(uri: &str, content: &str) -> ResResource {
    ResResource {
        uri: String::from(uri),
        imp_condition: ImpCondition::Video,
        content: String::from(content),
    }
}

#[test]
fn args_defaults() {
    let args = Args::default();
    assert_eq!(args.port, 3000);
    assert_eq!(args.conf_path, "./config.yml");
}
