use rtb_mock::content_builder;
use rtb_mock::resource_selector;

#[test]
fn content_builder_replace() {
    let imp_info = content_builder::ImpInfo {
        imp_id: String::from("imp_id"),
    };
    assert_eq!(
        content_builder::replace_macro(r#"{"id": "$[XX_IMP_ID]", "id": "$[XX_IMP_ID]"}"#, &imp_info),
        r#"{"id": "imp_id", "id": "imp_id"}"#
    );
}

#[test]
fn resource_selector_replace() {
    let imp_info = resource_selector::ImpInfo {
        imp_id: String::from("imp_id"),
    };
    assert_eq!(
        resource_selector::replace_macro(
            r#"{"id": "$[XX_IMP_ID]", "id": "$[XX_IMP_ID]"}"#,
            &imp_info
        ),
        r#"{"id": "imp_id", "id": "imp_id"}"#
    );
}

#[test]
fn replace_without_token_is_identity() {
    let imp_info = content_builder::ImpInfo {
        imp_id: String::from("whatever"),
    };
    let template = r#"{"no":"token here"}"#;
    assert_eq!(content_builder::replace_macro(template, &imp_info), template);
}

#[test]
fn replace_token_at_both_ends() {
    let imp_info = content_builder::ImpInfo {
        imp_id: String::from("x"),
    };
    assert_eq!(
        content_builder::replace_macro("$[XX_IMP_ID]-mid-$[XX_IMP_ID]", &imp_info),
        "x-mid-x"
    );
}

#[test]
fn replace_on_empty_template() {
    let imp_info = content_builder::ImpInfo {
        imp_id: String::from("x"),
    };
    assert_eq!(content_builder::replace_macro("", &imp_info), "");
}

#[test]
fn replace_with_empty_identifier() {
    let imp_info = content_builder::ImpInfo {
        imp_id: String::new(),
    };
    assert_eq!(
        content_builder::replace_macro(r#"["$[XX_IMP_ID]"]"#, &imp_info),
        r#"[""]"#
    );
}

#[test]
fn replace_keeps_multibyte_text_around_token() {
    let imp_info = content_builder::ImpInfo {
        imp_id: String::from("идент"),
    };
    assert_eq!(
        content_builder::replace_macro("méta $[XX_IMP_ID] おわり", &imp_info),
        "méta идент おわり"
    );
}
