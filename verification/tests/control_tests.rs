use deby::Architecture;
use deby::Control;
use deby::FieldText;
use deby::Priority;

#[test]
fn control_test_default() {
    let default = Control::default();
    let empty_str = String::new();
    let empty_vec: Vec<String> = vec![];

    assert_eq!(default.update, false);

    assert_eq!(default.source_control.source, empty_str);
    assert_eq!(default.source_control.maintainer.name, empty_str);
    assert_eq!(default.source_control.maintainer.email, empty_str);
    assert_eq!(default.source_control.section, empty_str);
    assert_eq!(default.source_control.priority, Priority::Optional);
    assert_eq!(default.source_control.build_depends, empty_vec);
    assert_eq!(default.source_control.standards_version, empty_str);
    assert_eq!(default.source_control.homepage, empty_str);
    assert_eq!(default.source_control.vcs_browser, empty_str);

    assert_eq!(default.binary_control.package, empty_str);
    assert_eq!(default.binary_control.description, empty_str);
    assert_eq!(default.binary_control.section, empty_str);
    assert_eq!(default.binary_control.priority, Priority::Optional);
    assert_eq!(default.binary_control.pre_depends, empty_str);
    assert_eq!(default.binary_control.architecture, Architecture::Any);
}

#[test]
fn test_format_str() {
    let fake_key = "fake key";
    let fake_value = "fake value";
    let mut acc = String::new();
    let expected = format!("{k}: {v}\n", k = fake_key, v = fake_value);

    Control::format_str(fake_key, fake_value, &mut acc);

    assert_eq!(acc, expected);
}

#[test]
fn test_format_str_empty_string() {
    let fake_key = "fake key";
    let fake_value = "";
    let mut acc = String::new();
    let empty_str = String::new();

    Control::format_str(fake_key, fake_value, &mut acc);

    assert_eq!(acc, empty_str);
}

#[test]
fn test_format_maintainer() {
    let fake_name = "fake key";
    let fake_email = "fake email";
    let mut acc = String::new();

    Control::format_maintainer(fake_name, fake_email, &mut acc);
    let expected = format!("Maintainer: {n} <{e}>\n", n = fake_name, e = fake_email);

    assert_eq!(acc, expected);
}

#[test]
fn test_format_custom_data_priority() {
    let fake_key = "fake key";
    let fake_value = Priority::Optional;
    let mut acc = String::new();
    let expected = format!("{k}: {v}\n", k = fake_key, v = fake_value.text());

    Control::format_custom_data(fake_key, &fake_value, &mut acc);

    assert_eq!(acc, expected);
}

#[test]
fn test_format_custom_data_arch() {
    let fake_key = "fake key";
    let fake_value = Architecture::All;
    let mut acc = String::new();
    let expected = format!("{k}: {v}\n", k = fake_key, v = fake_value.text());

    Control::format_custom_data(fake_key, &fake_value, &mut acc);

    assert_eq!(acc, expected);
}

#[test]
fn test_format_additional_fields() {
    let fake_row_1 = "key1: value1";
    let fake_row_2 = "key2: value2";
    let fake_row_3 = "key3: value3";
    let fake_fields: Vec<&str> = vec![fake_row_1, fake_row_2, fake_row_3];
    let expected = format!(
        "
{row_1}
{row_2}
{row_3}
",
        row_1 = fake_row_1,
        row_2 = fake_row_2,
        row_3 = fake_row_3,
    )
    .trim()
    .to_string();

    let actual = Control::format_additional_fields(fake_fields);

    assert_eq!(actual, expected);
}

#[test]
fn test_format_vec_empty() {
    let fake_key = "KEY";
    let fake_values: Vec<String> = vec![];
    let mut acc = String::new();
    let expected = "";

    Control::format_vec(fake_key, &fake_values, &mut acc);

    assert_eq!(acc, expected);
}

#[test]
fn test_format_vec_one_item() {
    let fake_key = "KEY";
    let fake_values: Vec<String> = vec!["value 1".to_string()];
    let mut acc = String::new();
    let expected = format!("{k}: {v}\n", k = fake_key, v = fake_values[0]);

    Control::format_vec(fake_key, &fake_values, &mut acc);

    assert_eq!(acc, expected);
}

#[test]
fn test_format_vec_multiple_items() {
    let fake_key = "KEY";
    let fake_values: Vec<String> = vec![
        "value 1".to_string(),
        "value 2".to_string(),
        "value 3".to_string(),
    ];
    let mut acc = String::new();
    let expected = format!(
        "{k}:
 {v1},
 {v2},
 {v3}
",
        k = fake_key,
        v1 = fake_values[0],
        v2 = fake_values[1],
        v3 = fake_values[2]
    );

    Control::format_vec(fake_key, &fake_values, &mut acc);

    assert_eq!(acc, expected);
}

#[test]
fn test_keyword_texts() {
    assert_eq!(Priority::Required.text(), "required");
    assert_eq!(Priority::Important.text(), "important");
    assert_eq!(Priority::Standard.text(), "standard");
    assert_eq!(Priority::Optional.text(), "optional");
    assert_eq!(Priority::Extra.text(), "extra");
    assert_eq!(Architecture::All.text(), "all");
    assert_eq!(Architecture::Any.text(), "any");
    assert_eq!(deby::Urgency::Medium.text(), "medium");
    assert_eq!(deby::Urgency::High.text(), "high");
    assert_eq!(deby::Urgency::Emergency.text(), "emergency");
    assert_eq!(deby::Urgency::Critical.text(), "critical");
    assert_eq!(deby::Distribution::Experimental.text(), "experimental");
}
