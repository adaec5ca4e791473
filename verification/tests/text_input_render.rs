//! The text-input render model: identifier resolution, label association,
//! class lists, and attribute pass-through.

use daisyui_components::{Color, DateStamp, Size, TextInput, TextInputProps, TextInputType};

#[test]
fn labeled_primary_input() {
    let props = TextInputProps {
        label: Some("Name".to_string()),
        color: Some(Color::Primary),
        ..TextInputProps::default()
    };
    let r = TextInput(props);
    let label = r.label.expect("a label block must render");
    assert_eq!(label.text, Some("Name".to_string()));
    assert_eq!(label.alt, None);
    assert_eq!(label.for_id, r.id);
    assert!(!r.id.is_empty());
    assert!(r.classes.iter().any(|c| c == "input"));
    assert!(r.classes.iter().any(|c| c == "input-bordered"));
    assert!(r.deferred_classes.iter().any(|c| c == "input-primary"));
}

#[test]
fn given_id_is_kept() {
    let props = TextInputProps {
        id: Some("name-field".to_string()),
        label: Some("Name".to_string()),
        ..TextInputProps::default()
    };
    let r = TextInput(props);
    assert_eq!(r.id, "name-field");
    assert_eq!(r.label.unwrap().for_id, "name-field");
}

#[test]
fn generated_id_is_decimal() {
    let r = TextInput(TextInputProps::default());
    assert!(!r.id.is_empty());
    assert!(r.id.chars().all(|c| c.is_ascii_digit()));
}

#[test]
fn base_classes_always_present() {
    let r = TextInput(TextInputProps::default());
    assert_eq!(
        r.classes,
        vec![
            "input".to_string(),
            "input-bordered".to_string(),
            "w-full".to_string(),
            "max-w-xs".to_string()
        ]
    );
    assert!(r.deferred_classes.is_empty());
}

#[test]
fn flag_classes() {
    let r = TextInput(TextInputProps {
        bordered: true,
        ghost_style: true,
        ..TextInputProps::default()
    });
    assert_eq!(
        r.classes,
        vec![
            "input".to_string(),
            "input-bordered".to_string(),
            "w-full".to_string(),
            "max-w-xs".to_string(),
            "input-bordered".to_string(),
            "input-ghost".to_string()
        ]
    );
}

#[test]
fn deferred_color_and_size_classes() {
    let r = TextInput(TextInputProps {
        color: Some(Color::Error),
        size: Some(Size::ExtraSmall),
        ..TextInputProps::default()
    });
    assert_eq!(
        r.deferred_classes,
        vec!["input-error".to_string(), "input-xs".to_string()]
    );
}

#[test]
fn unset_color_and_size_defer_nothing() {
    let r = TextInput(TextInputProps {
        color: Some(Color::Unset),
        size: Some(Size::Unset),
        ..TextInputProps::default()
    });
    assert!(r.deferred_classes.is_empty());
}

#[test]
fn type_attribute_per_variant() {
    let r = TextInput(TextInputProps {
        type_: Some(TextInputType::Number),
        ..TextInputProps::default()
    });
    assert_eq!(r.type_attr, Some("number"));
    let r = TextInput(TextInputProps {
        type_: Some(TextInputType::DateTimeLocal),
        ..TextInputProps::default()
    });
    assert_eq!(r.type_attr, Some("datetime-local"));
    let r = TextInput(TextInputProps::default());
    assert_eq!(r.type_attr, None);
}

#[test]
fn label_renders_if_either_of_its_pair_is_present() {
    let r = TextInput(TextInputProps {
        label_alt: Some("alt only".to_string()),
        ..TextInputProps::default()
    });
    let label = r.label.expect("alt text alone must still render the block");
    assert_eq!(label.text, None);
    assert_eq!(label.alt, Some("alt only".to_string()));

    let r = TextInput(TextInputProps::default());
    assert!(r.label.is_none());
    assert!(r.helper.is_none());
}

#[test]
fn helper_block_mirrors_label_rule() {
    let r = TextInput(TextInputProps {
        helper: Some("hint".to_string()),
        helper_alt: Some("more".to_string()),
        ..TextInputProps::default()
    });
    let helper = r.helper.expect("a helper block must render");
    assert_eq!(helper.text, Some("hint".to_string()));
    assert_eq!(helper.alt, Some("more".to_string()));
    assert_eq!(helper.for_id, r.id);
}

#[test]
fn value_name_placeholder_pass_through() {
    let r = TextInput(TextInputProps {
        name: Some("field-name".to_string()),
        placeholder: Some("type here".to_string()),
        value: Some("prefilled".to_string()),
        ..TextInputProps::default()
    });
    assert_eq!(r.name, Some("field-name".to_string()));
    assert_eq!(r.placeholder, Some("type here".to_string()));
    assert_eq!(r.value, "prefilled");

    let r = TextInput(TextInputProps::default());
    assert_eq!(r.name, None);
    assert_eq!(r.placeholder, None);
    assert_eq!(r.value, "");
}

#[test]
fn date_value_binds_verbatim() {
    let stamp = DateStamp { millis: 1_700_000_000_000 };
    let r = TextInput(TextInputProps {
        type_: Some(TextInputType::Date),
        value_as_date: Some(stamp),
        ..TextInputProps::default()
    });
    assert_eq!(r.date_value, Some(stamp));
    assert_eq!(r.type_attr, Some("date"));

    let r = TextInput(TextInputProps::default());
    assert_eq!(r.date_value, None);
}
