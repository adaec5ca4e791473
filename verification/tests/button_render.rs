//! The button render model: exact class lists, the disabled pairing, and
//! the element kind.

use daisyui_components::{
    Button, ButtonColor, ButtonKind, ButtonProps, ButtonShape, ButtonWidth, Color, Size,
};

#[test]
fn plain_button_has_only_base_class() {
    let r = Button(ButtonProps::default());
    assert_eq!(r.classes, vec!["btn".to_string()]);
    assert!(!r.disabled_attr);
    assert!(!r.is_link);
    assert_eq!(r.href, None);
}

#[test]
fn success_disabled_button() {
    let props = ButtonProps {
        color: Some(ButtonColor::Color(Color::Success)),
        disabled: true,
        ..ButtonProps::default()
    };
    let r = Button(props);
    assert!(r.classes.iter().any(|c| c == "btn"));
    assert!(r.classes.iter().any(|c| c == "btn-success"));
    assert!(r.classes.iter().any(|c| c == "btn-disabled"));
    assert!(r.disabled_attr);
    assert_eq!(
        r.classes,
        vec![
            "btn".to_string(),
            "btn-disabled".to_string(),
            "btn-success".to_string()
        ]
    );
}

#[test]
fn disabled_class_and_attribute_travel_together() {
    let on = Button(ButtonProps { disabled: true, ..ButtonProps::default() });
    assert!(on.classes.iter().any(|c| c == "btn-disabled"));
    assert!(on.disabled_attr);

    let off = Button(ButtonProps { disabled: false, ..ButtonProps::default() });
    assert!(!off.classes.iter().any(|c| c == "btn-disabled"));
    assert!(!off.disabled_attr);
}

#[test]
fn absent_options_produce_no_classes() {
    let r = Button(ButtonProps {
        outlined: true,
        ..ButtonProps::default()
    });
    for c in r.classes.iter() {
        assert!(c == "btn" || c == "btn-outline");
    }
}

#[test]
fn unset_options_produce_no_classes() {
    let r = Button(ButtonProps {
        color: Some(ButtonColor::Color(Color::Unset)),
        size: Some(Size::Unset),
        width: Some(ButtonWidth::Unset),
        shape: Some(ButtonShape::Unset),
        ..ButtonProps::default()
    });
    assert_eq!(r.classes, vec!["btn".to_string()]);
}

#[test]
fn fully_configured_button_class_order() {
    let props = ButtonProps {
        kind: ButtonKind::Button,
        color: Some(ButtonColor::Glass),
        size: Some(Size::Large),
        outlined: true,
        ghost_style: true,
        active: true,
        disabled: true,
        loading: true,
        no_animation: true,
        width: Some(ButtonWidth::Wide),
        shape: Some(ButtonShape::Circle),
    };
    let r = Button(props);
    assert_eq!(
        r.classes,
        vec![
            "btn".to_string(),
            "btn-outline".to_string(),
            "btn-ghost".to_string(),
            "loading".to_string(),
            "btn-active".to_string(),
            "no-animation".to_string(),
            "btn-disabled".to_string(),
            "glass".to_string(),
            "btn-lg".to_string(),
            "btn-wide".to_string(),
            "btn-circle".to_string(),
        ]
    );
    assert!(r.disabled_attr);
}

#[test]
fn link_button_carries_target_verbatim() {
    let r = Button(ButtonProps {
        kind: ButtonKind::Link("https://example.org/a b".to_string()),
        ..ButtonProps::default()
    });
    assert!(r.is_link);
    assert_eq!(r.href, Some("https://example.org/a b".to_string()));
    assert_eq!(r.classes, vec!["btn".to_string()]);
}

#[test]
fn default_kind_is_plain_button() {
    assert_eq!(ButtonKind::default(), ButtonKind::Button);
    let r = Button(ButtonProps { kind: ButtonKind::default(), ..ButtonProps::default() });
    assert!(!r.is_link);
    assert_eq!(r.href, None);
}
