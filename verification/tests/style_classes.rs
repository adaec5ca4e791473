//! Every style enumeration resolves each of its values to exactly one
//! predetermined class string, and no two distinct values collide.

use daisyui_components::{ButtonColor, ButtonShape, ButtonWidth, Color, Size, TextInputType};

#[test]
fn btn_color_class_values() {
    assert_eq!(ButtonColor::Color(Color::Unset).into_btn_color_class(), "");
    assert_eq!(
        ButtonColor::Color(Color::Primary).into_btn_color_class(),
        "btn-primary"
    );
    assert_eq!(
        ButtonColor::Color(Color::Secondary).into_btn_color_class(),
        "btn-secondary"
    );
    assert_eq!(
        ButtonColor::Color(Color::Accent).into_btn_color_class(),
        "btn-accent"
    );
    assert_eq!(ButtonColor::Color(Color::Info).into_btn_color_class(), "btn-info");
    assert_eq!(
        ButtonColor::Color(Color::Success).into_btn_color_class(),
        "btn-success"
    );
    assert_eq!(
        ButtonColor::Color(Color::Warning).into_btn_color_class(),
        "btn-warning"
    );
    assert_eq!(ButtonColor::Color(Color::Error).into_btn_color_class(), "btn-error");
    assert_eq!(ButtonColor::Glass.into_btn_color_class(), "glass");
}

#[test]
fn btn_color_class_injective() {
    let all = vec![
        ButtonColor::Color(Color::Unset),
        ButtonColor::Color(Color::Primary),
        ButtonColor::Color(Color::Secondary),
        ButtonColor::Color(Color::Accent),
        ButtonColor::Color(Color::Info),
        ButtonColor::Color(Color::Success),
        ButtonColor::Color(Color::Warning),
        ButtonColor::Color(Color::Error),
        ButtonColor::Glass,
    ];
    for (i, a) in all.iter().enumerate() {
        for (j, b) in all.iter().enumerate() {
            if i != j {
                assert_ne!(a.into_btn_color_class(), b.into_btn_color_class());
            }
        }
    }
}

#[test]
fn btn_width_class_values() {
    assert_eq!(ButtonWidth::Unset.into_btn_width_class(), "");
    assert_eq!(ButtonWidth::Wide.into_btn_width_class(), "btn-wide");
    assert_eq!(ButtonWidth::Block.into_btn_width_class(), "btn-block");
}

#[test]
fn btn_shape_class_values() {
    assert_eq!(ButtonShape::Unset.into_btn_shape_class(), "");
    assert_eq!(ButtonShape::Square.into_btn_shape_class(), "btn-square");
    assert_eq!(ButtonShape::Circle.into_btn_shape_class(), "btn-circle");
}

#[test]
fn btn_size_class_values() {
    assert_eq!(Size::Unset.into_btn_size_class(), "");
    assert_eq!(Size::ExtraSmall.into_btn_size_class(), "btn-xs");
    assert_eq!(Size::Small.into_btn_size_class(), "btn-sm");
    assert_eq!(Size::Medium.into_btn_size_class(), "btn-md");
    assert_eq!(Size::Large.into_btn_size_class(), "btn-lg");
}

#[test]
fn btn_size_class_injective() {
    let all = vec![
        Size::Unset,
        Size::ExtraSmall,
        Size::Small,
        Size::Medium,
        Size::Large,
    ];
    for (i, a) in all.iter().enumerate() {
        for (j, b) in all.iter().enumerate() {
            if i != j {
                assert_ne!(a.into_btn_size_class(), b.into_btn_size_class());
                assert_ne!(a.into_text_input_size(), b.into_text_input_size());
            }
        }
    }
}

#[test]
fn input_color_class_values() {
    assert_eq!(Color::Unset.into_text_input_class(), "");
    assert_eq!(Color::Primary.into_text_input_class(), "input-primary");
    assert_eq!(Color::Secondary.into_text_input_class(), "input-secondary");
    assert_eq!(Color::Accent.into_text_input_class(), "input-accent");
    assert_eq!(Color::Info.into_text_input_class(), "input-info");
    assert_eq!(Color::Success.into_text_input_class(), "input-success");
    assert_eq!(Color::Warning.into_text_input_class(), "input-warning");
    assert_eq!(Color::Error.into_text_input_class(), "input-error");
}

#[test]
fn input_color_class_injective() {
    let all = vec![
        Color::Unset,
        Color::Primary,
        Color::Secondary,
        Color::Accent,
        Color::Info,
        Color::Success,
        Color::Warning,
        Color::Error,
    ];
    for (i, a) in all.iter().enumerate() {
        for (j, b) in all.iter().enumerate() {
            if i != j {
                assert_ne!(a.into_text_input_class(), b.into_text_input_class());
            }
        }
    }
}

#[test]
fn input_size_class_values() {
    assert_eq!(Size::Unset.into_text_input_size(), "");
    assert_eq!(Size::ExtraSmall.into_text_input_size(), "input-xs");
    assert_eq!(Size::Small.into_text_input_size(), "input-sm");
    assert_eq!(Size::Medium.into_text_input_size(), "input-md");
    assert_eq!(Size::Large.into_text_input_size(), "input-lg");
}

#[test]
fn type_str_values() {
    assert_eq!(TextInputType::Text.into_type_str(), "text");
    assert_eq!(TextInputType::Number.into_type_str(), "number");
    assert_eq!(TextInputType::Color.into_type_str(), "color");
    assert_eq!(TextInputType::Date.into_type_str(), "date");
    assert_eq!(TextInputType::DateTimeLocal.into_type_str(), "datetime-local");
    assert_eq!(TextInputType::Email.into_type_str(), "email");
    assert_eq!(TextInputType::Month.into_type_str(), "month");
    assert_eq!(TextInputType::Password.into_type_str(), "password");
    assert_eq!(TextInputType::Search.into_type_str(), "search");
    assert_eq!(TextInputType::Tel.into_type_str(), "tel");
    assert_eq!(TextInputType::Time.into_type_str(), "time");
    assert_eq!(TextInputType::Url.into_type_str(), "url");
    assert_eq!(TextInputType::Week.into_type_str(), "week");
}

#[test]
fn type_str_injective() {
    let all = vec![
        TextInputType::Text,
        TextInputType::Number,
        TextInputType::Color,
        TextInputType::Date,
        TextInputType::DateTimeLocal,
        TextInputType::Email,
        TextInputType::Month,
        TextInputType::Password,
        TextInputType::Search,
        TextInputType::Tel,
        TextInputType::Time,
        TextInputType::Url,
        TextInputType::Week,
    ];
    for (i, a) in all.iter().enumerate() {
        for (j, b) in all.iter().enumerate() {
            if i != j {
                assert_ne!(a.into_type_str(), b.into_type_str());
            }
        }
    }
}

#[test]
fn style_defaults() {
    assert_eq!(Color::default(), Color::Unset);
    assert_eq!(Size::default(), Size::Unset);
    assert_eq!(ButtonColor::default(), ButtonColor::Color(Color::Unset));
    assert_eq!(ButtonWidth::default(), ButtonWidth::Unset);
    assert_eq!(ButtonShape::default(), ButtonShape::Unset);
    assert_eq!(ButtonColor::from(Color::Warning), ButtonColor::Color(Color::Warning));
}
