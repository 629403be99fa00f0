use button_demo::ui::element::Element;
use button_demo::ui::layout::{Length, Padding};
use button_demo::ui::views::home::Message;
use button_demo::ui::widgets::button::{Button, ButtonSize, Variant};

fn label(text: &str, size: u16) -> Element<Message> {
    Element::Text { content: text.to_string(), size: Some(size) }
}

fn content(children: Vec<Element<Message>>) -> Box<Element<Message>> {
    Box::new(Element::Row { children, spacing: 0, height: Length::Shrink })
}

#[test]
fn new_button_has_the_defaults() {
    let element = Element::from(Button::<Message>::new("Plain"));
    assert_eq!(
        element,
        Element::Button {
            content: content(vec![label("Plain", 14)]),
            padding: Padding { vertical: 8, horizontal: 16 },
            width: Length::Shrink,
            height: Length::Shrink,
            variant: Variant::Primary,
            size: ButtonSize::Medium,
            disabled: false,
            on_press: None,
        }
    );
}

#[test]
fn setters_replace_their_attribute_only() {
    let element: Element<Message> = Button::new("Go")
        .variant(Variant::Danger)
        .size(ButtonSize::Large)
        .width(Length::Fill)
        .height(Length::Fixed(40))
        .on_press(Message::Pop)
        .into();
    assert_eq!(
        element,
        Element::Button {
            content: content(vec![label("Go", 16)]),
            padding: Padding { vertical: 12, horizontal: 24 },
            width: Length::Fill,
            height: Length::Fixed(40),
            variant: Variant::Danger,
            size: ButtonSize::Large,
            disabled: false,
            on_press: Some(Message::Pop),
        }
    );
}

#[test]
fn later_setter_wins() {
    let element: Element<Message> = Button::new("Twice")
        .variant(Variant::Subtle)
        .variant(Variant::Secondary)
        .on_press(Message::Pop)
        .on_press(Message::PushDetail("Z".to_string()))
        .into();
    match element {
        Element::Button { variant, on_press, .. } => {
            assert_eq!(variant, Variant::Secondary);
            assert_eq!(on_press, Some(Message::PushDetail("Z".to_string())));
        }
        other => panic!("not a button: {:?}", other),
    }
}

#[test]
fn padding_by_size() {
    let small = Button::<Message>::new("s").size(ButtonSize::Small);
    let medium = Button::<Message>::new("m").size(ButtonSize::Medium);
    let large = Button::<Message>::new("l").size(ButtonSize::Large);
    assert_eq!(small.get_padding(), Padding { vertical: 4, horizontal: 8 });
    assert_eq!(medium.get_padding(), Padding { vertical: 8, horizontal: 16 });
    assert_eq!(large.get_padding(), Padding { vertical: 12, horizontal: 24 });
}

#[test]
fn text_size_by_size() {
    assert_eq!(Button::<Message>::new("s").size(ButtonSize::Small).get_text_size(), 12);
    assert_eq!(Button::<Message>::new("m").size(ButtonSize::Medium).get_text_size(), 14);
    assert_eq!(Button::<Message>::new("l").size(ButtonSize::Large).get_text_size(), 16);
    assert_eq!(Button::<Message>::new("d").get_text_size(), 14);
}

#[test]
fn size_does_not_depend_on_variant_or_disabled() {
    for variant in [Variant::Primary, Variant::Secondary, Variant::Danger, Variant::Subtle] {
        for disabled in [false, true] {
            let button = Button::<Message>::new("x")
                .variant(variant)
                .disabled(disabled)
                .size(ButtonSize::Small);
            assert_eq!(button.get_padding(), Padding { vertical: 4, horizontal: 8 });
            assert_eq!(button.get_text_size(), 12);
        }
    }
}

#[test]
fn disabled_button_sends_nothing_though_a_message_is_attached() {
    let element: Element<Message> =
        Button::new("Disabled").disabled(true).on_press(Message::Pop).into();
    match element {
        Element::Button { on_press, disabled, .. } => {
            assert_eq!(on_press, None);
            assert!(disabled);
        }
        other => panic!("not a button: {:?}", other),
    }
}

#[test]
fn disabling_does_not_clear_the_message() {
    let element: Element<Message> = Button::new("Back")
        .on_press(Message::Pop)
        .disabled(true)
        .disabled(false)
        .into();
    match element {
        Element::Button { on_press, .. } => assert_eq!(on_press, Some(Message::Pop)),
        other => panic!("not a button: {:?}", other),
    }
}

#[test]
fn button_without_message_sends_nothing_enabled_or_disabled() {
    for disabled in [false, true] {
        let element: Element<Message> = Button::new("No Action")
            .variant(Variant::Secondary)
            .size(ButtonSize::Medium)
            .disabled(disabled)
            .into();
        match element {
            Element::Button { on_press, variant, disabled: flag, .. } => {
                assert_eq!(on_press, None);
                assert_eq!(variant, Variant::Secondary);
                assert_eq!(flag, disabled);
            }
            other => panic!("not a button: {:?}", other),
        }
    }
}

#[test]
fn icon_stands_before_the_label() {
    let icon: Element<Message> = Element::Text { content: "*".to_string(), size: None };
    let element: Element<Message> = Button::new("Star").size(ButtonSize::Small).icon(icon).into();
    match element {
        Element::Button { content: inner, .. } => assert_eq!(
            inner,
            content(vec![
                Element::Text { content: "*".to_string(), size: None },
                label("Star", 12),
            ])
        ),
        other => panic!("not a button: {:?}", other),
    }
}

#[test]
fn works_with_any_message_type() {
    let element: Element<u32> = Button::new("Seven").on_press(7).into();
    match element {
        Element::Button { on_press, .. } => assert_eq!(on_press, Some(7)),
        other => panic!("not a button: {:?}", other),
    }
}
