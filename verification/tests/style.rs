use button_demo::ui::theme::{Color, Tone};
use button_demo::ui::widgets::button::{
    Border, Button, ButtonSize, Status, Style, Variant, CORNER_RADIUS,
};

const VARIANTS: [Variant; 4] =
    [Variant::Primary, Variant::Secondary, Variant::Danger, Variant::Subtle];
const STATUSES: [Status; 4] =
    [Status::Active, Status::Hovered, Status::Pressed, Status::Disabled];
const SIZES: [ButtonSize; 3] = [ButtonSize::Small, ButtonSize::Medium, ButtonSize::Large];

fn tone(tone: Tone, alpha_percent: u8) -> Color {
    Color::Themed { tone, alpha_percent }
}

fn style(variant: Variant, size: ButtonSize, status: Status) -> Style {
    Button::<()>::style(variant, size, status)
}

fn plain(background: Option<Color>, text_color: Color) -> Style {
    Style {
        background,
        text_color,
        border: Border { width: 0, radius: 8, color: Color::Transparent },
        snap: true,
    }
}

fn outlined(background: Option<Color>, text_color: Color, line: Color) -> Style {
    Style {
        background,
        text_color,
        border: Border { width: 1, radius: 8, color: line },
        snap: true,
    }
}

#[test]
fn corner_radius_is_eight() {
    assert_eq!(CORNER_RADIUS, 8);
}

#[test]
fn primary_styles() {
    let rest = plain(Some(tone(Tone::PrimaryBase, 100)), tone(Tone::PrimaryBaseText, 100));
    assert_eq!(style(Variant::Primary, ButtonSize::Medium, Status::Active), rest);
    assert_eq!(style(Variant::Primary, ButtonSize::Medium, Status::Pressed), rest);
    assert_eq!(
        style(Variant::Primary, ButtonSize::Medium, Status::Hovered),
        plain(Some(tone(Tone::PrimaryStrong, 100)), tone(Tone::PrimaryStrongText, 100))
    );
    assert_eq!(
        style(Variant::Primary, ButtonSize::Medium, Status::Disabled),
        plain(Some(tone(Tone::PrimaryBase, 50)), tone(Tone::PrimaryBaseText, 50))
    );
}

#[test]
fn secondary_styles() {
    let rest =
        outlined(None, tone(Tone::BackgroundBaseText, 100), tone(Tone::BackgroundStrong, 100));
    assert_eq!(style(Variant::Secondary, ButtonSize::Medium, Status::Active), rest);
    assert_eq!(style(Variant::Secondary, ButtonSize::Medium, Status::Pressed), rest);
    assert_eq!(
        style(Variant::Secondary, ButtonSize::Medium, Status::Hovered),
        outlined(
            Some(tone(Tone::BackgroundStrong, 10)),
            tone(Tone::BackgroundBaseText, 100),
            tone(Tone::BackgroundStrong, 100)
        )
    );
    assert_eq!(
        style(Variant::Secondary, ButtonSize::Medium, Status::Disabled),
        outlined(None, tone(Tone::BackgroundBaseText, 50), tone(Tone::BackgroundStrong, 50))
    );
}

#[test]
fn danger_styles() {
    let rest = plain(Some(tone(Tone::DangerBase, 100)), tone(Tone::DangerBaseText, 100));
    assert_eq!(style(Variant::Danger, ButtonSize::Medium, Status::Active), rest);
    assert_eq!(style(Variant::Danger, ButtonSize::Medium, Status::Pressed), rest);
    assert_eq!(
        style(Variant::Danger, ButtonSize::Medium, Status::Hovered),
        plain(Some(tone(Tone::DangerStrong, 100)), tone(Tone::DangerStrongText, 100))
    );
    assert_eq!(
        style(Variant::Danger, ButtonSize::Medium, Status::Disabled),
        plain(Some(tone(Tone::DangerBase, 50)), tone(Tone::DangerBaseText, 50))
    );
}

#[test]
fn subtle_styles() {
    let rest = plain(Some(tone(Tone::BackgroundWeakest, 100)), tone(Tone::BackgroundBaseText, 100));
    assert_eq!(style(Variant::Subtle, ButtonSize::Medium, Status::Active), rest);
    assert_eq!(style(Variant::Subtle, ButtonSize::Medium, Status::Pressed), rest);
    assert_eq!(
        style(Variant::Subtle, ButtonSize::Medium, Status::Hovered),
        plain(Some(tone(Tone::BackgroundWeaker, 100)), tone(Tone::BackgroundBaseText, 100))
    );
    assert_eq!(
        style(Variant::Subtle, ButtonSize::Medium, Status::Disabled),
        plain(Some(tone(Tone::BackgroundWeakest, 50)), tone(Tone::BackgroundBaseText, 50))
    );
}

#[test]
fn every_combination_resolves_and_size_has_no_part() {
    for variant in VARIANTS {
        for status in STATUSES {
            let medium = style(variant, ButtonSize::Medium, status);
            assert!(medium.snap);
            assert_eq!(medium.border.radius, 8);
            for size in SIZES {
                assert_eq!(style(variant, size, status), medium);
            }
        }
    }
}

fn alpha(color: Color) -> u32 {
    match color {
        Color::Transparent => 0,
        Color::Themed { alpha_percent, .. } => u32::from(alpha_percent),
    }
}

fn hue(color: Color) -> Option<Tone> {
    match color {
        Color::Transparent => None,
        Color::Themed { tone, .. } => Some(tone),
    }
}

#[test]
fn disabled_is_active_at_half_opacity() {
    for variant in VARIANTS {
        for size in SIZES {
            let active = style(variant, size, Status::Active);
            let disabled = style(variant, size, Status::Disabled);
            assert_eq!(hue(disabled.text_color), hue(active.text_color));
            assert_eq!(2 * alpha(disabled.text_color), alpha(active.text_color));
            assert_eq!(disabled.background.is_some(), active.background.is_some());
            if let (Some(dimmed), Some(full)) = (disabled.background, active.background) {
                assert_eq!(hue(dimmed), hue(full));
                assert_eq!(2 * alpha(dimmed), alpha(full));
            }
            assert_eq!(hue(disabled.border.color), hue(active.border.color));
            assert_eq!(2 * alpha(disabled.border.color), alpha(active.border.color));
            assert_eq!(disabled.border.width, active.border.width);
            assert_eq!(disabled.border.radius, active.border.radius);
        }
    }
}

#[test]
fn border_is_drawn_only_around_secondary() {
    for variant in VARIANTS {
        for status in STATUSES {
            let resolved = style(variant, ButtonSize::Medium, status);
            if variant == Variant::Secondary {
                assert_eq!(resolved.border.width, 1);
                assert_ne!(resolved.border.color, Color::Transparent);
            } else {
                assert_eq!(resolved.border.width, 0);
                assert_eq!(resolved.border.color, Color::Transparent);
            }
        }
    }
}

#[test]
fn transparent_fill_is_not_painted() {
    for status in [Status::Active, Status::Pressed, Status::Disabled] {
        assert_eq!(style(Variant::Secondary, ButtonSize::Medium, status).background, None);
    }
    assert_ne!(style(Variant::Secondary, ButtonSize::Medium, Status::Hovered).background, None);
}

#[test]
fn color_of_tone_is_fully_opaque() {
    assert_eq!(Color::of(Tone::DangerStrong), tone(Tone::DangerStrong, 100));
    assert!(!Color::of(Tone::DangerStrong).is_transparent());
    assert!(Color::Transparent.is_transparent());
}

#[test]
fn scale_alpha_keeps_tone_and_scales_opacity() {
    assert_eq!(Color::of(Tone::PrimaryBase).scale_alpha(50), tone(Tone::PrimaryBase, 50));
    assert_eq!(Color::of(Tone::PrimaryBase).scale_alpha(10), tone(Tone::PrimaryBase, 10));
    assert_eq!(Color::of(Tone::PrimaryBase).scale_alpha(100), tone(Tone::PrimaryBase, 100));
    assert_eq!(Color::of(Tone::PrimaryBase).scale_alpha(0), tone(Tone::PrimaryBase, 0));
    assert_eq!(tone(Tone::PrimaryBase, 50).scale_alpha(50), tone(Tone::PrimaryBase, 25));
    assert_eq!(tone(Tone::PrimaryBase, 25).scale_alpha(50), tone(Tone::PrimaryBase, 12));
    assert_eq!(tone(Tone::PrimaryBase, 255).scale_alpha(100), tone(Tone::PrimaryBase, 255));
    assert_eq!(Color::Transparent.scale_alpha(50), Color::Transparent);
    assert!(!tone(Tone::PrimaryBase, 0).is_transparent());
}

#[test]
fn defaults_are_primary_and_medium() {
    assert_eq!(Variant::default(), Variant::Primary);
    assert_eq!(ButtonSize::default(), ButtonSize::Medium);
}

#[test]
fn only_the_disabled_flag_dims() {
    for reported in STATUSES {
        assert_eq!(reported.in_tier(true), Status::Disabled);
    }
    assert_eq!(Status::Active.in_tier(false), Status::Active);
    assert_eq!(Status::Hovered.in_tier(false), Status::Hovered);
    assert_eq!(Status::Pressed.in_tier(false), Status::Pressed);
    assert_eq!(Status::Disabled.in_tier(false), Status::Active);
}

#[test]
fn button_with_nothing_to_send_is_painted_as_at_rest() {
    for variant in VARIANTS {
        let painted = style(variant, ButtonSize::Medium, Status::Disabled.in_tier(false));
        assert_eq!(painted, style(variant, ButtonSize::Medium, Status::Active));
        assert_ne!(painted, style(variant, ButtonSize::Medium, Status::Disabled));
    }
}
