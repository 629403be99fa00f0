//! The styled button: a description of one button, built afresh each time a
//! screen is laid out, and the look of a button of each role in each phase of
//! interaction.

use vstd::prelude::*;
use crate::ui::element::{no_children, push_child, trees, Element, SpecElement};
use crate::ui::layout::{Length, Padding};
use crate::ui::theme::{Color, Tone};

verus! {

/// The role of a button, which decides its colors.
#[derive(Debug, Clone, Copy, PartialEq, Eq, Structural)]
pub enum Variant {
    Primary,
    Secondary,
    Danger,
    Subtle,
}

/// The size of a button, which decides its padding and the size of its label.
#[derive(Debug, Clone, Copy, PartialEq, Eq, Structural)]
pub enum ButtonSize {
    Small,
    Medium,
    Large,
}

/// The phase of interaction that a button is in, as whoever dispatches pointer
/// events reports it.
#[derive(Debug, Clone, Copy, PartialEq, Eq, Structural)]
pub enum Status {
    /// At rest: enabled, and the pointer is elsewhere.
    Active,
    /// The pointer is over the button.
    Hovered,
    /// The button is being pressed.
    Pressed,
    /// The button cannot be pressed.
    Disabled,
}

impl Status {
    /// The phase in which a button is painted when `self` is reported for it.
    /// A disabled button is painted as disabled. A button that is not disabled
    /// is never painted as disabled: where that is reported for it, because
    /// nothing is attached that it could send, it is painted as at rest.
    pub open spec fn tier(self, disabled: bool) -> Status {
        if disabled {
            Status::Disabled
        } else if self == Status::Disabled {
            Status::Active
        } else {
            self
        }
    }

    /// Computes [`Status::tier`].
    pub fn in_tier(self, disabled: bool) -> (status: Status)
        ensures
            status == self.tier(disabled),
    {
        if disabled {
            Status::Disabled
        } else {
            match self {
                Status::Disabled => Status::Active,
                other => other,
            }
        }
    }
}

impl Default for Variant {
    fn default() -> (variant: Variant)
        ensures
            variant == Variant::Primary,
    {
        Variant::Primary
    }
}

impl Default for ButtonSize {
    fn default() -> (size: ButtonSize)
        ensures
            size == ButtonSize::Medium,
    {
        ButtonSize::Medium
    }
}

/// The three colors of a button: its fill, its label, and its border where it
/// has one.
#[derive(Debug, Clone, Copy, PartialEq, Eq, Structural)]
pub struct Coloring {
    pub background: Color,
    pub text: Color,
    pub border: Option<Color>,
}

/// The line around a button.
#[derive(Debug, Clone, Copy, PartialEq, Eq, Structural)]
pub struct Border {
    /// The line's width in pixels; `0` draws none.
    pub width: u16,
    /// The radius of the corners in pixels.
    pub radius: u16,
    pub color: Color,
}

/// How a button is painted. A button casts no shadow, so there is none to
/// describe.
#[derive(Debug, Clone, Copy, PartialEq, Eq, Structural)]
pub struct Style {
    /// The fill; `None` paints no fill at all, so that what lies under the
    /// button shows through.
    pub background: Option<Color>,
    pub text_color: Color,
    pub border: Border,
    /// Whether the button's bounds are aligned to whole pixels.
    pub snap: bool,
}

/// The radius of a button's corners in pixels.
pub const CORNER_RADIUS: u16 = 8;

/// The hundredths of its opacity that a disabled button keeps.
pub const DISABLED_ALPHA_PERCENT: u8 = 50;

/// The hundredths of its opacity that the fill of a hovered secondary button
/// keeps.
pub const SECONDARY_HOVER_ALPHA_PERCENT: u8 = 10;

impl Coloring {
    /// The colors of a button of the given role at rest.
    pub open spec fn base(variant: Variant) -> Coloring {
        match variant {
            Variant::Primary => Coloring {
                background: Color::Themed { tone: Tone::PrimaryBase, alpha_percent: 100 },
                text: Color::Themed { tone: Tone::PrimaryBaseText, alpha_percent: 100 },
                border: None,
            },
            Variant::Secondary => Coloring {
                background: Color::Transparent,
                text: Color::Themed { tone: Tone::BackgroundBaseText, alpha_percent: 100 },
                border: Some(Color::Themed { tone: Tone::BackgroundStrong, alpha_percent: 100 }),
            },
            Variant::Danger => Coloring {
                background: Color::Themed { tone: Tone::DangerBase, alpha_percent: 100 },
                text: Color::Themed { tone: Tone::DangerBaseText, alpha_percent: 100 },
                border: None,
            },
            Variant::Subtle => Coloring {
                background: Color::Themed { tone: Tone::BackgroundWeakest, alpha_percent: 100 },
                text: Color::Themed { tone: Tone::BackgroundBaseText, alpha_percent: 100 },
                border: None,
            },
        }
    }

    /// The colors of a button of the given role under the pointer. The accents
    /// turn to their stronger pair; a secondary button is filled with a faint
    /// wash of its border's tone; a subtle button is filled one step stronger.
    pub open spec fn hovered(variant: Variant) -> Coloring {
        match variant {
            Variant::Primary => Coloring {
                background: Color::Themed { tone: Tone::PrimaryStrong, alpha_percent: 100 },
                text: Color::Themed { tone: Tone::PrimaryStrongText, alpha_percent: 100 },
                border: None,
            },
            Variant::Secondary => Coloring {
                background: Color::Themed {
                    tone: Tone::BackgroundStrong,
                    alpha_percent: SECONDARY_HOVER_ALPHA_PERCENT,
                },
                ..Coloring::base(variant)
            },
            Variant::Danger => Coloring {
                background: Color::Themed { tone: Tone::DangerStrong, alpha_percent: 100 },
                text: Color::Themed { tone: Tone::DangerStrongText, alpha_percent: 100 },
                border: None,
            },
            Variant::Subtle => Coloring {
                background: Color::Themed { tone: Tone::BackgroundWeaker, alpha_percent: 100 },
                ..Coloring::base(variant)
            },
        }
    }

    /// These colors as a disabled button wears them: each at half its opacity.
    pub open spec fn dimmed(self) -> Coloring {
        Coloring {
            background: self.background.scaled(DISABLED_ALPHA_PERCENT),
            text: self.text.scaled(DISABLED_ALPHA_PERCENT),
            border: match self.border {
                Some(color) => Some(color.scaled(DISABLED_ALPHA_PERCENT)),
                None => None,
            },
        }
    }

    /// The colors of a button of the given role in the given phase: the base
    /// colors at rest and while pressed, the hover colors under the pointer,
    /// the dimmed base colors when disabled.
    pub open spec fn resolved(variant: Variant, status: Status) -> Coloring {
        match status {
            Status::Active | Status::Pressed => Coloring::base(variant),
            Status::Hovered => Coloring::hovered(variant),
            Status::Disabled => Coloring::base(variant).dimmed(),
        }
    }

    /// The style that paints these colors. A transparent fill is not painted.
    /// The border is one pixel wide where it has a color, and absent otherwise;
    /// the corners are rounded either way.
    pub open spec fn framed(self) -> Style {
        Style {
            background: if self.background is Transparent {
                None
            } else {
                Some(self.background)
            },
            text_color: self.text,
            border: Border {
                width: if self.border is Some { 1 } else { 0 },
                radius: CORNER_RADIUS,
                color: match self.border {
                    Some(color) => color,
                    None => Color::Transparent,
                },
            },
            snap: true,
        }
    }

    /// Computes [`Coloring::base`].
    pub fn of_variant(variant: Variant) -> (coloring: Coloring)
        ensures
            coloring == Coloring::base(variant),
    {
        match variant {
            Variant::Primary => Coloring {
                background: Color::of(Tone::PrimaryBase),
                text: Color::of(Tone::PrimaryBaseText),
                border: None,
            },
            Variant::Secondary => Coloring {
                background: Color::Transparent,
                text: Color::of(Tone::BackgroundBaseText),
                border: Some(Color::of(Tone::BackgroundStrong)),
            },
            Variant::Danger => Coloring {
                background: Color::of(Tone::DangerBase),
                text: Color::of(Tone::DangerBaseText),
                border: None,
            },
            Variant::Subtle => Coloring {
                background: Color::of(Tone::BackgroundWeakest),
                text: Color::of(Tone::BackgroundBaseText),
                border: None,
            },
        }
    }
}

impl Style {
    /// The style of a button of the given role and size in the given phase.
    /// The size has no part in it.
    pub open spec fn resolved(variant: Variant, size: ButtonSize, status: Status) -> Style {
        Coloring::resolved(variant, status).framed()
    }
}

impl ButtonSize {
    /// The padding of a button of this size.
    pub open spec fn padding(self) -> Padding {
        match self {
            ButtonSize::Small => Padding { vertical: 4, horizontal: 8 },
            ButtonSize::Medium => Padding { vertical: 8, horizontal: 16 },
            ButtonSize::Large => Padding { vertical: 12, horizontal: 24 },
        }
    }

    /// The size of the label of a button of this size.
    pub open spec fn text_size(self) -> u16 {
        match self {
            ButtonSize::Small => 12,
            ButtonSize::Medium => 14,
            ButtonSize::Large => 16,
        }
    }
}

/// The description of one button. It is built by [`Button::new`] and the
/// setters that follow it, and used up when it is turned into an [`Element`].
#[derive(Debug)]
pub struct Button<Message> {
    text: String,
    variant: Variant,
    size: ButtonSize,
    disabled: bool,
    on_press: Option<Message>,
    width: Length,
    height: Length,
    icon: Option<Element<Message>>,
}

/// What a [`Button`] stands for.
pub struct SpecButton<Message> {
    /// The label.
    pub text: Seq<char>,
    pub variant: Variant,
    pub size: ButtonSize,
    /// Whether pressing is switched off, whatever `on_press` holds.
    pub disabled: bool,
    /// The message that a press sends, if any is attached.
    pub on_press: Option<Message>,
    pub width: Length,
    pub height: Length,
    /// The element that stands before the label, if there is one.
    pub icon: Option<SpecElement<Message>>,
}

impl<Message> SpecButton<Message> {
    /// The button that [`Button::new`] describes: a primary button of medium
    /// size that is enabled, sends nothing, is as large as its content and has
    /// no icon.
    pub open spec fn new(text: Seq<char>) -> SpecButton<Message> {
        SpecButton {
            text,
            variant: Variant::Primary,
            size: ButtonSize::Medium,
            disabled: false,
            on_press: None,
            width: Length::Shrink,
            height: Length::Shrink,
            icon: None,
        }
    }

    /// The message that a press of the button sends: the one attached, unless
    /// the button is disabled. Disabling leaves the message attached and
    /// keeps it from being sent.
    pub open spec fn sends(self) -> Option<Message> {
        if self.disabled {
            None
        } else {
            self.on_press
        }
    }

    /// What stands on the button: the icon, if there is one, then the label in
    /// the size that goes with the size of the button.
    pub open spec fn content(self) -> SpecElement<Message> {
        let label = SpecElement::Text { content: self.text, size: Some(self.size.text_size()) };
        SpecElement::Row {
            children: match self.icon {
                Some(icon) => seq![icon, label],
                None => seq![label],
            },
            spacing: 0,
            height: Length::Shrink,
        }
    }

    /// The element that shows the button.
    pub open spec fn rendered(self) -> SpecElement<Message> {
        SpecElement::Button {
            content: Box::new(self.content()),
            padding: self.size.padding(),
            width: self.width,
            height: self.height,
            variant: self.variant,
            size: self.size,
            disabled: self.disabled,
            on_press: self.sends(),
        }
    }
}

impl<Message: View> View for Button<Message> {
    type V = SpecButton<Message::V>;

    closed spec fn view(&self) -> SpecButton<Message::V> {
        SpecButton {
            text: self.text@,
            variant: self.variant,
            size: self.size,
            disabled: self.disabled,
            on_press: match self.on_press {
                Some(message) => Some(message@),
                None => None,
            },
            width: self.width,
            height: self.height,
            icon: match self.icon {
                Some(icon) => Some(icon@),
                None => None,
            },
        }
    }
}

impl<Message> Button<Message> {
    /// Resolves the style of a button of the given role and size in the given
    /// phase of interaction.
    pub fn style(variant: Variant, size: ButtonSize, status: Status) -> (style: Style)
        ensures
            style == Style::resolved(variant, size, status),
    {
        let base = Coloring::of_variant(variant);
        let coloring = match status {
            Status::Active | Status::Pressed => base,
            Status::Hovered => match variant {
                Variant::Primary => Coloring {
                    background: Color::of(Tone::PrimaryStrong),
                    text: Color::of(Tone::PrimaryStrongText),
                    border: None,
                },
                Variant::Secondary => Coloring {
                    background: Color::of(Tone::BackgroundStrong).scale_alpha(
                        SECONDARY_HOVER_ALPHA_PERCENT,
                    ),
                    text: base.text,
                    border: base.border,
                },
                Variant::Danger => Coloring {
                    background: Color::of(Tone::DangerStrong),
                    text: Color::of(Tone::DangerStrongText),
                    border: None,
                },
                Variant::Subtle => Coloring {
                    background: Color::of(Tone::BackgroundWeaker),
                    text: base.text,
                    border: None,
                },
            },
            Status::Disabled => Coloring {
                background: base.background.scale_alpha(DISABLED_ALPHA_PERCENT),
                text: base.text.scale_alpha(DISABLED_ALPHA_PERCENT),
                border: match base.border {
                    Some(color) => Some(color.scale_alpha(DISABLED_ALPHA_PERCENT)),
                    None => None,
                },
            },
        };
        Style {
            background: if coloring.background.is_transparent() {
                None
            } else {
                Some(coloring.background)
            },
            text_color: coloring.text,
            border: Border {
                width: if coloring.border.is_some() { 1 } else { 0 },
                radius: CORNER_RADIUS,
                color: match coloring.border {
                    Some(color) => color,
                    None => Color::Transparent,
                },
            },
            snap: true,
        }
    }
}

impl<Message: View> Button<Message> {
    /// A button with the given label and nothing else set.
    pub fn new(text: &str) -> (button: Self)
        ensures
            button@ == SpecButton::<Message::V>::new(text@),
    {
        Button {
            text: text.to_owned(),
            variant: Variant::default(),
            size: ButtonSize::default(),
            disabled: false,
            on_press: None,
            width: Length::Shrink,
            height: Length::Shrink,
            icon: None,
        }
    }

    /// Sets the role.
    pub fn variant(self, variant: Variant) -> (button: Self)
        ensures
            button@ == (SpecButton { variant, ..self@ }),
    {
        Button { variant, ..self }
    }

    /// Sets the size.
    pub fn size(self, size: ButtonSize) -> (button: Self)
        ensures
            button@ == (SpecButton { size, ..self@ }),
    {
        Button { size, ..self }
    }

    /// Switches pressing off or on. A message that is attached stays attached.
    pub fn disabled(self, disabled: bool) -> (button: Self)
        ensures
            button@ == (SpecButton { disabled, ..self@ }),
    {
        Button { disabled, ..self }
    }

    /// Attaches the message that a press sends, in place of any attached
    /// before.
    pub fn on_press(self, message: Message) -> (button: Self)
        ensures
            button@ == (SpecButton { on_press: Some(message@), ..self@ }),
    {
        Button { on_press: Some(message), ..self }
    }

    /// Sets the width.
    pub fn width(self, width: Length) -> (button: Self)
        ensures
            button@ == (SpecButton { width, ..self@ }),
    {
        Button { width, ..self }
    }

    /// Sets the height.
    pub fn height(self, height: Length) -> (button: Self)
        ensures
            button@ == (SpecButton { height, ..self@ }),
    {
        Button { height, ..self }
    }

    /// Puts an element before the label, in place of any put there before.
    pub fn icon(self, icon: Element<Message>) -> (button: Self)
        ensures
            button@ == (SpecButton { icon: Some(icon@), ..self@ }),
    {
        Button { icon: Some(icon), ..self }
    }

    /// The padding that goes with the button's size.
    pub fn get_padding(&self) -> (padding: Padding)
        ensures
            padding == self@.size.padding(),
    {
        match self.size {
            ButtonSize::Small => Padding { vertical: 4, horizontal: 8 },
            ButtonSize::Medium => Padding { vertical: 8, horizontal: 16 },
            ButtonSize::Large => Padding { vertical: 12, horizontal: 24 },
        }
    }

    /// The size of the label that goes with the button's size.
    pub fn get_text_size(&self) -> (text_size: u16)
        ensures
            text_size == self@.size.text_size(),
    {
        match self.size {
            ButtonSize::Small => 12,
            ButtonSize::Medium => 14,
            ButtonSize::Large => 16,
        }
    }
}

impl<Message: View> From<Button<Message>> for Element<Message> {
    /// Turns the description of a button into the element that shows it.
    fn from(button: Button<Message>) -> (element: Element<Message>)
        ensures
            element@ == button@.rendered(),
    {
        let ghost described = button@;
        let padding = button.get_padding();
        let text_size = button.get_text_size();
        let label = Element::Text { content: button.text, size: Some(text_size) };
        let mut children = no_children();
        if let Some(icon) = button.icon {
            push_child(&mut children, icon);
        }
        push_child(&mut children, label);
        assert(trees(children) =~= described.content()->Row_children);
        let content = Element::Row { children, spacing: 0, height: Length::Shrink };
        assert(content@ == described.content());
        let on_press = if button.disabled {
            None
        } else {
            button.on_press
        };
        Element::Button {
            content: Box::new(content),
            padding,
            width: button.width,
            height: button.height,
            variant: button.variant,
            size: button.size,
            disabled: button.disabled,
            on_press,
        }
    }
}

impl<Message: View> vstd::std_specs::convert::FromSpecImpl<Button<Message>> for Element<Message> {
    open spec fn obeys_from_spec() -> bool {
        false
    }

    open spec fn from_spec(button: Button<Message>) -> Element<Message> {
        arbitrary()
    }
}

/// Pressing the element that shows a button sends what the button sends, and
/// nothing else unless the icon holds a button of its own. So a disabled button
/// and a button with no message attached send nothing.
pub proof fn lemma_rendered_offers_what_it_sends<Message>(
    button: SpecButton<Message>,
    message: Message,
)
    ensures
        button.rendered().offers(message) <==> button.sends() == Some(message) || (button.icon
            matches Some(icon) && icon.offers(message)),
{
    let content = button.content();
    let children = content->Row_children;
    let label = SpecElement::<Message>::Text {
        content: button.text,
        size: Some(button.size.text_size()),
    };
    assert(!label.offers(message));
    match button.icon {
        Some(icon) => {
            assert(children[0] == icon && children[1] == label);
            assert(content.offers(message) <==> children[0].offers(message)
                || children[1].offers(message));
        },
        None => {
            assert(children[0] == label);
            assert(content.offers(message) <==> children[0].offers(message));
        },
    }
}

/// The element that shows a button holds itself, the row of its content, its
/// label, what its icon holds, and nothing else.
pub proof fn lemma_rendered_contains<Message>(
    button: SpecButton<Message>,
    part: SpecElement<Message>,
)
    ensures
        button.rendered().contains(part) <==> part == button.rendered() || part
            == button.content() || part == (SpecElement::<Message>::Text {
            content: button.text,
            size: Some(button.size.text_size()),
        }) || (button.icon matches Some(icon) && icon.contains(part)),
{
    let content = button.content();
    let children = content->Row_children;
    let label = SpecElement::<Message>::Text {
        content: button.text,
        size: Some(button.size.text_size()),
    };
    assert(label.contains(part) <==> part == label);
    match button.icon {
        Some(icon) => {
            assert(children[0] == icon && children[1] == label);
            assert(content.contains(part) <==> part == content || children[0].contains(part)
                || children[1].contains(part));
        },
        None => {
            assert(children[0] == label);
            assert(content.contains(part) <==> part == content || children[0].contains(part));
        },
    }
}

/// Whether `dimmed` has the hue of `full` and exactly half its opacity.
pub open spec fn is_half_of(dimmed: Color, full: Color) -> bool {
    dimmed.tone() == full.tone() && 2 * dimmed.alpha() == full.alpha()
}

/// A disabled button is the button at rest at half its opacity: for every role
/// and size, its label, its fill and its border each keep their hue and have
/// exactly half the opacity that they have at rest; a fill that is not painted
/// at rest is not painted when disabled; and the border's width and corners are
/// those at rest.
pub proof fn lemma_disabled_halves_active(variant: Variant, size: ButtonSize)
    ensures
        ({
            let active = Style::resolved(variant, size, Status::Active);
            let disabled = Style::resolved(variant, size, Status::Disabled);
            &&& is_half_of(disabled.text_color, active.text_color)
            &&& match (disabled.background, active.background) {
                (Some(dimmed), Some(full)) => is_half_of(dimmed, full),
                (None, None) => true,
                _ => false,
            }
            &&& is_half_of(disabled.border.color, active.border.color)
            &&& disabled.border.width == active.border.width
            &&& disabled.border.radius == active.border.radius
            &&& disabled.snap == active.snap
        }),
{
}

/// Only the disabled flag dims a button: whatever phase is reported, a button
/// is painted in the style of a disabled one exactly if it is disabled. A
/// button that merely has nothing to send is painted as an enabled one.
pub proof fn lemma_dimmed_only_when_disabled(
    variant: Variant,
    size: ButtonSize,
    reported: Status,
    disabled: bool,
)
    ensures
        Style::resolved(variant, size, reported.tier(disabled)) == Style::resolved(
            variant,
            size,
            Status::Disabled,
        ) <==> disabled,
        !disabled && reported != Status::Disabled ==> reported.tier(disabled) == reported,
{
}

/// A button that is being pressed looks as it does at rest.
pub proof fn lemma_pressed_looks_active(variant: Variant, size: ButtonSize)
    ensures
        Style::resolved(variant, size, Status::Pressed) == Style::resolved(
            variant,
            size,
            Status::Active,
        ),
{
}

/// The size of a button has no part in its style.
pub proof fn lemma_style_ignores_size(
    variant: Variant,
    size: ButtonSize,
    other: ButtonSize,
    status: Status,
)
    ensures
        Style::resolved(variant, size, status) == Style::resolved(variant, other, status),
{
}

/// A border is drawn, one pixel wide, exactly around secondary buttons, and
/// the fill is left unpainted exactly on secondary buttons that are not under
/// the pointer.
pub proof fn lemma_where_border_and_fill_are_drawn(
    variant: Variant,
    size: ButtonSize,
    status: Status,
)
    ensures
        ({
            let style = Style::resolved(variant, size, status);
            &&& style.border.width == (if variant == Variant::Secondary { 1u16 } else { 0u16 })
            &&& style.border.color is Transparent <==> variant != Variant::Secondary
            &&& style.background is None <==> variant == Variant::Secondary && status
                != Status::Hovered
        }),
{
}

} // verus!
