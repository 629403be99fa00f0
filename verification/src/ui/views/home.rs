//! The home screen: two root tabs, and a stack of detail pages that are pushed
//! over them.
//!
//! [`State`] is what the screen remembers, [`Message`] what can happen to it,
//! [`update`] how a message changes the state, and [`view`] the tree that shows
//! a state. While the stack holds a page, its top is all that is shown; the
//! tabs come back when the stack is empty.

use vstd::prelude::*;
use crate::ui::decimal::{decimal, push_decimal};
use crate::ui::element::{no_children, push_child, trees, Element, SpecElement};
use crate::ui::layout::Length;
use crate::ui::widgets::button::{
    lemma_rendered_contains, lemma_rendered_offers_what_it_sends, Button, ButtonSize, SpecButton,
    Variant,
};

verus! {

/// A root tab.
#[derive(Debug, Clone, Copy, PartialEq, Eq, Structural)]
pub enum Sub {
    List,
    Stats,
}

impl Default for Sub {
    fn default() -> (sub: Sub)
        ensures
            sub == Sub::List,
    {
        Sub::List
    }
}

/// A page on the navigation stack.
#[derive(Debug, Clone, PartialEq, Eq)]
pub enum Page {
    /// The detail page with the given label.
    Detail(String),
}

/// What can happen to the screen.
#[derive(Debug, Clone, PartialEq, Eq)]
pub enum Message {
    /// A root tab was chosen.
    SwitchSub(Sub),
    /// A detail page with the given label is to be opened.
    PushDetail(String),
    /// The page on top is to be closed.
    Pop,
    /// The text field was edited and now holds the given text.
    ContentChanged(String),
}

/// What the screen remembers.
#[derive(Debug, Clone, PartialEq, Eq)]
pub struct State {
    /// The root tab that is shown while no page is open.
    pub sub: Sub,
    /// The open pages, the one on top last.
    pub stack: Vec<Page>,
    /// What the text field holds.
    pub content: String,
}

/// What a [`Page`] stands for.
pub enum SpecPage {
    Detail(Seq<char>),
}

/// What a [`Message`] stands for.
pub enum SpecMessage {
    SwitchSub(Sub),
    PushDetail(Seq<char>),
    Pop,
    ContentChanged(Seq<char>),
}

/// What a [`State`] stands for.
pub struct SpecState {
    pub sub: Sub,
    pub stack: Seq<SpecPage>,
    pub content: Seq<char>,
}

impl View for Page {
    type V = SpecPage;

    open spec fn view(&self) -> SpecPage {
        match self {
            Page::Detail(label) => SpecPage::Detail(label@),
        }
    }
}

impl View for Message {
    type V = SpecMessage;

    open spec fn view(&self) -> SpecMessage {
        match self {
            Message::SwitchSub(sub) => SpecMessage::SwitchSub(*sub),
            Message::PushDetail(label) => SpecMessage::PushDetail(label@),
            Message::Pop => SpecMessage::Pop,
            Message::ContentChanged(text) => SpecMessage::ContentChanged(text@),
        }
    }
}

impl View for State {
    type V = SpecState;

    open spec fn view(&self) -> SpecState {
        SpecState {
            sub: self.sub,
            stack: self.stack@.map_values(|page: Page| page@),
            content: self.content@,
        }
    }
}

impl SpecPage {
    /// The label of the page.
    pub open spec fn label(self) -> Seq<char> {
        match self {
            SpecPage::Detail(label) => label,
        }
    }
}

impl SpecState {
    /// The state at startup: the list tab, no page open, an empty field.
    pub open spec fn initial() -> SpecState {
        SpecState { sub: Sub::List, stack: Seq::empty(), content: Seq::empty() }
    }

    /// The state after `message`. Choosing a tab sets the tab. Opening a page
    /// puts it on top of the stack. Closing takes the top off the stack, and
    /// does nothing when the stack is empty. An edit replaces the field's text.
    /// Each message leaves the rest of the state as it was.
    pub open spec fn updated(self, message: SpecMessage) -> SpecState {
        match message {
            SpecMessage::SwitchSub(sub) => SpecState { sub, ..self },
            SpecMessage::PushDetail(label) => SpecState {
                stack: self.stack.push(SpecPage::Detail(label)),
                ..self
            },
            SpecMessage::Pop => SpecState {
                stack: if self.stack.len() > 0 {
                    self.stack.drop_last()
                } else {
                    self.stack
                },
                ..self
            },
            SpecMessage::ContentChanged(text) => SpecState { content: text, ..self },
        }
    }
}

impl Default for State {
    fn default() -> (state: State)
        ensures
            state@ == SpecState::initial(),
    {
        let state = State { sub: Sub::List, stack: Vec::new(), content: String::new() };
        assert(state@.stack =~= Seq::empty());
        state
    }
}

/// Applies `message` to `state`.
pub fn update(state: &mut State, message: Message)
    ensures
        final(state)@ == old(state)@.updated(message@),
{
    match message {
        Message::SwitchSub(sub) => {
            state.sub = sub;
        },
        Message::PushDetail(label) => {
            state.stack.push(Page::Detail(label));
            assert(state@.stack =~= old(state)@.stack.push(SpecPage::Detail(label@)));
        },
        Message::Pop => {
            state.stack.pop();
            assert(old(state)@.stack.len() > 0 ==> state@.stack =~= old(state)@.stack.drop_last());
        },
        Message::ContentChanged(text) => {
            state.content = text;
        },
    }
}

/// What is put after a page's label to label the page that "Open Next" opens.
pub open spec fn next_suffix() -> Seq<char> {
    "-next"@
}

/// The line at the head of a detail page: the page's label and how many pages
/// are open, the number in decimal.
pub open spec fn detail_line(label: Seq<char>, depth: nat) -> Seq<char> {
    "Detail: "@ + label + " (depth "@ + decimal(depth) + ")"@
}

/// A button of the screen: one with the given label, role and size that sends
/// `on_press` unless it is disabled.
pub open spec fn button(
    label: Seq<char>,
    variant: Variant,
    size: ButtonSize,
    disabled: bool,
    on_press: Option<SpecMessage>,
) -> SpecElement<SpecMessage> {
    (SpecButton { variant, size, disabled, on_press, ..SpecButton::new(label) }).rendered()
}

/// The tab selector: one button for each root tab, which chooses that tab.
pub open spec fn tab_selector() -> SpecElement<SpecMessage> {
    SpecElement::Column {
        children: seq![
            button(
                "List"@,
                Variant::Primary,
                ButtonSize::Medium,
                false,
                Some(SpecMessage::SwitchSub(Sub::List)),
            ),
            button(
                "Stats"@,
                Variant::Secondary,
                ButtonSize::Medium,
                false,
                Some(SpecMessage::SwitchSub(Sub::Stats)),
            ),
        ],
        spacing: 0,
    }
}

/// The detail page with the given label when `depth` pages are open: its head
/// line, a button that opens the page labelled with this page's label and
/// [`next_suffix`], and a button that closes the page on top.
pub open spec fn detail_page(label: Seq<char>, depth: nat) -> SpecElement<SpecMessage> {
    SpecElement::Column {
        children: seq![
            SpecElement::Text { content: detail_line(label, depth), size: None },
            button(
                "Open Next"@,
                Variant::Primary,
                ButtonSize::Medium,
                false,
                Some(SpecMessage::PushDetail(label + next_suffix())),
            ),
            button("Back"@, Variant::Danger, ButtonSize::Medium, false, Some(SpecMessage::Pop)),
        ],
        spacing: 0,
    }
}

/// The list tab: a heading; a row of a small primary, a medium secondary and a
/// large danger button, which open the pages "A", "B" and "C"; a row of a
/// subtle button that opens "D", a disabled button to which opening "E" is
/// attached, and a button to which nothing is attached; and the text field,
/// which shows `content`.
pub open spec fn list_page(content: Seq<char>) -> SpecElement<SpecMessage> {
    SpecElement::Column {
        children: seq![
            SpecElement::Text { content: "Button Demo"@, size: None },
            SpecElement::Row {
                children: seq![
                    button(
                        "Primary"@,
                        Variant::Primary,
                        ButtonSize::Small,
                        false,
                        Some(SpecMessage::PushDetail("A"@)),
                    ),
                    button(
                        "Secondary"@,
                        Variant::Secondary,
                        ButtonSize::Medium,
                        false,
                        Some(SpecMessage::PushDetail("B"@)),
                    ),
                    button(
                        "Danger"@,
                        Variant::Danger,
                        ButtonSize::Large,
                        false,
                        Some(SpecMessage::PushDetail("C"@)),
                    ),
                ],
                spacing: 8,
                height: Length::Shrink,
            },
            SpecElement::Row {
                children: seq![
                    button(
                        "Subtle"@,
                        Variant::Subtle,
                        ButtonSize::Medium,
                        false,
                        Some(SpecMessage::PushDetail("D"@)),
                    ),
                    button(
                        "Disabled"@,
                        Variant::Primary,
                        ButtonSize::Medium,
                        true,
                        Some(SpecMessage::PushDetail("E"@)),
                    ),
                    button("No Action"@, Variant::Secondary, ButtonSize::Medium, false, None),
                ],
                spacing: 8,
                height: Length::Shrink,
            },
            SpecElement::TextInput { placeholder: "Type..."@, value: content, size: 16 },
        ],
        spacing: 12,
    }
}

/// The stats tab: a line of text that holds its place.
pub open spec fn stats_page() -> SpecElement<SpecMessage> {
    SpecElement::Column {
        children: seq![SpecElement::Text { content: "Stats View"@, size: None }],
        spacing: 0,
    }
}

/// The page of the given root tab.
pub open spec fn root_page(sub: Sub, content: Seq<char>) -> SpecElement<SpecMessage> {
    match sub {
        Sub::List => list_page(content),
        Sub::Stats => stats_page(),
    }
}

/// The tree that shows `state`. While a page is open, the page on top fills
/// the screen alone. While none is, the tab selector stands beside the page
/// of the chosen tab.
pub open spec fn screen(state: SpecState) -> SpecElement<SpecMessage> {
    if state.stack.len() > 0 {
        SpecElement::Row {
            children: seq![detail_page(state.stack.last().label(), state.stack.len())],
            spacing: 0,
            height: Length::Fill,
        }
    } else {
        SpecElement::Row {
            children: seq![tab_selector(), root_page(state.sub, state.content)],
            spacing: 16,
            height: Length::Fill,
        }
    }
}

/// A line of text in the theme's size.
fn text(content: &str) -> (element: Element<Message>)
    ensures
        element@ == (SpecElement::<SpecMessage>::Text { content: content@, size: None }),
{
    Element::Text { content: content.to_owned(), size: None }
}

/// An enabled button that sends `message`.
fn action(label: &str, variant: Variant, size: ButtonSize, message: Message) -> (element: Element<
    Message,
>)
    ensures
        element@ == button(label@, variant, size, false, Some(message@)),
{
    Element::from(Button::new(label).variant(variant).size(size).on_press(message))
}

fn tabs() -> (element: Element<Message>)
    ensures
        element@ == tab_selector(),
{
    let mut children = no_children();
    push_child(
        &mut children,
        action("List", Variant::Primary, ButtonSize::Medium, Message::SwitchSub(Sub::List)),
    );
    push_child(
        &mut children,
        action("Stats", Variant::Secondary, ButtonSize::Medium, Message::SwitchSub(Sub::Stats)),
    );
    assert(trees(children) =~= tab_selector()->Column_children);
    Element::Column { children, spacing: 0 }
}

fn detail(label: &str, depth: usize) -> (element: Element<Message>)
    ensures
        element@ == detail_page(label@, depth as nat),
{
    let mut line = String::from_str("Detail: ");
    line.append(label);
    line.append(" (depth ");
    push_decimal(&mut line, depth);
    line.append(")");
    let next = String::from_str(label).concat("-next");
    let mut children = no_children();
    push_child(&mut children, Element::Text { content: line, size: None });
    push_child(
        &mut children,
        action("Open Next", Variant::Primary, ButtonSize::Medium, Message::PushDetail(next)),
    );
    push_child(&mut children, action("Back", Variant::Danger, ButtonSize::Medium, Message::Pop));
    assert(trees(children) =~= detail_page(label@, depth as nat)->Column_children);
    Element::Column { children, spacing: 0 }
}

fn list(content: &String) -> (element: Element<Message>)
    ensures
        element@ == list_page(content@),
{
    let mut first = no_children();
    push_child(
        &mut first,
        action(
            "Primary",
            Variant::Primary,
            ButtonSize::Small,
            Message::PushDetail(String::from_str("A")),
        ),
    );
    push_child(
        &mut first,
        action(
            "Secondary",
            Variant::Secondary,
            ButtonSize::Medium,
            Message::PushDetail(String::from_str("B")),
        ),
    );
    push_child(
        &mut first,
        action(
            "Danger",
            Variant::Danger,
            ButtonSize::Large,
            Message::PushDetail(String::from_str("C")),
        ),
    );
    let mut second = no_children();
    push_child(
        &mut second,
        action(
            "Subtle",
            Variant::Subtle,
            ButtonSize::Medium,
            Message::PushDetail(String::from_str("D")),
        ),
    );
    push_child(
        &mut second,
        Element::from(
            Button::new("Disabled").variant(Variant::Primary).size(ButtonSize::Medium).disabled(
                true,
            ).on_press(Message::PushDetail(String::from_str("E"))),
        ),
    );
    push_child(
        &mut second,
        Element::from(
            Button::new("No Action").variant(Variant::Secondary).size(ButtonSize::Medium),
        ),
    );
    assert(trees(first) =~= list_page(content@)->Column_children[1]->Row_children);
    assert(trees(second) =~= list_page(content@)->Column_children[2]->Row_children);
    let mut children = no_children();
    push_child(&mut children, text("Button Demo"));
    push_child(&mut children, Element::Row { children: first, spacing: 8, height: Length::Shrink });
    push_child(
        &mut children,
        Element::Row { children: second, spacing: 8, height: Length::Shrink },
    );
    push_child(
        &mut children,
        Element::TextInput {
            placeholder: String::from_str("Type..."),
            value: content.clone(),
            size: 16,
        },
    );
    assert(trees(children) =~= list_page(content@)->Column_children);
    Element::Column { children, spacing: 12 }
}

fn stats() -> (element: Element<Message>)
    ensures
        element@ == stats_page(),
{
    let mut children = no_children();
    push_child(&mut children, text("Stats View"));
    Element::Column { children, spacing: 0 }
}

/// The tree that shows `state`.
pub fn view(state: &State) -> (tree: Element<Message>)
    ensures
        tree@ == screen(state@),
{
    let depth = state.stack.len();
    if depth > 0 {
        let page = match &state.stack[depth - 1] {
            Page::Detail(label) => detail(label.as_str(), depth),
        };
        let mut children = no_children();
        push_child(&mut children, page);
        Element::Row { children, spacing: 0, height: Length::Fill }
    } else {
        let main = match state.sub {
            Sub::List => list(&state.content),
            Sub::Stats => stats(),
        };
        let mut children = no_children();
        push_child(&mut children, tabs());
        push_child(&mut children, main);
        assert(trees(children) =~= screen(state@)->Row_children);
        Element::Row { children, spacing: 16, height: Length::Fill }
    }
}

/// The message that reports an edit of the text field: the field's whole new
/// text.
pub fn edited(text: String) -> (message: Message)
    ensures
        message@ == SpecMessage::ContentChanged(text@),
{
    Message::ContentChanged(text)
}

/// Whether the screen that shows `state` has a button that sends `message`.
/// While a page is open these are "Open Next", which opens the page labelled
/// with the label of the page on top and [`next_suffix`], and "Back", which
/// closes the page on top. While none is open they are the two tab buttons
/// and, on the list tab, the four buttons that open the pages "A" to "D".
pub open spec fn sendable(state: SpecState, message: SpecMessage) -> bool {
    if state.stack.len() > 0 {
        message == SpecMessage::PushDetail(state.stack.last().label() + next_suffix()) || message
            == SpecMessage::Pop
    } else {
        message is SwitchSub || (state.sub == Sub::List && (message == SpecMessage::PushDetail(
            "A"@,
        ) || message == SpecMessage::PushDetail("B"@) || message == SpecMessage::PushDetail("C"@)
            || message == SpecMessage::PushDetail("D"@)))
    }
}

/// A button of the screen sends the message attached to it unless it is
/// disabled, and sends nothing else.
proof fn lemma_button_offers(
    label: Seq<char>,
    variant: Variant,
    size: ButtonSize,
    disabled: bool,
    on_press: Option<SpecMessage>,
    message: SpecMessage,
)
    ensures
        button(label, variant, size, disabled, on_press).offers(message) <==> !disabled && on_press
            == Some(message),
{
    lemma_rendered_offers_what_it_sends(
        SpecButton { variant, size, disabled, on_press, ..SpecButton::new(label) },
        message,
    );
}

/// The screen's buttons send exactly the messages that [`sendable`] names.
pub proof fn lemma_screen_offers(state: SpecState, message: SpecMessage)
    ensures
        screen(state).offers(message) <==> sendable(state, message),
{
    let shown = screen(state)->Row_children;
    if state.stack.len() > 0 {
        let label = state.stack.last().label();
        let page = detail_page(label, state.stack.len());
        let parts = page->Column_children;
        lemma_button_offers(
            "Open Next"@,
            Variant::Primary,
            ButtonSize::Medium,
            false,
            Some(SpecMessage::PushDetail(label + next_suffix())),
            message,
        );
        lemma_button_offers(
            "Back"@,
            Variant::Danger,
            ButtonSize::Medium,
            false,
            Some(SpecMessage::Pop),
            message,
        );
        assert(!parts[0].offers(message));
        assert(page.offers(message) <==> parts[1].offers(message) || parts[2].offers(message));
        assert(shown[0] == page);
        assert(screen(state).offers(message) <==> shown[0].offers(message));
    } else {
        let side = tab_selector();
        let main = root_page(state.sub, state.content);
        assert(shown[0] == side && shown[1] == main);
        assert(screen(state).offers(message) <==> shown[0].offers(message) || shown[1].offers(
            message,
        ));
        let tabs = side->Column_children;
        lemma_button_offers(
            "List"@,
            Variant::Primary,
            ButtonSize::Medium,
            false,
            Some(SpecMessage::SwitchSub(Sub::List)),
            message,
        );
        lemma_button_offers(
            "Stats"@,
            Variant::Secondary,
            ButtonSize::Medium,
            false,
            Some(SpecMessage::SwitchSub(Sub::Stats)),
            message,
        );
        assert(side.offers(message) <==> tabs[0].offers(message) || tabs[1].offers(message));
        assert(side.offers(message) <==> message is SwitchSub);
        match state.sub {
            Sub::List => {
                let parts = main->Column_children;
                let first = parts[1]->Row_children;
                let second = parts[2]->Row_children;
                lemma_button_offers(
                    "Primary"@,
                    Variant::Primary,
                    ButtonSize::Small,
                    false,
                    Some(SpecMessage::PushDetail("A"@)),
                    message,
                );
                lemma_button_offers(
                    "Secondary"@,
                    Variant::Secondary,
                    ButtonSize::Medium,
                    false,
                    Some(SpecMessage::PushDetail("B"@)),
                    message,
                );
                lemma_button_offers(
                    "Danger"@,
                    Variant::Danger,
                    ButtonSize::Large,
                    false,
                    Some(SpecMessage::PushDetail("C"@)),
                    message,
                );
                lemma_button_offers(
                    "Subtle"@,
                    Variant::Subtle,
                    ButtonSize::Medium,
                    false,
                    Some(SpecMessage::PushDetail("D"@)),
                    message,
                );
                lemma_button_offers(
                    "Disabled"@,
                    Variant::Primary,
                    ButtonSize::Medium,
                    true,
                    Some(SpecMessage::PushDetail("E"@)),
                    message,
                );
                lemma_button_offers(
                    "No Action"@,
                    Variant::Secondary,
                    ButtonSize::Medium,
                    false,
                    None,
                    message,
                );
                assert(parts[1].offers(message) <==> first[0].offers(message) || first[1].offers(
                    message,
                ) || first[2].offers(message));
                assert(parts[2].offers(message) <==> second[0].offers(message)
                    || second[1].offers(message) || second[2].offers(message));
                assert(!parts[0].offers(message));
                assert(!parts[3].offers(message));
                assert(main.offers(message) <==> parts[1].offers(message) || parts[2].offers(
                    message,
                ));
            },
            Sub::Stats => {
                let parts = main->Column_children;
                assert(!parts[0].offers(message));
                assert(!main.offers(message));
            },
        }
    }
}

/// A button of the screen holds no column.
proof fn lemma_button_holds_no_column(
    label: Seq<char>,
    variant: Variant,
    size: ButtonSize,
    disabled: bool,
    on_press: Option<SpecMessage>,
    part: SpecElement<SpecMessage>,
)
    requires
        part is Column,
    ensures
        !button(label, variant, size, disabled, on_press).contains(part),
{
    lemma_rendered_contains(
        SpecButton { variant, size, disabled, on_press, ..SpecButton::new(label) },
        part,
    );
}

/// The pages that the screen holds: the page on top alone while a page is
/// open, and otherwise the tab selector and the page of the chosen tab. No
/// other column is anywhere on the screen.
proof fn lemma_screen_columns(state: SpecState, part: SpecElement<SpecMessage>)
    requires
        part is Column,
    ensures
        screen(state).contains(part) <==> if state.stack.len() > 0 {
            part == detail_page(state.stack.last().label(), state.stack.len())
        } else {
            part == tab_selector() || part == root_page(state.sub, state.content)
        },
{
    let shown = screen(state)->Row_children;
    if state.stack.len() > 0 {
        let label = state.stack.last().label();
        let page = detail_page(label, state.stack.len());
        let parts = page->Column_children;
        lemma_button_holds_no_column(
            "Open Next"@,
            Variant::Primary,
            ButtonSize::Medium,
            false,
            Some(SpecMessage::PushDetail(label + next_suffix())),
            part,
        );
        lemma_button_holds_no_column(
            "Back"@,
            Variant::Danger,
            ButtonSize::Medium,
            false,
            Some(SpecMessage::Pop),
            part,
        );
        assert(!parts[0].contains(part));
        assert(page.contains(part) <==> page == part || parts[1].contains(part)
            || parts[2].contains(part));
        assert(shown[0] == page);
        assert(screen(state).contains(part) <==> shown[0].contains(part));
    } else {
        let side = tab_selector();
        let main = root_page(state.sub, state.content);
        assert(shown[0] == side && shown[1] == main);
        assert(screen(state).contains(part) <==> shown[0].contains(part) || shown[1].contains(
            part,
        ));
        let tabs = side->Column_children;
        lemma_button_holds_no_column(
            "List"@,
            Variant::Primary,
            ButtonSize::Medium,
            false,
            Some(SpecMessage::SwitchSub(Sub::List)),
            part,
        );
        lemma_button_holds_no_column(
            "Stats"@,
            Variant::Secondary,
            ButtonSize::Medium,
            false,
            Some(SpecMessage::SwitchSub(Sub::Stats)),
            part,
        );
        assert(side.contains(part) <==> side == part || tabs[0].contains(part)
            || tabs[1].contains(part));
        match state.sub {
            Sub::List => {
                let parts = main->Column_children;
                let first = parts[1]->Row_children;
                let second = parts[2]->Row_children;
                lemma_button_holds_no_column(
                    "Primary"@,
                    Variant::Primary,
                    ButtonSize::Small,
                    false,
                    Some(SpecMessage::PushDetail("A"@)),
                    part,
                );
                lemma_button_holds_no_column(
                    "Secondary"@,
                    Variant::Secondary,
                    ButtonSize::Medium,
                    false,
                    Some(SpecMessage::PushDetail("B"@)),
                    part,
                );
                lemma_button_holds_no_column(
                    "Danger"@,
                    Variant::Danger,
                    ButtonSize::Large,
                    false,
                    Some(SpecMessage::PushDetail("C"@)),
                    part,
                );
                lemma_button_holds_no_column(
                    "Subtle"@,
                    Variant::Subtle,
                    ButtonSize::Medium,
                    false,
                    Some(SpecMessage::PushDetail("D"@)),
                    part,
                );
                lemma_button_holds_no_column(
                    "Disabled"@,
                    Variant::Primary,
                    ButtonSize::Medium,
                    true,
                    Some(SpecMessage::PushDetail("E"@)),
                    part,
                );
                lemma_button_holds_no_column(
                    "No Action"@,
                    Variant::Secondary,
                    ButtonSize::Medium,
                    false,
                    None,
                    part,
                );
                assert(parts[1].contains(part) <==> first[0].contains(part) || first[1].contains(
                    part,
                ) || first[2].contains(part));
                assert(parts[2].contains(part) <==> second[0].contains(part)
                    || second[1].contains(part) || second[2].contains(part));
                assert(!parts[0].contains(part));
                assert(!parts[3].contains(part));
                assert(main.contains(part) <==> main == part || parts[1].contains(part)
                    || parts[2].contains(part));
            },
            Sub::Stats => {
                let parts = main->Column_children;
                assert(!parts[0].contains(part));
                assert(main.contains(part) <==> main == part);
            },
        }
    }
}

/// The screen shows one page at a time.
///
/// While a page is open, the screen holds the page on top and no other detail
/// page, no tab selector and no page of a root tab, and none of its buttons
/// chooses a tab. While no page is open, it holds the tab selector and the page
/// of the chosen tab, no page of the other tab and no detail page, its buttons
/// choose either tab, and none of them closes a page.
pub proof fn lemma_screen_shows_one_page(state: SpecState)
    ensures
        state.stack.len() > 0 ==> {
            let top = detail_page(state.stack.last().label(), state.stack.len());
            &&& screen(state).contains(top)
            &&& forall|label: Seq<char>, depth: nat| #[trigger]
                screen(state).contains(detail_page(label, depth)) ==> detail_page(label, depth)
                    == top
            &&& !screen(state).contains(tab_selector())
            &&& forall|sub: Sub, content: Seq<char>|
                !screen(state).contains(#[trigger] root_page(sub, content))
            &&& forall|sub: Sub| !(#[trigger] screen(state).offers(SpecMessage::SwitchSub(sub)))
        },
        state.stack.len() == 0 ==> {
            let page = root_page(state.sub, state.content);
            &&& screen(state).contains(tab_selector())
            &&& screen(state).contains(page)
            &&& forall|sub: Sub, content: Seq<char>| #[trigger]
                screen(state).contains(root_page(sub, content)) ==> root_page(sub, content) == page
            &&& forall|content: Seq<char>| #[trigger] list_page(content) != stats_page()
            &&& forall|label: Seq<char>, depth: nat|
                !screen(state).contains(#[trigger] detail_page(label, depth))
            &&& forall|sub: Sub| #[trigger] screen(state).offers(SpecMessage::SwitchSub(sub))
            &&& !screen(state).offers(SpecMessage::Pop)
        },
{
    assert forall|label: Seq<char>, depth: nat|
        (#[trigger] detail_page(label, depth))->Column_children.len() == 3 by {}
    assert forall|content: Seq<char>|
        (#[trigger] list_page(content))->Column_children.len() == 4 by {}
    assert forall|label: Seq<char>, depth: nat|
        screen(state).contains(#[trigger] detail_page(label, depth)) <==> state.stack.len() > 0
            && detail_page(label, depth) == detail_page(
            state.stack.last().label(),
            state.stack.len(),
        ) by {
        lemma_screen_columns(state, detail_page(label, depth));
    }
    assert forall|sub: Sub, content: Seq<char>|
        screen(state).contains(#[trigger] root_page(sub, content)) <==> state.stack.len() == 0
            && root_page(sub, content) == root_page(state.sub, state.content) by {
        lemma_screen_columns(state, root_page(sub, content));
    }
    lemma_screen_columns(state, tab_selector());
    assert forall|sub: Sub| #[trigger]
        screen(state).offers(SpecMessage::SwitchSub(sub)) <==> state.stack.len() == 0 by {
        lemma_screen_offers(state, SpecMessage::SwitchSub(sub));
    }
    lemma_screen_offers(state, SpecMessage::Pop);
}

/// Opening a page and then closing the page on top gives back the state
/// before: the same pages in the same order and number, under the same tab and
/// beside the same text, however many pages were open.
pub proof fn lemma_push_then_pop_restores(state: SpecState, label: Seq<char>)
    ensures
        state.updated(SpecMessage::PushDetail(label)).updated(SpecMessage::Pop) == state,
        state.updated(SpecMessage::PushDetail(label)).stack.len() == state.stack.len() + 1,
{
    assert(state.stack.push(SpecPage::Detail(label)).drop_last() =~= state.stack);
}

/// Closing when no page is open changes nothing.
pub proof fn lemma_pop_on_empty_changes_nothing(state: SpecState)
    requires
        state.stack.len() == 0,
    ensures
        state.updated(SpecMessage::Pop) == state,
{
}

/// Closing a page takes exactly the page on top away.
pub proof fn lemma_pop_takes_top(state: SpecState)
    requires
        state.stack.len() > 0,
    ensures
        state.updated(SpecMessage::Pop).stack.push(state.stack.last()) == state.stack,
        state.updated(SpecMessage::Pop).stack.len() == state.stack.len() - 1,
{
    assert(state.stack.drop_last().push(state.stack.last()) =~= state.stack);
}

/// Choosing a tab sets the tab, and touches neither the open pages nor the
/// field's text.
pub proof fn lemma_switch_touches_only_tab(state: SpecState, sub: Sub)
    ensures
        state.updated(SpecMessage::SwitchSub(sub)).sub == sub,
        state.updated(SpecMessage::SwitchSub(sub)).stack == state.stack,
        state.updated(SpecMessage::SwitchSub(sub)).content == state.content,
{
}

/// After an edit the field holds the new text and nothing of the old, and the
/// tab and the open pages are as before.
pub proof fn lemma_edit_replaces_text(state: SpecState, text: Seq<char>)
    ensures
        state.updated(SpecMessage::ContentChanged(text)).content == text,
        state.updated(SpecMessage::ContentChanged(text)).sub == state.sub,
        state.updated(SpecMessage::ContentChanged(text)).stack == state.stack,
{
}

} // verus!
