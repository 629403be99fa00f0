//! A navigable screen and its styled buttons, as values: the state of the
//! screen, the messages that change it, the tree of elements that shows it, and
//! the look of each button in each phase of interaction.
//!
//! Nothing here draws or dispatches events. A toolkit delivers messages, asks
//! for the tree, paints it, and asks for a button's style whenever the pointer
//! changes the button's status.

pub mod ui;
