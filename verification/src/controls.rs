//! Buttons with an icon, and the headers that hold them.

use vstd::prelude::*;
use crate::window::Message;

verus! {

broadcast use vstd::string::group_string_axioms;

/// A button with an icon.
#[derive(Debug)]
pub struct IconButton {
    /// The name of the icon.
    pub icon: String,
    pub on_press: Message,
}

/// What an `IconButton` holds.
pub struct IconButtonView {
    pub icon: Seq<char>,
    pub on_press: Message,
}

impl View for IconButton {
    type V = IconButtonView;

    open spec fn view(&self) -> IconButtonView {
        IconButtonView { icon: self.icon@, on_press: self.on_press }
    }
}

/// What a row of buttons holds.
pub open spec fn icon_row(row: Seq<IconButton>) -> Seq<IconButtonView> {
    row.map_values(|b: IconButton| b@)
}

/// A button with an icon.
pub fn icon_button(icon: &str, on_press: Message) -> (button: IconButton)
    ensures
        button@ == (IconButtonView { icon: icon@, on_press }),
{
    IconButton { icon: icon.to_string(), on_press }
}

/// The header of a page: a button that leads back, and the title.
#[derive(Debug)]
pub struct PageHeader {
    pub back: IconButton,
    pub title: String,
}

impl PageHeader {
    /// The header has this title, and its button sends `back`.
    pub open spec fn shows(self, title: Seq<char>, back: Message) -> bool {
        &&& self.title@ == title
        &&& self.back@ == (IconButtonView { icon: "go-previous-symbolic"@, on_press: back })
    }
}

/// The header of a page.
pub fn page_header(title: &str, back: Message) -> (header: PageHeader)
    ensures
        header.shows(title@, back),
{
    PageHeader { back: icon_button("go-previous-symbolic", back), title: title.to_string() }
}

} // verus!
