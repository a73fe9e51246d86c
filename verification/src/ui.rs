//! What a frame shows, computed from the state: the part of drawing that is
//! arithmetic and text. Placing and painting the widgets is the caller's.

use vstd::prelude::*;
use vstd::string::*;
use ansi_to_tui::IntoText;
use tui::text::Text;
use crate::app::{App, AppPackages, AppScreen};
use crate::homebrew::Package;

verus! {

/// Slack, in rows, that the scroll bounds leave around the listing.
pub const APP_MARGIN: u16 = 2;

/// A text of `tui`, with its styles. Its fields are left out of sight.
#[verifier::external_type_specification]
#[verifier::external_body]
pub struct ExText<'a>(Text<'a>);

/// The error of `ansi_to_tui`. Nothing is read from it.
#[verifier::external_type_specification]
#[verifier::external_body]
pub struct ExStyledError(ansi_to_tui::Error);

/// The lines that a styled text holds, top to bottom, each as its characters
/// without their styles.
pub uninterp spec fn text_lines(text: Text<'static>) -> Seq<Seq<char>>;

/// The lines that `ansi_to_tui` reads out of `bytes`, or `None` where it
/// gives an error.
pub uninterp spec fn styled_lines(bytes: Seq<u8>) -> Option<Seq<Seq<char>>>;

/// `IntoText::into_text` of `ansi_to_tui`: reads `bytes` as text with ANSI
/// styling. The contract claims only that the outcome depends on the bytes
/// and on nothing else, by giving it the name `styled_lines`.
#[verifier::external_body]
fn styled_text(bytes: &Vec<u8>) -> (decoded: Result<Text<'static>, ansi_to_tui::Error>)
    ensures
        match decoded {
            Ok(text) => styled_lines(bytes@) == Some(text_lines(text)),
            Err(_) => styled_lines(bytes@) is None,
        },
{
    bytes.into_text()
}

/// `Text::height` of `tui`: the number of lines that the text holds.
#[verifier::external_body]
fn text_height(text: &Text<'static>) -> (height: usize)
    ensures
        height == text_lines(*text).len(),
{
    text.height()
}

/// Which parts a frame is made of.
#[derive(Clone, Copy, Debug, PartialEq, Eq, Structural)]
pub struct Layers {
    /// The package listing, filling the frame.
    pub packages: bool,
    /// The popup with the upgrade's output, on top.
    pub upgrade: bool,
}

/// The parts to draw for `app`: the listing on the main screen once it is
/// there, the popup while an upgrade is tracked.
pub fn layers<P>(app: &App<P>) -> (shown: Layers)
    ensures
        shown.packages == (app.screen == AppScreen::Main && app.packages is Some),
        shown.upgrade == (app.update is Some),
{
    let packages = match app.screen {
        AppScreen::Init => false,
        AppScreen::Main => app.packages.is_some(),
    };
    Layers { packages, upgrade: app.update.is_some() }
}

/// The listing's line for a package: name, description and the first
/// installed version, with `" - "` between them.
pub open spec fn line_of(package: Package) -> Seq<char>
    recommends
        package.installed@.len() > 0,
{
    package.name@ + " - "@ + package.desc@ + " - "@ + package.installed@[0].version@
}

/// The line that the listing shows for `package`.
pub fn package_line(package: &Package) -> (line: String)
    requires
        package.installed@.len() > 0,
    ensures
        line@ == line_of(*package),
{
    let mut line = package.name.clone();
    line.append(" - ");
    line.append(package.desc.as_str());
    line.append(" - ");
    line.append(package.installed[0].version.as_str());
    line
}

/// The lines of the whole listing, one for each package, in order. The
/// offset is applied when they are drawn.
pub fn package_lines(packages: &AppPackages) -> (lines: Vec<String>)
    requires
        forall|i: int|
            0 <= i < packages.items@.len() ==> (#[trigger] packages.items@[i]).installed@.len()
                > 0,
    ensures
        lines@.len() == packages.items@.len(),
        forall|i: int|
            0 <= i < lines@.len() ==> (#[trigger] lines@[i])@ == line_of(packages.items@[i]),
{
    let mut lines: Vec<String> = Vec::new();
    let mut index: usize = 0;
    while index < packages.items.len()
        invariant
            index <= packages.items@.len(),
            lines@.len() == index,
            forall|i: int|
                0 <= i < packages.items@.len() ==> (#[trigger] packages.items@[i]).installed@.len()
                    > 0,
            forall|i: int| 0 <= i < index ==> (#[trigger] lines@[i])@ == line_of(packages.items@[i]),
        decreases packages.items@.len() - index,
    {
        lines.push(package_line(&packages.items[index]));
        index = index + 1;
    }
    lines
}

/// How far the upgrade popup is scrolled so that the end of a text of
/// `text_height` lines shows in `container_height` rows. Heights count
/// modulo 2^16, the range of a terminal row.
pub open spec fn popup_scroll_of(text_height: int, container_height: int) -> int {
    let rows = text_height % 0x1_0000;
    if rows > container_height {
        rows - container_height
    } else {
        0
    }
}

/// The scroll offset of the upgrade popup.
pub fn popup_scroll(text_height: usize, container_height: u16) -> (scroll: u16)
    ensures
        scroll == popup_scroll_of(text_height as int, container_height as int),
{
    let rows: u16 = (text_height % 0x1_0000) as u16;
    if rows > container_height {
        rows - container_height
    } else {
        0
    }
}

/// What the upgrade popup shows: the output as styled text, and how far it
/// is scrolled.
pub struct UpgradePopup {
    pub text: Text<'static>,
    pub scroll: u16,
}

/// Reads the upgrade's output as styled text and scrolls it to its end
/// for a popup of `container_height` rows. `None` when the output cannot be
/// read as text.
pub fn upgrade_popup(progress: &Vec<u8>, container_height: u16) -> (popup: Option<UpgradePopup>)
    ensures
        popup is Some <==> styled_lines(progress@) is Some,
        popup matches Some(shown) ==> {
            &&& Some(text_lines(shown.text)) == styled_lines(progress@)
            &&& shown.scroll == popup_scroll_of(
                text_lines(shown.text).len() as int,
                container_height as int,
            )
        },
{
    match styled_text(progress) {
        Ok(text) => {
            let scroll = popup_scroll(text_height(&text), container_height);
            Some(UpgradePopup { text, scroll })
        },
        Err(_) => None,
    }
}

} // verus!
