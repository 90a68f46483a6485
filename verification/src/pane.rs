//! Panes of the terminal toolkit, as far as this library makes them itself:
//! the pane that shows one frame of the loading sequence.

use promkit::grapheme::StyledGraphemes;
use promkit::pane::Pane;
use promkit::style::StyleBuilder;
use vstd::prelude::*;

verus! {

/// A pane of promkit. Nothing of it is visible here but what `pane_rows`
/// names.
#[verifier::external_type_specification]
#[verifier::external_body]
pub struct ExPane(promkit::pane::Pane);

/// The rows that a pane holds, top to bottom, each as its characters.
pub uninterp spec fn pane_rows(pane: Pane) -> Seq<Seq<char>>;

/// The rows in which promkit's `matrixify` lays out `text` for a terminal of
/// the given width and height, scrolled to the row `offset`, each row as its
/// characters.
pub uninterp spec fn matrixified(text: Seq<char>, width: nat, height: nat, offset: nat) -> Seq<
    Seq<char>,
>;

/// Calls promkit's `StyledGraphemes::from` and `Pane::new`: a pane of one
/// row, which holds `frame` alone, with no offset.
#[verifier::external_body]
pub(crate) fn frame_pane(frame: char) -> (pane: Pane)
    ensures
        pane_rows(pane) == seq![seq![frame]],
{
    Pane::new(vec![StyledGraphemes::from(frame.to_string())], 0)
}

/// Calls promkit's `StyledGraphemes::from_str`, `matrixify` and `Pane::new`:
/// a pane of the rows in which `matrixify` lays out `frame`, in the default
/// style, for the given width and height and from the first row on, with no
/// offset of its own.
#[verifier::external_body]
pub(crate) fn frame_pane_within(frame: char, width: u16, height: u16) -> (pane: Pane)
    ensures
        pane_rows(pane) == matrixified(seq![frame], width as nat, height as nat, 0),
{
    let text = StyledGraphemes::from_str(frame.to_string(), StyleBuilder::new().build());
    let (matrix, _) = text.matrixify(width as usize, height as usize, 0);
    Pane::new(matrix, 0)
}

} // verus!
