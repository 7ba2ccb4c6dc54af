//! The decisions of the listing scraper, separated from the browser it
//! drives. The driver reports what it observed on the page — whether a
//! next-page control exists and whether it can be clicked, which of two
//! places held a listing's host text, whether a rating was present — and
//! these rules say what to do or what value to keep.

use vstd::prelude::*;

verus! {

/// What to do with the page currently shown.
#[derive(Clone, Copy, Debug, PartialEq, Eq, Structural)]
pub enum PageAction {
    /// Collect the page's listings, then move to the next page.
    ScrapeAndAdvance,
    /// Collect the page's listings and stay: no next-page control exists.
    ScrapeOnly,
    /// Collection is finished: the next-page control can no longer be
    /// clicked.
    Stop,
}

/// The pagination rule: advance while the next-page control is clickable,
/// stop once it is not, and keep collecting in place when there is none.
pub fn next_page_action(next_button_found: bool, next_button_clickable: bool) -> (r: PageAction)
    ensures
        r == if next_button_found {
            if next_button_clickable {
                PageAction::ScrapeAndAdvance
            } else {
                PageAction::Stop
            }
        } else {
            PageAction::ScrapeOnly
        },
{
    if next_button_found {
        if next_button_clickable {
            PageAction::ScrapeAndAdvance
        } else {
            PageAction::Stop
        }
    } else {
        PageAction::ScrapeOnly
    }
}

/// A listing's host is read from a nested place when that place exists,
/// and from the plain one otherwise.
pub fn host_text(nested: Option<String>, plain: Option<String>) -> (r: Option<String>)
    ensures
        nested is Some ==> r == nested,
        nested is None ==> r == plain,
{
    match nested {
        Some(t) => Some(t),
        None => plain,
    }
}

/// A listing without a rating is recorded as "no rating".
pub fn star_text(star: Option<String>) -> (r: String)
    ensures
        match star {
            Some(t) => r@ == t@,
            None => r@ == "no rating"@,
        },
{
    match star {
        Some(t) => t,
        None => {
            let default = "no rating";
            default.to_string()
        },
    }
}

} // verus!
