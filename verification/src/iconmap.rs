//! Glyph lookup tables: view icon names and priority numbers mapped to the
//! display glyphs drawn next to titles and in the sidebar.

use vstd::prelude::*;
use crate::strutil::str_eq;

verus! {

/// Display glyph for a saved view's icon name.
pub open spec fn spec_ico_to_nf(name: Seq<char>) -> Seq<char> {
    if name == "Umbrella"@ {
        "  "@
    } else if name == "FaceStarEyes"@ {
        "  "@
    } else {
        "idk"@
    }
}

pub fn ico_to_nf(name: &str) -> (r: String)
    ensures
        r@ == spec_ico_to_nf(name@),
{
    let nf: &str = if str_eq(name, "Umbrella") {
        "  "
    } else if str_eq(name, "FaceStarEyes") {
        "  "
    } else {
        "idk"
    };
    nf.to_owned()
}

/// Display glyph for a numeric priority (1 = urgent .. 4 = low; anything
/// else, including 0 for "none", gets the muted glyph).
pub open spec fn spec_p_to_nf(priority: u8) -> Seq<char> {
    if priority == 1 {
        ""@
    } else if priority == 2 {
        "󰕾"@
    } else if priority == 3 {
        "󰖀"@
    } else if priority == 4 {
        "󰕿"@
    } else {
        "󰸈"@
    }
}

pub fn p_to_nf(priority: u8) -> (r: String)
    ensures
        r@ == spec_p_to_nf(priority),
{
    let nf: &str = if priority == 1 {
        ""
    } else if priority == 2 {
        "󰕾"
    } else if priority == 3 {
        "󰖀"
    } else if priority == 4 {
        "󰕿"
    } else {
        "󰸈"
    };
    nf.to_owned()
}

/// Display glyph for a workflow state's category type.
pub open spec fn spec_state_to_nf(type_: Seq<char>) -> Seq<char> {
    if type_ == "backlog"@ {
        "◌"@
    } else if type_ == "unstarted"@ {
        "○"@
    } else if type_ == "started"@ {
        "◐"@
    } else if type_ == "completed"@ {
        "●"@
    } else if type_ == "canceled"@ {
        "✗"@
    } else {
        "?"@
    }
}

pub fn state_to_nf(type_: &str) -> (r: String)
    ensures
        r@ == spec_state_to_nf(type_@),
{
    let nf: &str = if str_eq(type_, "backlog") {
        "◌"
    } else if str_eq(type_, "unstarted") {
        "○"
    } else if str_eq(type_, "started") {
        "◐"
    } else if str_eq(type_, "completed") {
        "●"
    } else if str_eq(type_, "canceled") {
        "✗"
    } else {
        "?"
    };
    nf.to_owned()
}

} // verus!
