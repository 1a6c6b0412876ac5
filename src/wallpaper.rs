//! The placement of the desktop wallpaper, between the operating system's
//! position codes and the names a profile stores.
use vstd::prelude::*;

verus! {

pub const DWPOS_CENTER: i32 = 0;

pub const DWPOS_TILE: i32 = 1;

pub const DWPOS_STRETCH: i32 = 2;

pub const DWPOS_FIT: i32 = 3;

pub const DWPOS_FILL: i32 = 4;

pub const DWPOS_SPAN: i32 = 5;

/// The stored name of a position code; "unknown" for a code without a name.
pub open spec fn spec_position_name(code: i32) -> Seq<char> {
    if code == DWPOS_CENTER {
        "center"@
    } else if code == DWPOS_TILE {
        "tile"@
    } else if code == DWPOS_STRETCH {
        "stretch"@
    } else if code == DWPOS_FIT {
        "fit"@
    } else if code == DWPOS_FILL {
        "fill"@
    } else if code == DWPOS_SPAN {
        "span"@
    } else {
        "unknown"@
    }
}

/// The position code of a lower-case name, if it names one.
pub open spec fn spec_position_code(name: Seq<char>) -> Option<i32> {
    if name == "center"@ {
        Some(DWPOS_CENTER)
    } else if name == "tile"@ {
        Some(DWPOS_TILE)
    } else if name == "stretch"@ {
        Some(DWPOS_STRETCH)
    } else if name == "fit"@ {
        Some(DWPOS_FIT)
    } else if name == "fill"@ {
        Some(DWPOS_FILL)
    } else if name == "span"@ {
        Some(DWPOS_SPAN)
    } else {
        None
    }
}

/// What `str::to_lowercase` makes of a string.
pub uninterp spec fn lower_of(s: Seq<char>) -> Seq<char>;

/// Relies on `str::to_lowercase`: its result depends on the characters of
/// the string alone.
#[verifier::external_body]
fn lowercase(s: &str) -> (r: String)
    ensures
        r@ == lower_of(s@),
{
    s.to_lowercase()
}

/// The name under which a profile stores a position code.
pub fn wallpaper_position_name(code: i32) -> (r: String)
    ensures
        r@ == spec_position_name(code),
{
    let name = if code == DWPOS_CENTER {
        "center"
    } else if code == DWPOS_TILE {
        "tile"
    } else if code == DWPOS_STRETCH {
        "stretch"
    } else if code == DWPOS_FIT {
        "fit"
    } else if code == DWPOS_FILL {
        "fill"
    } else if code == DWPOS_SPAN {
        "span"
    } else {
        "unknown"
    };
    String::from_str(name)
}

/// The position code of a name already in lower case.
pub fn wallpaper_position_code_lowered(lowered: &String) -> (r: Option<i32>)
    ensures
        r == spec_position_code(lowered@),
{
    if *lowered == String::from_str("center") {
        Some(DWPOS_CENTER)
    } else if *lowered == String::from_str("tile") {
        Some(DWPOS_TILE)
    } else if *lowered == String::from_str("stretch") {
        Some(DWPOS_STRETCH)
    } else if *lowered == String::from_str("fit") {
        Some(DWPOS_FIT)
    } else if *lowered == String::from_str("fill") {
        Some(DWPOS_FILL)
    } else if *lowered == String::from_str("span") {
        Some(DWPOS_SPAN)
    } else {
        None
    }
}

/// The position code of a stored name, read without regard to case; `None`
/// for a name that is no position.
pub fn wallpaper_position_code(name: &str) -> (r: Option<i32>)
    ensures
        r == spec_position_code(lower_of(name@)),
{
    let lowered = lowercase(name);
    wallpaper_position_code_lowered(&lowered)
}

/// Every position code survives being stored by name and read back.
pub proof fn lemma_position_round_trip(code: i32)
    requires
        DWPOS_CENTER <= code <= DWPOS_SPAN,
    ensures
        spec_position_code(spec_position_name(code)) == Some(code),
{
    reveal_strlit("center");
    reveal_strlit("tile");
    reveal_strlit("stretch");
    reveal_strlit("fit");
    reveal_strlit("fill");
    reveal_strlit("span");
    let c = "center"@;
    let t = "tile"@;
    let st = "stretch"@;
    let fi = "fit"@;
    let fl = "fill"@;
    let sp = "span"@;
    assert(c.len() == 6 && t.len() == 4 && st.len() == 7 && fi.len() == 3 && fl.len() == 4
        && sp.len() == 4);
    assert(t[0] != fl[0] && t[0] != sp[0] && fl[0] != sp[0]);
    assert(t != fl && t != sp && fl != sp);
}

} // verus!
