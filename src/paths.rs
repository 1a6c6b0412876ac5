//! Where a profile's files lie, below the directory that holds all profiles.
use vstd::prelude::*;

verus! {

/// `base` and `name` joined by a path separator.
pub open spec fn joined(base: Seq<char>, name: Seq<char>) -> Seq<char> {
    base + seq!['\\'] + name
}

fn join(base: &str, name: &str) -> (r: String)
    ensures
        r@ == joined(base@, name@),
{
    proof {
        reveal_strlit("\\");
    }
    String::from_str(base).concat("\\").concat(name)
}

/// The directory of the profile `name`.
pub fn get_profile_dir(profiles_dir: &str, name: &str) -> (r: String)
    ensures
        r@ == joined(profiles_dir@, name@),
{
    join(profiles_dir, name)
}

/// The metadata file of the profile `name`: `profile.toml` in its directory.
pub fn get_config_file_path(profiles_dir: &str, name: &str) -> (r: String)
    ensures
        r@ == joined(joined(profiles_dir@, name@), "profile.toml"@),
{
    let dir = get_profile_dir(profiles_dir, name);
    join(dir.as_str(), "profile.toml")
}

/// The topology file of the profile `name`: `displays.json` in its directory.
pub fn get_display_layout_file_path(profiles_dir: &str, name: &str) -> (r: String)
    ensures
        r@ == joined(joined(profiles_dir@, name@), "displays.json"@),
{
    let dir = get_profile_dir(profiles_dir, name);
    join(dir.as_str(), "displays.json")
}

} // verus!
