use vstd::string::*;
use vstd::prelude::*;

verus! {

/// The operating systems the launcher knows how to install onto.
#[derive(Clone, Copy, Debug, PartialEq, Eq, Structural)]
pub enum Platform {
    Windows,
    MacOs,
    Linux,
}

/// The application identifier under which per-user data is kept.
pub const APP_ID: &'static str = "desktop-app";

pub open spec fn backend_name_spec(p: Platform) -> Seq<char> {
    match p {
        Platform::Windows => "desktop-backend.exe"@,
        _ => "desktop-backend"@,
    }
}

/// File name of the backend executable on the given platform.
pub fn get_backend_name(p: Platform) -> (r: &'static str)
    ensures
        r@ == backend_name_spec(p),
{
    match p {
        Platform::Windows => "desktop-backend.exe",
        _ => "desktop-backend",
    }
}

pub open spec fn data_dir_variable_spec(p: Platform) -> Seq<char> {
    match p {
        Platform::Windows => "LOCALAPPDATA"@,
        _ => "HOME"@,
    }
}

/// Name of the environment variable whose value roots the per-user data directory.
pub fn data_dir_variable(p: Platform) -> (r: &'static str)
    ensures
        r@ == data_dir_variable_spec(p),
{
    match p {
        Platform::Windows => "LOCALAPPDATA",
        _ => "HOME",
    }
}

/// The path components of the per-user data directory, root first. A missing
/// root variable falls back to the current directory.
pub open spec fn app_data_dir_spec(p: Platform, root: Option<Seq<char>>) -> Seq<Seq<char>> {
    let base = match root {
        Some(r) => r,
        None => "."@,
    };
    match p {
        Platform::Windows => seq![base, APP_ID@],
        Platform::MacOs => seq![base, "Library"@, "Application Support"@, APP_ID@],
        Platform::Linux => seq![base, ".local"@, "share"@, APP_ID@],
    }
}

pub open spec fn opt_view(o: Option<String>) -> Option<Seq<char>> {
    match o {
        Some(s) => Some(s@),
        None => None,
    }
}

pub open spec fn views_of(v: Seq<String>) -> Seq<Seq<char>> {
    v.map_values(|s: String| s@)
}

/// Path components of the per-user data directory, given the value of the
/// variable named by `data_dir_variable` (or `None` where it is unset).
pub fn app_data_dir_parts(p: Platform, root: Option<String>) -> (r: Vec<String>)
    ensures
        views_of(r@) == app_data_dir_spec(p, opt_view(root)),
{
    let base = match root {
        Some(r) => r,
        None => String::from_str("."),
    };
    let mut parts: Vec<String> = Vec::new();
    parts.push(base);
    match p {
        Platform::Windows => {},
        Platform::MacOs => {
            parts.push(String::from_str("Library"));
            parts.push(String::from_str("Application Support"));
        },
        Platform::Linux => {
            parts.push(String::from_str(".local"));
            parts.push(String::from_str("share"));
        },
    }
    parts.push(String::from_str(APP_ID));
    proof {
        reveal_strlit(".");
        reveal_strlit("Library");
        reveal_strlit("Application Support");
        reveal_strlit(".local");
        reveal_strlit("share");
        reveal_strlit("desktop-app");
        assert(views_of(parts@) =~= app_data_dir_spec(p, opt_view(root)));
    }
    parts
}

} // verus!
