use vstd::prelude::*;
use crate::config::{data_local_dir, opt_view};
use crate::paths::{join, path_join};
use crate::text::{decimal, owned, push_str, u32_decimal};

verus! {

/// The command an application-menu entry runs: `<exe> play <game id>`.
pub fn desktop_exec(exe: &str, game_id: u32) -> (r: String)
    ensures
        r@ == exe@ + " play "@ + decimal(game_id as nat),
{
    let mut r = owned(exe);
    push_str(&mut r, " play ");
    let d = u32_decimal(game_id);
    push_str(&mut r, &d);
    r
}

/// The icon of the entry: the downloaded icon when it exists, else the
/// generic executable icon.
pub fn desktop_icon(icon_path: &str, icon_exists: bool) -> (r: String)
    ensures
        r@ == if icon_exists {
            icon_path@
        } else {
            "application-x-executable"@
        },
{
    if icon_exists {
        owned(icon_path)
    } else {
        owned("application-x-executable")
    }
}

/// The application-menu entry named "Vortex".
pub open spec fn desktop_entry_text(exec: Seq<char>, icon: Seq<char>) -> Seq<char> {
    "[Desktop Entry]\nType=Application\nName=Vortex\nComment=Linux launcher for Vortex\nExec="@
        + exec + "\nIcon="@ + icon
        + "\nTerminal=false\nCategories=Game;\nMimeType=x-scheme-handler/vortex;\nStartupNotify=false\n"@
}

pub fn desktop_entry(exec: &str, icon: &str) -> (r: String)
    ensures
        r@ == desktop_entry_text(exec@, icon@),
{
    let mut r = owned(
        "[Desktop Entry]\nType=Application\nName=Vortex\nComment=Linux launcher for Vortex\nExec=",
    );
    push_str(&mut r, exec);
    push_str(&mut r, "\nIcon=");
    push_str(&mut r, icon);
    push_str(
        &mut r,
        "\nTerminal=false\nCategories=Game;\nMimeType=x-scheme-handler/vortex;\nStartupNotify=false\n",
    );
    r
}

/// The hidden entry that registers the `vortex://` scheme handler.
pub open spec fn uri_handler_entry_text(exe: Seq<char>) -> Seq<char> {
    "[Desktop Entry]\nName=Tempest (Vortex Launcher)\nExec="@ + exe
        + " uri-handler %u\nType=Application\nMimeType=x-scheme-handler/vortex;\nNoDisplay=true\n"@
}

pub fn uri_handler_entry(exe: &str) -> (r: String)
    ensures
        r@ == uri_handler_entry_text(exe@),
{
    let mut r = owned("[Desktop Entry]\nName=Tempest (Vortex Launcher)\nExec=");
    push_str(&mut r, exe);
    push_str(
        &mut r,
        " uri-handler %u\nType=Application\nMimeType=x-scheme-handler/vortex;\nNoDisplay=true\n",
    );
    r
}

/// Where application-menu entries go: `applications` under the local data
/// directory, else under `~/.local/share`.
pub open spec fn menu_dir_spec(local: Option<Seq<char>>, home: Seq<char>) -> Seq<char> {
    match local {
        Some(d) => path_join(d, "applications"@),
        None => path_join(path_join(home, ".local/share"@), "applications"@),
    }
}

/// Where the scheme handler's entry goes: `applications` under the local
/// data directory, or a relative `applications` when there is none.
pub open spec fn handler_dir_spec(local: Option<Seq<char>>) -> Seq<char> {
    match local {
        Some(d) => path_join(d, "applications"@),
        None => path_join(""@, "applications"@),
    }
}

pub fn menu_dir_from(local: Option<String>, home: &str) -> (r: String)
    ensures
        r@ == menu_dir_spec(opt_view(local), home@),
{
    match local {
        Some(d) => join(&d, "applications"),
        None => {
            let base = join(home, ".local/share");
            join(&base, "applications")
        },
    }
}

pub fn handler_dir_from(local: Option<String>) -> (r: String)
    ensures
        r@ == handler_dir_spec(opt_view(local)),
{
    match local {
        Some(d) => join(&d, "applications"),
        None => join("", "applications"),
    }
}

/// The directory for application-menu entries of this process.
pub fn menu_dir_in(home: &str) -> (r: String)
    ensures
        exists|l: Option<Seq<char>>| r@ == menu_dir_spec(l, home@),
{
    let l = data_local_dir();
    let r = menu_dir_from(l, home);
    assert(r@ == menu_dir_spec(opt_view(l), home@));
    r
}

/// The directory for the scheme handler's entry of this process.
pub fn handler_dir() -> (r: String)
    ensures
        exists|l: Option<Seq<char>>| r@ == handler_dir_spec(l),
{
    let l = data_local_dir();
    let r = handler_dir_from(l);
    assert(r@ == handler_dir_spec(opt_view(l)));
    r
}

} // verus!
