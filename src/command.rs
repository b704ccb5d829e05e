//! The subprocesses that the helper runs, as plain values, and the paths and
//! addresses they are given.
use vstd::prelude::*;

verus! {

/// One subprocess: the program, its arguments, and the directory it runs in
/// (`None`: the caller's own).
#[derive(Debug)]
pub struct Invocation {
    pub program: String,
    pub args: Vec<String>,
    pub dir: Option<String>,
}

/// The arguments of an invocation, as character sequences.
pub open spec fn args_of(inv: Invocation) -> Seq<Seq<char>> {
    inv.args@.map_values(|a: String| a@)
}

/// The working directory of an invocation, as a character sequence.
pub open spec fn dir_of(inv: Invocation) -> Option<Seq<char>> {
    match inv.dir {
        Some(d) => Some(d@),
        None => None,
    }
}

/// An invocation of the package manager through the privilege-escalation
/// wrapper: `sudo pacman <args>`.
pub open spec fn is_privileged_pacman(inv: Invocation, args: Seq<Seq<char>>) -> bool {
    &&& inv.program@ == "sudo"@
    &&& args_of(inv) == seq!["pacman"@] + args
    &&& inv.dir is None
}

/// Where build workspaces live: `<home>/.cache/raur`, with `/tmp` for a
/// missing home directory.
pub open spec fn cache_root_of(home: Option<Seq<char>>) -> Seq<char> {
    let base = match home {
        Some(h) => h,
        None => "/tmp"@,
    };
    base + "/.cache/raur"@
}

/// The address of a package's build recipe.
pub open spec fn recipe_url_of(name: Seq<char>) -> Seq<char> {
    "https://aur.archlinux.org/"@ + name + ".git"@
}

/// The address of the AUR's search for a query, which is put in as it is.
pub open spec fn search_url_of(query: Seq<char>) -> Seq<char> {
    "https://aur.archlinux.org/rpc/?v=5&type=search&arg="@ + query
}

fn arg(s: &str) -> (r: String)
    ensures
        r@ == s@,
{
    String::from_str(s)
}

/// `pacman -Ss <query>`: the official search, whose output is empty when
/// nothing matches.
pub fn official_search(query: &str) -> (r: Invocation)
    ensures
        r.program@ == "pacman"@,
        args_of(r) == seq!["-Ss"@, query@],
        r.dir is None,
{
    let r = Invocation { program: arg("pacman"), args: vec![arg("-Ss"), arg(query)], dir: None };
    assert(args_of(r) =~= seq!["-Ss"@, query@]);
    r
}

/// `sudo pacman -S <name> --noconfirm`: installs from the official repositories.
pub fn official_install(name: &str) -> (r: Invocation)
    ensures
        is_privileged_pacman(r, seq!["-S"@, name@, "--noconfirm"@]),
{
    let r = Invocation {
        program: arg("sudo"),
        args: vec![arg("pacman"), arg("-S"), arg(name), arg("--noconfirm")],
        dir: None,
    };
    assert(args_of(r) =~= seq!["pacman"@] + seq!["-S"@, name@, "--noconfirm"@]);
    r
}

/// `git clone <recipe url> <workspace>`: fetches a package's build recipe.
pub fn recipe_clone(name: &str, workspace: &str) -> (r: Invocation)
    ensures
        r.program@ == "git"@,
        args_of(r) == seq!["clone"@, recipe_url_of(name@), workspace@],
        r.dir is None,
{
    let url = String::from_str("https://aur.archlinux.org/").concat(name).concat(".git");
    let r = Invocation { program: arg("git"), args: vec![arg("clone"), url, arg(workspace)], dir: None };
    assert(args_of(r) =~= seq!["clone"@, recipe_url_of(name@), workspace@]);
    r
}

/// `makepkg -sci --noconfirm` with `cascade`, else `makepkg -si --noconfirm`,
/// run in the workspace: builds and installs, and with `cascade` also cleans
/// up after the build.
pub fn recipe_build(workspace: &str, cascade: bool) -> (r: Invocation)
    ensures
        r.program@ == "makepkg"@,
        args_of(r) == seq![if cascade { "-sci"@ } else { "-si"@ }, "--noconfirm"@],
        dir_of(r) == Some(workspace@),
{
    let flags = if cascade { arg("-sci") } else { arg("-si") };
    let r = Invocation {
        program: arg("makepkg"),
        args: vec![flags, arg("--noconfirm")],
        dir: Some(arg(workspace)),
    };
    assert(args_of(r) =~= seq![if cascade { "-sci"@ } else { "-si"@ }, "--noconfirm"@]);
    r
}

/// `sudo pacman -Rns <name> --noconfirm` with `purge`, else
/// `sudo pacman -Rs <name> --noconfirm`: removes a package with the
/// dependencies nothing else needs, and with `purge` its configuration too.
pub fn removal(name: &str, purge: bool) -> (r: Invocation)
    ensures
        is_privileged_pacman(
            r,
            seq![if purge { "-Rns"@ } else { "-Rs"@ }, name@, "--noconfirm"@],
        ),
{
    let flags = if purge { arg("-Rns") } else { arg("-Rs") };
    let r = Invocation {
        program: arg("sudo"),
        args: vec![arg("pacman"), flags, arg(name), arg("--noconfirm")],
        dir: None,
    };
    assert(args_of(r) =~= seq!["pacman"@] + seq![
        if purge { "-Rns"@ } else { "-Rs"@ },
        name@,
        "--noconfirm"@,
    ]);
    r
}

/// `sudo pacman -Syy` with `full` (a forced refresh), else `sudo pacman -Sy`.
pub fn database_sync(full: bool) -> (r: Invocation)
    ensures
        is_privileged_pacman(r, seq![if full { "-Syy"@ } else { "-Sy"@ }]),
{
    let flags = if full { arg("-Syy") } else { arg("-Sy") };
    let r = Invocation { program: arg("sudo"), args: vec![arg("pacman"), flags], dir: None };
    assert(args_of(r) =~= seq!["pacman"@] + seq![if full { "-Syy"@ } else { "-Sy"@ }]);
    r
}

/// `sudo pacman -Syu --noconfirm`: the full system upgrade.
pub fn system_upgrade() -> (r: Invocation)
    ensures
        is_privileged_pacman(r, seq!["-Syu"@, "--noconfirm"@]),
{
    let r = Invocation {
        program: arg("sudo"),
        args: vec![arg("pacman"), arg("-Syu"), arg("--noconfirm")],
        dir: None,
    };
    assert(args_of(r) =~= seq!["pacman"@] + seq!["-Syu"@, "--noconfirm"@]);
    r
}

/// The two invocations of a system upgrade, in order: the database sync
/// that [`database_sync`] builds, then [`system_upgrade`]. The second runs
/// whatever the first returned.
pub fn upgrade_plan(full: bool) -> (r: Vec<Invocation>)
    ensures
        r@.len() == 2,
        is_privileged_pacman(r@[0], seq![if full { "-Syy"@ } else { "-Sy"@ }]),
        is_privileged_pacman(r@[1], seq!["-Syu"@, "--noconfirm"@]),
{
    vec![database_sync(full), system_upgrade()]
}

/// The cache root for a home directory (`None` when it is not set).
pub fn cache_root(home: Option<&str>) -> (r: String)
    ensures
        r@ == cache_root_of(
            match home {
                Some(h) => Some(h@),
                None => None,
            },
        ),
{
    let base = match home {
        Some(h) => String::from_str(h),
        None => String::from_str("/tmp"),
    };
    base.concat("/.cache/raur")
}

/// A package's workspace: `<cache root>/<name>`, the same path on every
/// attempt.
pub fn workspace_path(cache_root: &str, name: &str) -> (r: String)
    ensures
        r@ == cache_root@ + "/"@ + name@,
{
    String::from_str(cache_root).concat("/").concat(name)
}

/// The address of the AUR's search for `query`.
pub fn aur_search_url(query: &str) -> (r: String)
    ensures
        r@ == search_url_of(query@),
{
    String::from_str("https://aur.archlinux.org/rpc/?v=5&type=search&arg=").concat(query)
}

} // verus!
