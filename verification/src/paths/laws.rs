//! Where the daemon's files stand, spelled out.
use crate::paths::{
    a_file_stands_in_its_directory, a_separator_at_the_end_makes_no_difference, body_start,
    daemon_run_dir,
    default_config_home, default_config_path, default_data_home, ensure_daemon_run_dir_private,
    ensure_directory_private, file_name, is_absolute, join_name, last_name, on_a_drive, parent,
    placed_names, plain_name, same_path, DaemonRunDirError, DirectoryStep, HomeVariables, RunDirPlan,
};
use vstd::prelude::*;

verus! {

/// The variable is set to something.
pub open spec fn is_set(value: Option<String>) -> bool {
    value is Some && value->0@.len() > 0
}

/// A directory in whose path nothing follows its last name.
pub open spec fn plain_dir(path: Seq<char>) -> bool {
    path.len() > 0 && path.last() != '/'
}

/// On Unix a path is absolute exactly where it starts at the root.
pub proof fn a_unix_path_is_absolute_from_the_root(path: &str, r: bool)
    requires
        call_ensures(is_absolute, (false, path), r),
    ensures
        r <==> path@.len() > 0 && path@[0] == '/',
{
}

/// On Unix a name is put behind its directory with one slash between them.
pub proof fn a_unix_name_is_put_behind_a_slash(base: &str, name: &str, r: String)
    requires
        call_ensures(join_name, (false, base, name), r),
    ensures
        base@.len() == 0 ==> r@ == name@,
        base@.len() > 0 && base@.last() == '/' ==> r@ == base@ + name@,
        plain_dir(base@) ==> r@ == base@ + "/"@ + name@,
{
    if base@.len() == 0 {
        assert(base@ + name@ =~= name@);
    }
}

/// On Unix the two homes are their own variables where these are set, else the two
/// places below the user's home.
pub proof fn where_the_unix_homes_stand(v: &HomeVariables, config: String, data: String)
    requires
        call_ensures(default_config_home, (v,), config),
        call_ensures(default_data_home, (v,), data),
        !v.windows,
    ensures
        is_set(v.xdg_config_home) ==> config@ == v.xdg_config_home->0@,
        is_set(v.xdg_data_home) ==> data@ == v.xdg_data_home->0@,
        !is_set(v.xdg_config_home) && is_set(v.home) && plain_dir(v.home->0@) ==> config@
            == v.home->0@ + "/"@ + ".config"@,
        !is_set(v.xdg_data_home) && is_set(v.home) && plain_dir(v.home->0@) ==> data@
            == v.home->0@ + "/"@ + ".local"@ + "/"@ + "share"@,
        !is_set(v.xdg_config_home) && !is_set(v.home) ==> config@ == ".config"@,
{
    reveal_strlit(".config");
    reveal_strlit(".local");
    assert(Seq::<char>::empty() + ".config"@ =~= ".config"@);
}

/// On Windows the two homes are their own variables where these are set, else the
/// roaming application data.
pub proof fn where_the_windows_homes_stand(v: &HomeVariables, config: String, data: String)
    requires
        call_ensures(default_config_home, (v,), config),
        call_ensures(default_data_home, (v,), data),
        v.windows,
    ensures
        is_set(v.xdg_config_home) ==> config@ == v.xdg_config_home->0@,
        is_set(v.xdg_data_home) ==> data@ == v.xdg_data_home->0@,
        !is_set(v.xdg_config_home) && is_set(v.app_data) ==> config@ == v.app_data->0@,
        !is_set(v.xdg_data_home) && is_set(v.app_data) ==> data@ == v.app_data->0@,
        !is_set(v.xdg_config_home) && !is_set(v.xdg_data_home) && !is_set(v.app_data) && is_set(
            v.user_profile,
        ) ==> config@ == data@,
{
}

/// On Unix the configuration file is `cortexkit/subc.jsonc` below the configuration
/// home.
pub proof fn where_the_unix_configuration_stands(v: &HomeVariables, r: String)
    requires
        call_ensures(default_config_path, (v,), r),
        !v.windows,
    ensures
        is_set(v.xdg_config_home) && plain_dir(v.xdg_config_home->0@) ==> r@
            == v.xdg_config_home->0@ + "/"@ + "cortexkit"@ + "/"@ + "subc.jsonc"@,
        !is_set(v.xdg_config_home) && is_set(v.home) && plain_dir(v.home->0@) ==> r@
            == v.home->0@ + "/"@ + ".config"@ + "/"@ + "cortexkit"@ + "/"@ + "subc.jsonc"@,
{
    reveal_strlit(".config");
    reveal_strlit("cortexkit");
    if is_set(v.xdg_config_home) {
        let base = v.xdg_config_home->0@ + "/"@ + "cortexkit"@;
        assert(base.last() == "cortexkit"@.last());
    } else if is_set(v.home) {
        let home = v.home->0@ + "/"@ + ".config"@;
        assert(home.last() == ".config"@.last());
        let base = home + "/"@ + "cortexkit"@;
        assert(base.last() == "cortexkit"@.last());
    }
}

/// On Unix the run directory is `cortexkit/run` below the data home, and is had exactly
/// where that starts at the root.
pub proof fn where_the_unix_run_directory_stands(
    v: &HomeVariables,
    r: Result<String, DaemonRunDirError>,
    mode: Option<u32>,
    plan: Result<RunDirPlan, DaemonRunDirError>,
)
    requires
        call_ensures(daemon_run_dir, (v,), r),
        call_ensures(ensure_daemon_run_dir_private, (v, mode), plan),
        !v.windows,
        is_set(v.xdg_data_home),
        plain_dir(v.xdg_data_home->0@),
    ensures
        ({
            let path = v.xdg_data_home->0@ + "/"@ + "cortexkit"@ + "/"@ + "run"@;
            &&& r is Ok <==> v.xdg_data_home->0@[0] == '/'
            &&& r matches Ok(p) ==> p@ == path
            &&& r matches Err(e) ==> e.path@ == path
            &&& plan is Ok <==> r is Ok
            &&& plan matches Ok(p) ==> p.path@ == path && (mode is None ==> p.step is Create)
            &&& plan matches Err(e) ==> e.path@ == path
        }),
{
    reveal_strlit("cortexkit");
    let base = v.xdg_data_home->0@ + "/"@ + "cortexkit"@;
    assert(base.last() == "cortexkit"@.last());
    let path = base + "/"@ + "run"@;
    assert(path[0] == v.xdg_data_home->0@[0]);
}

/// A missing directory is made for its owner alone, one that others can enter is closed
/// to them, and one that is private is left as it is.
pub proof fn a_directory_is_made_private(mode: Option<u32>, r: DirectoryStep)
    requires
        call_ensures(ensure_directory_private, (mode,), r),
    ensures
        mode is None ==> r == (DirectoryStep::Create { mode: 0o700 }),
        mode matches Some(bits) ==> (bits & 0o077 != 0 ==> r == (DirectoryStep::Tighten {
            mode: 0o700,
        })) && (bits & 0o077 == 0 ==> r == DirectoryStep::Keep),
{
}

/// What is told of a run directory that would be relative.
pub proof fn a_relative_run_directory_is_named(error: &DaemonRunDirError, r: String)
    requires
        call_ensures(DaemonRunDirError::to_text, (error,), r),
    ensures
        r@ == "daemon run directory resolved to the relative path "@ + error.path@
            + " (no absolute XDG_DATA_HOME or HOME in the daemon's environment)"@,
{
}

/// On Unix a file that stands in a directory has its own name and that directory.
pub proof fn a_unix_file_has_its_name_and_its_directory(
    path: &str,
    dir: Seq<char>,
    base: Seq<char>,
    name: Option<String>,
    up: Option<String>,
)
    requires
        call_ensures(file_name, (false, path), name),
        call_ensures(parent, (false, path), up),
        path@ == dir + "/"@ + base,
        plain_name(base),
        plain_dir(dir),
        dir.last() != '.',
    ensures
        name is Some && name->0@ == base,
        up is Some && up->0@ == dir,
{
    a_file_stands_in_its_directory(dir, base);
}

/// Every path is one with itself and, on Unix, with itself and a slash behind it; paths
/// that end in different names, or of which only one starts at the root, are two.
pub proof fn which_paths_are_one(windows: bool, a: &str, b: &str, r: bool)
    requires
        call_ensures(same_path, (windows, a, b), r),
    ensures
        a@ == b@ ==> r,
        !windows && plain_dir(a@) && b@ == a@ + "/"@ ==> r,
        r ==> last_name(windows, a@) == last_name(windows, b@),
        !windows && a@.len() > 0 && a@[0] == '/' && (b@.len() == 0 || b@[0] != '/') ==> !r,
{
    if !windows && plain_dir(a@) && b@ == a@ + "/"@ {
        reveal_strlit("/");
        a_separator_at_the_end_makes_no_difference(a@);
        assert(a@ + "/"@ =~= a@.push('/'));
    }
}

/// On Unix without a data home of its own the run directory stands below the user's home,
/// and is had exactly where that starts at the root.
pub proof fn where_the_run_directory_stands_below_a_home(
    v: &HomeVariables,
    r: Result<String, DaemonRunDirError>,
)
    requires
        call_ensures(daemon_run_dir, (v,), r),
        !v.windows,
        !is_set(v.xdg_data_home),
        is_set(v.home),
        plain_dir(v.home->0@),
    ensures
        ({
            let path = v.home->0@ + "/"@ + ".local"@ + "/"@ + "share"@ + "/"@ + "cortexkit"@ + "/"@
                + "run"@;
            &&& r is Ok <==> v.home->0@[0] == '/'
            &&& r matches Ok(p) ==> p@ == path
            &&& r matches Err(e) ==> e.path@ == path
        }),
{
    reveal_strlit(".local");
    reveal_strlit("share");
    reveal_strlit("cortexkit");
    let a = v.home->0@ + "/"@ + ".local"@;
    assert(a.last() == ".local"@.last());
    let b = a + "/"@ + "share"@;
    assert(b.last() == "share"@.last());
    let c = b + "/"@ + "cortexkit"@;
    assert(c.last() == "cortexkit"@.last());
    let path = c + "/"@ + "run"@;
    assert(path[0] == v.home->0@[0]);
}

/// The letter of a drive.
pub open spec fn drive_letter(c: char) -> bool {
    ('a' <= c && c <= 'z') || ('A' <= c && c <= 'Z')
}

/// One of the two separators that Windows knows.
pub open spec fn slash(c: char) -> bool {
    c == '/' || c == '\\'
}

/// On Windows a path on a drive is absolute exactly where it starts at the drive's root;
/// one that starts at a root without a drive, or with a name, is not.
pub proof fn a_windows_path_is_absolute_from_a_drives_root(path: &str, r: bool)
    requires
        call_ensures(is_absolute, (true, path), r),
    ensures
        path@.len() >= 2 && drive_letter(path@[0]) && path@[1] == ':' ==> (r <==> path@.len() > 2
            && slash(path@[2])),
        path@.len() == 0 ==> !r,
        path@.len() > 0 && slash(path@[0]) && (path@.len() == 1 || !slash(path@[1])) ==> !r,
        path@.len() > 0 && !slash(path@[0]) && !(path@.len() >= 2 && drive_letter(path@[0])
            && path@[1] == ':') ==> !r,
{
}

/// On Windows a name is put behind its directory with a backslash between them, unless
/// the directory ends in a separator or is a bare drive; a name on a drive of its own
/// stands alone.
pub proof fn a_windows_name_is_put_behind_a_backslash(base: &str, name: &str, r: String)
    requires
        call_ensures(join_name, (true, base, name), r),
    ensures
        name@.len() >= 2 && drive_letter(name@[0]) && name@[1] == ':' ==> r@ == name@,
        !(name@.len() >= 2 && drive_letter(name@[0]) && name@[1] == ':') ==> {
            &&& base@.len() > 0 && slash(base@.last()) ==> r@ == base@ + name@
            &&& base@.len() > 2 && !slash(base@.last()) ==> r@ == base@ + "\\"@ + name@
            &&& base@.len() == 2 && drive_letter(base@[0]) && base@[1] == ':' ==> r@ == base@
                + name@
        },
{
}

/// On Windows the case of a drive's letter makes no other path, and another letter does.
pub proof fn the_case_of_a_drive_makes_no_difference(
    a: &str,
    b: &str,
    rest: Seq<char>,
    x: char,
    y: char,
    r: bool,
)
    requires
        call_ensures(same_path, (true, a, b), r),
        drive_letter(x),
        drive_letter(y),
        a@ == seq![x, ':'] + rest,
        b@ == seq![y, ':'] + rest,
    ensures
        x == y || x as int + 32 == y as int || y as int + 32 == x as int ==> r,
        x != y && x as int + 32 != y as int && y as int + 32 != x as int ==> !r,
{
    assert(a@[0] == x && a@[1] == ':' && b@[0] == y && b@[1] == ':');
    assert(on_a_drive(a@) && on_a_drive(b@));
    if rest.len() > 0 {
        assert(a@[2] == rest[0] && b@[2] == rest[0]);
    }
    let start = body_start(true, a@);
    assert(body_start(true, b@) == start);
    assert(a@.skip(start) =~= b@.skip(start));
    assert(placed_names(true, a@) == placed_names(true, b@));
}

/// On Windows a path on a drive and one on none are two.
pub proof fn a_drive_is_part_of_a_windows_path(a: &str, b: &str, r: bool)
    requires
        call_ensures(same_path, (true, a, b), r),
        a@.len() >= 2,
        drive_letter(a@[0]),
        a@[1] == ':',
    ensures
        !(b@.len() >= 2 && drive_letter(b@[0]) && b@[1] == ':') ==> !r,
{
}

} // verus!
