//! Where the bot keeps its files.
use vstd::prelude::*;

verus! {

/// Whether a path starts with a tilde that stands for the home directory.
pub open spec fn starts_at_home(path: Seq<char>) -> bool {
    path.len() > 0 && path[0] == '~' && (path.len() == 1 || path[1] == '/' || path[1] == '\\')
}

/// Whether `expanded` is `path` with its tilde replaced by some home directory. Where there is no
/// home directory, or no tilde that stands for it, the path stays as it is.
pub open spec fn expands_to(path: Seq<char>, expanded: Seq<char>) -> bool {
    ||| expanded == path
    ||| starts_at_home(path) && exists|home: Seq<char>| expanded == #[trigger] (home + path.skip(1))
}

/// The path `component` below the path `base`, where components are separated by slashes. An
/// absolute path stands for itself.
pub open spec fn joined(base: Seq<char>, component: Seq<char>) -> Seq<char> {
    if component.len() > 0 && component[0] == '/' {
        component
    } else if base.len() == 0 || base.last() == '/' {
        base + component
    } else {
        base.push('/') + component
    }
}

/// `shellexpand::tilde`: replaces a leading tilde that is the whole path or is followed by a
/// slash (on Windows, a backslash too) by the home directory, if there is one. Which directory
/// that is depends on the user and the machine, and nothing is claimed of it.
#[verifier::external_body]
fn tilde(path: &str) -> (expanded: String)
    ensures
        expands_to(path@, expanded@),
{
    shellexpand::tilde(path).into_owned()
}

/// `camino::Utf8PathBuf::push`, together with the character that separates the components of a
/// path on this system. Where that is a slash the result is `joined`; of other systems nothing is
/// claimed.
#[verifier::external_body]
fn push(base: &str, component: &str) -> (pushed: (String, char))
    ensures
        pushed.1 == '/' ==> pushed.0@ == joined(base@, component@),
{
    let mut path = camino::Utf8PathBuf::from(base);
    path.push(component);
    (path.into_string(), std::path::MAIN_SEPARATOR)
}

/// Whether `expanded` is what may be had for `path` when its tilde is replaced on this machine.
pub closed spec fn expansion_of(path: &str, expanded: String) -> bool {
    call_ensures(tilde, (path,), expanded)
}

/// Whether the path and the separator in `pushed` are what may be had when `component` is put
/// below the path `base` on this machine.
pub closed spec fn pushes_to(base: Seq<char>, component: &str, pushed: (String, char)) -> bool {
    exists|path: &str| path@ == base && #[trigger] call_ensures(push, (path, component), pushed)
}

/// The path `component` below the path `base`, and the character that separates the components
/// of a path on this system.
pub(crate) fn push_below(base: &str, component: &str) -> (pushed: (String, char))
    ensures
        pushed.1 == '/' ==> pushed.0@ == joined(base@, component@),
        pushes_to(base@, component, pushed),
{
    push(base, component)
}

/// The directory of the bot's files. Which home directory it is below depends on the machine.
pub fn config_dir() -> (dir: String)
    ensures
        expansion_of("~/.config/sigbot", dir),
        expands_to("~/.config/sigbot"@, dir@),
{
    tilde("~/.config/sigbot")
}

/// The database of the settings of conversations. Which home directory it is below depends on
/// the machine.
pub fn threads_db_path() -> (path: String)
    ensures
        expansion_of("~/.config/sigbot/tester/threads.db", path),
        expands_to("~/.config/sigbot/tester/threads.db"@, path@),
{
    tilde("~/.config/sigbot/tester/threads.db")
}

/// The bot's files are below the home directory, whichever that is; where there is none, the paths
/// stay as they are written.
pub proof fn law_the_files_are_below_the_home_directory(dir: String, db: String)
    requires
        call_ensures(config_dir, (), dir),
        call_ensures(threads_db_path, (), db),
    ensures
        dir@ == "~/.config/sigbot"@ || exists|home: Seq<char>|
            dir@ == #[trigger] (home + "/.config/sigbot"@),
        db@ == "~/.config/sigbot/tester/threads.db"@ || exists|home: Seq<char>|
            db@ == #[trigger] (home + "/.config/sigbot/tester/threads.db"@),
{
    reveal_strlit("~/.config/sigbot");
    reveal_strlit("/.config/sigbot");
    reveal_strlit("~/.config/sigbot/tester/threads.db");
    reveal_strlit("/.config/sigbot/tester/threads.db");
    assert("~/.config/sigbot"@.skip(1) =~= "/.config/sigbot"@);
    assert("~/.config/sigbot/tester/threads.db"@.skip(1) =~= "/.config/sigbot/tester/threads.db"@);
}

/// A path is joined to another by one slash, also where the other ends in one already or is empty.
/// An absolute path stands for itself.
pub proof fn law_paths_are_joined_by_one_slash(base: Seq<char>, component: Seq<char>)
    ensures
        component.len() > 0 && component[0] == '/' ==> joined(base, component) == component,
        !(component.len() > 0 && component[0] == '/') && base.len() > 0 && base.last() == '/'
            ==> joined(base, component) == base + component,
        !(component.len() > 0 && component[0] == '/') && base.len() == 0 ==> joined(base, component)
            == component,
        !(component.len() > 0 && component[0] == '/') && base.len() > 0 && base.last() != '/'
            ==> joined(base, component) == base + seq!['/'] + component,
{
    assert(base.push('/') =~= base + seq!['/']);
    if base.len() == 0 {
        assert(base + component =~= component);
    }
}

/// The paths of the bot's files are what comes of replacing the tilde, and nothing else.
proof fn law_paths_come_of_the_tilde(dir: String, db: String)
    requires
        call_ensures(config_dir, (), dir),
        call_ensures(threads_db_path, (), db),
    ensures
        call_ensures(tilde, ("~/.config/sigbot",), dir),
        call_ensures(tilde, ("~/.config/sigbot/tester/threads.db",), db),
{
}

/// A path below another is what comes of putting it there, and nothing else.
proof fn law_paths_below_come_of_pushing(base: &str, component: &str, pushed: (String, char))
    requires
        call_ensures(push_below, (base, component), pushed),
    ensures
        exists|path: &str|
            path@ == base@ && #[trigger] call_ensures(push, (path, component), pushed),
{
}

} // verus!
