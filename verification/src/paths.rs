//! Where layout files are looked for: the folders that may hold them and the
//! order in which the places are tried.

use vstd::prelude::*;
use vstd::string::*;

verus! {

/// The names of the folders that may hold layout files.
pub open spec fn spec_config_dirs() -> Seq<Seq<char>> {
    seq![".weztermocil"@, ".teamocil"@, ".itermocil"@]
}

/// The names of the folders that may hold layout files.
pub fn config_dirs() -> (dirs: Vec<String>)
    ensures
        dirs.deep_view() == spec_config_dirs(),
{
    let mut dirs: Vec<String> = Vec::new();
    dirs.push(String::from_str(".weztermocil"));
    dirs.push(String::from_str(".teamocil"));
    dirs.push(String::from_str(".itermocil"));
    dirs
}

/// Whether `text` ends with `tail`.
pub open spec fn ends_with(text: Seq<char>, tail: Seq<char>) -> bool {
    text.len() >= tail.len() && text.skip(text.len() - tail.len()) == tail
}

/// What expanding a leading tilde can make of `path`: the path itself, or,
/// where the path begins with a tilde, a text that ends with what follows the
/// tilde. Which of the two, and what stands in place of the tilde, depends on
/// the machine and on the user.
pub open spec fn tilde_expanded(path: Seq<char>, expanded: Seq<char>) -> bool {
    expanded == path || (path.len() >= 1 && path[0] == '~' && ends_with(expanded, path.skip(1)))
}

/// `shellexpand::tilde`: replaces a tilde at the start of `path` by the home
/// directory of the user. The contract claims only what holds whatever the
/// home directory is, and whether or not there is one: a path that is left
/// alone comes back unchanged, and an expansion keeps all that follows the
/// tilde.
#[verifier::external_body]
fn expand_tilde(path: &str) -> (expanded: String)
    ensures
        tilde_expanded(path@, expanded@),
{
    shellexpand::tilde(path).into_owned()
}

/// The folders in the home directory that may hold layout files, in the
/// order in which they are tried.
pub fn global_config_candidates() -> (candidates: Vec<String>)
    ensures
        candidates@.len() == spec_config_dirs().len(),
        forall|i: int|
            0 <= i < candidates@.len() ==> tilde_expanded(
                "~/"@ + spec_config_dirs()[i],
                #[trigger] candidates@[i]@,
            ),
{
    let dirs = config_dirs();
    let mut candidates: Vec<String> = Vec::new();
    let mut i: usize = 0;
    while i < dirs.len()
        invariant
            i <= dirs.len(),
            dirs.deep_view() == spec_config_dirs(),
            candidates@.len() == i,
            forall|k: int|
                0 <= k < i ==> tilde_expanded(
                    "~/"@ + spec_config_dirs()[k],
                    #[trigger] candidates@[k]@,
                ),
        decreases dirs.len() - i,
    {
        let home_dir = String::from_str("~/").concat(dirs[i].as_str());
        candidates.push(expand_tilde(home_dir.as_str()));
        i = i + 1;
    }
    candidates
}

/// Whether place `i` was found.
pub open spec fn found_at(found: Seq<bool>, i: int) -> bool {
    0 <= i < found.len() && found[i]
}

/// The last of the candidates that was found, unless it is the empty text.
pub open spec fn last_found(candidates: Seq<Seq<char>>, found: Seq<bool>) -> Option<Seq<char>>
    decreases candidates.len(),
{
    if candidates.len() == 0 {
        None
    } else if found_at(found, candidates.len() - 1) {
        if candidates.last().len() == 0 {
            None
        } else {
            Some(candidates.last())
        }
    } else {
        last_found(candidates.drop_last(), found)
    }
}

/// The first of the candidates that was found.
pub open spec fn first_found(candidates: Seq<Seq<char>>, found: Seq<bool>, from: int) -> Option<
    Seq<char>,
>
    decreases candidates.len() - from,
{
    if from < 0 || from >= candidates.len() {
        None
    } else if found_at(found, from) {
        Some(candidates[from])
    } else {
        first_found(candidates, found, from + 1)
    }
}

/// Picks the folder to use among the candidates: the last one that exists.
fn pick_config_path(candidates: &Vec<String>, found: &Vec<bool>) -> (path: Option<String>)
    ensures
        path.deep_view() == last_found(candidates.deep_view(), found@),
{
    let mut i: usize = candidates.len();
    assert(candidates.deep_view().take(i as int) =~= candidates.deep_view());
    while i > 0
        invariant
            i <= candidates.len(),
            last_found(candidates.deep_view(), found@) == last_found(
                candidates.deep_view().take(i as int),
                found@,
            ),
        decreases i,
    {
        proof {
            let all = candidates.deep_view();
            assert(all.take(i as int).drop_last() =~= all.take(i - 1));
        }
        i = i - 1;
        if i < found.len() && found[i] {
            if candidates[i].as_str().unicode_len() == 0 {
                return None;
            }
            return Some(candidates[i].clone());
        }
    }
    None
}

/// The folder in the home directory that holds the layout files: the last of
/// `candidates` that exists, as `found` tells it place by place.
pub fn get_global_config_path(candidates: &Vec<String>, found: &Vec<bool>) -> (path: Result<
    String,
    String,
>)
    ensures
        match last_found(candidates.deep_view(), found@) {
            Some(dir) => path is Ok && path->Ok_0@ == dir,
            None => path is Err && path->Err_0@
                == "Couldn't find a .weztermocil, .teamocil or .itermocil folder in the home directory (~)\nPlease make sure one of them exists before continuing"@,
        },
{
    match pick_config_path(candidates, found) {
        Some(path) => Ok(path),
        None => Err(
            String::from_str(
                "Couldn't find a .weztermocil, .teamocil or .itermocil folder in the home directory (~)\nPlease make sure one of them exists before continuing",
            ),
        ),
    }
}

/// The folder in the current directory that holds the layout files: the last
/// of `candidates` that exists, as `found` tells it place by place.
pub fn get_local_config_path(candidates: &Vec<String>, found: &Vec<bool>) -> (path: Result<
    String,
    String,
>)
    ensures
        match last_found(candidates.deep_view(), found@) {
            Some(dir) => path is Ok && path->Ok_0@ == dir,
            None => path is Err && path->Err_0@
                == "Couldn't find a .weztermocil, .teamocil or .itermocil folder in the current directory\nPlease make sure one of them exists before continuing"@,
        },
{
    match pick_config_path(candidates, found) {
        Some(path) => Ok(path),
        None => Err(
            String::from_str(
                "Couldn't find a .weztermocil, .teamocil or .itermocil folder in the current directory\nPlease make sure one of them exists before continuing",
            ),
        ),
    }
}

/// The places where the layout file `layout_name` may be, in the order in
/// which they are tried: the current directory, the layout folder in the
/// current directory if there is one, and the layout folder in the home
/// directory if there is one.
pub open spec fn spec_layout_file_candidates(
    current_dir: Seq<char>,
    local_dir: Option<Seq<char>>,
    global_dir: Option<Seq<char>>,
    layout_name: Seq<char>,
) -> Seq<Seq<char>> {
    seq![current_dir + "/"@ + layout_name] + match local_dir {
        Some(dir) => seq![current_dir + "/"@ + dir + "/"@ + layout_name],
        None => Seq::empty(),
    } + match global_dir {
        Some(dir) => seq![dir + "/"@ + layout_name],
        None => Seq::empty(),
    }
}

/// The places where the layout file `layout_name` may be, in the order in
/// which they are tried.
pub fn layout_file_candidates(
    current_dir: &str,
    local_dir: Option<&str>,
    global_dir: Option<&str>,
    layout_name: &str,
) -> (candidates: Vec<String>)
    ensures
        candidates.deep_view() == spec_layout_file_candidates(
            current_dir@,
            local_dir.deep_view(),
            global_dir.deep_view(),
            layout_name@,
        ),
{
    let mut candidates: Vec<String> = Vec::new();
    candidates.push(String::from_str(current_dir).concat("/").concat(layout_name));
    if let Some(dir) = local_dir {
        candidates.push(
            String::from_str(current_dir).concat("/").concat(dir).concat("/").concat(layout_name),
        );
    }
    if let Some(dir) = global_dir {
        candidates.push(String::from_str(dir).concat("/").concat(layout_name));
    }
    candidates
}

/// The layout file to use: the first of `candidates` that can be opened, as
/// `found` tells it place by place.
pub fn get_path_for_layout_file(candidates: &Vec<String>, found: &Vec<bool>) -> (path: Result<
    String,
    String,
>)
    ensures
        match first_found(candidates.deep_view(), found@, 0) {
            Some(file) => path is Ok && path->Ok_0@ == file,
            None => path is Err && path->Err_0@ == "Couldn't find layout"@,
        },
{
    let mut i: usize = 0;
    while i < candidates.len()
        invariant
            i <= candidates.len(),
            first_found(candidates.deep_view(), found@, 0) == first_found(
                candidates.deep_view(),
                found@,
                i as int,
            ),
        decreases candidates.len() - i,
    {
        if i < found.len() && found[i] {
            return Ok(candidates[i].clone());
        }
        i = i + 1;
    }
    return Err(String::from_str("Couldn't find layout"));
}

/// The layout file of a session: the file that was named outright if one
/// was, else the file that was found for the name of a layout if one was
/// asked for; where neither gives a path, the layout file of the current
/// directory.
pub open spec fn spec_session_layout_path(
    found: Option<Seq<char>>,
    named: Option<Seq<char>>,
) -> Seq<char> {
    let chosen = match named {
        Some(path) => path,
        None => match found {
            Some(path) => path,
            None => Seq::empty(),
        },
    };
    if chosen.len() == 0 {
        "./weztermocil.yml"@
    } else {
        chosen
    }
}

/// Picks the layout file of a session among the file that was found for the
/// name of a layout and the file that was named outright.
pub fn session_layout_path(found: Option<String>, named: Option<String>) -> (path: String)
    ensures
        path@ == spec_session_layout_path(found.deep_view(), named.deep_view()),
{
    let mut layout_path = String::new();
    if let Some(path) = found {
        layout_path = path;
    }
    if let Some(path) = named {
        layout_path = path;
    }
    if layout_path.as_str().unicode_len() == 0 {
        layout_path = String::from_str("./weztermocil.yml");
    }
    layout_path
}

} // verus!
