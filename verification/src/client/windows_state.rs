//! The client's state on Windows: it lies below the fixed root that the installer
//! made, and nothing on the way to it is a link or another reparse point.

use vstd::prelude::*;

use crate::common::config::{windows_client_data_dir, windows_join, windows_joined};
use crate::common::secure_fs::{EntryKind, Inspected};
use crate::paths::{components, is_under, path_components, same_path, same_path_as, starts_with_path};
use crate::text::{caused, characters, concat, same_text, tell, told, views, with_cause};

verus! {

/// A Windows path with slashes between its components, and its drive letter in
/// upper case.
pub open spec fn windows_form(path: Seq<char>) -> Seq<char> {
    let slashed = path.map_values(
        |c: char|
            if c == '\\' {
                '/'
            } else {
                c
            },
    );
    if path.len() >= 2 && path[1] == ':' && 'a' <= path[0] <= 'z' {
        slashed.update(0, ((path[0] as u32) - 32) as char)
    } else {
        slashed
    }
}

fn to_windows_form(path: &str) -> (result: String)
    ensures
        result@ == windows_form(path@),
{
    let all = characters(path);
    let drive = all.len() >= 2 && all[1] == ':' && 'a' <= all[0] && all[0] <= 'z';
    let mut form: String = String::new();
    let mut i: usize = 0;
    assert(form@ =~= windows_form(path@).take(0));
    while i < all.len()
        invariant
            i <= all.len(),
            all@ == path@,
            drive == (path@.len() >= 2 && path@[1] == ':' && 'a' <= path@[0] <= 'z'),
            form@ == windows_form(path@).take(i as int),
        decreases all.len() - i,
    {
        let c = if i == 0 && drive {
            (all[0] as u8 - 32) as char
        } else if all[i] == '\\' {
            '/'
        } else {
            all[i]
        };
        assert(c == windows_form(path@)[i as int]);
        form.push(c);
        i += 1;
        assert(form@ =~= windows_form(path@).take(i as int));
    }
    assert(windows_form(path@).take(i as int) =~= windows_form(path@));
    form
}

/// What was found at a path: what looking there gave, if it was looked at.
pub open spec fn found_at(found: Seq<Inspected>, i: int, path: Seq<char>) -> Result<
    EntryKind,
    Seq<char>,
> {
    if i < found.len() && found[i].path@ == path {
        match found[i].kind {
            Ok(EntryKind::Missing) => Err("entity not found"@),
            Ok(kind) => Ok(kind),
            Err(text) => Err(text@),
        }
    } else {
        Err("entity not found"@)
    }
}

fn look_up(found: &Vec<Inspected>, i: usize, path: &str) -> (result: Result<EntryKind, String>)
    ensures
        match found_at(found@, i as int, path@) {
            Ok(kind) => result == Ok::<EntryKind, String>(kind),
            Err(text) => told(result, Some(text)),
        },
{
    if i < found.len() && same_text(&found[i].path, path) {
        match &found[i].kind {
            Ok(EntryKind::Missing) => {},
            Ok(kind) => return Ok(*kind),
            Err(text) => return tell(text),
        }
    }
    tell("entity not found")
}

/// What is wrong with the root of the client's state, if anything. `program_data` is
/// the known folder that Windows returned, and `found` holds what stands at the
/// root; a link stands for every reparse point.
pub open spec fn windows_root_fault(
    program_data: Option<Seq<char>>,
    data_dir: Seq<char>,
    found: Seq<Inspected>,
) -> Option<Seq<char>> {
    match program_data {
        None => Some(
            caused(
                "resolve installer-owned Windows CentralD data directory"@,
                "required platform path is unavailable: "@
                    + "Windows did not return FOLDERID_ProgramData; refusing to guess a machine state path"@,
            ),
        ),
        Some(directory) => {
            let expected = windows_joined(directory, "CentralD"@);
            if !same_path_as(windows_form(data_dir), windows_form(expected)) {
                Some(
                    "Windows CentralD client state must use the installer-owned fixed data directory "@
                        + expected,
                )
            } else {
                match found_at(found, 0, data_dir) {
                    Err(text) => Some(
                        caused(
                            "inspect installer-owned CentralD data root "@ + data_dir
                                + "; run the signed installer before enrollment"@,
                            text,
                        ),
                    ),
                    Ok(EntryKind::Symlink) => Some(reparse_point(data_dir)),
                    Ok(EntryKind::Directory) => None,
                    Ok(_) => Some("CentralD client data root is not a directory"@),
                }
            }
        },
    }
}

/// What is said of a reparse point.
pub open spec fn reparse_point(path: Seq<char>) -> Seq<char> {
    "refusing Windows reparse point in client state: "@ + path
}

/// What is wrong with the components from the `i`-th on, if anything, below a
/// directory that the `at`-th look is inside of.
pub open spec fn windows_components_fault(
    parts: Seq<Seq<char>>,
    i: int,
    directory: Seq<char>,
    found: Seq<Inspected>,
    at: int,
) -> Option<Seq<char>>
    decreases parts.len() - i,
{
    if i < 0 || i >= parts.len() {
        None
    } else if parts[i] == ".."@ || parts[i] == "."@ {
        Some("client state contains a non-canonical Windows path component"@)
    } else {
        let current = windows_joined(directory, parts[i]);
        match found_at(found, at, current) {
            Err(text) => Some(caused("inspect protected client state "@ + current, text)),
            Ok(EntryKind::Symlink) => Some(reparse_point(current)),
            Ok(_) => windows_components_fault(parts, i + 1, current, found, at + 1),
        }
    }
}

/// What is wrong with a path of the client's state, if anything. `found` holds what
/// stands at the root and at each component below it, in order.
pub open spec fn windows_state_fault(
    program_data: Option<Seq<char>>,
    data_dir: Seq<char>,
    path: Seq<char>,
    found: Seq<Inspected>,
) -> Option<Seq<char>> {
    match windows_root_fault(program_data, data_dir, found) {
        Some(text) => Some(text),
        None => if !starts_with_path(windows_form(path), windows_form(data_dir)) {
            Some("client state escaped the protected data directory"@)
        } else {
            windows_components_fault(
                components(windows_form(path)),
                components(windows_form(data_dir)).len() as int,
                data_dir,
                found,
                1,
            )
        },
    }
}

/// Checks the root of the client's state.
pub fn validate_windows_protected_root(
    program_data: Option<&str>,
    data_dir: &str,
    found: &Vec<Inspected>,
) -> (result: Result<(), String>)
    ensures
        told(
            result,
            windows_root_fault(
                match program_data {
                    Some(directory) => Some(directory@),
                    None => None,
                },
                data_dir@,
                found@,
            ),
        ),
{
    let expected = match windows_client_data_dir(program_data) {
        Ok(expected) => expected,
        Err(error) => return Err(
            with_cause(
                "resolve installer-owned Windows CentralD data directory",
                &error.message(),
            ),
        ),
    };
    if !same_path(&to_windows_form(data_dir), &to_windows_form(&expected)) {
        return tell(
            &concat(
                "Windows CentralD client state must use the installer-owned fixed data directory ",
                &expected,
            ),
        );
    }
    match look_up(found, 0, data_dir) {
        Err(text) => {
            let mut message = concat("inspect installer-owned CentralD data root ", data_dir);
            message.append("; run the signed installer before enrollment");
            Err(with_cause(&message, &text))
        },
        Ok(EntryKind::Symlink) => tell(
            &concat("refusing Windows reparse point in client state: ", data_dir),
        ),
        Ok(EntryKind::Directory) => Ok(()),
        Ok(_) => tell("CentralD client data root is not a directory"),
    }
}

/// Checks a path of the client's state, which inherits the protection of its root.
pub fn validate_windows_inherited_state(
    program_data: Option<&str>,
    data_dir: &str,
    path: &str,
    found: &Vec<Inspected>,
) -> (result: Result<(), String>)
    ensures
        told(
            result,
            windows_state_fault(
                match program_data {
                    Some(directory) => Some(directory@),
                    None => None,
                },
                data_dir@,
                path@,
                found@,
            ),
        ),
{
    match validate_windows_protected_root(program_data, data_dir, found) {
        Ok(()) => {},
        Err(text) => return Err(text),
    }
    let root = to_windows_form(data_dir);
    let form = to_windows_form(path);
    if !is_under(&form, &root) {
        return tell("client state escaped the protected data directory");
    }
    let start: usize = path_components(&root).len();
    let parts = path_components(&form);
    let ghost texts = components(form@);
    assert(components(root@).len() == start);
    assert(texts.len() == parts.len());
    let mut current: String = data_dir.to_owned();
    let mut i: usize = start;
    let ghost folder = match program_data {
        Some(directory) => Some(directory@),
        None => None,
    };
    while i < parts.len()
        invariant
            start <= i <= parts.len(),
            texts == views(parts@),
            folder == match program_data {
                Some(directory) => Some(directory@),
                None => None,
            },
            windows_state_fault(folder, data_dir@, path@, found@) == windows_components_fault(
                texts,
                i as int,
                current@,
                found@,
                i - start + 1,
            ),
        decreases parts.len() - i,
    {
        assert(texts[i as int] == parts@[i as int]@);
        if same_text(&parts[i], "..") || same_text(&parts[i], ".") {
            return tell("client state contains a non-canonical Windows path component");
        }
        current = windows_join(&current, &parts[i]);
        match look_up(found, i - start + 1, &current) {
            Err(text) => return Err(
                with_cause(&concat("inspect protected client state ", &current), &text),
            ),
            Ok(EntryKind::Symlink) => return tell(
                &concat("refusing Windows reparse point in client state: ", &current),
            ),
            Ok(_) => {},
        }
        i += 1;
    }
    Ok(())
}

/// The paths that are looked at for a path of the client's state: the root, and each
/// component below it.
pub fn windows_state_paths(data_dir: &str, path: &str) -> (result: Vec<String>)
    ensures
        views(result@) == state_paths(
            components(windows_form(path@)),
            components(windows_form(data_dir@)).len() as int,
            data_dir@,
        ),
{
    let start: usize = path_components(&to_windows_form(data_dir)).len();
    let parts = path_components(&to_windows_form(path));
    let ghost texts = components(windows_form(path@));
    assert(components(windows_form(data_dir@)).len() == start);
    assert(texts.len() == parts.len());
    let mut paths: Vec<String> = Vec::new();
    let mut current: String = data_dir.to_owned();
    let mut i: usize = start;
    assert(views(paths@) =~= Seq::empty());
    let ghost all = state_paths(texts, start as int, data_dir@);
    assert(views(paths@) + state_paths(texts, i as int, current@) =~= all);
    while i < parts.len()
        invariant
            start <= i,
            texts == views(parts@),
            all == views(paths@) + state_paths(texts, i as int, current@),
        decreases parts.len() - i,
    {
        assert(texts[i as int] == parts@[i as int]@);
        let ghost before = views(paths@);
        let next = windows_join(&current, &parts[i]);
        let ghost here = current@;
        paths.push(current);
        assert(views(paths@) =~= before.push(here));
        assert(before + state_paths(texts, i as int, here) =~= before.push(here) + state_paths(
            texts,
            i + 1,
            next@,
        ));
        current = next;
        i += 1;
    }
    let ghost before = views(paths@);
    let ghost here = current@;
    paths.push(current);
    assert(views(paths@) =~= before.push(here));
    assert(views(paths@) =~= all);
    paths
}

/// A directory, and what the components from the `i`-th on lead to below it.
pub open spec fn state_paths(parts: Seq<Seq<char>>, i: int, directory: Seq<char>) -> Seq<Seq<char>>
    decreases parts.len() - i,
{
    if i < 0 || i >= parts.len() {
        seq![directory]
    } else {
        seq![directory] + state_paths(parts, i + 1, windows_joined(directory, parts[i]))
    }
}

/// The state is trusted exactly below the directory that the installer made and nowhere else, with
/// no reparse point and no step aside on the way.
pub proof fn windows_state_stays_below_its_root(
    program_data: Option<Seq<char>>,
    data_dir: Seq<char>,
    path: Seq<char>,
    found: Seq<Inspected>,
)
    ensures
        windows_root_fault(program_data, data_dir, found) is None <==> {
            &&& program_data is Some
            &&& same_path_as(
                windows_form(data_dir),
                windows_form(windows_joined(program_data->0, "CentralD"@)),
            )
            &&& found_at(found, 0, data_dir) == Ok::<EntryKind, Seq<char>>(EntryKind::Directory)
        },
        windows_state_fault(program_data, data_dir, path, found) is None ==> {
            &&& windows_root_fault(program_data, data_dir, found) is None
            &&& starts_with_path(windows_form(path), windows_form(data_dir))
        },
{
}

/// On a way that is trusted, every part is a plain name that was found and is no reparse point.
pub proof fn trusted_ways_have_no_reparse_points(
    parts: Seq<Seq<char>>,
    i: int,
    directory: Seq<char>,
    found: Seq<Inspected>,
    at: int,
    k: int,
)
    requires
        0 <= i <= k < parts.len(),
        windows_components_fault(parts, i, directory, found, at) is None,
    ensures
        parts[k] != ".."@,
        parts[k] != "."@,
        0 <= at ==> at + k - i < found.len(),
        0 <= at ==> found[at + k - i].kind is Ok && !(found[at + k - i].kind->Ok_0 is Symlink)
            && !(found[at + k - i].kind->Ok_0 is Missing),
    decreases k - i,
{
    if i < k {
        trusted_ways_have_no_reparse_points(
            parts,
            i + 1,
            windows_joined(directory, parts[i]),
            found,
            at + 1,
            k,
        );
    }
}

} // verus!
