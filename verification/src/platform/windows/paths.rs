//! Where the client is on Windows, and which file is a client.

use vstd::prelude::*;

use crate::error::AppError;
use crate::error::ErrorView;
use crate::json;
use crate::json::JsonValue;
use crate::json::JsonView;
use crate::property_list;
use crate::text;

verus! {

/// The attribute of links and other redirections.
pub const REPARSE_POINT: u32 = 0x400;

/// Whether the attributes are those of a link or another redirection.
pub open spec fn redirects(attributes: u32) -> bool {
    attributes & REPARSE_POINT != 0
}

/// Whether the attributes are those of a link or another redirection.
pub fn is_reparse_point(attributes: u32) -> (yes: bool)
    ensures
        yes == redirects(attributes),
{
    attributes & REPARSE_POINT != 0
}

/// Whether the directory is a bare drive, such as `C:`.
pub open spec fn is_drive(directory: Seq<char>) -> bool {
    directory.len() == 2 && ('a' <= directory[0] <= 'z' || 'A' <= directory[0] <= 'Z')
        && directory[1] == ':'
}

/// Whether a name can follow the directory without a separator between them.
pub open spec fn takes_name(directory: Seq<char>) -> bool {
    directory.len() == 0 || directory.last() == '\\' || directory.last() == '/' || is_drive(
        directory,
    )
}

/// The path of `name` in the directory.
pub open spec fn adjoined(directory: Seq<char>, name: Seq<char>) -> Seq<char> {
    if takes_name(directory) {
        directory + name
    } else {
        directory + "\\"@ + name
    }
}

/// The path of `name` in the directory. A separator is put between them, but not
/// behind another one, behind a bare drive, or at the beginning. Both are otherwise taken as
/// they stand, also where the directory begins with `\\?\`.
pub fn join(directory: &str, name: &str) -> (path: String)
    ensures
        path@ == adjoined(directory@, name@),
{
    let chars = text::chars_of(directory);
    let n: usize = chars.len();
    if n == 0 || chars[n - 1] == '\\' || chars[n - 1] == '/' {
        return text::joined2(directory, name);
    }
    if n == 2 && (('a' <= chars[0] && chars[0] <= 'z') || ('A' <= chars[0] && chars[0] <= 'Z'))
        && chars[1] == ':' {
        return text::joined2(directory, name);
    }
    text::joined3(directory, "\\", name)
}

/// Whether the character separates the parts of a path.
pub open spec fn separates(c: char) -> bool {
    c == '\\' || c == '/'
}

/// The position behind the part of the path that begins at `start`, and behind the
/// separator that follows it.
pub open spec fn past_part(path: Seq<char>, start: int) -> int
    decreases path.len() - start,
{
    if start >= path.len() {
        path.len() as int
    } else if separates(path[start]) {
        start + 1
    } else {
        past_part(path, start + 1)
    }
}

/// The position behind what names the path's volume, and behind the separator that
/// follows it: behind `\\?\UNC\server\share\`, `\\?\C:\`, `\\server\share\`, `C:\` or `\`.
pub open spec fn volume_end(path: Seq<char>) -> int {
    if text::begins_with(path, "\\\\?\\UNC\\"@) {
        past_part(path, past_part(path, 8))
    } else if text::begins_with(path, "\\\\?\\"@) {
        past_part(path, 4)
    } else if text::begins_with(path, "\\\\"@) {
        past_part(path, past_part(path, 2))
    } else if path.len() >= 2 && is_drive(path.take(2)) {
        if path.len() > 2 && separates(path[2]) {
            3
        } else {
            2
        }
    } else if path.len() > 0 && separates(path[0]) {
        1
    } else {
        0
    }
}

/// The last position before `end` at which a separator stands, but not before `volume`.
pub open spec fn last_separator(path: Seq<char>, volume: int, end: int) -> int
    decreases end,
{
    if end <= volume || end <= 0 {
        volume
    } else if separates(path[end - 1]) {
        end - 1
    } else {
        last_separator(path, volume, end - 1)
    }
}

/// The directory that holds the file or directory, which the volume itself has none of.
/// The path is one that the system has resolved: its separators stand alone, none at its
/// end, and no part is `.` or `..`.
pub open spec fn parent(path: Seq<char>) -> Option<Seq<char>> {
    if path.len() <= volume_end(path) {
        None
    } else {
        Some(path.take(last_separator(path, volume_end(path), path.len() as int)))
    }
}

/// The position behind a part of the path and its separator.
fn skip_part(chars: &Vec<char>, start: usize) -> (end: usize)
    requires
        start <= chars.len(),
    ensures
        end == past_part(chars@, start as int),
        start <= end <= chars.len(),
{
    let mut end: usize = start;
    while end < chars.len()
        invariant
            start <= end <= chars.len(),
            past_part(chars@, start as int) == past_part(chars@, end as int),
        decreases chars.len() - end,
    {
        if chars[end] == '\\' || chars[end] == '/' {
            return end + 1;
        }
        end = end + 1;
    }
    end
}

/// The directory that holds the file, as [`parent`] says.
pub fn parent_directory(path: &str) -> (directory: Option<String>)
    ensures
        property_list::text_view(directory) == parent(path@),
{
    let chars = text::chars_of(path);
    proof {
        reveal_strlit("\\\\?\\UNC\\");
        reveal_strlit("\\\\?\\");
        reveal_strlit("\\\\");
    }
    let volume: usize = if text::starts_with(path, "\\\\?\\UNC\\") {
        skip_part(&chars, skip_part(&chars, 8))
    } else if text::starts_with(path, "\\\\?\\") {
        skip_part(&chars, 4)
    } else if text::starts_with(path, "\\\\") {
        skip_part(&chars, skip_part(&chars, 2))
    } else if chars.len() >= 2 && (('a' <= chars[0] && chars[0] <= 'z') || ('A' <= chars[0]
        && chars[0] <= 'Z')) && chars[1] == ':' {
        if chars.len() > 2 && (chars[2] == '\\' || chars[2] == '/') {
            3
        } else {
            2
        }
    } else if chars.len() > 0 && (chars[0] == '\\' || chars[0] == '/') {
        1
    } else {
        0
    };
    assert(volume == volume_end(path@));
    if chars.len() <= volume {
        return None;
    }
    let mut end: usize = chars.len();
    while end > volume
        invariant
            chars@ == path@,
            volume <= end <= chars.len(),
            volume == volume_end(path@),
            chars.len() > volume,
            last_separator(path@, volume as int, path@.len() as int) == last_separator(
                path@,
                volume as int,
                end as int,
            ),
        decreases end,
    {
        if chars[end - 1] == '\\' || chars[end - 1] == '/' {
            return Some(text::text_of(&chars, 0, end - 1));
        }
        end = end - 1;
    }
    Some(text::text_of(&chars, 0, volume))
}

/// Where the client keeps its data.
#[derive(Debug)]
pub struct BattleNetPaths {
    pub cached_data_db: String,
    pub roaming_dir: String,
    pub roaming_config: String,
}

impl BattleNetPaths {
    /// The client's directories below the user's local and roaming data.
    pub fn discover(local: Option<&str>, roaming: Option<&str>) -> (paths: Result<
        BattleNetPaths,
        AppError,
    >)
        ensures
            match (local, roaming) {
                (None, _) => paths is Err && paths->Err_0@ == ErrorView::Message(
                    "无法确定 Windows LocalAppData 目录"@,
                ),
                (Some(_), None) => paths is Err && paths->Err_0@ == ErrorView::Message(
                    "无法确定 Windows AppData 目录"@,
                ),
                (Some(local), Some(roaming)) => {
                    &&& paths is Ok
                    &&& paths->Ok_0.cached_data_db@ == adjoined(
                        adjoined(local@, "Battle.net"@),
                        "CachedData.db"@,
                    )
                    &&& paths->Ok_0.roaming_dir@ == adjoined(roaming@, "Battle.net"@)
                    &&& paths->Ok_0.roaming_config@ == adjoined(
                        paths->Ok_0.roaming_dir@,
                        "Battle.net.config"@,
                    )
                },
            },
    {
        let local = match local {
            Some(local) => local,
            None => {
                return Err(AppError::Message("无法确定 Windows LocalAppData 目录".to_owned()));
            },
        };
        let roaming = match roaming {
            Some(roaming) => roaming,
            None => {
                return Err(AppError::Message("无法确定 Windows AppData 目录".to_owned()));
            },
        };
        let local_root = join(local, "Battle.net");
        let roaming_dir = join(roaming, "Battle.net");
        Ok(
            BattleNetPaths {
                cached_data_db: join(local_root.as_str(), "CachedData.db"),
                roaming_config: join(roaming_dir.as_str(), "Battle.net.config"),
                roaming_dir,
            },
        )
    }
}

/// The path that an entry gives: a text that is not blank, under the name `Path`.
pub open spec fn own_path(name: Seq<char>, value: JsonView) -> Seq<Seq<char>> {
    match value {
        JsonView::Text(path) => if name == "Path"@ && text::trimmed(path).len() > 0 {
            seq![path]
        } else {
            Seq::empty()
        },
        _ => Seq::empty(),
    }
}

/// All paths in the document, in its order; an entry's own path comes before
/// those inside it.
pub open spec fn path_values(value: JsonView) -> Seq<Seq<char>>
    decreases value,
{
    match value {
        JsonView::Object(entries) => object_paths(entries),
        JsonView::Array(values) => array_paths(values),
        _ => Seq::empty(),
    }
}

/// The paths in the entries, in their order.
pub open spec fn object_paths(entries: Seq<(Seq<char>, JsonView)>) -> Seq<Seq<char>>
    decreases entries,
{
    if entries.len() == 0 {
        Seq::empty()
    } else {
        object_paths(entries.drop_last()) + own_path(entries.last().0, entries.last().1)
            + path_values(entries.last().1)
    }
}

/// The paths in the values, in their order.
pub open spec fn array_paths(values: Seq<JsonView>) -> Seq<Seq<char>>
    decreases values,
{
    if values.len() == 0 {
        Seq::empty()
    } else {
        array_paths(values.drop_last()) + path_values(values.last())
    }
}

/// The texts as character sequences.
pub open spec fn texts(values: Seq<String>) -> Seq<Seq<char>> {
    values.map_values(|value: String| value@)
}

/// Adds all paths in the document to the candidates, in its order.
pub fn collect_path_values(value: &JsonValue, candidates: &mut Vec<String>)
    ensures
        texts(final(candidates)@) == texts(old(candidates)@) + path_values(value@),
    decreases *value, 1nat,
{
    match value {
        JsonValue::Object(entries) => collect_entry_paths(entries, candidates),
        JsonValue::Array(values) => collect_item_paths(values, candidates),
        _ => {
            assert(texts(candidates@) + Seq::<Seq<char>>::empty() =~= texts(candidates@));
        },
    }
}

fn collect_entry_paths(entries: &Vec<(String, JsonValue)>, candidates: &mut Vec<String>)
    ensures
        texts(final(candidates)@) == texts(old(candidates)@) + object_paths(
            json::object_view(entries@),
        ),
    decreases *entries, 0nat,
{
    let ghost start = texts(candidates@);
    let mut i: usize = 0;
    assert(entries@.take(0) =~= Seq::empty());
    assert(start + Seq::<Seq<char>>::empty() =~= start);
    while i < entries.len()
        invariant
            i <= entries.len(),
            texts(candidates@) == start + object_paths(json::object_view(entries@.take(i as int))),
        decreases entries.len() - i,
    {
        let ghost front = entries@.take(i as int);
        let ghost all = entries@.take(i + 1);
        proof {
            assert(all.drop_last() =~= front);
            assert(all.last() == entries@[i as int]);
            assert(json::object_view(all).drop_last() =~= json::object_view(front));
        }
        let ghost before = texts(candidates@);
        let child = &entries[i].1;
        if text::same_text(entries[i].0.as_str(), "Path") {
            if let JsonValue::Text(path) = child {
                if !text::is_blank(path.as_str()) {
                    let ghost earlier = candidates@;
                    candidates.push(path.clone());
                    assert(texts(candidates@) =~= texts(earlier).push(path@));
                }
            }
        }
        let ghost own = own_path(entries@[i as int].0@, child@);
        assert(texts(candidates@) =~= before + own);
        collect_path_values(child, candidates);
        assert(texts(candidates@) =~= start + object_paths(json::object_view(all)));
        i = i + 1;
    }
    assert(entries@.take(entries@.len() as int) =~= entries@);
}

fn collect_item_paths(values: &Vec<JsonValue>, candidates: &mut Vec<String>)
    ensures
        texts(final(candidates)@) == texts(old(candidates)@) + array_paths(
            json::array_view(values@),
        ),
    decreases *values, 0nat,
{
    let ghost start = texts(candidates@);
    let mut i: usize = 0;
    assert(values@.take(0) =~= Seq::empty());
    assert(start + Seq::<Seq<char>>::empty() =~= start);
    while i < values.len()
        invariant
            i <= values.len(),
            texts(candidates@) == start + array_paths(json::array_view(values@.take(i as int))),
        decreases values.len() - i,
    {
        let ghost all = values@.take(i + 1);
        proof {
            assert(all.drop_last() =~= values@.take(i as int));
            assert(all.last() == values@[i as int]);
            assert(json::array_view(all).drop_last() =~= json::array_view(values@.take(i as int)));
        }
        collect_path_values(&values[i], candidates);
        assert(texts(candidates@) =~= start + array_paths(json::array_view(all)));
        i = i + 1;
    }
    assert(values@.take(values@.len() as int) =~= values@);
}

/// The paths that the client's configuration names: none where it cannot be
/// read.
pub open spec fn config_paths(config: Option<Vec<u8>>) -> Seq<Seq<char>> {
    match config {
        None => Seq::empty(),
        Some(bytes) => match json::json_document(bytes@) {
            Ok(document) => path_values(document),
            Err(_) => Seq::empty(),
        },
    }
}

/// Adds the paths that the client's configuration names to the candidates.
pub fn collect_config_candidates(config: &Option<Vec<u8>>, candidates: &mut Vec<String>)
    ensures
        texts(final(candidates)@) == texts(old(candidates)@) + config_paths(*config),
{
    let ghost before = texts(candidates@);
    assert(before + Seq::<Seq<char>>::empty() =~= before);
    match config {
        None => {},
        Some(bytes) => match json::parse_json(bytes) {
            Ok(document) => {
                collect_path_values(&document, candidates);
            },
            Err(_) => {},
        },
    }
}

/// The places below the directory of a program.
pub open spec fn program_place(root: Option<String>) -> Seq<Seq<char>> {
    match root {
        Some(root) => seq![adjoined(root@, "Battle.net"@)],
        None => Seq::empty(),
    }
}

/// All places where the client may be, in the order in which they are tried.
pub open spec fn client_places(
    config: Option<Vec<u8>>,
    program_files_x86: Option<String>,
    program_files: Option<String>,
) -> Seq<Seq<char>> {
    config_paths(config) + program_place(program_files_x86) + program_place(program_files)
        + seq!["C:\\Battle.net"@, "D:\\Battle.net"@]
}

/// All places where the client may be, in the order in which they are tried.
pub fn client_candidates(
    config: &Option<Vec<u8>>,
    program_files_x86: &Option<String>,
    program_files: &Option<String>,
) -> (candidates: Vec<String>)
    ensures
        texts(candidates@) == client_places(*config, *program_files_x86, *program_files),
{
    let mut candidates: Vec<String> = Vec::new();
    assert(texts(candidates@) =~= Seq::<Seq<char>>::empty());
    collect_config_candidates(config, &mut candidates);
    assert(texts(candidates@) =~= config_paths(*config));
    match program_files_x86 {
        Some(root) => {
            candidates.push(join(root.as_str(), "Battle.net"));
        },
        None => {},
    }
    assert(texts(candidates@) =~= config_paths(*config) + program_place(*program_files_x86));
    match program_files {
        Some(root) => {
            candidates.push(join(root.as_str(), "Battle.net"));
        },
        None => {},
    }
    assert(texts(candidates@) =~= config_paths(*config) + program_place(*program_files_x86)
        + program_place(*program_files));
    candidates.push("C:\\Battle.net".to_owned());
    candidates.push("D:\\Battle.net".to_owned());
    assert(texts(candidates@) =~= client_places(*config, *program_files_x86, *program_files));
    candidates
}

/// The file to be checked for a candidate: the candidate itself where it is a
/// file, else the client in it.
pub fn candidate_executable(candidate: &str, is_file: bool) -> (path: String)
    ensures
        path@ == (if is_file {
            candidate@
        } else {
            adjoined(candidate@, "Battle.net.exe"@)
        }),
{
    if is_file {
        candidate.to_owned()
    } else {
        join(candidate, "Battle.net.exe")
    }
}

/// Whether the file name is the one of the client that is launched.
pub fn is_client_executable_name(name: &str) -> (yes: bool)
    ensures
        yes == (text::lowered(name@) == text::lowered("Battle.net.exe"@)),
{
    text::same_ignoring_case(name, "Battle.net.exe")
}

/// What the file system says of an entry.
#[derive(Clone, Copy, Debug, PartialEq, Eq, Structural)]
pub struct FileFacts {
    pub is_file: bool,
    pub is_directory: bool,
    pub attributes: u32,
}

/// What was found of a file that may be the client.
#[derive(Debug)]
pub struct ExecutableFacts {
    pub metadata: Option<FileFacts>,
    pub name: Option<String>,
    /// Whether its version names the client.
    pub identity: bool,
    /// The attributes of the file and of each directory above it.
    pub components: Vec<Option<u32>>,
    /// The path with everything resolved.
    pub canonical: Option<String>,
}

/// Whether the file is a client: a plain file of the right name and version on a
/// path without redirections.
pub open spec fn is_client(facts: ExecutableFacts) -> bool {
    &&& facts.metadata is Some
    &&& facts.metadata->0.is_file
    &&& !redirects(facts.metadata->0.attributes)
    &&& facts.name is Some
    &&& text::lowered(facts.name->0@) == text::lowered("Battle.net.exe"@)
    &&& facts.identity
    &&& forall|i: int|
        0 <= i < facts.components.len() ==> (#[trigger] facts.components@[i]) is Some && !redirects(
            facts.components@[i]->0,
        )
    &&& facts.canonical is Some
}

/// The resolved path of the file, where it is a client.
pub fn validate_client_executable(facts: ExecutableFacts) -> (path: Result<String, AppError>)
    ensures
        path is Ok == is_client(facts),
        path is Ok ==> path->Ok_0 == facts.canonical->0,
        path is Err ==> path->Err_0@ == ErrorView::InvalidClientExecutable,
{
    match facts.metadata {
        None => {
            return Err(AppError::InvalidClientExecutable);
        },
        Some(metadata) => {
            if !metadata.is_file || is_reparse_point(metadata.attributes) {
                return Err(AppError::InvalidClientExecutable);
            }
        },
    }
    match &facts.name {
        None => {
            return Err(AppError::InvalidClientExecutable);
        },
        Some(name) => {
            if !is_client_executable_name(name.as_str()) {
                return Err(AppError::InvalidClientExecutable);
            }
        },
    }
    if !facts.identity {
        return Err(AppError::InvalidClientExecutable);
    }
    let mut i: usize = 0;
    while i < facts.components.len()
        invariant
            i <= facts.components.len(),
            forall|j: int|
                0 <= j < i ==> (#[trigger] facts.components@[j]) is Some && !redirects(
                    facts.components@[j]->0,
                ),
        decreases facts.components.len() - i,
    {
        match facts.components[i] {
            None => {
                return Err(AppError::InvalidClientExecutable);
            },
            Some(attributes) => {
                if is_reparse_point(attributes) {
                    return Err(AppError::InvalidClientExecutable);
                }
            },
        }
        i = i + 1;
    }
    match facts.canonical {
        Some(path) => Ok(path),
        None => Err(AppError::InvalidClientExecutable),
    }
}

/// What a file's version says in one language: the units of the company's and
/// the product's name, each with the closing zero.
#[derive(Debug)]
pub struct VersionNames {
    pub company: Option<Vec<u16>>,
    pub product: Option<Vec<u16>>,
}

/// The first of the candidates that is valid.
pub open spec fn first_valid(validated: Seq<Result<String, AppError>>) -> Option<String>
    decreases validated.len(),
{
    if validated.len() == 0 {
        None
    } else {
        match validated[0] {
            Ok(path) => Some(path),
            Err(_) => first_valid(validated.drop_first()),
        }
    }
}

impl BattleNetPaths {
    /// The client's executable: the first of the candidates that is valid.
    pub fn detect_client_executable(validated: &Vec<Result<String, AppError>>) -> (path: Option<
        String,
    >)
        ensures
            path == first_valid(validated@),
    {
        let mut i: usize = 0;
        assert(validated@.skip(0) =~= validated@);
        while i < validated.len()
            invariant
                i <= validated.len(),
                first_valid(validated@) == first_valid(validated@.skip(i as int)),
            decreases validated.len() - i,
        {
            assert(validated@.skip(i as int).drop_first() =~= validated@.skip(i + 1));
            match &validated[i] {
                Ok(path) => {
                    return Some(path.clone());
                },
                Err(_) => {},
            }
            i = i + 1;
        }
        None
    }
}

/// What was read of a file's version.
#[derive(Debug)]
pub struct VersionFacts {
    /// The size of the list of languages, in bytes.
    pub translation_bytes: u32,
    pub names: Vec<VersionNames>,
}

/// The name under which a version keeps a text in a language and a code page.
pub fn version_key(language: u16, code_page: u16, field: &str) -> (key: String)
    ensures
        key@ == "\\StringFileInfo\\"@ + text::hex4(language) + text::hex4(code_page) + "\\"@ + field@,
{
    text::joined5(
        "\\StringFileInfo\\",
        text::hex4_text(language).as_str(),
        text::hex4_text(code_page).as_str(),
        "\\",
        field,
    )
}

/// A text of the version, trimmed, without its closing zero.
pub open spec fn version_text(value: Option<Vec<u16>>) -> Option<Seq<char>> {
    match value {
        None => None,
        Some(units) => if units.len() == 0 {
            None
        } else {
            Some(
                text::trimmed(
                    text::utf16_text(units@.drop_last(), Some('\u{fffd}'))->0,
                ),
            )
        },
    }
}

/// A text of the version, trimmed, without its closing zero.
pub fn version_string(value: &Option<Vec<u16>>) -> (name: Option<String>)
    ensures
        name is Some == version_text(*value) is Some,
        name is Some ==> name->0@ == version_text(*value)->0,
{
    match value {
        None => None,
        Some(units) => {
            if units.len() == 0 {
                return None;
            }
            let mut front: Vec<u16> = Vec::new();
            let mut i: usize = 0;
            while i < units.len() - 1
                invariant
                    0 < units.len(),
                    i <= units.len() - 1,
                    front@ == units@.take(i as int),
                decreases units.len() - i,
            {
                front.push(units[i]);
                assert(units@.take(i + 1) =~= units@.take(i as int).push(units@[i as int]));
                i = i + 1;
            }
            assert(front@ =~= units@.drop_last());
            proof {
                crate::platform::windows::process::lemma_replaced_text(front@, '\u{fffd}');
            }
            match text::decode_utf16(&front, Some('\u{fffd}')) {
                Some(name) => Some(text::trim(name.as_str())),
                None => None,
            }
        },
    }
}

/// A text of the version in small letters, empty where there is none.
pub open spec fn lowered_version_text(value: Option<Vec<u16>>) -> Seq<char> {
    match version_text(value) {
        Some(name) => text::lowered(name),
        None => Seq::empty(),
    }
}

/// Whether the version names the client in this language.
pub open spec fn names_battle_net(names: VersionNames) -> bool {
    text::holds_text(lowered_version_text(names.company), "blizzard"@) && text::holds_text(
        lowered_version_text(names.product),
        "battle.net"@,
    )
}

/// Whether the version names the client in any language.
pub open spec fn any_names_battle_net(names: Seq<VersionNames>) -> bool {
    exists|i: int| 0 <= i < names.len() && names_battle_net(#[trigger] names[i])
}

fn lowered_version(value: &Option<Vec<u16>>) -> (name: String)
    ensures
        name@ == lowered_version_text(*value),
{
    match version_string(value) {
        Some(name) => text::to_ascii_lowercase(name.as_str()),
        None => {
            let empty = String::new();
            assert(empty@ =~= Seq::<char>::empty());
            empty
        },
    }
}

/// Whether the version of a file names the client, in any of its languages.
pub fn has_battle_net_version_identity(version: &Option<VersionFacts>) -> (identity: bool)
    ensures
        identity == (match *version {
            None => false,
            Some(facts) => facts.translation_bytes >= 4 && any_names_battle_net(facts.names@),
        }),
{
    let facts = match version {
        Some(facts) => facts,
        None => {
            return false;
        },
    };
    if facts.translation_bytes < 4 {
        return false;
    }
    let mut i: usize = 0;
    while i < facts.names.len()
        invariant
            i <= facts.names.len(),
            *version == Some(*facts),
            facts.translation_bytes >= 4,
            forall|j: int| 0 <= j < i ==> !names_battle_net(#[trigger] facts.names@[j]),
        decreases facts.names.len() - i,
    {
        let company = lowered_version(&facts.names[i].company);
        let product = lowered_version(&facts.names[i].product);
        if text::contains(company.as_str(), "blizzard") && text::contains(
            product.as_str(),
            "battle.net",
        ) {
            assert(names_battle_net(facts.names@[i as int]));
            return true;
        }
        i = i + 1;
    }
    false
}

/// The number of languages in a list of the given size: two units each.
pub fn translation_count(translation_bytes: u32) -> (count: u32)
    ensures
        count == translation_bytes / 4,
{
    translation_bytes / 2 / 2
}

/// The client that is detected is the first candidate that is valid, and none is detected
/// exactly where no candidate is.
pub proof fn law_first_valid_candidate_is_taken(validated: Seq<Result<String, AppError>>)
    ensures
        first_valid(validated) is None <==> forall|i: int|
            0 <= i < validated.len() ==> (#[trigger] validated[i]) is Err,
        first_valid(validated) matches Some(path) ==> exists|i: int|
            0 <= i < validated.len() && #[trigger] validated[i] == Ok::<String, AppError>(path)
                && forall|j: int| 0 <= j < i ==> (#[trigger] validated[j]) is Err,
    decreases validated.len(),
{
    if validated.len() > 0 && validated[0] is Err {
        let rest = validated.drop_first();
        law_first_valid_candidate_is_taken(rest);
        if first_valid(rest) is None {
            assert forall|i: int| 0 <= i < validated.len() implies (#[trigger] validated[i])
                is Err by {
                if i > 0 {
                    assert(rest[i - 1] is Err);
                }
            }
        } else {
            let path = first_valid(rest)->0;
            let i = choose|i: int|
                0 <= i < rest.len() && #[trigger] rest[i] == Ok::<String, AppError>(path)
                    && forall|j: int| 0 <= j < i ==> (#[trigger] rest[j]) is Err;
            assert(validated[i + 1] == Ok::<String, AppError>(path));
            assert forall|j: int| 0 <= j < i + 1 implies (#[trigger] validated[j]) is Err by {
                if j > 0 {
                    assert(rest[j - 1] is Err);
                }
            }
        }
    } else if validated.len() > 0 {
        assert(validated[0] == Ok::<String, AppError>(first_valid(validated)->0));
    }
}

proof fn lemma_in_either(a: Seq<Seq<char>>, b: Seq<Seq<char>>, path: Seq<char>)
    ensures
        (a + b).contains(path) <==> a.contains(path) || b.contains(path),
{
    if a.contains(path) {
        let i = choose|i: int| 0 <= i < a.len() && a[i] == path;
        assert((a + b)[i] == path);
    }
    if b.contains(path) {
        let i = choose|i: int| 0 <= i < b.len() && b[i] == path;
        assert((a + b)[a.len() + i] == path);
    }
    if (a + b).contains(path) {
        let i = choose|i: int| 0 <= i < (a + b).len() && (a + b)[i] == path;
        if i < a.len() {
            assert(a[i] == path);
        } else {
            assert(b[i - a.len()] == path);
        }
    }
}

/// Whether the entry gives the path: it is the text itself, not blank and under the name
/// `Path`, or it is inside the entry's value.
pub open spec fn gives_path(entry: (Seq<char>, JsonView), path: Seq<char>) -> bool {
    ||| entry.0 == "Path"@ && entry.1 == JsonView::Text(path) && text::trimmed(path).len() > 0
    ||| path_values(entry.1).contains(path)
}

/// A path is found in an object exactly where one of its entries gives it.
pub proof fn law_paths_of_an_object_are_those_of_its_entries(
    entries: Seq<(Seq<char>, JsonView)>,
    path: Seq<char>,
)
    ensures
        path_values(JsonView::Object(entries)).contains(path) <==> exists|i: int|
            0 <= i < entries.len() && gives_path(#[trigger] entries[i], path),
    decreases entries.len(),
{
    if entries.len() > 0 {
        let front = entries.drop_last();
        let last = entries.last();
        law_paths_of_an_object_are_those_of_its_entries(front, path);
        let before = object_paths(front);
        let own = own_path(last.0, last.1);
        let inside = path_values(last.1);
        lemma_in_either(before + own, inside, path);
        lemma_in_either(before, own, path);
        assert(path_values(JsonView::Object(front)) == before);
        assert(own.contains(path) <==> last.0 == "Path"@ && last.1 == JsonView::Text(path)
            && text::trimmed(path).len() > 0) by {
            if own.len() > 0 {
                assert(own[0] == last.1->Text_0);
            }
        }
        if before.contains(path) {
            let i = choose|i: int| 0 <= i < front.len() && gives_path(#[trigger] front[i], path);
            assert(gives_path(entries[i], path));
        }
        if own.contains(path) || inside.contains(path) {
            assert(gives_path(entries[entries.len() - 1], path));
        }
        if exists|i: int| 0 <= i < entries.len() && gives_path(#[trigger] entries[i], path) {
            let i = choose|i: int|
                0 <= i < entries.len() && gives_path(#[trigger] entries[i], path);
            if i < front.len() {
                assert(gives_path(front[i], path));
            }
        }
    }
}

/// A path is found in an array exactly where it is found in one of its values; texts and
/// other plain values give none.
pub proof fn law_paths_of_an_array_are_those_of_its_values(values: Seq<JsonView>, path: Seq<char>)
    ensures
        path_values(JsonView::Array(values)).contains(path) <==> exists|i: int|
            0 <= i < values.len() && path_values(#[trigger] values[i]).contains(path),
        forall|value: JsonView|
            !(value is Object) && !(value is Array) ==> (#[trigger] path_values(value)).len() == 0,
    decreases values.len(),
{
    if values.len() > 0 {
        let front = values.drop_last();
        law_paths_of_an_array_are_those_of_its_values(front, path);
        let before = array_paths(front);
        let inside = path_values(values.last());
        lemma_in_either(before, inside, path);
        assert(path_values(JsonView::Array(front)) == before);
        if before.contains(path) {
            let i = choose|i: int|
                0 <= i < front.len() && path_values(#[trigger] front[i]).contains(path);
            assert(path_values(values[i]).contains(path));
        }
        if inside.contains(path) {
            assert(path_values(values[values.len() - 1]).contains(path));
        }
        if exists|i: int| 0 <= i < values.len() && path_values(#[trigger] values[i]).contains(path) {
            let i = choose|i: int|
                0 <= i < values.len() && path_values(#[trigger] values[i]).contains(path);
            if i < front.len() {
                assert(path_values(front[i]).contains(path));
            }
        }
    }
}

} // verus!
