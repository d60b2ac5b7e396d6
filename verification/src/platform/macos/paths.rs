//! Where the client is found on macOS, and when a bundle counts as the client.

use vstd::prelude::*;

use crate::error::AppError;
use crate::error::ErrorView;
use crate::platform::macos::unix_path;
use crate::property_list;
use crate::text;

verus! {

/// Where the client keeps its data.
#[derive(Debug)]
pub struct BattleNetPaths {
    pub cached_data_db: String,
    pub config: String,
}

impl BattleNetPaths {
    /// The client's data in the first of the user's `Application Support` directories.
    pub fn discover(application_support: Option<String>) -> (paths: Result<
        BattleNetPaths,
        AppError,
    >)
        ensures
            match application_support {
                Some(directory) if unix_path::absolute(directory@) => {
                    &&& paths is Ok
                    &&& paths->Ok_0.cached_data_db@ == unix_path::adjoined(
                        unix_path::adjoined(directory@, "Battle.net"@),
                        "CachedData.db"@,
                    )
                    &&& paths->Ok_0.config@ == unix_path::adjoined(
                        unix_path::adjoined(directory@, "Battle.net"@),
                        "Battle.net.config"@,
                    )
                },
                _ => paths is Err && paths->Err_0@ == ErrorView::Message(
                    "无法确定当前用户的 Application Support 目录"@,
                ),
            },
    {
        match application_support {
            Some(directory) => {
                if unix_path::is_absolute(directory.as_str()) {
                    let support = unix_path::join(directory.as_str(), "Battle.net");
                    return Ok(
                        BattleNetPaths {
                            cached_data_db: unix_path::join(support.as_str(), "CachedData.db"),
                            config: unix_path::join(support.as_str(), "Battle.net.config"),
                        },
                    );
                }
            },
            None => {},
        }
        Err(AppError::Message("无法确定当前用户的 Application Support 目录".to_owned()))
    }

    /// The bundle to be tried: the one that the system knows for the client, where it
    /// exists, else the one in the usual place, where that exists.
    pub fn detect_client_bundle(registered: Option<(String, bool)>, default_exists: bool) -> (bundle:
        Option<String>)
        ensures
            match registered {
                Some((path, true)) => bundle == Some(path),
                _ => match bundle {
                    Some(path) => default_exists && path@ == "/Applications/Battle.net.app"@,
                    None => !default_exists,
                },
            },
    {
        match registered {
            Some((path, exists)) => {
                if exists {
                    return Some(path);
                }
            },
            None => {},
        }
        if default_exists {
            Some("/Applications/Battle.net.app".to_owned())
        } else {
            None
        }
    }
}

/// What was found of the parts of a path.
#[derive(Debug)]
pub struct ComponentFacts {
    /// The path as it was given.
    pub path: String,
    /// Whether the current directory, under which a relative path lies, is known.
    pub directory_known: bool,
    /// Of each part of the path from the root on, whether it is a link; none where it
    /// could not be looked at.
    pub links: Vec<Option<bool>>,
}

/// Whether none of the parts is a way upwards.
pub open spec fn goes_down(parts: Seq<Seq<char>>) -> bool {
    forall|i: int| 0 <= i < parts.len() ==> #[trigger] parts[i] != ".."@
}

/// Whether the path leads through no link and no way upwards.
pub open spec fn is_direct(facts: ComponentFacts) -> bool {
    &&& goes_down(unix_path::parts(facts.path@))
    &&& unix_path::absolute(facts.path@) || facts.directory_known
    &&& forall|i: int| 0 <= i < facts.links.len() ==> #[trigger] facts.links@[i] == Some(false)
}

/// Checks that the path leads through no link and no way upwards.
pub fn reject_symlink_components(facts: &ComponentFacts) -> (result: Result<(), AppError>)
    ensures
        result is Ok == is_direct(*facts),
        result is Err ==> result->Err_0@ == ErrorView::InvalidClientExecutable,
{
    let parts = unix_path::parts_of(facts.path.as_str());
    let ghost named = unix_path::texts(parts@);
    let mut i: usize = 0;
    while i < parts.len()
        invariant
            i <= parts.len(),
            named == unix_path::texts(parts@),
            named == unix_path::parts(facts.path@),
            forall|j: int| 0 <= j < i ==> #[trigger] named[j] != ".."@,
        decreases parts.len() - i,
    {
        assert(named[i as int] == parts@[i as int]@);
        if text::same_text(parts[i].as_str(), "..") {
            return Err(AppError::InvalidClientExecutable);
        }
        i = i + 1;
    }
    if !unix_path::is_absolute(facts.path.as_str()) && !facts.directory_known {
        return Err(AppError::InvalidClientExecutable);
    }
    let mut i: usize = 0;
    while i < facts.links.len()
        invariant
            i <= facts.links.len(),
            forall|j: int| 0 <= j < i ==> #[trigger] facts.links@[j] == Some(false),
        decreases facts.links.len() - i,
    {
        match facts.links[i] {
            Some(false) => {},
            _ => {
                return Err(AppError::InvalidClientExecutable);
            },
        }
        i = i + 1;
    }
    Ok(())
}

/// What was found of a bundle.
#[derive(Debug)]
pub struct BundleFacts {
    pub components: ComponentFacts,
    /// Whether it is a directory, where it could be looked at; a link is none.
    pub is_directory: Option<bool>,
    /// The bundle's path without links.
    pub canonical: Option<String>,
    /// The contents of the bundle's `Info.plist`.
    pub info: Option<Vec<u8>>,
    /// Whether the bundle's executable is a file.
    pub executable_is_file: bool,
    /// What came of checking the bundle's signature.
    pub signature: Result<(), AppError>,
}

/// The text under `key` in the bundle's `Info.plist`.
pub open spec fn info_text(info: Option<Vec<u8>>, key: Seq<char>) -> Option<Seq<char>> {
    match info {
        Some(bytes) => property_list::text_held(bytes@, key),
        None => None,
    }
}

/// The text under `key` in the bundle's `Info.plist`.
pub fn info_value(info: &Option<Vec<u8>>, key: &str) -> (value: Option<String>)
    ensures
        property_list::text_view(value) == info_text(*info, key@),
{
    match info {
        Some(bytes) => property_list::text_in(bytes, key),
        None => None,
    }
}

/// The bundle's identifier, where it has one.
pub open spec fn identifier_of(info: Option<Vec<u8>>) -> Option<Seq<char>> {
    match info_text(info, "CFBundleIdentifier"@) {
        Some(identifier) => if identifier.len() > 0 {
            Some(identifier)
        } else {
            None
        },
        None => None,
    }
}

/// The text, where it is not empty.
fn not_empty(value: Option<String>) -> (result: Option<String>)
    ensures
        property_list::text_view(result) == (match value {
            Some(string) => if string@.len() > 0 {
                Some(string@)
            } else {
                None
            },
            None => None,
        }),
{
    match value {
        Some(string) => {
            if text::chars_of(string.as_str()).len() > 0 {
                Some(string)
            } else {
                None
            }
        },
        None => None,
    }
}

/// The bundle's identifier, where it has one.
pub fn bundle_identifier(info: &Option<Vec<u8>>) -> (identifier: Option<String>)
    ensures
        property_list::text_view(identifier) == identifier_of(*info),
{
    not_empty(info_value(info, "CFBundleIdentifier"))
}

/// The name of the bundle's executable, where it has one.
pub open spec fn executable_of(info: Option<Vec<u8>>) -> Option<Seq<char>> {
    match info_text(info, "CFBundleExecutable"@) {
        Some(name) => if name.len() > 0 {
            Some(name)
        } else {
            None
        },
        None => None,
    }
}

/// The name of the bundle's executable, where it has one.
pub fn bundle_executable(info: &Option<Vec<u8>>) -> (name: Option<String>)
    ensures
        property_list::text_view(name) == executable_of(*info),
{
    not_empty(info_value(info, "CFBundleExecutable"))
}

/// Whether the path is that of a bundle: a directory that no link leads to and whose
/// name ends in `.app`.
pub open spec fn is_bundle(facts: BundleFacts) -> bool {
    &&& is_direct(facts.components)
    &&& facts.is_directory == Some(true)
    &&& unix_path::name_of(unix_path::parts(facts.components.path@)) is Some
    &&& unix_path::extension(unix_path::name_of(unix_path::parts(facts.components.path@))->0)
        == Some("app"@)
    &&& facts.canonical is Some
}

fn check_bundle(facts: &BundleFacts) -> (yes: bool)
    ensures
        yes == is_bundle(*facts),
{
    if reject_symlink_components(&facts.components).is_err() {
        return false;
    }
    match facts.is_directory {
        Some(true) => {},
        _ => {
            return false;
        },
    }
    let parts = unix_path::parts_of(facts.components.path.as_str());
    match unix_path::file_name(&parts) {
        Some(name) => unix_path::has_extension(name.as_str(), "app") && facts.canonical.is_some(),
        None => false,
    }
}

/// Whether the bundle says that it is the client.
pub open spec fn says_client(facts: BundleFacts) -> bool {
    &&& info_text(facts.info, "CFBundleIdentifier"@) == Some("net.battle.app"@)
    &&& info_text(facts.info, "CFBundleExecutable"@) == Some("Battle.net"@)
}

fn has_text(value: &Option<String>, expected: &str) -> (yes: bool)
    ensures
        yes == (property_list::text_view(*value) == Some(expected@)),
{
    match value {
        Some(string) => text::same_text(string.as_str(), expected),
        None => false,
    }
}

/// The path of the client's bundle without links, where it is the client.
pub fn validate_client_bundle(facts: BundleFacts) -> (bundle: Result<String, AppError>)
    ensures
        is_bundle(facts) && says_client(facts) && facts.executable_is_file ==> bundle == (
        match facts.signature {
            Ok(_) => Ok::<String, AppError>(facts.canonical->0),
            Err(error) => Err::<String, AppError>(error),
        }),
        !(is_bundle(facts) && says_client(facts) && facts.executable_is_file) ==> bundle is Err
            && bundle->Err_0@ == ErrorView::InvalidClientExecutable,
{
    if !check_bundle(&facts) || !has_text(
        &info_value(&facts.info, "CFBundleIdentifier"),
        "net.battle.app",
    ) || !has_text(&info_value(&facts.info, "CFBundleExecutable"), "Battle.net")
        || !facts.executable_is_file {
        return Err(AppError::InvalidClientExecutable);
    }
    match facts.signature {
        Err(error) => Err(error),
        Ok(_) => match facts.canonical {
            Some(canonical) => Ok(canonical),
            None => Err(AppError::InvalidClientExecutable),
        },
    }
}

/// The path without links of a bundle of the client's maker.
pub fn validate_blizzard_bundle(facts: BundleFacts) -> (bundle: Result<String, AppError>)
    ensures
        is_bundle(facts) && executable_of(facts.info) is Some && facts.executable_is_file
            ==> bundle == (match facts.signature {
            Ok(_) => Ok::<String, AppError>(facts.canonical->0),
            Err(error) => Err::<String, AppError>(error),
        }),
        !(is_bundle(facts) && executable_of(facts.info) is Some && facts.executable_is_file)
            ==> bundle is Err && bundle->Err_0@ == ErrorView::InvalidClientExecutable,
{
    if !check_bundle(&facts) || bundle_executable(&facts.info).is_none()
        || !facts.executable_is_file {
        return Err(AppError::InvalidClientExecutable);
    }
    match facts.signature {
        Err(error) => Err(error),
        Ok(_) => match facts.canonical {
            Some(canonical) => Ok(canonical),
            None => Err(AppError::InvalidClientExecutable),
        },
    }
}

/// Whether the character is a letter or a digit of ASCII.
pub open spec fn alphanumeric(c: char) -> bool {
    ('0' <= c && c <= '9') || ('a' <= c && c <= 'z') || ('A' <= c && c <= 'Z')
}

/// Whether the text is the identifier of a team of developers.
pub open spec fn names_team(value: Seq<char>) -> bool {
    value.len() == 10 && forall|i: int| 0 <= i < value.len() ==> alphanumeric(#[trigger] value[i])
}

/// Whether the text is the identifier of a team of developers.
pub fn is_team_id(value: &str) -> (yes: bool)
    ensures
        yes == names_team(value@),
{
    let chars = text::chars_of(value);
    if chars.len() != 10 {
        return false;
    }
    let mut i: usize = 0;
    while i < chars.len()
        invariant
            chars@ == value@,
            i <= chars.len(),
            forall|j: int| 0 <= j < i ==> alphanumeric(#[trigger] value@[j]),
        decreases chars.len() - i,
    {
        let c = chars[i];
        if !(('0' <= c && c <= '9') || ('a' <= c && c <= 'z') || ('A' <= c && c <= 'Z')) {
            assert(!alphanumeric(value@[i as int]));
            return false;
        }
        i = i + 1;
    }
    true
}

/// What a signature has to meet: it is the team's, and that of the bundle with the
/// identifier, where one is given.
pub fn signature_requirement(team_id: Option<&str>, identifier: Option<&str>) -> (requirement:
    Result<String, AppError>)
    ensures
        match team_id {
            Some(team) if names_team(team@) => requirement is Ok && requirement->Ok_0@ == (
            match identifier {
                Some(identifier) => "anchor apple generic and identifier \""@ + identifier@
                    + "\" and certificate leaf[subject.OU] = \""@ + team@ + "\""@,
                None => "anchor apple generic and certificate leaf[subject.OU] = \""@ + team@
                    + "\""@,
            }),
            _ => requirement is Err && requirement->Err_0@ == ErrorView::ClientLaunch(
                "未配置 Blizzard Team ID；请在构建时设置 BNETSWITCHLITE_BLIZZARD_TEAM_ID=<codesign -dvvv 输出的 TeamIdentifier> 后重新构建"@,
            ),
        },
{
    match team_id {
        Some(team) => {
            if is_team_id(team) {
                return Ok(
                    match identifier {
                        Some(identifier) => text::joined5(
                            "anchor apple generic and identifier \"",
                            identifier,
                            "\" and certificate leaf[subject.OU] = \"",
                            team,
                            "\"",
                        ),
                        None => text::joined3(
                            "anchor apple generic and certificate leaf[subject.OU] = \"",
                            team,
                            "\"",
                        ),
                    },
                );
            }
        },
        None => {},
    }
    Err(
        AppError::ClientLaunch(
            "未配置 Blizzard Team ID；请在构建时设置 BNETSWITCHLITE_BLIZZARD_TEAM_ID=<codesign -dvvv 输出的 TeamIdentifier> 后重新构建".to_owned(),
        ),
    )
}

/// What came of checking a signature: it has to be checked against a requirement, and
/// it has to meet that.
pub fn validate_signature(requirement: Result<(), AppError>, met: bool) -> (result: Result<
    (),
    AppError,
>)
    ensures
        match requirement {
            Err(error) => result == Err::<(), AppError>(error),
            Ok(_) => if met {
                result is Ok
            } else {
                result is Err && result->Err_0@ == ErrorView::InvalidClientExecutable
            },
        },
{
    match requirement {
        Err(error) => Err(error),
        Ok(_) => if met {
            Ok(())
        } else {
            Err(AppError::InvalidClientExecutable)
        },
    }
}

} // verus!
