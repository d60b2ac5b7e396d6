//! The client's processes on macOS: which of the running processes belong to it, and
//! when it counts as stopped or started.

use vstd::prelude::*;

use crate::error::AppError;
use crate::error::ErrorView;
use crate::platform::macos::paths;
use crate::platform::macos::unix_path;
use crate::property_list;
use crate::text;

verus! {

/// The empty samples in a row after which the client counts as stopped.
pub const REQUIRED_EMPTY_SAMPLES: u8 = 2;

/// By how many processes the list may grow while it is read.
pub const PID_BUFFER_HEADROOM: usize = 256;

/// How often it is tried to read the list of processes.
pub const MAX_PID_ENUMERATION_ATTEMPTS: u8 = 4;

/// A process of the client, with its path without links.
#[derive(Debug)]
pub struct RelatedProcess {
    pub pid: i32,
    pub path: String,
}

/// A [`RelatedProcess`] with its path as a character sequence.
pub struct RelatedProcessView {
    pub pid: i32,
    pub path: Seq<char>,
}

impl View for RelatedProcess {
    type V = RelatedProcessView;

    open spec fn view(&self) -> RelatedProcessView {
        RelatedProcessView { pid: self.pid, path: self.path@ }
    }
}

/// The processes with their paths as character sequences.
pub open spec fn process_views(processes: Seq<RelatedProcess>) -> Seq<RelatedProcessView> {
    processes.map_values(|process: RelatedProcess| process@)
}

/// A client that was checked.
#[derive(Debug)]
pub struct ValidatedClient {
    pub bundle: String,
    pub main_executable: String,
    pub agent_root: String,
    pub agent_bundles: Vec<String>,
}

/// An entry of the directory of the client's agents.
#[derive(Debug)]
pub struct AgentEntry {
    /// Whether it is a directory, where it could be looked at; a link is none.
    pub is_directory: Result<bool, String>,
    /// What came of checking the agent in it, where it has one.
    pub agent: Option<Result<String, AppError>>,
}

/// What was found in the directory of the client's agents.
#[derive(Debug)]
pub enum AgentListing {
    /// There is no such directory.
    Missing,
    /// It cannot be listed.
    Unreadable(String),
    /// Its entries; the last is why there are no more of them, where that is an error.
    Entries(Vec<Result<AgentEntry, String>>),
}

/// The agents among the entries that are what they claim to be, or why they could not
/// be found out.
pub open spec fn agents_among(entries: Seq<Result<AgentEntry, String>>) -> Result<
    Seq<Seq<char>>,
    ErrorView,
>
    decreases entries.len(),
{
    if entries.len() == 0 {
        Ok(Seq::empty())
    } else {
        match agents_among(entries.drop_last()) {
            Err(error) => Err(error),
            Ok(agents) => match entries.last() {
                Err(error) => Err(
                    ErrorView::Message("无法读取 Battle.net Agent 目录项："@ + error@),
                ),
                Ok(entry) => match entry.is_directory {
                    Err(error) => Err(
                        ErrorView::Message("无法读取 Battle.net Agent 目录项属性："@ + error@),
                    ),
                    Ok(is_directory) => match entry.agent {
                        Some(Ok(bundle)) if is_directory => Ok(agents.push(bundle@)),
                        _ => Ok(agents),
                    },
                },
            },
        }
    }
}

/// The agents in the directory that are what they claim to be.
pub open spec fn valid_agents(listing: AgentListing) -> Result<Seq<Seq<char>>, ErrorView> {
    match listing {
        AgentListing::Missing => Ok(Seq::empty()),
        AgentListing::Unreadable(error) => Err(
            ErrorView::Message("无法读取 Battle.net Agent 目录："@ + error@),
        ),
        AgentListing::Entries(entries) => agents_among(entries@),
    }
}

/// The agents in the directory that are what they claim to be; others are passed over.
pub fn validate_agent_bundles(listing: AgentListing) -> (agents: Result<Vec<String>, AppError>)
    ensures
        match (agents, valid_agents(listing)) {
            (Ok(agents), Ok(expected)) => unix_path::texts(agents@) == expected,
            (Err(error), Err(expected)) => error@ == expected,
            _ => false,
        },
{
    let entries = match listing {
        AgentListing::Missing => {
            let none: Vec<String> = Vec::new();
            assert(unix_path::texts(none@) =~= Seq::<Seq<char>>::empty());
            return Ok(none);
        },
        AgentListing::Unreadable(error) => {
            return Err(
                AppError::Message(
                    text::joined2("无法读取 Battle.net Agent 目录：", error.as_str()),
                ),
            );
        },
        AgentListing::Entries(entries) => entries,
    };
    let mut agents: Vec<String> = Vec::new();
    let mut failure: Option<AppError> = None;
    let mut i: usize = 0;
    assert(unix_path::texts(agents@) =~= Seq::<Seq<char>>::empty());
    while i < entries.len()
        invariant
            i <= entries.len(),
            match (failure, agents_among(entries@.take(i as int))) {
                (None, Ok(expected)) => unix_path::texts(agents@) == expected,
                (Some(error), Err(expected)) => error@ == expected,
                _ => false,
            },
        decreases entries.len() - i,
    {
        assert(entries@.take(i + 1).drop_last() =~= entries@.take(i as int));
        if failure.is_none() {
            match &entries[i] {
                Err(error) => {
                    failure = Some(
                        AppError::Message(
                            text::joined2("无法读取 Battle.net Agent 目录项：", error.as_str()),
                        ),
                    );
                },
                Ok(entry) => match &entry.is_directory {
                    Err(error) => {
                        failure = Some(
                            AppError::Message(
                                text::joined2(
                                    "无法读取 Battle.net Agent 目录项属性：",
                                    error.as_str(),
                                ),
                            ),
                        );
                    },
                    Ok(is_directory) => {
                        if *is_directory {
                            match &entry.agent {
                                Some(Ok(bundle)) => {
                                    let ghost before = unix_path::texts(agents@);
                                    agents.push(bundle.clone());
                                    assert(unix_path::texts(agents@) =~= before.push(bundle@));
                                },
                                _ => {},
                            }
                        }
                    },
                },
            }
        }
        i = i + 1;
    }
    assert(entries@.take(i as int) =~= entries@);
    match failure {
        Some(error) => Err(error),
        None => Ok(agents),
    }
}

/// What was found of a client.
#[derive(Debug)]
pub struct ClientFacts {
    /// What came of checking the bundle.
    pub bundle: Result<String, AppError>,
    /// The path without links of the executable in the bundle.
    pub main_executable: Option<String>,
    /// The directory of the client's agents: whether it exists, and its path without
    /// links.
    pub agent_root_exists: bool,
    pub agent_root: Option<String>,
    pub agents: AgentListing,
}

/// The usual directory of the client's agents.
pub open spec fn agent_directory() -> Seq<char> {
    "/Users/Shared/Battle.net/Agent"@
}

/// Why the client cannot be used.
pub open spec fn client_error(facts: ClientFacts) -> Option<ErrorView> {
    match facts.bundle {
        Err(error) => Some(error@),
        Ok(bundle) => match facts.main_executable {
            None => Some(ErrorView::InvalidClientExecutable),
            Some(executable) => if !unix_path::under(executable@, bundle@) {
                Some(ErrorView::InvalidClientExecutable)
            } else if facts.agent_root_exists && facts.agent_root is None {
                Some(ErrorView::InvalidClientExecutable)
            } else {
                match valid_agents(facts.agents) {
                    Err(error) => Some(error),
                    Ok(_) => None,
                }
            },
        },
    }
}

impl ValidatedClient {
    /// The client, where it can be used.
    pub fn new(facts: ClientFacts) -> (client: Result<ValidatedClient, AppError>)
        ensures
            match client {
                Err(error) => client_error(facts) == Some(error@),
                Ok(client) => {
                    &&& client_error(facts) is None
                    &&& client.bundle == facts.bundle->Ok_0
                    &&& client.main_executable == facts.main_executable->0
                    &&& client.agent_root@ == (if facts.agent_root_exists {
                        facts.agent_root->0@
                    } else {
                        agent_directory()
                    })
                    &&& unix_path::texts(client.agent_bundles@) == valid_agents(facts.agents)->Ok_0
                },
            },
    {
        let bundle = match facts.bundle {
            Ok(bundle) => bundle,
            Err(error) => {
                return Err(error);
            },
        };
        let main_executable = match facts.main_executable {
            Some(executable) => executable,
            None => {
                return Err(AppError::InvalidClientExecutable);
            },
        };
        if !unix_path::starts_with(main_executable.as_str(), bundle.as_str()) {
            return Err(AppError::InvalidClientExecutable);
        }
        let agent_root = if facts.agent_root_exists {
            match facts.agent_root {
                Some(root) => root,
                None => {
                    return Err(AppError::InvalidClientExecutable);
                },
            }
        } else {
            "/Users/Shared/Battle.net/Agent".to_owned()
        };
        let agent_bundles = match validate_agent_bundles(facts.agents) {
            Ok(agents) => agents,
            Err(error) => {
                return Err(error);
            },
        };
        Ok(ValidatedClient { bundle, main_executable, agent_root, agent_bundles })
    }

    /// The client's bundle.
    pub fn bundle(&self) -> (bundle: &str)
        ensures
            bundle@ == self.bundle@,
    {
        self.bundle.as_str()
    }
}

/// Whether the name is that of a helper of the client.
pub open spec fn names_helper(name: Seq<u8>) -> bool {
    vstd::utf8::encode_utf8("Battle.net Helper"@).is_prefix_of(name)
}

/// Whether the name is one that the client's processes have.
pub open spec fn names_candidate(name: Seq<u8>) -> bool {
    ||| name == vstd::utf8::encode_utf8("Battle.net"@)
    ||| name == vstd::utf8::encode_utf8("Agent"@)
    ||| names_helper(name)
}

fn has_prefix(name: &[u8], prefix: &Vec<u8>) -> (yes: bool)
    ensures
        yes == prefix@.is_prefix_of(name@),
{
    if prefix.len() > name.len() {
        return false;
    }
    let mut i: usize = 0;
    while i < prefix.len()
        invariant
            i <= prefix.len() <= name.len(),
            forall|j: int| 0 <= j < i ==> prefix@[j] == name@[j],
        decreases prefix.len() - i,
    {
        if prefix[i] != name[i] {
            assert(prefix@[i as int] != name@[i as int]);
            return false;
        }
        i = i + 1;
    }
    assert(prefix@ =~= name@.subrange(0, prefix@.len() as int));
    true
}

/// Whether the name is that of a helper of the client.
pub fn is_helper_process_name(name: &[u8]) -> (yes: bool)
    ensures
        yes == names_helper(name@),
{
    has_prefix(name, &text::bytes_of("Battle.net Helper"))
}

fn is_name(name: &[u8], expected: &str) -> (yes: bool)
    ensures
        yes == (name@ == vstd::utf8::encode_utf8(expected@)),
{
    let bytes = text::bytes_of(expected);
    let yes = bytes.len() == name.len() && has_prefix(name, &bytes);
    proof {
        if yes {
            assert(name@ =~= bytes@);
        } else if name@ == bytes@ {
            assert(bytes@.is_prefix_of(name@));
        }
    }
    yes
}

/// Whether the name is one that the client's processes have.
pub fn is_candidate_process_name(name: &[u8]) -> (yes: bool)
    ensures
        yes == names_candidate(name@),
{
    is_name(name, "Battle.net") || is_name(name, "Agent") || is_helper_process_name(name)
}

/// What was found of a process that may be a helper.
#[derive(Debug)]
pub struct HelperFacts {
    /// The path of its executable without links.
    pub executable: Option<String>,
    /// The path without links of the directory of the client's versions.
    pub versions: Option<String>,
    /// The contents of the `Info.plist` of its bundle.
    pub info: Option<Vec<u8>>,
    /// What came of checking its bundle.
    pub bundle: Result<String, AppError>,
}

/// Whether the path of the executable is where the client keeps its helper:
/// `<versions>/Battle.net.<version>/battle.net-core.framework/Frameworks/`
/// `Battle.net Helper.app/<directory>/<directory>/Battle.net Helper`.
pub open spec fn is_helper_place(parts: Seq<Seq<char>>) -> bool {
    let n = parts.len() as int;
    &&& n >= 8
    &&& parts[n - 1] == "Battle.net Helper"@
    &&& parts[n - 4] == "Battle.net Helper.app"@
    &&& parts[n - 5] == "Frameworks"@
    &&& parts[n - 6] == "battle.net-core.framework"@
    &&& text::begins_with(parts[n - 7], "Battle.net."@)
    &&& parts[n - 8] == "Versions"@
}

/// Whether the executable lies in the place of the client's helper under `versions`.
pub open spec fn in_helper_place(executable: Seq<char>, versions: Seq<char>) -> bool {
    let parts = unix_path::parts(executable);
    &&& is_helper_place(parts)
    &&& unix_path::absolute(executable) == unix_path::absolute(versions)
    &&& unix_path::parts(versions).is_prefix_of(parts.take(parts.len() - 7))
}

/// Whether the process is a helper of the client.
pub open spec fn is_helper(facts: HelperFacts) -> bool {
    &&& facts.executable is Some
    &&& facts.versions is Some
    &&& in_helper_place(facts.executable->0@, facts.versions->0@)
    &&& paths::identifier_of(facts.info) == Some("net.battle.app.helper"@)
    &&& facts.bundle is Ok
}

/// The bundle of the process, where it is a helper of the client.
pub fn validated_helper_bundle(facts: &HelperFacts) -> (bundle: Option<String>)
    ensures
        bundle is Some == is_helper(*facts),
        bundle is Some ==> bundle->0 == facts.bundle->Ok_0,
{
    let executable = match &facts.executable {
        Some(executable) => executable,
        None => {
            return None;
        },
    };
    let versions = match &facts.versions {
        Some(versions) => versions,
        None => {
            return None;
        },
    };
    let parts = unix_path::parts_of(executable.as_str());
    let expected = unix_path::parts_of(versions.as_str());
    let ghost named = unix_path::parts(executable@);
    let n: usize = parts.len();
    if n < 8 {
        assert(unix_path::texts(parts@).len() == n);
        return None;
    }
    proof {
        assert forall|i: int| 0 <= i < n implies #[trigger] named[i] == parts@[i]@ by {
            assert(unix_path::texts(parts@)[i] == parts@[i]@);
        }
    }
    if !text::same_text(parts[n - 1].as_str(), "Battle.net Helper") || !text::same_text(
        parts[n - 4].as_str(),
        "Battle.net Helper.app",
    ) || !text::same_text(parts[n - 5].as_str(), "Frameworks") || !text::same_text(
        parts[n - 6].as_str(),
        "battle.net-core.framework",
    ) || !text::starts_with(parts[n - 7].as_str(), "Battle.net.") || !text::same_text(
        parts[n - 8].as_str(),
        "Versions",
    ) {
        assert(!is_helper_place(named));
        return None;
    }
    assert(is_helper_place(named));
    if unix_path::is_absolute(executable.as_str()) != unix_path::is_absolute(versions.as_str()) {
        return None;
    }
    let ghost wanted = unix_path::parts(versions@);
    let ghost place = named.take(n - 7);
    if expected.len() > n - 7 {
        assert(unix_path::texts(expected@).len() == expected.len());
        assert(!wanted.is_prefix_of(place));
        return None;
    }
    let mut i: usize = 0;
    while i < expected.len()
        invariant
            i <= expected.len() <= n - 7,
            n == parts.len(),
            n >= 8,
            named == unix_path::texts(parts@),
            named == unix_path::parts(executable@),
            facts.executable == Some(*executable),
            wanted == unix_path::texts(expected@),
            wanted == unix_path::parts(versions@),
            facts.versions == Some(*versions),
            place == named.take(n - 7),
            forall|j: int| 0 <= j < i ==> #[trigger] wanted[j] == place[j],
        decreases expected.len() - i,
    {
        assert(wanted[i as int] == expected@[i as int]@);
        assert(place[i as int] == parts@[i as int]@);
        if !text::same_text(expected[i].as_str(), parts[i].as_str()) {
            assert(!wanted.is_prefix_of(place));
            return None;
        }
        i = i + 1;
    }
    assert(wanted =~= place.subrange(0, wanted.len() as int));
    let identifier = paths::bundle_identifier(&facts.info);
    match identifier {
        Some(identifier) => {
            if !text::same_text(identifier.as_str(), "net.battle.app.helper") {
                return None;
            }
        },
        None => {
            return None;
        },
    }
    match &facts.bundle {
        Ok(bundle) => Some(bundle.clone()),
        Err(_) => None,
    }
}

/// What was found of a process.
#[derive(Debug)]
pub struct ProcessFacts {
    pub pid: i32,
    pub name: Option<Vec<u8>>,
    pub path: Option<String>,
    /// Whether neither its name nor its path could be found any more.
    pub gone: bool,
    /// Its path without links.
    pub canonical: Result<String, String>,
    pub helper: HelperFacts,
}

/// Whether a process is gone, by what is found of it: neither its name nor its path.
pub fn process_is_gone(name: &Option<Vec<u8>>, path: &Option<String>) -> (gone: bool)
    ensures
        gone == (name is None && path is None),
{
    name.is_none() && path.is_none()
}

/// The number of parts up to the last one that is named `Agent.app`.
pub open spec fn agent_length(parts: Seq<Seq<char>>) -> int
    decreases parts.len(),
{
    if parts.len() == 0 {
        0
    } else if parts.last() == "Agent.app"@ {
        parts.len() as int
    } else {
        agent_length(parts.drop_last())
    }
}

/// The nearest directory above the path that is named `Agent.app`, or the path itself.
pub open spec fn agent_above(path: Seq<char>) -> Option<Seq<char>> {
    let parts = unix_path::parts(path);
    if agent_length(parts) > 0 {
        Some(unix_path::written(parts, agent_length(parts)))
    } else {
        None
    }
}

fn agent_bundle_above(path: &str) -> (bundle: Option<String>)
    ensures
        property_list::text_view(bundle) == agent_above(path@),
{
    let parts = unix_path::parts_of(path);
    let ghost named = unix_path::texts(parts@);
    let mut length: usize = parts.len();
    assert(named.take(length as int) =~= named);
    while length > 0 && !text::same_text(parts[length - 1].as_str(), "Agent.app")
        invariant
            length <= parts.len(),
            named == unix_path::texts(parts@),
            agent_length(named.take(length as int)) == agent_length(named),
        decreases length,
    {
        assert(named.take(length as int).drop_last() =~= named.take(length - 1));
        assert(named.take(length as int).last() == parts@[length - 1]@);
        length = length - 1;
    }
    if length == 0 {
        return None;
    }
    assert(named.take(length as int).last() == parts@[length - 1]@);
    Some(unix_path::written_path(&parts, length))
}

/// Whether the process is one of the client's by its name, or by what the system says
/// of its application.
pub open spec fn is_candidate(applications: Seq<i32>, process: ProcessFacts) -> bool {
    applications.contains(process.pid) || (process.name is Some && names_candidate(
        process.name->0@,
    ))
}

/// An error about a process.
pub open spec fn process_error(before: Seq<char>, pid: i32, after: Seq<char>) -> ErrorView {
    ErrorView::Message(before + text::signed_decimal(pid as int) + after)
}

/// Whether the agents hold the bundle.
pub open spec fn knows_agent(client: ValidatedClient, bundle: Seq<char>) -> bool {
    exists|i: int|
        0 <= i < client.agent_bundles.len() && unix_path::same(
            #[trigger] client.agent_bundles@[i]@,
            bundle,
        )
}

/// The path of the process, where it belongs to the client, or why it has to be
/// feared that it does.
pub open spec fn classified(
    client: ValidatedClient,
    applications: Seq<i32>,
    process: ProcessFacts,
) -> Result<Option<Seq<char>>, ErrorView> {
    let candidate = is_candidate(applications, process);
    match process.path {
        None => if process.gone || !candidate {
            Ok(None)
        } else {
            Err(
                process_error(
                    "检测到无法确认路径的 Battle.net 候选进程 "@,
                    process.pid,
                    "，已停止本次操作"@,
                ),
            )
        },
        Some(path) => if !candidate && !unix_path::under(path@, client.bundle@)
            && !unix_path::under(path@, client.agent_root@) {
            Ok(None)
        } else {
            match process.canonical {
                Err(error) => if process.gone {
                    Ok(None)
                } else {
                    Err(
                        process_error(
                            "无法规范化 macOS 进程 "@,
                            process.pid,
                            " 的路径："@ + error@ + "，已停止本次操作"@,
                        ),
                    )
                },
                Ok(canonical) => resolved(client, candidate, process, canonical@),
            }
        },
    }
}

/// What a process with this path without links is to the client.
pub open spec fn resolved(
    client: ValidatedClient,
    candidate: bool,
    process: ProcessFacts,
    canonical: Seq<char>,
) -> Result<Option<Seq<char>>, ErrorView> {
    let in_bundle = unix_path::under(canonical, client.bundle@);
    let in_agents = unix_path::under(canonical, client.agent_root@);
    let helper = process.name is Some && names_helper(process.name->0@) && is_helper(
        process.helper,
    );
    if !in_bundle && !in_agents && !helper {
        if candidate {
            Err(
                process_error(
                    "检测到来源无法确认的 Battle.net 候选进程 "@,
                    process.pid,
                    "，已停止本次操作"@,
                ),
            )
        } else {
            Ok(None)
        }
    } else if in_agents {
        match agent_above(canonical) {
            None => Err(
                process_error(
                    "检测到无法归属到已验证 Agent.app 的 Battle.net 进程 "@,
                    process.pid,
                    "，已停止本次操作"@,
                ),
            ),
            Some(bundle) => if knows_agent(client, bundle) {
                Ok(Some(canonical))
            } else {
                Err(
                    ErrorView::Message(
                        "检测到未通过启动前签名校验的 Battle.net Agent："@ + bundle,
                    ),
                )
            },
        }
    } else {
        Ok(Some(canonical))
    }
}

fn contains_pid(pids: &Vec<i32>, pid: i32) -> (yes: bool)
    ensures
        yes == pids@.contains(pid),
{
    let mut i: usize = 0;
    while i < pids.len()
        invariant
            i <= pids.len(),
            forall|j: int| 0 <= j < i ==> pids@[j] != pid,
        decreases pids.len() - i,
    {
        if pids[i] == pid {
            assert(pids@[i as int] == pid);
            return true;
        }
        i = i + 1;
    }
    false
}

fn contains_path(bundles: &Vec<String>, bundle: &str) -> (yes: bool)
    ensures
        yes == exists|i: int|
            0 <= i < bundles.len() && unix_path::same(#[trigger] bundles@[i]@, bundle@),
{
    let mut i: usize = 0;
    while i < bundles.len()
        invariant
            i <= bundles.len(),
            forall|j: int| 0 <= j < i ==> !unix_path::same(#[trigger] bundles@[j]@, bundle@),
        decreases bundles.len() - i,
    {
        if unix_path::same_path(bundles[i].as_str(), bundle) {
            assert(unix_path::same(bundles@[i as int]@, bundle@));
            return true;
        }
        i = i + 1;
    }
    false
}

fn error_about(before: &str, pid: i32, after: &str) -> (error: AppError)
    ensures
        error@ == process_error(before@, pid, after@),
{
    AppError::Message(
        text::joined3(before, text::signed_decimal_text(pid as i64).as_str(), after),
    )
}

fn resolve(
    client: &ValidatedClient,
    candidate: bool,
    process: &ProcessFacts,
    canonical: &str,
) -> (path: Result<Option<String>, AppError>)
    ensures
        match (path, resolved(*client, candidate, *process, canonical@)) {
            (Ok(path), Ok(expected)) => property_list::text_view(path) == expected,
            (Err(error), Err(expected)) => error@ == expected,
            _ => false,
        },
{
    let in_bundle = unix_path::starts_with(canonical, client.bundle.as_str());
    let in_agents = unix_path::starts_with(canonical, client.agent_root.as_str());
    let helper = match &process.name {
        Some(name) => is_helper_process_name(name.as_slice()) && validated_helper_bundle(
            &process.helper,
        ).is_some(),
        None => false,
    };
    if !in_bundle && !in_agents && !helper {
        return if candidate {
            Err(
                error_about(
                    "检测到来源无法确认的 Battle.net 候选进程 ",
                    process.pid,
                    "，已停止本次操作",
                ),
            )
        } else {
            Ok(None)
        };
    }
    if in_agents {
        match agent_bundle_above(canonical) {
            None => {
                return Err(
                    error_about(
                        "检测到无法归属到已验证 Agent.app 的 Battle.net 进程 ",
                        process.pid,
                        "，已停止本次操作",
                    ),
                );
            },
            Some(bundle) => {
                if !contains_path(&client.agent_bundles, bundle.as_str()) {
                    return Err(
                        AppError::Message(
                            text::joined2(
                                "检测到未通过启动前签名校验的 Battle.net Agent：",
                                bundle.as_str(),
                            ),
                        ),
                    );
                }
            },
        }
    }
    Ok(Some(canonical.to_owned()))
}

fn classify(client: &ValidatedClient, applications: &Vec<i32>, process: &ProcessFacts) -> (path:
    Result<Option<String>, AppError>)
    ensures
        match (path, classified(*client, applications@, *process)) {
            (Ok(path), Ok(expected)) => property_list::text_view(path) == expected,
            (Err(error), Err(expected)) => error@ == expected,
            _ => false,
        },
{
    let candidate = contains_pid(applications, process.pid) || match &process.name {
        Some(name) => is_candidate_process_name(name.as_slice()),
        None => false,
    };
    let path = match &process.path {
        None => {
            return if process.gone || !candidate {
                Ok(None)
            } else {
                Err(
                    error_about(
                        "检测到无法确认路径的 Battle.net 候选进程 ",
                        process.pid,
                        "，已停止本次操作",
                    ),
                )
            };
        },
        Some(path) => path,
    };
    if !candidate && !unix_path::starts_with(path.as_str(), client.bundle.as_str())
        && !unix_path::starts_with(path.as_str(), client.agent_root.as_str()) {
        return Ok(None);
    }
    match &process.canonical {
        Err(error) => if process.gone {
            Ok(None)
        } else {
            let after = text::joined3(" 的路径：", error.as_str(), "，已停止本次操作");
            Err(error_about("无法规范化 macOS 进程 ", process.pid, after.as_str()))
        },
        Ok(canonical) => resolve(client, candidate, process, canonical.as_str()),
    }
}

/// The processes that belong to the client, in the order in which they were listed, or
/// why one of them cannot be told apart from the client's.
pub open spec fn related(
    client: ValidatedClient,
    applications: Seq<i32>,
    processes: Seq<ProcessFacts>,
) -> Result<Seq<RelatedProcessView>, ErrorView>
    decreases processes.len(),
{
    if processes.len() == 0 {
        Ok(Seq::empty())
    } else {
        match related(client, applications, processes.drop_last()) {
            Err(error) => Err(error),
            Ok(found) => {
                let process = processes.last();
                if process.pid <= 0 {
                    Ok(found)
                } else {
                    match classified(client, applications, process) {
                        Err(error) => Err(error),
                        Ok(None) => Ok(found),
                        Ok(Some(path)) => Ok(
                            found.push(RelatedProcessView { pid: process.pid, path }),
                        ),
                    }
                }
            },
        }
    }
}

/// The processes that belong to the client. A process that may be the client's, but
/// of which that cannot be made sure, is an error.
pub fn related_processes(
    client: &ValidatedClient,
    applications: &Vec<i32>,
    processes: &Vec<ProcessFacts>,
) -> (found: Result<Vec<RelatedProcess>, AppError>)
    ensures
        match (found, related(*client, applications@, processes@)) {
            (Ok(found), Ok(expected)) => process_views(found@) == expected,
            (Err(error), Err(expected)) => error@ == expected,
            _ => false,
        },
{
    let mut found: Vec<RelatedProcess> = Vec::new();
    let mut failure: Option<AppError> = None;
    let mut i: usize = 0;
    assert(process_views(found@) =~= Seq::<RelatedProcessView>::empty());
    while i < processes.len()
        invariant
            i <= processes.len(),
            match (failure, related(*client, applications@, processes@.take(i as int))) {
                (None, Ok(expected)) => process_views(found@) == expected,
                (Some(error), Err(expected)) => error@ == expected,
                _ => false,
            },
        decreases processes.len() - i,
    {
        assert(processes@.take(i + 1).drop_last() =~= processes@.take(i as int));
        if failure.is_none() && processes[i].pid > 0 {
            match classify(client, applications, &processes[i]) {
                Err(error) => {
                    failure = Some(error);
                },
                Ok(None) => {},
                Ok(Some(path)) => {
                    let ghost before = process_views(found@);
                    let process = RelatedProcess { pid: processes[i].pid, path };
                    let ghost view = process@;
                    found.push(process);
                    assert(process_views(found@) =~= before.push(view));
                },
            }
        }
        i = i + 1;
    }
    assert(processes@.take(i as int) =~= processes@);
    match failure {
        Some(error) => Err(error),
        None => Ok(found),
    }
}

/// Whether the client has to be considered as running while the process does: the
/// agents do not count.
pub open spec fn is_runtime(client: ValidatedClient, path: Seq<char>) -> bool {
    ||| unix_path::same(path, client.main_executable@)
    ||| unix_path::under(path, client.bundle@)
    ||| unix_path::name_of(unix_path::parts(path)) == Some("Battle.net Helper"@)
}

/// The processes that have to end before the client counts as stopped.
pub open spec fn runtime(client: ValidatedClient, processes: Seq<RelatedProcessView>) -> Seq<
    RelatedProcessView,
>
    decreases processes.len(),
{
    if processes.len() == 0 {
        Seq::empty()
    } else if is_runtime(client, processes.last().path) {
        runtime(client, processes.drop_last()).push(processes.last())
    } else {
        runtime(client, processes.drop_last())
    }
}

/// The processes that have to end before the client counts as stopped.
pub fn client_runtime_processes(client: &ValidatedClient, processes: &Vec<RelatedProcess>) -> (found:
    Vec<RelatedProcess>)
    ensures
        process_views(found@) == runtime(*client, process_views(processes@)),
{
    let mut found: Vec<RelatedProcess> = Vec::new();
    let ghost views = process_views(processes@);
    let mut i: usize = 0;
    assert(process_views(found@) =~= Seq::<RelatedProcessView>::empty());
    assert(views.take(0) =~= Seq::<RelatedProcessView>::empty());
    while i < processes.len()
        invariant
            i <= processes.len(),
            views == process_views(processes@),
            process_views(found@) == runtime(*client, views.take(i as int)),
        decreases processes.len() - i,
    {
        let process = &processes[i];
        let path = process.path.as_str();
        proof {
            assert(views.take(i + 1).drop_last() =~= views.take(i as int));
            assert(views.take(i + 1).last() == process@);
        }
        let counts = unix_path::same_path(path, client.main_executable.as_str())
            || unix_path::starts_with(path, client.bundle.as_str())
            || match unix_path::file_name(&unix_path::parts_of(path)) {
            Some(name) => text::same_text(name.as_str(), "Battle.net Helper"),
            None => false,
        };
        if counts {
            let ghost before = process_views(found@);
            found.push(RelatedProcess { pid: process.pid, path: process.path.clone() });
            assert(process_views(found@) =~= before.push(process@));
        }
        i = i + 1;
    }
    assert(views.take(i as int) =~= views);
    found
}

/// Whether the client's main process is among the processes.
pub open spec fn has_main(client: ValidatedClient, processes: Seq<RelatedProcessView>) -> bool {
    exists|i: int|
        0 <= i < processes.len() && unix_path::same(
            (#[trigger] processes[i]).path,
            client.main_executable@,
        )
}

/// Whether the client's main process is among the processes.
pub fn is_main_client_running(client: &ValidatedClient, processes: &Vec<RelatedProcess>) -> (yes:
    bool)
    ensures
        yes == has_main(*client, process_views(processes@)),
{
    let ghost views = process_views(processes@);
    let mut i: usize = 0;
    while i < processes.len()
        invariant
            i <= processes.len(),
            views == process_views(processes@),
            forall|j: int|
                0 <= j < i ==> !unix_path::same(
                    (#[trigger] views[j]).path,
                    client.main_executable@,
                ),
        decreases processes.len() - i,
    {
        assert(views[i as int] == processes@[i as int]@);
        if unix_path::same_path(processes[i].path.as_str(), client.main_executable.as_str()) {
            return true;
        }
        i = i + 1;
    }
    false
}

/// Whether any process is left that has to end before the client counts as stopped.
pub fn is_client_running(client: &ValidatedClient, processes: &Vec<RelatedProcess>) -> (yes: bool)
    ensures
        yes == (runtime(*client, process_views(processes@)).len() > 0),
{
    let found = client_runtime_processes(client, processes);
    assert(process_views(found@).len() == found.len());
    found.len() > 0
}

/// An application that the system says is running.
#[derive(Debug)]
pub struct ApplicationFacts {
    pub identifier: Option<String>,
    /// Whether its place is known, its path, and its path without links.
    pub has_url: bool,
    pub path: Option<String>,
    pub canonical: Result<String, String>,
    pub pid: i32,
}

/// Whether the identifier is one of the agents'.
pub open spec fn names_agent(identifiers: Seq<Option<String>>, identifier: Seq<char>) -> bool {
    exists|i: int|
        0 <= i < identifiers.len() && property_list::text_view(#[trigger] identifiers[i]) == Some(
            identifier,
        )
}

/// Whether the application is the client's, or why that has to be feared; `agents` are
/// the identifiers of the client's agents.
pub open spec fn is_clients_application(
    client: ValidatedClient,
    agents: Seq<Option<String>>,
    application: ApplicationFacts,
) -> Result<bool, ErrorView> {
    match application.identifier {
        None => Ok(false),
        Some(identifier) => {
            let main = identifier@ == "net.battle.app"@;
            if !main && !names_agent(agents, identifier@) {
                Ok(false)
            } else if !application.has_url {
                Err(
                    ErrorView::Message(
                        "检测到无法确认来源的 Battle.net 候选进程，已停止本次操作"@,
                    ),
                )
            } else if application.path is None {
                Err(
                    ErrorView::Message(
                        "检测到无法确认路径的 Battle.net 候选进程，已停止本次操作"@,
                    ),
                )
            } else {
                match application.canonical {
                    Err(error) => Err(
                        ErrorView::Message(
                            "无法规范化正在运行的 Battle.net 路径："@ + error@ + "，已停止本次操作"@,
                        ),
                    ),
                    Ok(bundle) => if if main {
                        unix_path::same(bundle@, client.bundle@)
                    } else {
                        knows_agent(client, bundle@)
                    } {
                        Ok(true)
                    } else {
                        Err(
                            ErrorView::Message(
                                "检测到另一位置正在运行的 Battle.net 组件："@ + bundle@
                                    + "，请先退出后重试"@,
                            ),
                        )
                    },
                }
            }
        },
    }
}

/// The processes of the client's applications.
pub open spec fn application_pids(
    client: ValidatedClient,
    agents: Seq<Option<String>>,
    applications: Seq<ApplicationFacts>,
) -> Result<Seq<i32>, ErrorView>
    decreases applications.len(),
{
    if applications.len() == 0 {
        Ok(Seq::empty())
    } else {
        match application_pids(client, agents, applications.drop_last()) {
            Err(error) => Err(error),
            Ok(pids) => match is_clients_application(client, agents, applications.last()) {
                Err(error) => Err(error),
                Ok(true) => Ok(pids.push(applications.last().pid)),
                Ok(false) => Ok(pids),
            },
        }
    }
}

fn check_application(
    client: &ValidatedClient,
    agents: &Vec<Option<String>>,
    application: &ApplicationFacts,
) -> (yes: Result<bool, AppError>)
    ensures
        match (yes, is_clients_application(*client, agents@, *application)) {
            (Ok(yes), Ok(expected)) => yes == expected,
            (Err(error), Err(expected)) => error@ == expected,
            _ => false,
        },
{
    let identifier = match &application.identifier {
        None => {
            return Ok(false);
        },
        Some(identifier) => identifier,
    };
    let main = text::same_text(identifier.as_str(), "net.battle.app");
    let mut agent = false;
    let mut i: usize = 0;
    while i < agents.len()
        invariant
            i <= agents.len(),
            agent == exists|j: int|
                0 <= j < i && property_list::text_view(#[trigger] agents@[j]) == Some(identifier@),
        decreases agents.len() - i,
    {
        let here = match &agents[i] {
            Some(name) => text::same_text(name.as_str(), identifier.as_str()),
            None => false,
        };
        assert(here == (property_list::text_view(agents@[i as int]) == Some(identifier@)));
        agent = agent || here;
        i = i + 1;
    }
    assert(agent == names_agent(agents@, identifier@));
    if !main && !agent {
        return Ok(false);
    }
    if !application.has_url {
        return Err(
            AppError::Message(
                "检测到无法确认来源的 Battle.net 候选进程，已停止本次操作".to_owned(),
            ),
        );
    }
    if application.path.is_none() {
        return Err(
            AppError::Message(
                "检测到无法确认路径的 Battle.net 候选进程，已停止本次操作".to_owned(),
            ),
        );
    }
    let bundle = match &application.canonical {
        Err(error) => {
            return Err(
                AppError::Message(
                    text::joined3(
                        "无法规范化正在运行的 Battle.net 路径：",
                        error.as_str(),
                        "，已停止本次操作",
                    ),
                ),
            );
        },
        Ok(bundle) => bundle,
    };
    let expected = if main {
        unix_path::same_path(bundle.as_str(), client.bundle.as_str())
    } else {
        contains_path(&client.agent_bundles, bundle.as_str())
    };
    if expected {
        Ok(true)
    } else {
        Err(
            AppError::Message(
                text::joined3(
                    "检测到另一位置正在运行的 Battle.net 组件：",
                    bundle.as_str(),
                    "，请先退出后重试",
                ),
            ),
        )
    }
}

/// The processes of the client's applications. An application that claims to be one of
/// them and lies elsewhere is an error.
pub fn verified_bundle_application_pids(
    client: &ValidatedClient,
    agents: &Vec<Option<String>>,
    applications: &Vec<ApplicationFacts>,
) -> (pids: Result<Vec<i32>, AppError>)
    ensures
        match (pids, application_pids(*client, agents@, applications@)) {
            (Ok(pids), Ok(expected)) => pids@ == expected,
            (Err(error), Err(expected)) => error@ == expected,
            _ => false,
        },
{
    let mut pids: Vec<i32> = Vec::new();
    let mut failure: Option<AppError> = None;
    let mut i: usize = 0;
    while i < applications.len()
        invariant
            i <= applications.len(),
            match (failure, application_pids(*client, agents@, applications@.take(i as int))) {
                (None, Ok(expected)) => pids@ == expected,
                (Some(error), Err(expected)) => error@ == expected,
                _ => false,
            },
        decreases applications.len() - i,
    {
        assert(applications@.take(i + 1).drop_last() =~= applications@.take(i as int));
        if failure.is_none() {
            match check_application(client, agents, &applications[i]) {
                Err(error) => {
                    failure = Some(error);
                },
                Ok(true) => {
                    pids.push(applications[i].pid);
                },
                Ok(false) => {},
            }
        }
        i = i + 1;
    }
    assert(applications@.take(i as int) =~= applications@);
    match failure {
        Some(error) => Err(error),
        None => Ok(pids),
    }
}

/// No process that lies outside of the client's bundle, of its agents and of its
/// helpers is ever taken for the client's, and a process that has one of the client's
/// names is either taken for one of them, gone, or an error.
pub proof fn law_unknown_candidates_stop_the_operation(
    client: ValidatedClient,
    applications: Seq<i32>,
    process: ProcessFacts,
)
    ensures
        classified(client, applications, process) matches Ok(Some(path)) ==> {
            ||| unix_path::under(path, client.bundle@)
            ||| (unix_path::under(path, client.agent_root@) && agent_above(path) is Some
                && knows_agent(client, agent_above(path)->0))
            ||| is_helper(process.helper)
        },
        is_candidate(applications, process) && !process.gone ==> !(classified(
            client,
            applications,
            process,
        ) matches Ok(None)),
{
}

/// Whether the process is one that has to end, and this one.
pub open spec fn is_running_part(client: ValidatedClient, entry: RelatedProcessView, value: RelatedProcessView) -> bool {
    entry == value && (unix_path::same(value.path, client.main_executable@) || unix_path::under(
        value.path,
        client.bundle@,
    ) || unix_path::name_of(unix_path::parts(value.path)) == Some("Battle.net Helper"@))
}

/// The processes that have to end are exactly the client's main process, those out of its
/// bundle and its helpers.
pub proof fn law_running_parts_are_those_of_the_client(
    client: ValidatedClient,
    entries: Seq<RelatedProcessView>,
    value: RelatedProcessView,
)
    ensures
        runtime(client, entries).contains(value) <==> exists|i: int|
            0 <= i < entries.len() && is_running_part(client, #[trigger] entries[i], value),
    decreases entries.len(),
{
    if entries.len() > 0 {
        let front = entries.drop_last();
        law_running_parts_are_those_of_the_client(client, front, value);
        let some = runtime(client, front);
        let all = runtime(client, entries);
        if all.contains(value) {
            let at = choose|at: int| 0 <= at < all.len() && all[at] == value;
            if at < some.len() {
                assert(some[at] == value);
                let i = choose|i: int| 0 <= i < front.len() && is_running_part(client, #[trigger] front[i], value);
                assert(is_running_part(client, entries[i], value));
            } else {
                assert(is_running_part(client, entries[entries.len() - 1], value));
            }
        }
        if exists|i: int| 0 <= i < entries.len() && is_running_part(client, #[trigger] entries[i], value) {
            let i = choose|i: int| 0 <= i < entries.len() && is_running_part(client, #[trigger] entries[i], value);
            if i < front.len() {
                assert(is_running_part(client, front[i], value));
                let at = choose|at: int| 0 <= at < some.len() && some[at] == value;
                assert(all[at] == value);
            } else {
                assert(all[some.len() as int] == value);
            }
        }
    }
}

/// Whether the process belongs to the client, with this id and path.
pub open spec fn is_related(client: ValidatedClient, applications: Seq<i32>, entry: ProcessFacts, value: RelatedProcessView) -> bool {
    entry.pid > 0 && entry.pid == value.pid && classified(client, applications, entry) == Ok::<
        Option<Seq<char>>,
        ErrorView,
    >(Some(value.path))
}

/// Where the processes can be told apart, those that belong to the client are exactly the
/// ones that are classified as such.
pub proof fn law_related_processes_are_the_classified_ones(
    client: ValidatedClient,
    applications: Seq<i32>,
    entries: Seq<ProcessFacts>,
    value: RelatedProcessView,
)
    requires
        related(client, applications, entries) is Ok,
    ensures
        related(client, applications, entries)->Ok_0.contains(value) <==> exists|i: int|
            0 <= i < entries.len() && is_related(client, applications, #[trigger] entries[i], value),
    decreases entries.len(),
{
    if entries.len() > 0 {
        let front = entries.drop_last();
        law_related_processes_are_the_classified_ones(client, applications, front, value);
        let some = related(client, applications, front)->Ok_0;
        let all = related(client, applications, entries)->Ok_0;
        if all.contains(value) {
            let at = choose|at: int| 0 <= at < all.len() && all[at] == value;
            if at < some.len() {
                assert(some[at] == value);
                let i = choose|i: int| 0 <= i < front.len() && is_related(client, applications, #[trigger] front[i], value);
                assert(is_related(client, applications, entries[i], value));
            } else {
                assert(is_related(client, applications, entries[entries.len() - 1], value));
            }
        }
        if exists|i: int| 0 <= i < entries.len() && is_related(client, applications, #[trigger] entries[i], value) {
            let i = choose|i: int| 0 <= i < entries.len() && is_related(client, applications, #[trigger] entries[i], value);
            if i < front.len() {
                assert(is_related(client, applications, front[i], value));
                let at = choose|at: int| 0 <= at < some.len() && some[at] == value;
                assert(all[at] == value);
            } else {
                assert(all[some.len() as int] == value);
            }
        }
    }
}

/// The processes can be told apart exactly where each of them can.
pub proof fn law_one_doubtful_process_stops_the_search(client: ValidatedClient, applications: Seq<i32>, entries: Seq<ProcessFacts>)
    ensures
        related(client, applications, entries) is Ok <==> forall|i: int|
            0 <= i < entries.len() ==> ((#[trigger] entries[i]).pid <= 0 || classified(client, applications, entries[i]) is Ok),
    decreases entries.len(),
{
    if entries.len() > 0 {
        let front = entries.drop_last();
        law_one_doubtful_process_stops_the_search(client, applications, front);
        if related(client, applications, entries) is Ok {
            assert forall|i: int| 0 <= i < entries.len() implies ((#[trigger] entries[i]).pid <= 0 || classified(client, applications, entries[i]) is Ok) by {
                if i < front.len() {
                    assert((front[i].pid <= 0 || classified(client, applications, front[i]) is Ok));
                }
            }
        }
        if forall|i: int| 0 <= i < entries.len() ==> ((#[trigger] entries[i]).pid <= 0 || classified(client, applications, entries[i]) is Ok) {
            assert forall|i: int| 0 <= i < front.len() implies ((#[trigger] front[i]).pid <= 0 || classified(client, applications, front[i]) is Ok) by {
                assert((entries[i].pid <= 0 || classified(client, applications, entries[i]) is Ok));
            }
            assert((entries[entries.len() - 1].pid <= 0 || classified(client, applications, entries[entries.len() - 1]) is Ok));
        }
    }
}

/// Whether the application is the client's and runs as this process.
pub open spec fn is_application_of(client: ValidatedClient, agents: Seq<Option<String>>, entry: ApplicationFacts, value: i32) -> bool {
    entry.pid == value && is_clients_application(client, agents, entry) == Ok::<bool, ErrorView>(
        true,
    )
}

/// Where the applications can be told apart, the processes are exactly those of the ones
/// that are the client's.
pub proof fn law_application_processes_are_those_of_the_client(
    client: ValidatedClient,
    agents: Seq<Option<String>>,
    entries: Seq<ApplicationFacts>,
    value: i32,
)
    requires
        application_pids(client, agents, entries) is Ok,
    ensures
        application_pids(client, agents, entries)->Ok_0.contains(value) <==> exists|i: int|
            0 <= i < entries.len() && is_application_of(client, agents, #[trigger] entries[i], value),
    decreases entries.len(),
{
    if entries.len() > 0 {
        let front = entries.drop_last();
        law_application_processes_are_those_of_the_client(client, agents, front, value);
        let some = application_pids(client, agents, front)->Ok_0;
        let all = application_pids(client, agents, entries)->Ok_0;
        if all.contains(value) {
            let at = choose|at: int| 0 <= at < all.len() && all[at] == value;
            if at < some.len() {
                assert(some[at] == value);
                let i = choose|i: int| 0 <= i < front.len() && is_application_of(client, agents, #[trigger] front[i], value);
                assert(is_application_of(client, agents, entries[i], value));
            } else {
                assert(is_application_of(client, agents, entries[entries.len() - 1], value));
            }
        }
        if exists|i: int| 0 <= i < entries.len() && is_application_of(client, agents, #[trigger] entries[i], value) {
            let i = choose|i: int| 0 <= i < entries.len() && is_application_of(client, agents, #[trigger] entries[i], value);
            if i < front.len() {
                assert(is_application_of(client, agents, front[i], value));
                let at = choose|at: int| 0 <= at < some.len() && some[at] == value;
                assert(all[at] == value);
            } else {
                assert(all[some.len() as int] == value);
            }
        }
    }
}

/// The applications can be told apart exactly where each of them can.
pub proof fn law_one_doubtful_application_stops_the_search(client: ValidatedClient, agents: Seq<Option<String>>, entries: Seq<ApplicationFacts>)
    ensures
        application_pids(client, agents, entries) is Ok <==> forall|i: int|
            0 <= i < entries.len() ==> is_clients_application(client, agents, (#[trigger] entries[i])) is Ok,
    decreases entries.len(),
{
    if entries.len() > 0 {
        let front = entries.drop_last();
        law_one_doubtful_application_stops_the_search(client, agents, front);
        if application_pids(client, agents, entries) is Ok {
            assert forall|i: int| 0 <= i < entries.len() implies is_clients_application(client, agents, (#[trigger] entries[i])) is Ok by {
                if i < front.len() {
                    assert(is_clients_application(client, agents, front[i]) is Ok);
                }
            }
        }
        if forall|i: int| 0 <= i < entries.len() ==> is_clients_application(client, agents, (#[trigger] entries[i])) is Ok {
            assert forall|i: int| 0 <= i < front.len() implies is_clients_application(client, agents, (#[trigger] front[i])) is Ok by {
                assert(is_clients_application(client, agents, entries[i]) is Ok);
            }
            assert(is_clients_application(client, agents, entries[entries.len() - 1]) is Ok);
        }
    }
}

/// An application is the client's exactly where it says that it is the client or one of its
/// agents and it stands where the client or such an agent does; one that says so and stands
/// elsewhere, or whose place is not known, stops the search.
pub proof fn law_application_is_known_by_name_and_place(
    client: ValidatedClient,
    agents: Seq<Option<String>>,
    application: ApplicationFacts,
)
    ensures
        ({
            let says = application.identifier is Some && (application.identifier->0@
                == "net.battle.app"@ || names_agent(agents, application.identifier->0@));
            let placed = application.has_url && application.path is Some && application.canonical
                is Ok && (if application.identifier->0@ == "net.battle.app"@ {
                unix_path::same(application.canonical->Ok_0@, client.bundle@)
            } else {
                knows_agent(client, application.canonical->Ok_0@)
            });
            &&& is_clients_application(client, agents, application) == Ok::<bool, ErrorView>(true)
                <==> says && placed
            &&& is_clients_application(client, agents, application) == Ok::<bool, ErrorView>(false)
                <==> !says
        }),
{
}

/// Whether the entry is a directory that holds this agent.
pub open spec fn is_agent_entry(entry: Result<AgentEntry, String>, value: Seq<char>) -> bool {
    entry matches Ok(found) && found.is_directory == Ok::<bool, String>(true)
        && found.agent is Some && found.agent->0 is Ok && found.agent->0->Ok_0@ == value
}

/// Where the entries can be read, the agents are exactly those that directories among them
/// hold.
pub proof fn law_agents_are_those_of_the_directories(
    entries: Seq<Result<AgentEntry, String>>,
    value: Seq<char>,
)
    requires
        agents_among(entries) is Ok,
    ensures
        agents_among(entries)->Ok_0.contains(value) <==> exists|i: int|
            0 <= i < entries.len() && is_agent_entry(#[trigger] entries[i], value),
    decreases entries.len(),
{
    if entries.len() > 0 {
        let front = entries.drop_last();
        law_agents_are_those_of_the_directories(front, value);
        let some = agents_among(front)->Ok_0;
        let all = agents_among(entries)->Ok_0;
        if all.contains(value) {
            let at = choose|at: int| 0 <= at < all.len() && all[at] == value;
            if at < some.len() {
                assert(some[at] == value);
                let i = choose|i: int| 0 <= i < front.len() && is_agent_entry(#[trigger] front[i], value);
                assert(is_agent_entry(entries[i], value));
            } else {
                assert(is_agent_entry(entries[entries.len() - 1], value));
            }
        }
        if exists|i: int| 0 <= i < entries.len() && is_agent_entry(#[trigger] entries[i], value) {
            let i = choose|i: int| 0 <= i < entries.len() && is_agent_entry(#[trigger] entries[i], value);
            if i < front.len() {
                assert(is_agent_entry(front[i], value));
                let at = choose|at: int| 0 <= at < some.len() && some[at] == value;
                assert(all[at] == value);
            } else {
                assert(all[some.len() as int] == value);
            }
        }
    }
}

/// The agents are found exactly where every entry and what it is can be read.
pub proof fn law_one_unreadable_entry_stops_the_search(entries: Seq<Result<AgentEntry, String>>)
    ensures
        agents_among(entries) is Ok <==> forall|i: int|
            0 <= i < entries.len() ==> ((#[trigger] entries[i]) is Ok && entries[i]->Ok_0.is_directory is Ok),
    decreases entries.len(),
{
    if entries.len() > 0 {
        let front = entries.drop_last();
        law_one_unreadable_entry_stops_the_search(front);
        if agents_among(entries) is Ok {
            assert forall|i: int| 0 <= i < entries.len() implies ((#[trigger] entries[i]) is Ok && entries[i]->Ok_0.is_directory is Ok) by {
                if i < front.len() {
                    assert((front[i] is Ok && front[i]->Ok_0.is_directory is Ok));
                }
            }
        }
        if forall|i: int| 0 <= i < entries.len() ==> ((#[trigger] entries[i]) is Ok && entries[i]->Ok_0.is_directory is Ok) {
            assert forall|i: int| 0 <= i < front.len() implies ((#[trigger] front[i]) is Ok && front[i]->Ok_0.is_directory is Ok) by {
                assert((entries[i] is Ok && entries[i]->Ok_0.is_directory is Ok));
            }
            assert((entries[entries.len() - 1] is Ok && entries[entries.len() - 1]->Ok_0.is_directory is Ok));
        }
    }
}

} // verus!
