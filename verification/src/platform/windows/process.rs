//! The client's processes on Windows: which of the running processes belong to
//! it, and when it counts as stopped or started.

use vstd::prelude::*;

use crate::contracts::LoginRegion;
use crate::error::AppError;
use crate::error::ErrorView;
use crate::platform::windows::paths;
use crate::step::Taken;
use crate::step;
use crate::step::Step;
use crate::step::StepView;
use crate::text;

verus! {

/// The empty samples in a row after which the client counts as stopped.
pub const REQUIRED_EMPTY_SAMPLES: u8 = 2;

pub const ERROR_NO_MORE_FILES: u32 = 18;

/// The longest time that one window gets to answer a message.
pub const MESSAGE_TIMEOUT_LIMIT_MS: u64 = 5000;

/// A process of the client.
#[derive(Debug)]
pub struct ClientProcess {
    pub process_id: u32,
    pub name: String,
}

/// A process as the system lists it; the name ends at the first zero.
#[derive(Debug)]
pub struct ProcessEntry {
    pub process_id: u32,
    pub exe_file: Vec<u16>,
}

/// An error of the system: its result code and its message.
#[derive(Debug)]
pub struct SystemError {
    pub code: u32,
    pub message: String,
}

/// The processes that the system listed, the error that ended the list, and what
/// came of closing it.
#[derive(Debug)]
pub struct ProcessListing {
    pub entries: Vec<ProcessEntry>,
    pub end: SystemError,
    pub closed: Result<(), String>,
}

/// The result code of a Win32 error.
pub open spec fn hresult(error: u32) -> u32 {
    if error == 0 || error >= 0x8000_0000 {
        error
    } else {
        (0x8007_0000 + error % 0x1_0000) as u32
    }
}

/// The result code of a Win32 error.
pub fn hresult_from_win32(error: u32) -> (code: u32)
    ensures
        code == hresult(error),
{
    if error == 0 || error >= 0x8000_0000 {
        error
    } else {
        0x8007_0000 + error % 0x1_0000
    }
}

/// Whether the error only says that the list is at its end.
pub fn is_process_list_end(code: u32) -> (end: bool)
    ensures
        end == (code == hresult(ERROR_NO_MORE_FILES)),
{
    code == hresult_from_win32(ERROR_NO_MORE_FILES)
}

/// Whether the name is one of the client's window processes, in any case.
pub open spec fn is_window_name(name: Seq<char>) -> bool {
    text::lowered(name) == text::lowered("Battle.net.exe"@) || text::lowered(name) == text::lowered(
        "Battle.net Launcher.exe"@,
    )
}

/// Whether the name is one of the client's processes, in any case.
pub open spec fn is_client_name(name: Seq<char>) -> bool {
    is_window_name(name) || text::lowered(name) == text::lowered("Battle.net Helper.exe"@)
}

fn names_window(name: &str) -> (yes: bool)
    ensures
        yes == is_window_name(name@),
{
    text::same_ignoring_case(name, "Battle.net.exe") || text::same_ignoring_case(
        name,
        "Battle.net Launcher.exe",
    )
}

fn names_client(name: &str) -> (yes: bool)
    ensures
        yes == is_client_name(name@),
{
    names_window(name) || text::same_ignoring_case(name, "Battle.net Helper.exe")
}

/// The units before the first zero.
pub open spec fn before_zero(units: Seq<u16>) -> Seq<u16>
    decreases units.len(),
{
    if units.len() == 0 || units[0] == 0 {
        Seq::empty()
    } else {
        seq![units[0]] + before_zero(units.subrange(1, units.len() as int))
    }
}

/// The name of a listed process; units that are no text read as U+FFFD.
pub open spec fn entry_name(entry: ProcessEntry) -> Seq<char> {
    text::utf16_text(before_zero(entry.exe_file@), Some('\u{fffd}'))->0
}

/// With a replacement every UTF-16 text can be read.
pub proof fn lemma_replaced_text(units: Seq<u16>, replacement: char)
    ensures
        text::utf16_text(units, Some(replacement)) is Some,
    decreases units.len(),
{
    if units.len() > 0 {
        lemma_replaced_text(
            units.subrange(text::first_units(units) as int, units.len() as int),
            replacement,
        );
    }
}

fn name_of(entry: &ProcessEntry) -> (name: String)
    ensures
        name@ == entry_name(*entry),
{
    let mut units: Vec<u16> = Vec::new();
    let mut i: usize = 0;
    let ghost all = entry.exe_file@;
    assert(all.subrange(0, all.len() as int) =~= all);
    assert(units@ + before_zero(all) =~= before_zero(all));
    while i < entry.exe_file.len() && entry.exe_file[i] != 0
        invariant
            i <= entry.exe_file.len(),
            all == entry.exe_file@,
            before_zero(all) == units@ + before_zero(all.subrange(i as int, all.len() as int)),
        decreases entry.exe_file.len() - i,
    {
        let ghost rest = all.subrange(i as int, all.len() as int);
        let ghost before = units@;
        assert(rest.subrange(1, rest.len() as int) =~= all.subrange(i + 1, all.len() as int));
        units.push(entry.exe_file[i]);
        assert(before + (seq![rest[0]] + before_zero(all.subrange(i + 1, all.len() as int)))
            =~= units@ + before_zero(all.subrange(i + 1, all.len() as int)));
        i = i + 1;
    }
    assert(units@ =~= before_zero(all));
    proof {
        lemma_replaced_text(units@, '\u{fffd}');
    }
    match text::decode_utf16(&units, Some('\u{fffd}')) {
        Some(name) => name,
        None => String::new(),
    }
}

/// The process ids and names of the listed processes that belong to the client,
/// in their order.
pub open spec fn client_entries(entries: Seq<ProcessEntry>) -> Seq<(u32, Seq<char>)>
    decreases entries.len(),
{
    if entries.len() == 0 {
        Seq::empty()
    } else {
        let rest = client_entries(entries.drop_last());
        if is_client_name(entry_name(entries.last())) {
            rest.push((entries.last().process_id, entry_name(entries.last())))
        } else {
            rest
        }
    }
}

/// The processes as ids and names.
pub open spec fn process_views(processes: Seq<ClientProcess>) -> Seq<(u32, Seq<char>)> {
    processes.map_values(|process: ClientProcess| (process.process_id, process.name@))
}

/// The client's processes, or why they could not be listed: a failure of the
/// list itself comes before one of closing it.
pub fn client_processes(listing: Result<ProcessListing, String>) -> (processes: Result<
    Vec<ClientProcess>,
    AppError,
>)
    ensures
        match listing {
            Err(error) => processes is Err && processes->Err_0@ == ErrorView::Message(
                "无法读取 Windows 进程列表："@ + error@,
            ),
            Ok(listing) => if listing.end.code != hresult(ERROR_NO_MORE_FILES) {
                processes is Err && processes->Err_0@ == ErrorView::Message(
                    "读取 Windows 进程列表时发生错误："@ + listing.end.message@,
                )
            } else {
                match listing.closed {
                    Err(error) => processes is Err && processes->Err_0@ == ErrorView::Message(
                        "无法释放 Windows 进程快照："@ + error@,
                    ),
                    Ok(_) => processes is Ok && process_views(processes->Ok_0@) == client_entries(
                        listing.entries@,
                    ),
                }
            },
        },
{
    let listing = match listing {
        Ok(listing) => listing,
        Err(error) => {
            return Err(
                AppError::Message(text::joined2("无法读取 Windows 进程列表：", error.as_str())),
            );
        },
    };
    if !is_process_list_end(listing.end.code) {
        return Err(
            AppError::Message(
                text::joined2("读取 Windows 进程列表时发生错误：", listing.end.message.as_str()),
            ),
        );
    }
    match &listing.closed {
        Ok(_) => {},
        Err(error) => {
            return Err(
                AppError::Message(text::joined2("无法释放 Windows 进程快照：", error.as_str())),
            );
        },
    }
    let entries = &listing.entries;
    let mut processes: Vec<ClientProcess> = Vec::new();
    let mut i: usize = 0;
    assert(process_views(processes@) =~= client_entries(entries@.take(0)));
    while i < entries.len()
        invariant
            i <= entries.len(),
            process_views(processes@) == client_entries(entries@.take(i as int)),
        decreases entries.len() - i,
    {
        let name = name_of(&entries[i]);
        let ghost before = processes@;
        assert(entries@.take(i + 1).drop_last() =~= entries@.take(i as int));
        assert(entries@.take(i + 1).last() == entries@[i as int]);
        if names_client(name.as_str()) {
            let ghost view = name@;
            processes.push(ClientProcess { process_id: entries[i].process_id, name });
            assert(process_views(processes@) =~= process_views(before).push(
                (entries@[i as int].process_id, view),
            ));
        }
        i = i + 1;
    }
    assert(entries@.take(i as int) =~= entries@);
    Ok(processes)
}

/// The ids of the client's processes, or why they could not be listed.
pub fn client_process_ids(processes: Result<Vec<ClientProcess>, AppError>) -> (ids: Result<
    Vec<u32>,
    AppError,
>)
    ensures
        match processes {
            Ok(processes) => ids is Ok && ids->Ok_0@ == processes@.map_values(
                |process: ClientProcess| process.process_id,
            ),
            Err(error) => ids is Err && ids->Err_0 == error,
        },
{
    let processes = match processes {
        Ok(processes) => processes,
        Err(error) => {
            return Err(error);
        },
    };
    let mut ids: Vec<u32> = Vec::new();
    let mut i: usize = 0;
    while i < processes.len()
        invariant
            i <= processes.len(),
            ids.len() == i,
            forall|j: int| 0 <= j < i ==> ids@[j] == processes@[j].process_id,
        decreases processes.len() - i,
    {
        ids.push(processes[i].process_id);
        i = i + 1;
    }
    assert(ids@ =~= processes@.map_values(|process: ClientProcess| process.process_id));
    Ok(ids)
}

/// Whether any process of the client is running.
pub fn is_client_running(processes: &Vec<ClientProcess>) -> (running: bool)
    ensures
        running == (processes.len() > 0),
{
    processes.len() > 0
}

/// Whether a process with a window of the client is running.
pub open spec fn window_process_running(processes: Seq<ClientProcess>) -> bool {
    exists|i: int| 0 <= i < processes.len() && is_window_name((#[trigger] processes[i]).name@)
}

/// Whether a process with a window of the client is running.
pub fn is_main_client_running(processes: &Vec<ClientProcess>) -> (running: bool)
    ensures
        running == window_process_running(processes@),
{
    let mut i: usize = 0;
    while i < processes.len()
        invariant
            i <= processes.len(),
            forall|j: int| 0 <= j < i ==> !is_window_name((#[trigger] processes@[j]).name@),
        decreases processes.len() - i,
    {
        if names_window(processes[i].name.as_str()) {
            return true;
        }
        i = i + 1;
    }
    false
}

/// The ids of the processes that have windows, in their order.
pub open spec fn window_ids(processes: Seq<ClientProcess>) -> Seq<u32>
    decreases processes.len(),
{
    if processes.len() == 0 {
        Seq::empty()
    } else if is_window_name(processes.last().name@) {
        window_ids(processes.drop_last()).push(processes.last().process_id)
    } else {
        window_ids(processes.drop_last())
    }
}

fn window_process_ids(processes: &Vec<ClientProcess>) -> (ids: Vec<u32>)
    ensures
        ids@ == window_ids(processes@),
{
    let mut ids: Vec<u32> = Vec::new();
    let mut i: usize = 0;
    while i < processes.len()
        invariant
            i <= processes.len(),
            ids@ == window_ids(processes@.take(i as int)),
        decreases processes.len() - i,
    {
        assert(processes@.take(i + 1).drop_last() =~= processes@.take(i as int));
        if names_window(processes[i].name.as_str()) {
            ids.push(processes[i].process_id);
        }
        i = i + 1;
    }
    assert(processes@.take(i as int) =~= processes@);
    ids
}

/// What a sample found before the deadline, or that the deadline had passed.
#[derive(Debug)]
pub enum ProcessSample {
    OutOfTime,
    Processes(Result<Vec<ClientProcess>, AppError>),
}

/// Waiting for the client to have been gone in samples in a row: how many there
/// were so far.
#[derive(Clone, Copy, Debug, PartialEq, Eq, Structural)]
pub struct StoppedCheck {
    pub empty_samples: u8,
}

/// Makes sure that the client is not running: samples are taken until there are
/// enough of them, and one that finds the client ends the check.
pub fn ensure_client_stopped() -> (check: StoppedCheck)
    ensures
        check.empty_samples == 0,
{
    StoppedCheck { empty_samples: 0 }
}

impl StoppedCheck {
    /// What a sample leads to.
    pub open spec fn next(self, sample: ProcessSample) -> StepView<StoppedCheck, ()> {
        match sample {
            ProcessSample::OutOfTime => step::failing(
                ErrorView::Message("无法确认 Battle.net 已完全退出，已取消操作"@),
            ),
            ProcessSample::Processes(Err(error)) => step::failing(error@),
            ProcessSample::Processes(Ok(processes)) => if processes.len() > 0 {
                step::failing(
                    ErrorView::Message("检测到 Battle.net 已重新启动，已在修改配置前取消操作"@),
                )
            } else if self.empty_samples + 1 >= REQUIRED_EMPTY_SAMPLES {
                step::ending(())
            } else {
                step::going(StoppedCheck { empty_samples: (self.empty_samples + 1) as u8 })
            },
        }
    }

    /// Takes a sample.
    pub fn resume(self, sample: ProcessSample) -> (step: Step<StoppedCheck, ()>)
        ensures
            step@ == self.next(sample),
    {
        match sample {
            ProcessSample::OutOfTime => step::fail(
                AppError::Message("无法确认 Battle.net 已完全退出，已取消操作".to_owned()),
            ),
            ProcessSample::Processes(Err(error)) => step::fail(error),
            ProcessSample::Processes(Ok(processes)) => if is_client_running(&processes) {
                step::fail(
                    AppError::Message(
                        "检测到 Battle.net 已重新启动，已在修改配置前取消操作".to_owned(),
                    ),
                )
            } else if self.empty_samples >= REQUIRED_EMPTY_SAMPLES - 1 {
                step::end(())
            } else {
                step::go(StoppedCheck { empty_samples: self.empty_samples + 1 })
            },
        }
    }
}

/// Closing the client: its windows are asked to close, and then it has to have
/// been gone in samples in a row.
#[derive(Debug)]
pub enum GracefulStop {
    /// The processes are to be listed.
    Looking,
    /// The windows of these processes are to be asked to close.
    Closing { windows: Vec<u32> },
    /// A sample is to be taken.
    Waiting { empty_samples: u8 },
}

/// What came of the work for [`GracefulStop`].
#[derive(Debug)]
pub enum StopReply {
    Listed(Result<Vec<ClientProcess>, AppError>),
    Asked(Result<(), AppError>),
    Sampled(ProcessSample),
}

/// Closes the client.
pub fn graceful_stop() -> (stop: GracefulStop)
    ensures
        stop == GracefulStop::Looking,
{
    GracefulStop::Looking
}

impl GracefulStop {
    /// What a sample leads to while the client is closing.
    pub open spec fn sampled(empty_samples: u8, sample: ProcessSample) -> StepView<
        GracefulStop,
        (),
    > {
        match sample {
            ProcessSample::OutOfTime => step::failing(ErrorView::ClientStopTimeout),
            ProcessSample::Processes(Err(error)) => step::failing(error@),
            ProcessSample::Processes(Ok(processes)) => if processes.len() > 0 {
                step::going(GracefulStop::Waiting { empty_samples: 0 })
            } else if empty_samples + 1 >= REQUIRED_EMPTY_SAMPLES {
                step::ending(())
            } else {
                step::going(
                    GracefulStop::Waiting { empty_samples: (empty_samples + 1) as u8 },
                )
            },
        }
    }

    /// Whether the step is the one that the answer leads to.
    pub open spec fn leads_to(self, reply: StopReply, step: Step<GracefulStop, ()>) -> bool {
        match (self, reply) {
            (GracefulStop::Looking, StopReply::Listed(Err(error))) => step@ == step::failing::<
                GracefulStop,
                (),
            >(error@),
            (GracefulStop::Looking, StopReply::Listed(Ok(processes))) => if processes.len() == 0 {
                step@ == step::ending::<GracefulStop, ()>(())
            } else if window_ids(processes@).len() == 0 {
                step@ == step::going::<GracefulStop, ()>(GracefulStop::Waiting { empty_samples: 0 })
            } else {
                &&& step matches Step::Perform { operation: GracefulStop::Closing { windows }, .. }
                &&& windows@ == window_ids(processes@)
                &&& step->report is None
            },
            (GracefulStop::Closing { .. }, StopReply::Asked(Err(error))) => step@ == step::failing::<
                GracefulStop,
                (),
            >(error@),
            (GracefulStop::Closing { .. }, StopReply::Asked(Ok(_))) => step@ == step::going::<
                GracefulStop,
                (),
            >(GracefulStop::Waiting { empty_samples: 0 }),
            (GracefulStop::Waiting { empty_samples }, StopReply::Sampled(sample)) => step@
                == GracefulStop::sampled(empty_samples, sample),
            _ => step@ == step::confused::<GracefulStop, ()>(),
        }
    }

    /// Takes the answer.
    pub fn resume(self, reply: StopReply) -> (step: Step<GracefulStop, ()>)
        ensures
            self.leads_to(reply, step),
    {
        match (self, reply) {
            (GracefulStop::Looking, StopReply::Listed(Err(error))) => step::fail(error),
            (GracefulStop::Looking, StopReply::Listed(Ok(processes))) => {
                if processes.len() == 0 {
                    return step::end(());
                }
                let windows = window_process_ids(&processes);
                if windows.len() == 0 {
                    step::go(GracefulStop::Waiting { empty_samples: 0 })
                } else {
                    step::go(GracefulStop::Closing { windows })
                }
            },
            (GracefulStop::Closing { windows: _ }, StopReply::Asked(Err(error))) => step::fail(
                error,
            ),
            (GracefulStop::Closing { windows: _ }, StopReply::Asked(Ok(_))) => step::go(
                GracefulStop::Waiting { empty_samples: 0 },
            ),
            (GracefulStop::Waiting { empty_samples }, StopReply::Sampled(sample)) => match sample {
                ProcessSample::OutOfTime => step::fail(AppError::ClientStopTimeout),
                ProcessSample::Processes(Err(error)) => step::fail(error),
                ProcessSample::Processes(Ok(processes)) => if is_client_running(&processes) {
                    step::go(GracefulStop::Waiting { empty_samples: 0 })
                } else if empty_samples >= REQUIRED_EMPTY_SAMPLES - 1 {
                    step::end(())
                } else {
                    step::go(GracefulStop::Waiting { empty_samples: empty_samples + 1 })
                },
            },
            _ => step::give_up(),
        }
    }
}

/// The pause before the next sample while the client is closing.
pub fn stop_pause_ms(remaining_ms: u64) -> (pause: u64)
    ensures
        pause == (if remaining_ms < 250 {
            remaining_ms
        } else {
            250
        }),
{
    if remaining_ms < 250 {
        remaining_ms
    } else {
        250
    }
}

/// A window, by its handle, and the process that it belongs to.
#[derive(Clone, Copy, Debug, PartialEq, Eq, Structural)]
pub struct ProcessWindow {
    pub handle: u64,
    pub process_id: u32,
}

/// The windows that belong to one of the processes, in their order.
pub open spec fn windows_of(windows: Seq<ProcessWindow>, process_ids: Seq<u32>) -> Seq<
    ProcessWindow,
> {
    windows.filter(|window: ProcessWindow| process_ids.contains(window.process_id))
}

/// The windows that belong to one of the processes, in their order.
pub fn collect_windows(windows: &Vec<ProcessWindow>, process_ids: &Vec<u32>) -> (found: Vec<
    ProcessWindow,
>)
    ensures
        found@ == windows_of(windows@, process_ids@),
{
    let mut found: Vec<ProcessWindow> = Vec::new();
    let mut i: usize = 0;
    assert(windows@.take(0) =~= Seq::<ProcessWindow>::empty());
    proof {
        reveal(Seq::filter);
    }
    while i < windows.len()
        invariant
            i <= windows.len(),
            found@ == windows_of(windows@.take(i as int), process_ids@),
        decreases windows.len() - i,
    {
        let window = windows[i];
        assert(windows@.take(i + 1).drop_last() =~= windows@.take(i as int));
        proof {
            reveal(Seq::filter);
        }
        let mut wanted = false;
        let mut j: usize = 0;
        while j < process_ids.len()
            invariant
                j <= process_ids.len(),
                wanted == process_ids@.take(j as int).contains(window.process_id),
            decreases process_ids.len() - j,
        {
            assert(process_ids@.take(j + 1) =~= process_ids@.take(j as int).push(
                process_ids@[j as int],
            ));
            let ghost earlier = process_ids@.take(j as int);
            proof {
                if earlier.contains(window.process_id) {
                    let k = choose|k: int| 0 <= k < earlier.len() && earlier[k] == window.process_id;
                    assert(process_ids@.take(j + 1)[k] == window.process_id);
                } else if process_ids@[j as int] == window.process_id {
                    assert(process_ids@.take(j + 1)[j as int] == window.process_id);
                }
            }
            if process_ids[j] == window.process_id {
                wanted = true;
            }
            j = j + 1;
        }
        assert(process_ids@.take(j as int) =~= process_ids@);
        if wanted {
            found.push(window);
        }
        i = i + 1;
    }
    assert(windows@.take(i as int) =~= windows@);
    found
}

/// What a window is told when it is asked to close: first whether it agrees, then that the
/// session ends.
#[derive(Clone, Copy, Debug, PartialEq, Eq, Structural)]
pub enum CloseMessage {
    QueryEndSession,
    EndSession,
}

/// Asking windows to close: each gets both messages, in turn, while time is left. The
/// message is to be sent to the window with this number, where any time is left.
#[derive(Clone, Copy, Debug, PartialEq, Eq, Structural)]
pub struct SendClose {
    pub windows: usize,
    pub index: usize,
    pub message: CloseMessage,
}

impl SendClose {
    /// Whether the number is that of a window.
    pub open spec fn valid(self) -> bool {
        self.index < self.windows
    }

    /// What the time that is left when the message is to be sent leads to: nothing more where
    /// none is left, else the message is sent and the next one follows.
    pub open spec fn next(self, remaining_ms: u64) -> Option<SendClose> {
        if remaining_ms == 0 {
            None
        } else if self.message == CloseMessage::QueryEndSession {
            Some(SendClose { message: CloseMessage::EndSession, ..self })
        } else if self.index + 1 < self.windows {
            Some(
                SendClose {
                    windows: self.windows,
                    index: (self.index + 1) as usize,
                    message: CloseMessage::QueryEndSession,
                },
            )
        } else {
            None
        }
    }

    /// Goes on after the message.
    pub fn resume(self, remaining_ms: u64) -> (next: Option<SendClose>)
        requires
            self.valid(),
        ensures
            next == self.next(remaining_ms),
            next is Some ==> next->0.valid(),
    {
        if remaining_ms == 0 {
            return None;
        }
        match self.message {
            CloseMessage::QueryEndSession => Some(
                SendClose {
                    windows: self.windows,
                    index: self.index,
                    message: CloseMessage::EndSession,
                },
            ),
            CloseMessage::EndSession => if self.index + 1 < self.windows {
                Some(
                    SendClose {
                        windows: self.windows,
                        index: self.index + 1,
                        message: CloseMessage::QueryEndSession,
                    },
                )
            } else {
                None
            },
        }
    }
}

/// Begins to ask the windows to close, where there are any.
pub fn send_close_messages(windows: usize) -> (send: Option<SendClose>)
    ensures
        windows == 0 ==> send is None,
        windows > 0 ==> send == Some(
            (SendClose { windows, index: 0, message: CloseMessage::QueryEndSession }),
        ) && send->0.valid(),
{
    if windows == 0 {
        None
    } else {
        Some(SendClose { windows, index: 0, message: CloseMessage::QueryEndSession })
    }
}

/// How long one window gets to answer a message: what remains, at least one
/// millisecond and at most the limit.
pub fn message_timeout_ms(remaining_ms: u64) -> (timeout: u32)
    ensures
        timeout == (if remaining_ms < 1 {
            1
        } else if remaining_ms > MESSAGE_TIMEOUT_LIMIT_MS {
            MESSAGE_TIMEOUT_LIMIT_MS
        } else {
            remaining_ms
        }),
{
    if remaining_ms < 1 {
        1
    } else if remaining_ms > MESSAGE_TIMEOUT_LIMIT_MS {
        MESSAGE_TIMEOUT_LIMIT_MS as u32
    } else {
        remaining_ms as u32
    }
}

/// The argument that makes the client log in to a region.
pub fn login_region_argument(region: LoginRegion) -> (argument: String)
    ensures
        argument@ == "--setregion="@ + region.code(),
{
    text::joined2("--setregion=", region.launch_code())
}

/// The arguments that the client is launched with: none, or the region's.
pub fn launch_for_login(region: Option<LoginRegion>) -> (arguments: Vec<String>)
    ensures
        match region {
            None => arguments.len() == 0,
            Some(region) => arguments.len() == 1 && arguments@[0]@ == "--setregion="@
                + region.code(),
        },
{
    let mut arguments: Vec<String> = Vec::new();
    match region {
        None => {},
        Some(region) => {
            arguments.push(login_region_argument(region));
        },
    }
    arguments
}

/// The arguments that the client is launched with outside of a login: none.
pub fn launch() -> (arguments: Vec<String>)
    ensures
        arguments.len() == 0,
{
    launch_for_login(None)
}

/// How the client is started: the program, the directory that it is started in, and its
/// arguments.
#[derive(Debug)]
pub struct LaunchCommand {
    pub program: String,
    pub directory: String,
    pub arguments: Vec<String>,
}

/// Whether the command starts the program in the directory that holds it, and with the
/// region's argument, where there is a region.
pub open spec fn starts_client(
    command: LaunchCommand,
    program: Seq<char>,
    region: Option<LoginRegion>,
) -> bool {
    &&& command.program@ == program
    &&& paths::parent(program) == Some(command.directory@)
    &&& match region {
        None => command.arguments.len() == 0,
        Some(region) => command.arguments.len() == 1 && command.arguments@[0]@ == "--setregion="@
            + region.code(),
    }
}

/// The command that starts the client, where its program was validated: a program that
/// was not is not started.
pub fn launch_command(validated: Result<String, AppError>, region: Option<LoginRegion>) -> (command:
    Result<LaunchCommand, AppError>)
    ensures
        match validated {
            Err(error) => command == Err::<LaunchCommand, AppError>(error),
            Ok(program) => if paths::parent(program@) is Some {
                command is Ok && starts_client(command->Ok_0, program@, region)
            } else {
                command is Err && command->Err_0@ == ErrorView::ClientLaunch(
                    "无法确定 Battle.net.exe 的所在目录"@,
                )
            },
        },
{
    match validated {
        Err(error) => Err(error),
        Ok(program) => match paths::parent_directory(program.as_str()) {
            Some(directory) => Ok(
                LaunchCommand { program, directory, arguments: launch_for_login(region) },
            ),
            None => Err(
                AppError::ClientLaunch("无法确定 Battle.net.exe 的所在目录".to_owned()),
            ),
        },
    }
}

/// What starting the client came to: a command that could not be run says why.
pub fn launch_outcome(spawned: Result<(), String>) -> (outcome: Result<(), AppError>)
    ensures
        match spawned {
            Ok(_) => outcome is Ok,
            Err(message) => outcome is Err && outcome->Err_0@ == ErrorView::ClientLaunch(message@),
        },
{
    match spawned {
        Ok(_) => Ok(()),
        Err(message) => Err(AppError::ClientLaunch(message)),
    }
}

/// What a sample says while the client is being started: that it runs, that the
/// time is over, or that another sample is to be taken (`None`).
pub fn wait_for_client_started(sample: ProcessSample) -> (started: Option<Result<(), AppError>>)
    ensures
        match sample {
            ProcessSample::OutOfTime => started is Some && started->0 is Err
                && started->0->Err_0@ == ErrorView::ClientLaunch(
                "启动命令已发出，但未检测到 Battle.net 进程"@,
            ),
            ProcessSample::Processes(Err(error)) => started == Some(Err::<(), AppError>(error)),
            ProcessSample::Processes(Ok(processes)) => if processes.len() > 0 {
                started == Some(Ok::<(), AppError>(()))
            } else {
                started is None
            },
        },
{
    match sample {
        ProcessSample::OutOfTime => Some(
            Err(
                AppError::ClientLaunch("启动命令已发出，但未检测到 Battle.net 进程".to_owned()),
            ),
        ),
        ProcessSample::Processes(Err(error)) => Some(Err(error)),
        ProcessSample::Processes(Ok(processes)) => if is_client_running(&processes) {
            Some(Ok(()))
        } else {
            None
        },
    }
}

/// Whether a sample found the client gone.
pub open spec fn found_nothing(sample: ProcessSample) -> bool {
    sample matches ProcessSample::Processes(Ok(processes)) && processes.len() == 0
}

/// What the check has come to after the samples.
pub open spec fn checked(samples: Seq<ProcessSample>) -> StepView<StoppedCheck, ()>
    decreases samples.len(),
{
    if samples.len() == 0 {
        step::going(StoppedCheck { empty_samples: 0 })
    } else {
        match checked(samples.drop_last()) {
            StepView::Perform { operation, .. } => operation.next(samples.last()),
            StepView::Finished(result) => StepView::Finished(result),
        }
    }
}

/// The check succeeds exactly where its first two samples both found the client
/// gone.
pub proof fn law_stopped_needs_two_empty_samples(samples: Seq<ProcessSample>)
    ensures
        checked(samples) == step::ending::<StoppedCheck, ()>(()) <==> samples.len() >= 2
            && found_nothing(samples[0]) && found_nothing(samples[1]),
        checked(samples) is Perform <==> samples.len() < 2 && forall|i: int|
            0 <= i < samples.len() ==> found_nothing(#[trigger] samples[i]),
        checked(samples) matches StepView::Perform { operation, .. }
            ==> operation.empty_samples == samples.len(),
    decreases samples.len(),
{
    if samples.len() > 0 {
        let earlier = samples.drop_last();
        law_stopped_needs_two_empty_samples(earlier);
        if samples.len() == 1 {
            assert(earlier =~= Seq::<ProcessSample>::empty());
            assert(samples.last() == samples[0]);
        } else {
            assert(earlier[0] == samples[0]);
            if samples.len() == 2 {
                assert(samples.last() == samples[1]);
                assert(earlier.last() == samples[0]);
            } else {
                assert(earlier[1] == samples[1]);
            }
        }
    }
}

/// What closing the client has come to after the samples that followed the
/// request to close.
pub open spec fn closed_after(samples: Seq<ProcessSample>) -> StepView<GracefulStop, ()>
    decreases samples.len(),
{
    if samples.len() == 0 {
        step::going(GracefulStop::Waiting { empty_samples: 0 })
    } else {
        match closed_after(samples.drop_last()) {
            StepView::Perform { operation: GracefulStop::Waiting { empty_samples }, .. } =>
                GracefulStop::sampled(empty_samples, samples.last()),
            finished => finished,
        }
    }
}

/// While the client is closing, the samples at the end that found it gone are
/// counted; closing succeeds at the second of them in a row.
pub proof fn law_closed_needs_two_empty_samples_in_a_row(
    samples: Seq<ProcessSample>,
    sample: ProcessSample,
)
    requires
        closed_after(samples) is Perform,
    ensures
        closed_after(samples.push(sample)) == step::ending::<GracefulStop, ()>(()) <==>
            found_nothing(sample) && samples.len() >= 1 && found_nothing(samples.last()),
{
    assert(samples.push(sample).drop_last() =~= samples);
    lemma_counted(samples);
}

proof fn lemma_counted(samples: Seq<ProcessSample>)
    requires
        closed_after(samples) is Perform,
    ensures
        closed_after(samples) == step::going::<GracefulStop, ()>(
            GracefulStop::Waiting {
                empty_samples: if samples.len() >= 1 && found_nothing(samples.last()) {
                    1
                } else {
                    0
                },
            },
        ),
    decreases samples.len(),
{
    if samples.len() > 0 {
        lemma_counted(samples.drop_last());
    }
}

/// The processes whose windows are asked to close are exactly those of the client's main
/// program and of its launcher, by name in any case, and each of them as often as it is
/// listed.
pub proof fn law_windows_are_those_of_the_client_and_its_launcher(
    processes: Seq<ClientProcess>,
    id: u32,
)
    ensures
        window_ids(processes).contains(id) <==> exists|i: int|
            0 <= i < processes.len() && (#[trigger] processes[i]).process_id == id && (
            text::lowered(processes[i].name@) == text::lowered("Battle.net.exe"@) || text::lowered(
                processes[i].name@,
            ) == text::lowered("Battle.net Launcher.exe"@)),
        window_ids(processes).len() <= processes.len(),
    decreases processes.len(),
{
    if processes.len() > 0 {
        let front = processes.drop_last();
        let last = processes.last();
        law_windows_are_those_of_the_client_and_its_launcher(front, id);
        let ids = window_ids(front);
        let all = window_ids(processes);
        if all.contains(id) {
            let at = choose|at: int| 0 <= at < all.len() && all[at] == id;
            if at < ids.len() {
                assert(ids[at] == id);
                let i = choose|i: int|
                    0 <= i < front.len() && (#[trigger] front[i]).process_id == id && (
                    text::lowered(front[i].name@) == text::lowered("Battle.net.exe"@)
                        || text::lowered(front[i].name@) == text::lowered(
                        "Battle.net Launcher.exe"@,
                    ));
                assert(processes[i].process_id == id);
            } else {
                assert(processes[processes.len() - 1].process_id == id);
            }
        }
        if exists|i: int|
            0 <= i < processes.len() && (#[trigger] processes[i]).process_id == id && (
            text::lowered(processes[i].name@) == text::lowered("Battle.net.exe"@) || text::lowered(
                processes[i].name@,
            ) == text::lowered("Battle.net Launcher.exe"@)) {
            let i = choose|i: int|
                0 <= i < processes.len() && (#[trigger] processes[i]).process_id == id && (
                text::lowered(processes[i].name@) == text::lowered("Battle.net.exe"@)
                    || text::lowered(processes[i].name@) == text::lowered(
                    "Battle.net Launcher.exe"@,
                ));
            if i < front.len() {
                assert(front[i].process_id == id);
                let at = choose|at: int| 0 <= at < ids.len() && ids[at] == id;
                assert(all[at] == id);
            } else {
                assert(all[ids.len() as int] == id);
            }
        }
    }
}

impl GracefulStop {
    /// How the operation may go on.
    pub open spec fn leads() -> spec_fn(GracefulStop, StopReply, Step<GracefulStop, ()>) -> bool {
        |operation: GracefulStop, reply: StopReply, step: Step<GracefulStop, ()>|
            operation.leads_to(reply, step)
    }
}

/// Stopping the client succeeds at once where nothing of it runs. Else the windows of its
/// main program and launcher, where there are any, are asked to close, and after that it
/// succeeds exactly at two samples in a row that find nothing; a listing, a request or a
/// sample that fails, and the end of the time, end it in an error.
pub proof fn law_client_is_asked_to_close_and_waited_for(
    run: Seq<Taken<GracefulStop, StopReply, ()>>,
)
    requires
        step::is_taken_run(GracefulStop::leads(), GracefulStop::Looking, run),
    ensures
        run[0].reply is Listed && run[0].reply->Listed_0 is Ok ==> {
            let processes = run[0].reply->Listed_0->Ok_0@;
            &&& processes.len() == 0 ==> run.len() == 1 && step::taken_result(run) is Ok
            &&& processes.len() > 0 ==> run.len() > 1
            &&& processes.len() > 0 && window_ids(processes).len() > 0 ==> run[1].operation
                is Closing && run[1].operation->windows@ == window_ids(processes)
            &&& processes.len() > 0 && window_ids(processes).len() == 0 ==> run[1].operation == (
            GracefulStop::Waiting { empty_samples: 0 })
        },
        !(run[0].reply is Listed && run[0].reply->Listed_0 is Ok) ==> run.len() == 1
            && step::taken_result(run) is Err,
        run.len() > 1 && run[1].operation is Closing ==> {
            &&& run.len() > 2 <==> run[1].reply is Asked && run[1].reply->Asked_0 is Ok
            &&& run.len() > 2 ==> run[2].operation == (GracefulStop::Waiting { empty_samples: 0 })
            &&& run.len() == 2 ==> step::taken_result(run) is Err
        },
        run.len() > 1 ==> (step::taken_result(run) is Ok <==> {
            let w: int = if run[1].operation is Closing {
                2
            } else {
                1
            };
            &&& run.len() >= w + 2
            &&& is_empty_sample(run[run.len() - 1].reply)
            &&& is_empty_sample(run[run.len() - 2].reply)
        }),
{
    let leads = GracefulStop::leads();
    assert(step::goes_on(leads, run, 0));
    if run.len() > 1 {
        assert(step::goes_on(leads, run, 1));
        if run.len() > 2 {
            assert(step::goes_on(leads, run, 2));
        }
        let w: int = if run[1].operation is Closing {
            2
        } else {
            1
        };
        let last = run.len() - 1;
        if last >= w {
            lemma_stop_waits(run, w, last);
            assert(step::goes_on(leads, run, last));
        }
    }
}

/// Whether the sample was taken and found nothing.
pub open spec fn is_empty_sample(reply: StopReply) -> bool {
    reply matches StopReply::Sampled(ProcessSample::Processes(Ok(processes))) && processes.len()
        == 0
}

proof fn lemma_stop_waits(run: Seq<Taken<GracefulStop, StopReply, ()>>, w: int, i: int)
    requires
        step::is_taken_run(GracefulStop::leads(), GracefulStop::Looking, run),
        1 <= w <= i < run.len(),
        run[w].operation == (GracefulStop::Waiting { empty_samples: 0 }),
    ensures
        run[i].operation == (GracefulStop::Waiting {
            empty_samples: if i > w && is_empty_sample(run[i - 1].reply) {
                1
            } else {
                0
            },
        }),
    decreases i,
{
    if i > w {
        lemma_stop_waits(run, w, i - 1);
        assert(step::goes_on(GracefulStop::leads(), run, i - 1));
    }
}

/// Whether the process is one of the client's, with this id and name.
pub open spec fn is_client_entry(entry: ProcessEntry, value: (u32, Seq<char>)) -> bool {
    entry.process_id == value.0 && entry_name(entry) == value.1 && (text::lowered(value.1)
        == text::lowered("Battle.net.exe"@) || text::lowered(value.1) == text::lowered(
        "Battle.net Launcher.exe"@,
    ) || text::lowered(value.1) == text::lowered("Battle.net Helper.exe"@))
}

/// The processes that are found are exactly the listed ones whose name is that of the
/// client's main program, its launcher or its helper, in any case.
pub proof fn law_client_processes_are_found_by_name(
    entries: Seq<ProcessEntry>,
    value: (u32, Seq<char>),
)
    ensures
        client_entries(entries).contains(value) <==> exists|i: int|
            0 <= i < entries.len() && is_client_entry(#[trigger] entries[i], value),
    decreases entries.len(),
{
    if entries.len() > 0 {
        let front = entries.drop_last();
        law_client_processes_are_found_by_name(front, value);
        let some = client_entries(front);
        let all = client_entries(entries);
        if all.contains(value) {
            let at = choose|at: int| 0 <= at < all.len() && all[at] == value;
            if at < some.len() {
                assert(some[at] == value);
                let i = choose|i: int| 0 <= i < front.len() && is_client_entry(#[trigger] front[i], value);
                assert(is_client_entry(entries[i], value));
            } else {
                assert(is_client_entry(entries[entries.len() - 1], value));
            }
        }
        if exists|i: int| 0 <= i < entries.len() && is_client_entry(#[trigger] entries[i], value) {
            let i = choose|i: int| 0 <= i < entries.len() && is_client_entry(#[trigger] entries[i], value);
            if i < front.len() {
                assert(is_client_entry(front[i], value));
                let at = choose|at: int| 0 <= at < some.len() && some[at] == value;
                assert(all[at] == value);
            } else {
                assert(all[some.len() as int] == value);
            }
        }
    }
}

/// Exactly the windows of the given processes are asked to close.
pub proof fn law_windows_are_those_of_the_processes(
    windows: Seq<ProcessWindow>,
    process_ids: Seq<u32>,
    window: ProcessWindow,
)
    ensures
        windows_of(windows, process_ids).contains(window) <==> windows.contains(window)
            && process_ids.contains(window.process_id),
{
    let kept = |window: ProcessWindow| process_ids.contains(window.process_id);
    let found = windows.filter(kept);
    if found.contains(window) {
        windows.lemma_filter_contains_rev(kept, window);
        let i = choose|i: int| 0 <= i < found.len() && found[i] == window;
        windows.lemma_filter_pred(kept, i);
    }
    if windows.contains(window) && kept(window) {
        let i = choose|i: int| 0 <= i < windows.len() && windows[i] == window;
        windows.lemma_filter_contains(kept, i);
    }
}

/// Every window is first asked whether it can be closed and then told to, one window after
/// the other, until the last or until the time is over.
pub proof fn law_each_window_is_asked_and_then_told(operation: SendClose, remaining_ms: u64)
    requires
        operation.valid(),
    ensures
        operation.next(remaining_ms) is None <==> remaining_ms == 0 || (operation.index + 1
            == operation.windows && operation.message == CloseMessage::EndSession),
        operation.next(remaining_ms) is Some ==> {
            let next = operation.next(remaining_ms)->0;
            &&& next.windows == operation.windows
            &&& next.message != operation.message
            &&& operation.message == CloseMessage::QueryEndSession ==> next.index == operation.index
            &&& operation.message == CloseMessage::EndSession ==> next.index == operation.index + 1
        },
{
}

} // verus!
