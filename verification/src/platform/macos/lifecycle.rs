//! Listing the user's processes on macOS, and stopping and starting the client.

use vstd::prelude::*;

use crate::contracts::LoginRegion;
use crate::error::AppError;
use crate::error::ErrorView;
use crate::platform::macos::process;
use crate::platform::macos::process::RelatedProcess;
use crate::platform::macos::process::RelatedProcessView;
use crate::platform::macos::process::ValidatedClient;
use crate::platform::macos::unix_path;
use crate::step::Taken;
use crate::step;
use crate::step::Step;
use crate::step::StepView;
use crate::text;

verus! {

/// The bytes that the system takes for the number of one process.
pub const PID_SIZE: usize = 4;

/// Listing a user's processes: the list is read into a buffer that has to be larger
/// than what is read. The result is the number of processes that were read.
#[derive(Clone, Copy, Debug, PartialEq, Eq, Structural)]
pub enum EnumeratePids {
    /// It is to be found out how many bytes the list takes.
    Sizing,
    /// The list is to be read into a buffer for this many processes; how often that
    /// was tried before.
    Reading { capacity: usize, attempts: u8 },
}

/// The bytes of a buffer for this many processes.
pub open spec fn buffer_bytes(capacity: usize) -> int {
    capacity * PID_SIZE
}

/// The step that reads the list, where the buffer is not too large.
pub open spec fn reading(capacity: int, attempts: u8) -> StepView<EnumeratePids, usize> {
    if capacity * PID_SIZE > i32::MAX {
        step::failing(ErrorView::Message("macOS 进程列表过大，无法安全读取"@))
    } else {
        step::going(EnumeratePids::Reading { capacity: capacity as usize, attempts })
    }
}

fn read_list(capacity: usize, attempts: u8) -> (step: Step<EnumeratePids, usize>)
    ensures
        step@ == reading(capacity as int, attempts),
{
    if capacity > 0x7fff_ffff / PID_SIZE {
        step::fail(AppError::Message("macOS 进程列表过大，无法安全读取".to_owned()))
    } else {
        step::go(EnumeratePids::Reading { capacity, attempts })
    }
}

impl EnumeratePids {
    /// Whether the buffer is not too large.
    pub open spec fn valid(self) -> bool {
        self matches EnumeratePids::Reading { capacity, attempts } ==> buffer_bytes(capacity)
            <= i32::MAX && attempts < process::MAX_PID_ENUMERATION_ATTEMPTS
    }

    /// What the number of bytes that the system gave leads to.
    pub open spec fn next(self, bytes: i32) -> StepView<EnumeratePids, usize> {
        if bytes <= 0 {
            step::failing(ErrorView::Message("无法读取 macOS 进程列表"@))
        } else {
            match self {
                EnumeratePids::Sizing => reading(
                    bytes as int / (PID_SIZE as int) + process::PID_BUFFER_HEADROOM,
                    0,
                ),
                EnumeratePids::Reading { capacity, attempts } => if bytes < buffer_bytes(
                    capacity,
                ) {
                    step::ending((bytes as int / (PID_SIZE as int)) as usize)
                } else if attempts + 1 >= process::MAX_PID_ENUMERATION_ATTEMPTS {
                    step::failing(
                        ErrorView::Message(
                            "macOS 进程列表持续变化，无法确认 Battle.net 是否已退出"@,
                        ),
                    )
                } else {
                    reading(2 * capacity, (attempts + 1) as u8)
                },
            }
        }
    }

    /// Takes the number of bytes that the system gave.
    pub fn resume(self, bytes: i32) -> (step: Step<EnumeratePids, usize>)
        requires
            self.valid(),
        ensures
            step@ == self.next(bytes),
            step matches Step::Perform { operation, .. } ==> operation.valid(),
    {
        if bytes <= 0 {
            return step::fail(AppError::Message("无法读取 macOS 进程列表".to_owned()));
        }
        let used: usize = bytes as usize;
        match self {
            EnumeratePids::Sizing => read_list(used / PID_SIZE + process::PID_BUFFER_HEADROOM, 0),
            EnumeratePids::Reading { capacity, attempts } => {
                if used < capacity * PID_SIZE {
                    step::end(used / PID_SIZE)
                } else if attempts + 1 >= process::MAX_PID_ENUMERATION_ATTEMPTS {
                    step::fail(
                        AppError::Message(
                            "macOS 进程列表持续变化，无法确认 Battle.net 是否已退出".to_owned(),
                        ),
                    )
                } else {
                    read_list(2 * capacity, attempts + 1)
                }
            },
        }
    }
}

/// Begins to list a user's processes.
pub fn enumerate_user_pids() -> (operation: EnumeratePids)
    ensures
        operation == EnumeratePids::Sizing,
        operation.valid(),
{
    EnumeratePids::Sizing
}

/// Whether each number is less than those after it.
pub open spec fn rising(pids: Seq<i32>) -> bool {
    forall|i: int, j: int| 0 <= i < j < pids.len() ==> pids[i] < pids[j]
}

fn insert_pid(pids: &mut Vec<i32>, pid: i32)
    requires
        rising(old(pids)@),
    ensures
        rising(final(pids)@),
        final(pids)@.to_set() == old(pids)@.to_set().insert(pid),
{
    let ghost before = pids@;
    let mut at: usize = 0;
    while at < pids.len() && pids[at] < pid
        invariant
            at <= pids.len(),
            pids@ == before,
            forall|j: int| 0 <= j < at ==> before[j] < pid,
        decreases pids.len() - at,
    {
        at = at + 1;
    }
    if at < pids.len() && pids[at] == pid {
        proof {
            assert(before.contains(pid)) by {
                assert(before[at as int] == pid);
            }
            assert(before.to_set().insert(pid) =~= before.to_set());
        }
        return;
    }
    pids.insert(at, pid);
    proof {
        assert(pids@ =~= before.insert(at as int, pid));
        assert forall|i: int, j: int| 0 <= i < j < pids@.len() implies pids@[i] < pids@[j] by {
            if j < at {
                assert(pids@[i] == before[i] && pids@[j] == before[j]);
            } else if j == at {
                assert(pids@[i] == before[i]);
            } else if i < at {
                assert(pids@[i] == before[i] && pids@[j] == before[j - 1]);
            } else if i == at {
                assert(pids@[j] == before[j - 1]);
                if j - 1 > at {
                    assert(before[at as int] < before[j - 1]);
                }
            } else {
                assert(pids@[i] == before[i - 1] && pids@[j] == before[j - 1]);
            }
        }
        let after = pids@;
        assert forall|p: i32| #[trigger] after.to_set().contains(p) == before.to_set().insert(
            pid,
        ).contains(p) by {
            if before.contains(p) {
                let k = choose|k: int| 0 <= k < before.len() && before[k] == p;
                if k < at {
                    assert(after[k] == p);
                } else {
                    assert(after[k + 1] == p);
                }
                assert(after.contains(p));
            }
            if p == pid {
                assert(after[at as int] == pid);
                assert(after.contains(p));
            }
            if after.contains(p) && p != pid {
                let k = choose|k: int| 0 <= k < after.len() && after[k] == p;
                if k < at {
                    assert(before[k] == p);
                } else {
                    assert(before[k - 1] == p);
                }
                assert(before.contains(p));
            }
        }
        assert(after.to_set() =~= before.to_set().insert(pid));
    }
}

/// The processes that are looked at: the user's own, and those of the system's
/// administrator, where that is somebody else; those come in rising order, each once.
pub fn enumerate_relevant_user_pids(own: Vec<i32>, root: Option<Vec<i32>>) -> (pids: Vec<i32>)
    ensures
        match root {
            None => pids == own,
            Some(root) => {
                &&& rising(pids@)
                &&& pids@.to_set() == own@.to_set().union(root@.to_set())
            },
        },
{
    let root = match root {
        None => {
            return own;
        },
        Some(root) => root,
    };
    let mut pids: Vec<i32> = Vec::new();
    let mut i: usize = 0;
    assert(pids@.to_set() =~= own@.take(0).to_set());
    while i < own.len()
        invariant
            i <= own.len(),
            rising(pids@),
            pids@.to_set() == own@.take(i as int).to_set(),
        decreases own.len() - i,
    {
        insert_pid(&mut pids, own[i]);
        proof {
            lemma_longer(own@, i as int);
        }
        i = i + 1;
    }
    assert(own@.take(i as int) =~= own@);
    let mut j: usize = 0;
    assert(own@.to_set().union(root@.take(0).to_set()) =~= own@.to_set());
    while j < root.len()
        invariant
            j <= root.len(),
            rising(pids@),
            pids@.to_set() == own@.to_set().union(root@.take(j as int).to_set()),
        decreases root.len() - j,
    {
        insert_pid(&mut pids, root[j]);
        proof {
            lemma_longer(root@, j as int);
            assert(own@.to_set().union(root@.take(j as int).to_set()).insert(root@[j as int])
                =~= own@.to_set().union(root@.take(j as int).to_set().insert(root@[j as int])));
        }
        j = j + 1;
    }
    assert(root@.take(j as int) =~= root@);
    pids
}

proof fn lemma_longer(pids: Seq<i32>, i: int)
    requires
        0 <= i < pids.len(),
    ensures
        pids.take(i + 1).to_set() == pids.take(i).to_set().insert(pids[i]),
{
    let shorter = pids.take(i);
    let longer = pids.take(i + 1);
    assert forall|p: i32| longer.contains(p) == (shorter.contains(p) || p == pids[i]) by {
        if shorter.contains(p) {
            let k = choose|k: int| 0 <= k < shorter.len() && shorter[k] == p;
            assert(longer[k] == p);
        }
        assert(longer[i] == pids[i]);
        if longer.contains(p) && p != pids[i] {
            let k = choose|k: int| 0 <= k < longer.len() && longer[k] == p;
            assert(shorter[k] == p);
        }
    }
    assert(longer.to_set() =~= shorter.to_set().insert(pids[i]));
}

/// The client's processes at one moment, or that the time is over.
#[derive(Debug)]
pub enum ProcessSample {
    OutOfTime,
    Processes(Result<Vec<RelatedProcess>, AppError>),
}

/// The processes of the sample that have to end before the client counts as stopped.
pub open spec fn still_running(client: ValidatedClient, processes: Seq<RelatedProcess>) -> Seq<
    RelatedProcessView,
> {
    process::runtime(client, process::process_views(processes))
}

/// Waiting for the client to have been gone in samples in a row: how many there were
/// so far.
#[derive(Clone, Copy, Debug, PartialEq, Eq, Structural)]
pub struct StoppedCheck {
    pub empty_samples: u8,
}

/// Makes sure that the client is not running: samples are taken until two in a row
/// find nothing of it, and one that finds its main process ends the check.
pub fn ensure_client_stopped() -> (check: StoppedCheck)
    ensures
        check.empty_samples == 0,
{
    StoppedCheck { empty_samples: 0 }
}

impl StoppedCheck {
    /// What a sample leads to.
    pub open spec fn next(self, client: ValidatedClient, sample: ProcessSample) -> StepView<
        StoppedCheck,
        (),
    > {
        match sample {
            ProcessSample::OutOfTime => step::failing(
                ErrorView::Message("无法确认 Battle.net 已完全退出，已取消操作"@),
            ),
            ProcessSample::Processes(Err(error)) => step::failing(error@),
            ProcessSample::Processes(Ok(processes)) => {
                let left = still_running(client, processes@);
                if left.len() == 0 {
                    if self.empty_samples + 1 >= process::REQUIRED_EMPTY_SAMPLES {
                        step::ending(())
                    } else {
                        step::going(StoppedCheck { empty_samples: (self.empty_samples + 1) as u8 })
                    }
                } else if process::has_main(client, left) {
                    step::failing(
                        ErrorView::Message("检测到 Battle.net 已重新启动，已在修改配置前取消操作"@),
                    )
                } else {
                    step::going(StoppedCheck { empty_samples: 0 })
                }
            },
        }
    }

    /// Takes a sample.
    pub fn resume(self, client: &ValidatedClient, sample: ProcessSample) -> (step: Step<
        StoppedCheck,
        (),
    >)
        ensures
            step@ == self.next(*client, sample),
    {
        match sample {
            ProcessSample::OutOfTime => step::fail(
                AppError::Message("无法确认 Battle.net 已完全退出，已取消操作".to_owned()),
            ),
            ProcessSample::Processes(Err(error)) => step::fail(error),
            ProcessSample::Processes(Ok(processes)) => {
                let left = process::client_runtime_processes(client, &processes);
                assert(process::process_views(left@).len() == left.len());
                if left.len() == 0 {
                    if self.empty_samples >= process::REQUIRED_EMPTY_SAMPLES - 1 {
                        step::end(())
                    } else {
                        step::go(StoppedCheck { empty_samples: self.empty_samples + 1 })
                    }
                } else if process::is_main_client_running(client, &left) {
                    step::fail(
                        AppError::Message(
                            "检测到 Battle.net 已重新启动，已在修改配置前取消操作".to_owned(),
                        ),
                    )
                } else {
                    step::go(StoppedCheck { empty_samples: 0 })
                }
            },
        }
    }
}

/// Whether the sample found nothing of the client.
pub open spec fn found_nothing(client: ValidatedClient, sample: ProcessSample) -> bool {
    sample matches ProcessSample::Processes(Ok(processes)) && still_running(
        client,
        processes@,
    ).len() == 0
}

/// What the check has come to after the samples.
pub open spec fn checked(client: ValidatedClient, samples: Seq<ProcessSample>) -> StepView<
    StoppedCheck,
    (),
>
    decreases samples.len(),
{
    if samples.len() == 0 {
        step::going(StoppedCheck { empty_samples: 0 })
    } else {
        match checked(client, samples.drop_last()) {
            StepView::Perform { operation, .. } => operation.next(client, samples.last()),
            finished => finished,
        }
    }
}

/// The client counts as stopped exactly at the second sample in a row that finds
/// nothing of it.
pub proof fn law_stopped_needs_two_empty_samples_in_a_row(
    client: ValidatedClient,
    samples: Seq<ProcessSample>,
    sample: ProcessSample,
)
    requires
        checked(client, samples) is Perform,
    ensures
        checked(client, samples.push(sample)) == step::ending::<StoppedCheck, ()>(()) <==>
            found_nothing(client, sample) && samples.len() >= 1 && found_nothing(
            client,
            samples.last(),
        ),
{
    assert(samples.push(sample).drop_last() =~= samples);
    lemma_checked(client, samples);
}

proof fn lemma_checked(client: ValidatedClient, samples: Seq<ProcessSample>)
    requires
        checked(client, samples) is Perform,
    ensures
        checked(client, samples)->operation.empty_samples == (if samples.len() >= 1
            && found_nothing(client, samples.last()) {
            1int
        } else {
            0int
        }),
    decreases samples.len(),
{
    if samples.len() > 0 {
        lemma_checked(client, samples.drop_last());
    }
}

/// Closing the client: each of its processes that is still there is asked to end, and
/// then the client has to have been gone in samples in a row.
#[derive(Debug)]
pub enum GracefulStop {
    /// The client's processes are to be listed.
    Looking,
    /// The client's processes are to be listed again, before the one with this number
    /// is asked to end.
    Rechecking { targets: Vec<RelatedProcess>, index: usize },
    /// The process with this number is to be asked to end.
    Asking { targets: Vec<RelatedProcess>, index: usize },
    /// A sample is to be taken.
    Waiting { empty_samples: u8 },
}

/// What came of the work for [`GracefulStop`].
#[derive(Debug)]
pub enum StopReply {
    Listed(Result<Vec<RelatedProcess>, AppError>),
    Asked,
    Sampled(ProcessSample),
}

/// Whether the process is still among the others.
pub open spec fn is_there(processes: Seq<RelatedProcessView>, process: RelatedProcessView) -> bool {
    exists|i: int|
        0 <= i < processes.len() && (#[trigger] processes[i]).pid == process.pid
            && unix_path::same(processes[i].path, process.path)
}

fn still_there(processes: &Vec<RelatedProcess>, process: &RelatedProcess) -> (yes: bool)
    ensures
        yes == is_there(process::process_views(processes@), process@),
{
    let ghost views = process::process_views(processes@);
    let mut i: usize = 0;
    while i < processes.len()
        invariant
            i <= processes.len(),
            views == process::process_views(processes@),
            forall|j: int|
                0 <= j < i ==> !((#[trigger] views[j]).pid == process.pid && unix_path::same(
                    views[j].path,
                    process.path@,
                )),
        decreases processes.len() - i,
    {
        assert(views[i as int] == processes@[i as int]@);
        if processes[i].pid == process.pid && unix_path::same_path(
            processes[i].path.as_str(),
            process.path.as_str(),
        ) {
            return true;
        }
        i = i + 1;
    }
    false
}

/// The step after the process with this number.
pub open spec fn after_process(targets: Vec<RelatedProcess>, index: usize) -> StepView<
    GracefulStop,
    (),
> {
    if index + 1 < targets.len() {
        step::going(GracefulStop::Rechecking { targets, index: (index + 1) as usize })
    } else {
        step::going(GracefulStop::Waiting { empty_samples: 0 })
    }
}

fn next_process(targets: Vec<RelatedProcess>, index: usize) -> (step: Step<GracefulStop, ()>)
    requires
        index < targets.len(),
    ensures
        step@ == after_process(targets, index),
{
    if index + 1 < targets.len() {
        step::go(GracefulStop::Rechecking { targets, index: index + 1 })
    } else {
        step::go(GracefulStop::Waiting { empty_samples: 0 })
    }
}

impl GracefulStop {
    /// Whether the number is that of a process.
    pub open spec fn valid(self) -> bool {
        match self {
            GracefulStop::Rechecking { targets, index } => index < targets.len(),
            GracefulStop::Asking { targets, index } => index < targets.len(),
            _ => true,
        }
    }

    /// What a sample leads to while the client is closing.
    pub open spec fn sampled(client: ValidatedClient, empty_samples: u8, sample: ProcessSample) ->
        StepView<GracefulStop, ()> {
        match sample {
            ProcessSample::OutOfTime => step::failing(ErrorView::ClientStopTimeout),
            ProcessSample::Processes(Err(error)) => step::failing(error@),
            ProcessSample::Processes(Ok(processes)) => if still_running(client, processes@).len()
                > 0 {
                step::going(GracefulStop::Waiting { empty_samples: 0 })
            } else if empty_samples + 1 >= process::REQUIRED_EMPTY_SAMPLES {
                step::ending(())
            } else {
                step::going(GracefulStop::Waiting { empty_samples: (empty_samples + 1) as u8 })
            },
        }
    }

    /// Whether the answer leads to the step.
    pub open spec fn leads_to(
        self,
        client: ValidatedClient,
        reply: StopReply,
        step: Step<GracefulStop, ()>,
    ) -> bool {
        match (self, reply) {
            (GracefulStop::Looking, StopReply::Listed(Err(error))) => step@ == step::failing::<
                GracefulStop,
                (),
            >(error@),
            (GracefulStop::Looking, StopReply::Listed(Ok(processes))) => if still_running(
                client,
                processes@,
            ).len() == 0 {
                step@ == step::ending::<GracefulStop, ()>(())
            } else {
                &&& step matches Step::Perform {
                    operation: GracefulStop::Rechecking { targets, index },
                    report: None,
                }
                &&& process::process_views(targets@) == still_running(client, processes@)
                &&& index == 0
            },
            (GracefulStop::Rechecking { .. }, StopReply::Listed(Err(error))) => step@
                == step::failing::<GracefulStop, ()>(error@),
            (GracefulStop::Rechecking { targets, index }, StopReply::Listed(Ok(processes))) =>
                step@ == (if is_there(
                    still_running(client, processes@),
                    targets@[index as int]@,
                ) {
                    step::going::<GracefulStop, ()>(GracefulStop::Asking { targets, index })
                } else {
                    after_process(targets, index)
                }),
            (GracefulStop::Asking { targets, index }, StopReply::Asked) => step@ == after_process(
                targets,
                index,
            ),
            (GracefulStop::Waiting { empty_samples }, StopReply::Sampled(sample)) => step@
                == GracefulStop::sampled(client, empty_samples, sample),
            _ => step@ == step::confused::<GracefulStop, ()>(),
        }
    }

    /// Takes the answer.
    pub fn resume(self, client: &ValidatedClient, reply: StopReply) -> (step: Step<
        GracefulStop,
        (),
    >)
        requires
            self.valid(),
        ensures
            self.leads_to(*client, reply, step),
            step matches Step::Perform { operation, .. } ==> operation.valid(),
    {
        match (self, reply) {
            (GracefulStop::Looking, StopReply::Listed(Err(error))) => step::fail(error),
            (GracefulStop::Looking, StopReply::Listed(Ok(processes))) => {
                let targets = process::client_runtime_processes(client, &processes);
                assert(process::process_views(targets@).len() == targets.len());
                if targets.len() == 0 {
                    step::end(())
                } else {
                    step::go(GracefulStop::Rechecking { targets, index: 0 })
                }
            },
            (GracefulStop::Rechecking { targets: _, index: _ }, StopReply::Listed(Err(error))) =>
                step::fail(error),
            (GracefulStop::Rechecking { targets, index }, StopReply::Listed(Ok(processes))) => {
                let left = process::client_runtime_processes(client, &processes);
                if still_there(&left, &targets[index]) {
                    step::go(GracefulStop::Asking { targets, index })
                } else {
                    next_process(targets, index)
                }
            },
            (GracefulStop::Asking { targets, index }, StopReply::Asked) => next_process(
                targets,
                index,
            ),
            (GracefulStop::Waiting { empty_samples }, StopReply::Sampled(sample)) => match sample {
                ProcessSample::OutOfTime => step::fail(AppError::ClientStopTimeout),
                ProcessSample::Processes(Err(error)) => step::fail(error),
                ProcessSample::Processes(Ok(processes)) => if process::is_client_running(
                    client,
                    &processes,
                ) {
                    step::go(GracefulStop::Waiting { empty_samples: 0 })
                } else if empty_samples >= process::REQUIRED_EMPTY_SAMPLES - 1 {
                    step::end(())
                } else {
                    step::go(GracefulStop::Waiting { empty_samples: empty_samples + 1 })
                },
            },
            _ => step::give_up(),
        }
    }
}

/// Closes the client.
pub fn graceful_stop() -> (stop: GracefulStop)
    ensures
        stop == GracefulStop::Looking,
        stop.valid(),
{
    GracefulStop::Looking
}

/// A process is asked to end only right after it was found, with the same path, among
/// the client's.
pub proof fn law_only_the_clients_processes_are_asked_to_end(
    client: ValidatedClient,
    operation: GracefulStop,
    reply: StopReply,
    step: Step<GracefulStop, ()>,
)
    requires
        operation.leads_to(client, reply, step),
    ensures
        step matches Step::Perform { operation: GracefulStop::Asking { targets, index }, .. } ==> (
        reply matches StopReply::Listed(Ok(processes)) && is_there(
            still_running(client, processes@),
            targets@[index as int]@,
        )),
{
}

/// What is done to launch the client.
#[derive(Debug)]
pub enum LaunchAction {
    /// Nothing: the client runs.
    Nothing,
    /// The client is opened with these arguments.
    OpenWith(Vec<String>),
    /// The client is opened.
    Open,
}

/// The argument that makes the client log in to a region.
pub fn login_region_argument(region: LoginRegion) -> (argument: String)
    ensures
        argument@ == "--setregion="@ + region.code(),
{
    text::joined2("--setregion=", region.launch_code())
}

/// What is done to launch the client for a login in a region; `running` says whether its
/// main process runs.
pub fn launch_for_login(running: bool, region: Option<LoginRegion>) -> (action: LaunchAction)
    ensures
        match action {
            LaunchAction::Nothing => running,
            LaunchAction::OpenWith(arguments) => !running && region is Some && arguments.len() == 1
                && arguments@[0]@ == "--setregion="@ + region->0.code(),
            LaunchAction::Open => !running && region is None,
        },
{
    if running {
        return LaunchAction::Nothing;
    }
    match region {
        Some(region) => {
            let mut arguments: Vec<String> = Vec::new();
            arguments.push(login_region_argument(region));
            LaunchAction::OpenWith(arguments)
        },
        None => LaunchAction::Open,
    }
}

/// What is done to launch the client outside of a login.
pub fn launch(running: bool) -> (action: LaunchAction)
    ensures
        action == (if running {
            LaunchAction::Nothing
        } else {
            LaunchAction::Open
        }),
{
    launch_for_login(running, None)
}

/// What came of opening the client.
pub fn launched(opened: bool) -> (result: Result<(), AppError>)
    ensures
        result is Ok == opened,
        result is Err ==> result->Err_0@ == ErrorView::ClientLaunch(
            "Launch Services 拒绝打开 Battle.net.app"@,
        ),
{
    if opened {
        Ok(())
    } else {
        Err(AppError::ClientLaunch("Launch Services 拒绝打开 Battle.net.app".to_owned()))
    }
}

/// What a sample says while the client is being started: that its main process runs,
/// that the time is over, or that another sample is to be taken (`None`).
pub fn wait_for_client_started(client: &ValidatedClient, sample: ProcessSample) -> (started: Option<
    Result<(), AppError>,
>)
    ensures
        match sample {
            ProcessSample::OutOfTime => started is Some && started->0 is Err
                && started->0->Err_0@ == ErrorView::ClientLaunch(
                "启动命令已发出，但未检测到 Battle.net 进程"@,
            ),
            ProcessSample::Processes(Err(error)) => started == Some(Err::<(), AppError>(error)),
            ProcessSample::Processes(Ok(processes)) => if process::has_main(
                *client,
                process::process_views(processes@),
            ) {
                started == Some(Ok::<(), AppError>(()))
            } else {
                started is None
            },
        },
{
    match sample {
        ProcessSample::OutOfTime => Some(
            Err(
                AppError::ClientLaunch("启动命令已发出，但未检测到 Battle.net 进程".to_owned()),
            ),
        ),
        ProcessSample::Processes(Err(error)) => Some(Err(error)),
        ProcessSample::Processes(Ok(processes)) => if process::is_main_client_running(
            client,
            &processes,
        ) {
            Some(Ok(()))
        } else {
            None
        },
    }
}

impl GracefulStop {
    /// How the operation may go on.
    pub open spec fn leads(client: ValidatedClient) -> spec_fn(
        GracefulStop,
        StopReply,
        Step<GracefulStop, ()>,
    ) -> bool {
        |operation: GracefulStop, reply: StopReply, step: Step<GracefulStop, ()>|
            operation.leads_to(client, reply, step)
    }
}

/// Whether the sample was taken and found nothing of the client.
pub open spec fn is_empty_sample(client: ValidatedClient, reply: StopReply) -> bool {
    reply matches StopReply::Sampled(ProcessSample::Processes(Ok(processes))) && still_running(
        client,
        processes@,
    ).len() == 0
}

proof fn lemma_stop_waits(
    client: ValidatedClient,
    run: Seq<Taken<GracefulStop, StopReply, ()>>,
    i: int,
)
    requires
        step::is_taken_run(GracefulStop::leads(client), GracefulStop::Looking, run),
        1 <= i < run.len(),
    ensures
        !(run[i].operation is Looking),
        run[i].operation matches GracefulStop::Waiting { empty_samples } ==> empty_samples == (
        if is_empty_sample(client, run[i - 1].reply) && run[i - 1].operation is Waiting {
            1int
        } else {
            0int
        }),
    decreases i,
{
    if i > 1 {
        lemma_stop_waits(client, run, i - 1);
    }
    assert(step::goes_on(GracefulStop::leads(client), run, i - 1));
}

/// Stopping the client succeeds exactly where nothing of it runs at first, or where, once its
/// processes were asked to end, two samples in a row find nothing of it. Every process that
/// ran at first is looked for again, one after the other, and asked to end where it is still
/// there.
pub proof fn law_client_is_stopped_after_two_empty_samples(
    client: ValidatedClient,
    run: Seq<Taken<GracefulStop, StopReply, ()>>,
    i: int,
)
    requires
        step::is_taken_run(GracefulStop::leads(client), GracefulStop::Looking, run),
        0 <= i < run.len(),
    ensures
        step::taken_result(run) is Ok <==> {
            ||| run.len() == 1 && (run[0].reply matches StopReply::Listed(Ok(processes))
                && still_running(client, processes@).len() == 0)
            ||| {
                &&& run.len() > 2
                &&& run[run.len() - 1].operation is Waiting
                &&& run[run.len() - 2].operation is Waiting
                &&& is_empty_sample(client, run[run.len() - 1].reply)
                &&& is_empty_sample(client, run[run.len() - 2].reply)
            }
        },
        run.len() > 1 ==> run[1].operation is Rechecking && run[1].operation->Rechecking_index == 0
            && process::process_views(run[1].operation->Rechecking_targets@) == still_running(
            client,
            run[0].reply->Listed_0->Ok_0@,
        ),
        run[i].operation is Rechecking && run[i].reply is Listed && run[i].reply->Listed_0 is Ok ==> {
            let targets = run[i].operation->Rechecking_targets;
            let index = run[i].operation->Rechecking_index;
            &&& i + 1 < run.len()
            &&& is_there(
                still_running(client, run[i].reply->Listed_0->Ok_0@),
                targets@[index as int]@,
            ) <==> run[i + 1].operation == (GracefulStop::Asking { targets, index })
        },
        run[i].operation is Asking && run[i].reply is Asked ==> {
            let targets = run[i].operation->Asking_targets;
            let index = run[i].operation->Asking_index;
            &&& i + 1 < run.len()
            &&& if index + 1 < targets.len() {
                run[i + 1].operation == (GracefulStop::Rechecking {
                    targets,
                    index: (index + 1) as usize,
                })
            } else {
                run[i + 1].operation == (GracefulStop::Waiting { empty_samples: 0 })
            }
        },
{
    let leads = GracefulStop::leads(client);
    assert(step::goes_on(leads, run, 0));
    assert(step::goes_on(leads, run, i));
    let last = run.len() - 1;
    if last > 0 {
        lemma_stop_waits(client, run, last);
        assert(step::goes_on(leads, run, last));
        assert(step::goes_on(leads, run, last - 1));
    }
}

} // verus!
