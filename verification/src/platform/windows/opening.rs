//! Opening what the service works with on Windows: the application's directory, the
//! directory of the saved accounts, and the recovery slot.

use vstd::prelude::*;

use crate::data_store;
use crate::data_store::DataStore;
use crate::data_store::DirectoryPart;
use crate::error::AppError;
use crate::error::ErrorView;
use crate::platform::windows::paths;
use crate::platform::windows::recovery::OpenSlot;
use crate::platform::windows::recovery::OpenSlotReply;
use crate::step::Moment;
use crate::step::Taken;
use crate::step;
use crate::step::Step;
use crate::step::StepView;
use crate::text;

verus! {

/// Whether the store is the one beside the executable in the directory.
pub open spec fn is_store_beside(store: DataStore, application_directory: Seq<char>) -> bool {
    &&& store.directory() == paths::adjoined(application_directory, "BnetSwitchLiteData"@)
    &&& store.hidden_accounts_file() == paths::adjoined(
        store.directory(),
        "hidden-accounts.json"@,
    )
    &&& store.settings_file() == paths::adjoined(store.directory(), "settings.json"@)
}

/// Opening the application's directory: it stands beside the executable, no part of its path
/// may be a redirection, and files can be written to it. Each state names the work that is
/// to be done.
#[derive(Debug)]
pub enum OpenStore {
    /// The directory of the executable is to be found out.
    Locating,
    /// The application's directory is to be created where it is not there.
    Creating { store: DataStore },
    /// The attributes of the parts of its path are to be read.
    CheckingPath { store: DataStore },
    /// It is to be tried to write a file there.
    Probing { store: DataStore },
}

/// What came of the work for [`OpenStore`].
#[derive(Debug)]
pub enum OpenStoreReply {
    /// The directory of the executable, where it has one.
    Located(Result<Option<String>, String>),
    Io(Result<(), String>),
    Parts(Vec<DirectoryPart>),
}

/// The error of a directory that cannot be written to.
pub open spec fn unwritable(directory: Seq<char>, error: Seq<char>) -> Seq<char> {
    "应用数据目录不可写。"@ + "请将 BnetSwitchLite 完整目录移动到可写位置后重试"@ + "："@ + directory + ("（"@
        + error + "）"@)
}

impl OpenStore {
    /// Whether the answer leads to the step.
    pub open spec fn leads_to(
        self,
        reply: OpenStoreReply,
        step: Step<OpenStore, DataStore>,
    ) -> bool {
        match (self, reply) {
            (OpenStore::Locating, OpenStoreReply::Located(Ok(Some(directory)))) => {
                &&& step matches Step::Perform {
                    operation: OpenStore::Creating { store },
                    report: None,
                }
                &&& is_store_beside(store, directory@)
            },
            _ => step@ == self.next(reply),
        }
    }

    /// What the answer leads to, but for the directory that was found.
    pub open spec fn next(self, reply: OpenStoreReply) -> StepView<OpenStore, DataStore> {
        match (self, reply) {
            (OpenStore::Locating, OpenStoreReply::Located(Err(error))) => step::failing(
                ErrorView::DataStorage("无法确定程序所在目录："@ + error@),
            ),
            (OpenStore::Locating, OpenStoreReply::Located(Ok(None))) => step::failing(
                ErrorView::DataStorage("无法确定程序所在目录"@),
            ),
            (OpenStore::Creating { store }, OpenStoreReply::Io(created)) => match created {
                Err(error) => step::failing(
                    ErrorView::DataStorage(
                        "无法创建应用数据目录 "@ + store.directory() + "："@ + error@,
                    ),
                ),
                Ok(_) => step::going(OpenStore::CheckingPath { store }),
            },
            (OpenStore::CheckingPath { store }, OpenStoreReply::Parts(parts)) =>
                match data_store::directory_error(parts@) {
                    Some(error) => step::failing(ErrorView::DataStorage(error)),
                    None => step::going(OpenStore::Probing { store }),
                },
            (OpenStore::Probing { store }, OpenStoreReply::Io(written)) => match written {
                Err(error) => step::failing(
                    ErrorView::DataStorage(unwritable(store.directory(), error@)),
                ),
                Ok(_) => step::ending(store),
            },
            _ => step::confused(),
        }
    }

    /// Takes the answer.
    pub fn resume(self, reply: OpenStoreReply) -> (step: Step<OpenStore, DataStore>)
        ensures
            self.leads_to(reply, step),
    {
        match (self, reply) {
            (OpenStore::Locating, OpenStoreReply::Located(located)) => match located {
                Err(error) => step::fail(
                    AppError::DataStorage(
                        text::joined2("无法确定程序所在目录：", error.as_str()),
                    ),
                ),
                Ok(None) => step::fail(AppError::DataStorage("无法确定程序所在目录".to_owned())),
                Ok(Some(directory)) => step::go(
                    OpenStore::Creating { store: DataStore::open_for_windows(directory.as_str()) },
                ),
            },
            (OpenStore::Creating { store }, OpenStoreReply::Io(created)) => match created {
                Err(error) => step::fail(
                    AppError::DataStorage(
                        text::joined4(
                            "无法创建应用数据目录 ",
                            store.data_directory(),
                            "：",
                            error.as_str(),
                        ),
                    ),
                ),
                Ok(_) => step::go(OpenStore::CheckingPath { store }),
            },
            (OpenStore::CheckingPath { store }, OpenStoreReply::Parts(parts)) =>
                match data_store::reject_reparse_data_directory(&parts) {
                    Err(error) => step::fail(AppError::DataStorage(error)),
                    Ok(_) => step::go(OpenStore::Probing { store }),
                },
            (OpenStore::Probing { store }, OpenStoreReply::Io(written)) =>
                match data_store::verify_writable(
                    store.data_directory(),
                    "请将 BnetSwitchLite 完整目录移动到可写位置后重试",
                    written,
                ) {
                    Err(error) => step::fail(AppError::DataStorage(error)),
                    Ok(_) => step::end(store),
                },
            _ => step::give_up(),
        }
    }
}

/// Begins to open the application's directory.
pub fn open_store() -> (operation: OpenStore)
    ensures
        operation == OpenStore::Locating,
{
    OpenStore::Locating
}

/// The application's directory is opened only where, one after the other, it was created or
/// found, no part of its path was found to be a redirection, and a file could be written to
/// it.
pub proof fn law_store_is_opened_only_where_it_is_usable(
    operation: OpenStore,
    reply: OpenStoreReply,
    step: Step<OpenStore, DataStore>,
)
    requires
        operation.leads_to(reply, step),
    ensures
        step matches Step::Finished(Ok(opened)) ==> (operation matches OpenStore::Probing { store }
            && opened == store && (reply matches OpenStoreReply::Io(Ok(_)))),
        step matches Step::Perform { operation: OpenStore::Probing { store }, .. } ==> (
        operation matches OpenStore::CheckingPath { store: checked } && checked == store
            && (reply matches OpenStoreReply::Parts(parts) && data_store::directory_error(parts@)
            is None)),
        step matches Step::Perform { operation: OpenStore::CheckingPath { store }, .. } ==> (
        operation matches OpenStore::Creating { store: created } && created == store
            && (reply matches OpenStoreReply::Io(Ok(_)))),
        step matches Step::Perform { operation: OpenStore::Creating { store }, .. } ==> (
        reply matches OpenStoreReply::Located(Ok(Some(directory))) && is_store_beside(
            store,
            directory@,
        )),
{
}

/// Opening the directory of the saved accounts. Each state names the work that is to be
/// done.
#[derive(Clone, Copy, Debug, PartialEq, Eq, Structural)]
pub enum OpenAccounts {
    /// The directory is to be created where it is not there.
    Creating,
    /// Its path is to be checked.
    CheckingPath,
}

/// What came of the work for opening directories.
#[derive(Debug)]
pub enum OpenReply {
    Io(Result<(), String>),
    Checked(Result<(), AppError>),
    Exists(bool),
    Slot(OpenSlotReply),
}

impl OpenAccounts {
    /// What the answer leads to.
    pub open spec fn next(self, reply: OpenReply) -> StepView<OpenAccounts, ()> {
        match (self, reply) {
            (OpenAccounts::Creating, OpenReply::Io(created)) => match created {
                Err(error) => step::failing(ErrorView::Snapshot("无法创建快照目录："@ + error@)),
                Ok(_) => step::going(OpenAccounts::CheckingPath),
            },
            (OpenAccounts::CheckingPath, OpenReply::Checked(checked)) => match checked {
                Err(error) => step::failing(error@),
                Ok(_) => step::ending(()),
            },
            _ => step::confused(),
        }
    }

    /// Takes the answer.
    pub fn resume(self, reply: OpenReply) -> (step: Step<OpenAccounts, ()>)
        ensures
            step@ == self.next(reply),
    {
        match (self, reply) {
            (OpenAccounts::Creating, OpenReply::Io(created)) => match created {
                Err(error) => step::fail(
                    AppError::Snapshot(text::joined2("无法创建快照目录：", error.as_str())),
                ),
                Ok(_) => step::go(OpenAccounts::CheckingPath),
            },
            (OpenAccounts::CheckingPath, OpenReply::Checked(checked)) => match checked {
                Err(error) => step::fail(error),
                Ok(_) => step::end(()),
            },
            _ => step::give_up(),
        }
    }
}

/// Opening what switches need: the application's directory and, where they are there, the
/// client's files may not lie behind a redirection, and then the slot is opened. Each state
/// names the work that is to be done.
#[derive(Debug)]
pub enum OpenRestore {
    /// The application's directory is to be created where it is not there.
    Creating,
    /// Its path is to be checked.
    CheckingPath,
    /// It is to be found out whether the client's files are there.
    LookingForActive,
    /// Their path is to be checked.
    CheckingActive,
    /// The slot is to be opened.
    OpeningSlot { slot: OpenSlot },
}

/// The step of opening the slot as one of the whole.
pub open spec fn slot_step(step: StepView<OpenSlot, ()>) -> StepView<OpenRestore, ()> {
    match step {
        StepView::Perform { operation, report } => StepView::Perform {
            operation: OpenRestore::OpeningSlot { slot: operation },
            report,
        },
        StepView::Finished(result) => StepView::Finished(result),
    }
}

impl OpenRestore {
    /// Whether the operation on the slot is one that can be resumed.
    pub open spec fn valid(self) -> bool {
        self matches OpenRestore::OpeningSlot { slot } ==> slot.valid()
    }

    /// What the answer leads to.
    pub open spec fn next(self, reply: OpenReply) -> StepView<OpenRestore, ()> {
        match (self, reply) {
            (OpenRestore::Creating, OpenReply::Io(created)) => match created {
                Err(error) => step::failing(
                    ErrorView::Transaction("无法创建便携数据目录："@ + error@),
                ),
                Ok(_) => step::going(OpenRestore::CheckingPath),
            },
            (OpenRestore::CheckingPath, OpenReply::Checked(checked)) => match checked {
                Err(error) => step::failing(error@),
                Ok(_) => step::going(OpenRestore::LookingForActive),
            },
            (OpenRestore::LookingForActive, OpenReply::Exists(exists)) => if exists {
                step::going(OpenRestore::CheckingActive)
            } else {
                step::going(OpenRestore::OpeningSlot { slot: OpenSlot::Creating })
            },
            (OpenRestore::CheckingActive, OpenReply::Checked(checked)) => match checked {
                Err(error) => step::failing(error@),
                Ok(_) => step::going(OpenRestore::OpeningSlot { slot: OpenSlot::Creating }),
            },
            (OpenRestore::OpeningSlot { slot }, OpenReply::Slot(reply)) => slot_step(
                slot.next(reply),
            ),
            _ => step::confused(),
        }
    }

    /// Takes the answer.
    pub fn resume(self, reply: OpenReply) -> (step: Step<OpenRestore, ()>)
        requires
            self.valid(),
        ensures
            step@ == self.next(reply),
            step matches Step::Perform { operation, .. } ==> operation.valid(),
    {
        match (self, reply) {
            (OpenRestore::Creating, OpenReply::Io(created)) => match created {
                Err(error) => step::fail(
                    AppError::Transaction(
                        text::joined2("无法创建便携数据目录：", error.as_str()),
                    ),
                ),
                Ok(_) => step::go(OpenRestore::CheckingPath),
            },
            (OpenRestore::CheckingPath, OpenReply::Checked(checked)) => match checked {
                Err(error) => step::fail(error),
                Ok(_) => step::go(OpenRestore::LookingForActive),
            },
            (OpenRestore::LookingForActive, OpenReply::Exists(exists)) => if exists {
                step::go(OpenRestore::CheckingActive)
            } else {
                step::go(OpenRestore::OpeningSlot { slot: OpenSlot::Creating })
            },
            (OpenRestore::CheckingActive, OpenReply::Checked(checked)) => match checked {
                Err(error) => step::fail(error),
                Ok(_) => step::go(OpenRestore::OpeningSlot { slot: OpenSlot::Creating }),
            },
            (OpenRestore::OpeningSlot { slot }, OpenReply::Slot(reply)) => match slot.resume(
                reply,
            ) {
                Step::Perform { operation, report } => Step::Perform {
                    operation: OpenRestore::OpeningSlot { slot: operation },
                    report,
                },
                Step::Finished(result) => Step::Finished(result),
            },
            _ => step::give_up(),
        }
    }
}

/// The slot is opened only after the application's directory, and the client's files where
/// they are there, were found to lie behind no redirection.
pub proof fn law_slot_is_opened_after_the_paths_were_checked(
    operation: OpenRestore,
    reply: OpenReply,
)
    ensures
        operation.next(reply) matches StepView::Perform {
            operation: OpenRestore::OpeningSlot { slot },
            ..
        } ==> operation is OpeningSlot || (slot is Creating && ((operation is CheckingActive
            && (reply matches OpenReply::Checked(Ok(_)))) || (operation is LookingForActive && reply
            == OpenReply::Exists(false)))),
        operation.next(reply) matches StepView::Perform {
            operation: OpenRestore::LookingForActive,
            ..
        } ==> operation is CheckingPath && (reply matches OpenReply::Checked(Ok(_))),
        operation.next(reply) matches StepView::Finished(Ok(_)) ==> operation is OpeningSlot,
{
}

impl OpenStore {
    /// How the operation may go on.
    pub open spec fn leads() -> spec_fn(OpenStore, OpenStoreReply, Step<OpenStore, DataStore>) -> bool {
        |operation: OpenStore, reply: OpenStoreReply, step: Step<OpenStore, DataStore>|
            operation.leads_to(reply, step)
    }
}

/// Opening the application's directory succeeds exactly where the directory of the
/// executable was found, the application's directory beside it was created, no part of its
/// path is a redirection, and a file could be written there.
pub proof fn law_store_stands_beside_the_executable(
    run: Seq<Taken<OpenStore, OpenStoreReply, DataStore>>,
)
    requires
        step::is_taken_run(OpenStore::leads(), OpenStore::Locating, run),
    ensures
        step::taken_result(run) is Ok <==> {
            let store = run[1].operation->Creating_store;
            &&& run.len() == 4
            &&& run[0].reply is Located
            &&& run[0].reply->Located_0 is Ok
            &&& run[0].reply->Located_0->Ok_0 is Some
            &&& run[1].operation is Creating
            &&& run[1].reply is Io
            &&& run[1].reply->Io_0 is Ok
            &&& run[2].operation == (OpenStore::CheckingPath { store })
            &&& run[2].reply is Parts
            &&& forall|i: int|
                0 <= i < run[2].reply->Parts_0@.len() ==> (#[trigger] run[2].reply->Parts_0@[i]).attributes is Ok
                    && !paths::redirects(run[2].reply->Parts_0@[i].attributes->Ok_0)
            &&& run[3].operation == (OpenStore::Probing { store })
            &&& run[3].reply is Io
            &&& run[3].reply->Io_0 is Ok
        },
        step::taken_result(run) is Ok ==> {
            let store = run[1].operation->Creating_store;
            step::taken_result(run) == Ok::<DataStore, ErrorView>(store)
        },
        step::taken_result(run) is Ok ==> is_store_beside(step::taken_result(run)->Ok_0, run[0].reply->Located_0->Ok_0->0@),
        run.len() <= 4,
{
    let steps = OpenStore::leads();
    assert(step::goes_on(steps, run, 0));
    if run.len() > 1 {
        assert(step::goes_on(steps, run, 1));
    }
    if run.len() > 2 {
        assert(step::goes_on(steps, run, 2));
    }
    if run.len() > 3 {
        assert(step::goes_on(steps, run, 3));
    }
    if run.len() > 2 {
        data_store::law_no_part_of_the_directory_is_a_redirection(run[2].reply->Parts_0@);
    }
}

impl OpenAccounts {
    /// How the operation goes on.
    pub open spec fn steps() -> spec_fn(OpenAccounts, OpenReply) -> StepView<
        OpenAccounts,
        (),
    > {
        |operation: OpenAccounts, reply: OpenReply| operation.next(reply)
    }
}

/// The directory of the saved accounts is opened exactly where it was created and its path
/// was in order.
pub proof fn law_accounts_directory_is_created_and_checked(
    run: Seq<Moment<OpenAccounts, OpenReply>>,
)
    requires
        step::is_run(OpenAccounts::steps(), OpenAccounts::Creating, run),
    ensures
        step::result_of(OpenAccounts::steps(), run) is Ok <==> {
            &&& run.len() == 2
            &&& run[0].reply is Io
            &&& run[0].reply->Io_0 is Ok
            &&& run[1].operation is CheckingPath
            &&& run[1].reply is Checked
            &&& run[1].reply->Checked_0 is Ok
        },
        run.len() <= 2,
{
    let steps = OpenAccounts::steps();
    assert(step::follows(steps, run, 0));
    if run.len() > 1 {
        assert(step::follows(steps, run, 1));
    }
}

} // verus!
