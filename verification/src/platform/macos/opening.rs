//! Opening what the service works with on macOS: the application's directory and the
//! directory of the saved accounts.

use vstd::prelude::*;

use crate::data_store;
use crate::data_store::DataStore;
use crate::error::AppError;
use crate::error::ErrorView;
use crate::platform::macos::unix_path;
use crate::step::Moment;
use crate::step::Taken;
use crate::step;
use crate::step::Step;
use crate::step::StepView;
use crate::text;

verus! {

/// Whether the store is the one in the user's `Application Support` directory.
pub open spec fn is_store_in(store: DataStore, application_support: Seq<char>) -> bool {
    &&& store.directory() == unix_path::adjoined(application_support, "BnetSwitchLite"@)
    &&& store.hidden_accounts_file() == unix_path::adjoined(
        store.directory(),
        "hidden-accounts.json"@,
    )
    &&& store.settings_file() == unix_path::adjoined(store.directory(), "settings.json"@)
}

/// Opening the application's directory: it has to be private and kept out of the system's
/// backups, and files can be written to it. Each state names the work that is to be done.
#[derive(Debug)]
pub enum OpenStore {
    /// The user's `Application Support` directory is to be found out.
    Locating,
    /// The application's directory is to be made private, and created where it is not there.
    Securing { store: DataStore },
    /// It is to be kept out of the backups.
    Excluding { store: DataStore },
    /// It is to be tried to write a file there.
    Probing { store: DataStore },
}

/// What came of the work for opening directories.
#[derive(Debug)]
pub enum OpenReply {
    /// The user's `Application Support` directory.
    Located(Option<String>),
    Secured(Result<(), AppError>),
    Excluded(Result<(), String>),
    Written(Result<(), String>),
}

/// The error of a directory that cannot be written to.
pub open spec fn unwritable(directory: Seq<char>, error: Seq<char>) -> Seq<char> {
    "应用数据目录不可写。"@ + "请检查当前用户的 Application Support 目录权限"@ + "："@ + directory + ("（"@
        + error + "）"@)
}

impl OpenStore {
    /// Whether the answer leads to the step.
    pub open spec fn leads_to(self, reply: OpenReply, step: Step<OpenStore, DataStore>) -> bool {
        match (self, reply) {
            (OpenStore::Locating, OpenReply::Located(Some(directory))) => if unix_path::absolute(
                directory@,
            ) {
                &&& step matches Step::Perform {
                    operation: OpenStore::Securing { store },
                    report: None,
                }
                &&& is_store_in(store, directory@)
            } else {
                step@ == step::failing::<OpenStore, DataStore>(
                    ErrorView::DataStorage("系统返回了无效的 Application Support 路径"@),
                )
            },
            _ => step@ == self.next(reply),
        }
    }

    /// What the answer leads to, but for the directory that was found.
    pub open spec fn next(self, reply: OpenReply) -> StepView<OpenStore, DataStore> {
        match (self, reply) {
            (OpenStore::Locating, OpenReply::Located(None)) => step::failing(
                ErrorView::DataStorage("无法确定当前用户的 Application Support 目录"@),
            ),
            (OpenStore::Securing { store }, OpenReply::Secured(secured)) => match secured {
                Err(error) => step::failing(
                    ErrorView::DataStorage("无法安全打开应用数据目录："@ + error@.message()),
                ),
                Ok(_) => step::going(OpenStore::Excluding { store }),
            },
            (OpenStore::Excluding { store }, OpenReply::Excluded(excluded)) => match excluded {
                Err(error) => step::failing(ErrorView::DataStorage(error@)),
                Ok(_) => step::going(OpenStore::Probing { store }),
            },
            (OpenStore::Probing { store }, OpenReply::Written(written)) => match written {
                Err(error) => step::failing(
                    ErrorView::DataStorage(unwritable(store.directory(), error@)),
                ),
                Ok(_) => step::ending(store),
            },
            _ => step::confused(),
        }
    }

    /// Takes the answer.
    pub fn resume(self, reply: OpenReply) -> (step: Step<OpenStore, DataStore>)
        ensures
            self.leads_to(reply, step),
    {
        match (self, reply) {
            (OpenStore::Locating, OpenReply::Located(located)) => match located {
                None => step::fail(
                    AppError::DataStorage(
                        "无法确定当前用户的 Application Support 目录".to_owned(),
                    ),
                ),
                Some(directory) => {
                    if !unix_path::is_absolute(directory.as_str()) {
                        return step::fail(
                            AppError::DataStorage(
                                "系统返回了无效的 Application Support 路径".to_owned(),
                            ),
                        );
                    }
                    step::go(
                        OpenStore::Securing {
                            store: DataStore::open_for_macos(directory.as_str()),
                        },
                    )
                },
            },
            (OpenStore::Securing { store }, OpenReply::Secured(secured)) => match secured {
                Err(error) => step::fail(
                    AppError::DataStorage(
                        text::joined2("无法安全打开应用数据目录：", error.message().as_str()),
                    ),
                ),
                Ok(_) => step::go(OpenStore::Excluding { store }),
            },
            (OpenStore::Excluding { store }, OpenReply::Excluded(excluded)) => match excluded {
                Err(error) => step::fail(AppError::DataStorage(error)),
                Ok(_) => step::go(OpenStore::Probing { store }),
            },
            (OpenStore::Probing { store }, OpenReply::Written(written)) =>
                match data_store::verify_writable(
                    store.data_directory(),
                    "请检查当前用户的 Application Support 目录权限",
                    written,
                ) {
                    Err(error) => step::fail(AppError::DataStorage(error)),
                    Ok(_) => step::end(store),
                },
            _ => step::give_up(),
        }
    }
}

/// Begins to open the application's directory.
pub fn open_store() -> (operation: OpenStore)
    ensures
        operation == OpenStore::Locating,
{
    OpenStore::Locating
}

/// The application's directory is opened only where, one after the other, it was made
/// private, it was kept out of the backups, and a file could be written to it.
pub proof fn law_store_is_opened_only_where_it_is_usable(
    operation: OpenStore,
    reply: OpenReply,
    step: Step<OpenStore, DataStore>,
)
    requires
        operation.leads_to(reply, step),
    ensures
        step matches Step::Finished(Ok(opened)) ==> (operation matches OpenStore::Probing { store }
            && opened == store && (reply matches OpenReply::Written(Ok(_)))),
        step matches Step::Perform { operation: OpenStore::Probing { store }, .. } ==> (
        operation matches OpenStore::Excluding { store: kept } && kept == store
            && (reply matches OpenReply::Excluded(Ok(_)))),
        step matches Step::Perform { operation: OpenStore::Excluding { store }, .. } ==> (
        operation matches OpenStore::Securing { store: kept } && kept == store
            && (reply matches OpenReply::Secured(Ok(_)))),
        step matches Step::Perform { operation: OpenStore::Securing { store }, .. } ==> (
        reply matches OpenReply::Located(Some(directory)) && unix_path::absolute(directory@)
            && is_store_in(store, directory@)),
{
}

/// Opening the directory of the saved accounts. Each state names the work that is to be
/// done.
#[derive(Clone, Copy, Debug, PartialEq, Eq, Structural)]
pub enum OpenAccounts {
    /// The directory is to be made private, and created where it is not there.
    Securing,
    /// It is to be kept out of the backups.
    Excluding,
}

impl OpenAccounts {
    /// What the answer leads to.
    pub open spec fn next(self, reply: OpenReply) -> StepView<OpenAccounts, ()> {
        match (self, reply) {
            (OpenAccounts::Securing, OpenReply::Secured(secured)) => match secured {
                Err(error) => step::failing(error@),
                Ok(_) => step::going(OpenAccounts::Excluding),
            },
            (OpenAccounts::Excluding, OpenReply::Excluded(excluded)) => match excluded {
                Err(error) => step::failing(ErrorView::Snapshot(error@)),
                Ok(_) => step::ending(()),
            },
            _ => step::confused(),
        }
    }

    /// Takes the answer.
    pub fn resume(self, reply: OpenReply) -> (step: Step<OpenAccounts, ()>)
        ensures
            step@ == self.next(reply),
    {
        match (self, reply) {
            (OpenAccounts::Securing, OpenReply::Secured(secured)) => match secured {
                Err(error) => step::fail(error),
                Ok(_) => step::go(OpenAccounts::Excluding),
            },
            (OpenAccounts::Excluding, OpenReply::Excluded(excluded)) => match excluded {
                Err(error) => step::fail(AppError::Snapshot(error)),
                Ok(_) => step::end(()),
            },
            _ => step::give_up(),
        }
    }
}

impl OpenStore {
    /// How the operation may go on.
    pub open spec fn leads() -> spec_fn(OpenStore, OpenReply, Step<OpenStore, DataStore>) -> bool {
        |operation: OpenStore, reply: OpenReply, step: Step<OpenStore, DataStore>|
            operation.leads_to(reply, step)
    }
}

/// Opening the application's directory succeeds exactly where the user's `Application
/// Support` was found at an absolute path, the application's directory in it was made
/// private and kept out of the backups, and a file could be written there.
pub proof fn law_store_stands_in_application_support(
    run: Seq<Taken<OpenStore, OpenReply, DataStore>>,
)
    requires
        step::is_taken_run(OpenStore::leads(), OpenStore::Locating, run),
    ensures
        step::taken_result(run) is Ok <==> {
            let store = run[1].operation->Securing_store;
            &&& run.len() == 4
            &&& run[0].reply is Located
            &&& run[0].reply->Located_0 is Some
            &&& unix_path::absolute(run[0].reply->Located_0->0@)
            &&& run[1].operation is Securing
            &&& run[1].reply is Secured
            &&& run[1].reply->Secured_0 is Ok
            &&& run[2].operation == (OpenStore::Excluding { store })
            &&& run[2].reply is Excluded
            &&& run[2].reply->Excluded_0 is Ok
            &&& run[3].operation == (OpenStore::Probing { store })
            &&& run[3].reply is Written
            &&& run[3].reply->Written_0 is Ok
        },
        step::taken_result(run) is Ok ==> {
            let store = run[1].operation->Securing_store;
            step::taken_result(run) == Ok::<DataStore, ErrorView>(store)
        },
        step::taken_result(run) is Ok ==> is_store_in(step::taken_result(run)->Ok_0, run[0].reply->Located_0->0@),
        run.len() <= 4,
{
    let steps = OpenStore::leads();
    assert(step::goes_on(steps, run, 0));
    if run.len() > 1 {
        assert(step::goes_on(steps, run, 1));
    }
    if run.len() > 2 {
        assert(step::goes_on(steps, run, 2));
    }
    if run.len() > 3 {
        assert(step::goes_on(steps, run, 3));
    }
}

impl OpenAccounts {
    /// How the operation goes on.
    pub open spec fn steps() -> spec_fn(OpenAccounts, OpenReply) -> StepView<
        OpenAccounts,
        (),
    > {
        |operation: OpenAccounts, reply: OpenReply| operation.next(reply)
    }
}

/// The directory of the saved accounts is opened exactly where it was made private and
/// kept out of the backups.
pub proof fn law_accounts_directory_is_private_and_excluded(
    run: Seq<Moment<OpenAccounts, OpenReply>>,
)
    requires
        step::is_run(OpenAccounts::steps(), OpenAccounts::Securing, run),
    ensures
        step::result_of(OpenAccounts::steps(), run) is Ok <==> {
            &&& run.len() == 2
            &&& run[0].reply is Secured
            &&& run[0].reply->Secured_0 is Ok
            &&& run[1].operation is Excluding
            &&& run[1].reply is Excluded
            &&& run[1].reply->Excluded_0 is Ok
        },
        run.len() <= 2,
{
    let steps = OpenAccounts::steps();
    assert(step::follows(steps, run, 0));
    if run.len() > 1 {
        assert(step::follows(steps, run, 1));
    }
}

} // verus!
