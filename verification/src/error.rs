//! The errors that an account operation can end with, and their messages.

use vstd::prelude::*;

use crate::text;

verus! {

/// Why an account operation failed.
#[derive(Debug)]
pub enum AppError {
    AccountDatabaseMissing,
    AccountDatabaseIncompatible(String),
    AccountDatabase(String),
    ClientExecutableMissing,
    InvalidClientExecutable,
    DataStorage(String),
    Snapshot(String),
    Transaction(String),
    Login(String),
    OperationBusy,
    ClientStopTimeout,
    ClientLaunch(String),
    SystemPath { path: String, reason: String },
    StateUnavailable,
    Message(String),
}

/// An [`AppError`] with its texts as character sequences.
pub enum ErrorView {
    AccountDatabaseMissing,
    AccountDatabaseIncompatible(Seq<char>),
    AccountDatabase(Seq<char>),
    ClientExecutableMissing,
    InvalidClientExecutable,
    DataStorage(Seq<char>),
    Snapshot(Seq<char>),
    Transaction(Seq<char>),
    Login(Seq<char>),
    OperationBusy,
    ClientStopTimeout,
    ClientLaunch(Seq<char>),
    SystemPath { path: Seq<char>, reason: Seq<char> },
    StateUnavailable,
    Message(Seq<char>),
}

impl View for AppError {
    type V = ErrorView;

    open spec fn view(&self) -> ErrorView {
        match *self {
            AppError::AccountDatabaseMissing => ErrorView::AccountDatabaseMissing,
            AppError::AccountDatabaseIncompatible(m) => ErrorView::AccountDatabaseIncompatible(m@),
            AppError::AccountDatabase(m) => ErrorView::AccountDatabase(m@),
            AppError::ClientExecutableMissing => ErrorView::ClientExecutableMissing,
            AppError::InvalidClientExecutable => ErrorView::InvalidClientExecutable,
            AppError::DataStorage(m) => ErrorView::DataStorage(m@),
            AppError::Snapshot(m) => ErrorView::Snapshot(m@),
            AppError::Transaction(m) => ErrorView::Transaction(m@),
            AppError::Login(m) => ErrorView::Login(m@),
            AppError::OperationBusy => ErrorView::OperationBusy,
            AppError::ClientStopTimeout => ErrorView::ClientStopTimeout,
            AppError::ClientLaunch(m) => ErrorView::ClientLaunch(m@),
            AppError::SystemPath { path, reason } => ErrorView::SystemPath {
                path: path@,
                reason: reason@,
            },
            AppError::StateUnavailable => ErrorView::StateUnavailable,
            AppError::Message(m) => ErrorView::Message(m@),
        }
    }
}

impl ErrorView {
    /// The message shown to the user.
    pub open spec fn message(self) -> Seq<char> {
        match self {
            ErrorView::AccountDatabaseMissing =>
                "未找到 Battle.net 本地账号数据，请先安装并登录一次战网客户端"@,
            ErrorView::AccountDatabaseIncompatible(m) =>
                "当前 Battle.net 账号缓存格式不受支持："@ + m,
            ErrorView::AccountDatabase(m) => "无法读取 Battle.net 账号缓存："@ + m,
            ErrorView::ClientExecutableMissing =>
                "找不到 Battle.net 客户端，请点击“选择战网客户端”重新指定"@,
            ErrorView::InvalidClientExecutable => "请选择有效的 Battle.net 客户端"@,
            ErrorView::DataStorage(m) => "应用数据目录不可用："@ + m,
            ErrorView::Snapshot(m) => "账号快照不可用："@ + m,
            ErrorView::Transaction(m) => "切换事务失败："@ + m,
            ErrorView::Login(m) => "登录流程失败："@ + m,
            ErrorView::OperationBusy => "另一个账号操作正在进行，请稍后再试"@,
            ErrorView::ClientStopTimeout =>
                "战网客户端未能在限定时间内正常退出，已取消操作；不会强制结束进程"@,
            ErrorView::ClientLaunch(m) => "无法启动 Battle.net："@ + m,
            ErrorView::SystemPath { path, reason } =>
                "无法读取系统目录 "@ + path + "："@ + reason,
            ErrorView::StateUnavailable => "操作状态不可用，请重启程序"@,
            ErrorView::Message(m) => m,
        }
    }

    /// The message inside another error's message: transaction and login
    /// errors leave their own heading out.
    pub open spec fn nested(self) -> Seq<char> {
        match self {
            ErrorView::Transaction(m) => m,
            ErrorView::Login(m) => m,
            _ => self.message(),
        }
    }
}

impl AppError {
    /// The message shown to the user.
    pub fn message(&self) -> (text: String)
        ensures
            text@ == self@.message(),
    {
        match self {
            AppError::AccountDatabaseMissing =>
                "未找到 Battle.net 本地账号数据，请先安装并登录一次战网客户端".to_owned(),
            AppError::AccountDatabaseIncompatible(m) =>
                text::joined2("当前 Battle.net 账号缓存格式不受支持：", m.as_str()),
            AppError::AccountDatabase(m) =>
                text::joined2("无法读取 Battle.net 账号缓存：", m.as_str()),
            AppError::ClientExecutableMissing =>
                "找不到 Battle.net 客户端，请点击“选择战网客户端”重新指定".to_owned(),
            AppError::InvalidClientExecutable => "请选择有效的 Battle.net 客户端".to_owned(),
            AppError::DataStorage(m) => text::joined2("应用数据目录不可用：", m.as_str()),
            AppError::Snapshot(m) => text::joined2("账号快照不可用：", m.as_str()),
            AppError::Transaction(m) => text::joined2("切换事务失败：", m.as_str()),
            AppError::Login(m) => text::joined2("登录流程失败：", m.as_str()),
            AppError::OperationBusy => "另一个账号操作正在进行，请稍后再试".to_owned(),
            AppError::ClientStopTimeout =>
                "战网客户端未能在限定时间内正常退出，已取消操作；不会强制结束进程".to_owned(),
            AppError::ClientLaunch(m) => text::joined2("无法启动 Battle.net：", m.as_str()),
            AppError::SystemPath { path, reason } => text::joined4(
                "无法读取系统目录 ",
                path.as_str(),
                "：",
                reason.as_str(),
            ),
            AppError::StateUnavailable => "操作状态不可用，请重启程序".to_owned(),
            AppError::Message(m) => m.clone(),
        }
    }

    /// The message to be put into another error's message.
    pub fn nested_message(&self) -> (text: String)
        ensures
            text@ == self@.nested(),
    {
        match self {
            AppError::Transaction(m) => m.clone(),
            AppError::Login(m) => m.clone(),
            _ => self.message(),
        }
    }
}

} // verus!
