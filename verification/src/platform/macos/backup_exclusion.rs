//! Keeping what holds a login out of the system's backups on macOS.

use vstd::prelude::*;

verus! {

/// What came of keeping a directory out of the backups: whether that could be set, and
/// what the system says of it afterwards, where it could be asked. A directory that is
/// not kept out cannot be used.
pub fn set_and_verify(set: bool, excluded: Result<Option<bool>, ()>) -> (result: Result<(), String>)
    ensures
        result is Ok == (set && excluded == Ok::<Option<bool>, ()>(Some(true))),
        !set ==> result->Err_0@ == "无法将敏感数据目录排除在系统备份之外"@,
        set && excluded is Err ==> result->Err_0@ == "无法验证敏感数据目录的备份排除属性"@,
        set && excluded is Ok && excluded->Ok_0 != Some(true) ==> result->Err_0@
            == "敏感数据目录未被系统备份排除，已停止创建认证快照"@,
{
    if !set {
        return Err("无法将敏感数据目录排除在系统备份之外".to_owned());
    }
    match excluded {
        Err(_) => Err("无法验证敏感数据目录的备份排除属性".to_owned()),
        Ok(Some(true)) => Ok(()),
        Ok(_) => Err("敏感数据目录未被系统备份排除，已停止创建认证快照".to_owned()),
    }
}

} // verus!
