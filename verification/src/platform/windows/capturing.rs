//! Copying the client's files on Windows: each regular file is copied once, and the
//! manifest names it with the size and the digest of what was copied.

use vstd::prelude::*;

use crate::data_store::WrittenDocument;
use crate::error::AppError;
use crate::error::ErrorView;
use crate::ordered;
use crate::ordered::TextEntry;
use crate::ordered::TextMap;
use crate::outside;
use crate::platform::windows::paths;
use crate::platform::windows::paths::FileFacts;
use crate::platform::windows::snapshot;
use crate::platform::windows::snapshot::FileSetManifest;
use crate::platform::windows::snapshot::ManifestFile;
use crate::platform::windows::snapshot_store;
use crate::step::Moment;
use crate::step::Taken;
use crate::step;
use crate::step::Step;
use crate::step::StepView;
use crate::text;

verus! {

/// What was copied: its size and its digest.
#[derive(Debug)]
pub struct CopiedFile {
    pub size: u64,
    pub sha256: String,
}

/// A [`CopiedFile`] with its text as a character sequence.
pub struct CopiedFileView {
    pub size: u64,
    pub sha256: Seq<char>,
}

impl View for CopiedFile {
    type V = CopiedFileView;

    open spec fn view(&self) -> CopiedFileView {
        CopiedFileView { size: self.size, sha256: self.sha256@ }
    }
}

/// The size and the digest of the bytes.
pub open spec fn copy_of(bytes: Seq<u8>) -> CopiedFileView {
    CopiedFileView { size: bytes.len() as u64, sha256: outside::sha256_hex(bytes) }
}

/// Copying a file. Each state names the work that is to be done.
#[derive(Debug)]
pub enum CopyFile {
    /// The source is to be looked at.
    Looking { source: String },
    /// The source is to be opened.
    Opening,
    /// The destination is to be created, where nothing may be.
    Creating,
    /// The source is to be read.
    Reading,
    /// The bytes are to be written to the destination.
    Writing { bytes: Vec<u8> },
    /// The destination is to be made durable.
    Syncing { bytes: Vec<u8> },
}

/// What came of the work for [`CopyFile`].
#[derive(Debug)]
pub enum CopyReply {
    Facts(Result<FileFacts, String>),
    Io(Result<(), String>),
    Bytes(Result<Vec<u8>, String>),
}

/// An error of a saved account with its cause.
pub open spec fn snapshot_failure(context: Seq<char>, error: String) -> ErrorView {
    ErrorView::Snapshot(context + error@)
}

fn snapshot_error(context: &str, error: String) -> (failure: AppError)
    ensures
        failure@ == snapshot_failure(context@, error),
{
    AppError::Snapshot(text::joined2(context, error.as_str()))
}

impl CopyFile {
    /// What the answer leads to.
    pub open spec fn next(self, reply: CopyReply) -> StepView<CopyFile, CopiedFileView> {
        match (self, reply) {
            (CopyFile::Looking { source }, CopyReply::Facts(facts)) => match facts {
                Err(error) => step::failing(snapshot_failure("无法读取源文件属性："@, error)),
                Ok(facts) => if !facts.is_file || paths::redirects(facts.attributes) {
                    step::failing(ErrorView::Snapshot("拒绝复制非常规文件："@ + source@))
                } else {
                    step::going(CopyFile::Opening)
                },
            },
            (CopyFile::Opening, CopyReply::Io(opened)) => match opened {
                Err(error) => step::failing(snapshot_failure("无法打开源文件："@, error)),
                Ok(_) => step::going(CopyFile::Creating),
            },
            (CopyFile::Creating, CopyReply::Io(created)) => match created {
                Err(error) => step::failing(snapshot_failure("无法创建目标文件："@, error)),
                Ok(_) => step::going(CopyFile::Reading),
            },
            (CopyFile::Reading, CopyReply::Bytes(read)) => match read {
                Err(error) => step::failing(snapshot_failure("无法读取源文件："@, error)),
                Ok(bytes) => step::going(CopyFile::Writing { bytes }),
            },
            (CopyFile::Writing { bytes }, CopyReply::Io(written)) => match written {
                Err(error) => step::failing(snapshot_failure("无法写入目标文件："@, error)),
                Ok(_) => step::going(CopyFile::Syncing { bytes }),
            },
            (CopyFile::Syncing { bytes }, CopyReply::Io(synced)) => match synced {
                Err(error) => step::failing(snapshot_failure("无法持久化目标文件："@, error)),
                Ok(_) => step::ending(copy_of(bytes@)),
            },
            _ => step::confused(),
        }
    }

    /// Takes the answer.
    pub fn resume(self, reply: CopyReply) -> (step: Step<CopyFile, CopiedFile>)
        ensures
            step@ == self.next(reply),
    {
        match (self, reply) {
            (CopyFile::Looking { source }, CopyReply::Facts(facts)) =>
                match snapshot_store::check_copy_source(source.as_str(), &facts) {
                    Err(error) => step::fail(error),
                    Ok(_) => step::go(CopyFile::Opening),
                },
            (CopyFile::Opening, CopyReply::Io(opened)) => match opened {
                Err(error) => step::fail(snapshot_error("无法打开源文件：", error)),
                Ok(_) => step::go(CopyFile::Creating),
            },
            (CopyFile::Creating, CopyReply::Io(created)) => match created {
                Err(error) => step::fail(snapshot_error("无法创建目标文件：", error)),
                Ok(_) => step::go(CopyFile::Reading),
            },
            (CopyFile::Reading, CopyReply::Bytes(read)) => match read {
                Err(error) => step::fail(snapshot_error("无法读取源文件：", error)),
                Ok(bytes) => step::go(CopyFile::Writing { bytes }),
            },
            (CopyFile::Writing { bytes }, CopyReply::Io(written)) => match written {
                Err(error) => step::fail(snapshot_error("无法写入目标文件：", error)),
                Ok(_) => step::go(CopyFile::Syncing { bytes }),
            },
            (CopyFile::Syncing { bytes }, CopyReply::Io(synced)) => match synced {
                Err(error) => step::fail(snapshot_error("无法持久化目标文件：", error)),
                Ok(_) => {
                    let (size, sha256) = snapshot::hash_bytes(&bytes);
                    step::end(CopiedFile { size, sha256 })
                },
            },
            _ => step::give_up(),
        }
    }
}

/// Begins to copy the file.
pub fn copy_and_hash(source: &str) -> (operation: CopyFile)
    ensures
        operation matches CopyFile::Looking { source: path } && path@ == source@,
{
    CopyFile::Looking { source: source.to_owned() }
}

/// The size and the digest of a file that is `opened` and then `read`.
pub fn hash_file(opened: Result<(), String>, read: Result<Vec<u8>, String>) -> (digest: Result<
    (u64, String),
    String,
>)
    ensures
        match (opened, read) {
            (Err(error), _) => digest is Err && digest->Err_0@ == "无法打开文件："@ + error@,
            (Ok(_), Err(error)) => digest is Err && digest->Err_0@ == "无法读取文件："@ + error@,
            (Ok(_), Ok(bytes)) => digest is Ok && digest->Ok_0.0 == bytes.len()
                && digest->Ok_0.1@ == outside::sha256_hex(bytes@),
        },
{
    match (opened, read) {
        (Err(error), _) => Err(text::joined2("无法打开文件：", error.as_str())),
        (Ok(_), Err(error)) => Err(text::joined2("无法读取文件：", error.as_str())),
        (Ok(_), Ok(bytes)) => Ok(snapshot::hash_bytes(&bytes)),
    }
}

/// What came of writing a document of a saved account.
pub fn write_pretty_json(path: &str, written: WrittenDocument) -> (result: Result<(), AppError>)
    ensures
        match written {
            WrittenDocument::Done => result is Ok,
            WrittenDocument::NotGenerated(error) => result is Err && result->Err_0@
                == snapshot_failure("无法生成 JSON："@, error),
            WrittenDocument::NotWritten(error) => result is Err && result->Err_0@
                == ErrorView::Snapshot("无法原子写入 "@ + path@ + "："@ + error@),
        },
{
    match written {
        WrittenDocument::Done => Ok(()),
        WrittenDocument::NotGenerated(error) => Err(snapshot_error("无法生成 JSON：", error)),
        WrittenDocument::NotWritten(error) => Err(
            AppError::Snapshot(text::joined4("无法原子写入 ", path, "：", error.as_str())),
        ),
    }
}

/// Copying all of the client's files. Each state names the work that is to be done.
#[derive(Debug)]
pub enum CaptureFiles {
    /// The path of the client's files is to be checked.
    CheckingSource,
    /// The output directory is to be created.
    CreatingOutput,
    /// The directory of the copied files is to be created in it.
    CreatingFiles,
    /// The client's files are to be listed.
    Listing,
    /// The file with this number is to be copied.
    Copying { found: Vec<TextEntry>, index: usize, files: Vec<ManifestFile> },
    /// The time is to be read.
    ReadingClock { files: Vec<ManifestFile> },
}

/// What came of the work for [`CaptureFiles`].
#[derive(Debug)]
pub enum CaptureReply {
    Checked(Result<(), AppError>),
    Io(Result<(), String>),
    Listed(Result<TextMap, AppError>),
    Copied(Result<CopiedFile, AppError>),
    Time(u64),
}

/// The names of the files.
pub open spec fn names_of(files: Seq<ManifestFile>) -> Seq<Seq<char>> {
    files.map_values(|file: ManifestFile| file.name@)
}

/// The names under which files were found.
pub open spec fn found_names(found: Seq<TextEntry>) -> Seq<Seq<char>> {
    found.map_values(|entry: TextEntry| entry.key@)
}

/// Whether no name comes before an earlier one, and none comes twice.
pub open spec fn names_rise(names: Seq<Seq<char>>) -> bool {
    forall|i: int, j: int|
        0 <= i < j < names.len() ==> text::text_less(#[trigger] names[i], #[trigger] names[j])
}

/// Whether the step copies the file with this number, or is done with all of them.
pub open spec fn copies_from(
    found: Seq<TextEntry>,
    files: Seq<ManifestFile>,
    step: Step<CaptureFiles, FileSetManifest>,
) -> bool {
    if files.len() < found.len() {
        &&& step matches Step::Perform {
            operation: CaptureFiles::Copying { found: kept, index, files: copied },
            report: None,
        }
        &&& kept@ == found
        &&& index == files.len()
        &&& copied@ == files
    } else {
        &&& step matches Step::Perform {
            operation: CaptureFiles::ReadingClock { files: copied },
            report: None,
        }
        &&& copied@ == files
    }
}

fn copy_from(found: Vec<TextEntry>, files: Vec<ManifestFile>) -> (step: Step<
    CaptureFiles,
    FileSetManifest,
>)
    ensures
        copies_from(found@, files@, step),
{
    let index: usize = files.len();
    if index < found.len() {
        step::go(CaptureFiles::Copying { found, index, files })
    } else {
        step::go(CaptureFiles::ReadingClock { files })
    }
}

impl View for FileSetManifest {
    type V = FileSetManifest;

    open spec fn view(&self) -> FileSetManifest {
        *self
    }
}

impl CaptureFiles {
    /// Whether the files that were copied are the first ones that were found, in order.
    pub open spec fn valid(self) -> bool {
        match self {
            CaptureFiles::Copying { found, index, files } => {
                &&& index < found.len()
                &&& ordered::ascending(found@)
                &&& names_of(files@) == found_names(found@.take(index as int))
            },
            CaptureFiles::ReadingClock { files } => names_rise(names_of(files@)),
            _ => true,
        }
    }

    /// Whether the answer leads to the step.
    pub open spec fn leads_to(
        self,
        reply: CaptureReply,
        step: Step<CaptureFiles, FileSetManifest>,
    ) -> bool {
        match (self, reply) {
            (CaptureFiles::CheckingSource, CaptureReply::Checked(checked)) => step@ == (
            match checked {
                Err(error) => step::failing::<CaptureFiles, FileSetManifest>(error@),
                Ok(_) => step::going(CaptureFiles::CreatingOutput),
            }),
            (CaptureFiles::CreatingOutput, CaptureReply::Io(created)) => step@ == (match created {
                Err(error) => step::failing::<CaptureFiles, FileSetManifest>(
                    snapshot_failure("无法创建事务目录："@, error),
                ),
                Ok(_) => step::going(CaptureFiles::CreatingFiles),
            }),
            (CaptureFiles::CreatingFiles, CaptureReply::Io(created)) => step@ == (match created {
                Err(error) => step::failing::<CaptureFiles, FileSetManifest>(
                    snapshot_failure("无法创建文件集目录："@, error),
                ),
                Ok(_) => step::going(CaptureFiles::Listing),
            }),
            (CaptureFiles::Listing, CaptureReply::Listed(listed)) => match listed {
                Err(error) => step@ == step::failing::<CaptureFiles, FileSetManifest>(error@),
                Ok(listed) => starts_copying(listed@, step),
            },
            (CaptureFiles::Copying { found, index, files }, CaptureReply::Copied(copied)) =>
                match copied {
                    Err(error) => step@ == step::failing::<CaptureFiles, FileSetManifest>(error@),
                    Ok(copied) => copies_from(
                        found@,
                        files@.push(
                            ManifestFile {
                                name: found@[index as int].key,
                                size: copied.size,
                                sha256: copied.sha256,
                            },
                        ),
                        step,
                    ),
                },
            (CaptureFiles::ReadingClock { files }, CaptureReply::Time(now)) => {
                &&& step matches Step::Finished(Ok(manifest))
                &&& manifest.version == snapshot::SNAPSHOT_VERSION
                &&& manifest.created_at == now
                &&& manifest.files@.to_multiset() == files@.to_multiset()
                &&& snapshot::sorted_by_name(manifest.files@)
            },
            _ => step@ == step::confused::<CaptureFiles, FileSetManifest>(),
        }
    }

    /// Takes the answer.
    pub fn resume(self, reply: CaptureReply) -> (step: Step<CaptureFiles, FileSetManifest>)
        requires
            self.valid(),
        ensures
            self.leads_to(reply, step),
            step matches Step::Perform { operation, .. } ==> operation.valid(),
    {
        match (self, reply) {
            (CaptureFiles::CheckingSource, CaptureReply::Checked(checked)) => match checked {
                Err(error) => step::fail(error),
                Ok(_) => step::go(CaptureFiles::CreatingOutput),
            },
            (CaptureFiles::CreatingOutput, CaptureReply::Io(created)) => match created {
                Err(error) => step::fail(snapshot_error("无法创建事务目录：", error)),
                Ok(_) => step::go(CaptureFiles::CreatingFiles),
            },
            (CaptureFiles::CreatingFiles, CaptureReply::Io(created)) => match created {
                Err(error) => step::fail(snapshot_error("无法创建文件集目录：", error)),
                Ok(_) => step::go(CaptureFiles::Listing),
            },
            (CaptureFiles::Listing, CaptureReply::Listed(listed)) => match listed {
                Err(error) => step::fail(error),
                Ok(listed) => {
                    let found = listed.into_entries();
                    let files: Vec<ManifestFile> = Vec::new();
                    assert(files@ =~= Seq::<ManifestFile>::empty());
                    assert(names_of(files@) =~= found_names(found@.take(0)));
                    let ghost entries = found@;
                    let step = copy_from(found, files);
                    assert(begins_with(entries, listed@, step));
                    step
                },
            },
            (CaptureFiles::Copying { found, index, files }, CaptureReply::Copied(copied)) =>
                match copied {
                    Err(error) => step::fail(error),
                    Ok(copied) => {
                        let mut files = files;
                        let ghost before = files@;
                        files.push(
                            ManifestFile {
                                name: found[index].key.clone(),
                                size: copied.size,
                                sha256: copied.sha256,
                            },
                        );
                        proof {
                            assert(files@.drop_last() =~= before);
                            lemma_copied(found@, before, files@, index as int);
                        }
                        copy_from(found, files)
                    },
                },
            (CaptureFiles::ReadingClock { files }, CaptureReply::Time(now)) => {
                let manifest = snapshot::captured_file_set(files, now);
                Step::Finished(Ok(manifest))
            },
            _ => step::give_up(),
        }
    }
}

/// Whether the step begins with the first of the entries, which are those of the map in
/// the order of their names.
pub open spec fn begins_with(
    entries: Seq<TextEntry>,
    listed: Map<Seq<char>, Seq<char>>,
    step: Step<CaptureFiles, FileSetManifest>,
) -> bool {
    &&& ordered::ascending(entries)
    &&& ordered::map_of(entries) == listed
    &&& copies_from(entries, Seq::empty(), step)
}

/// Whether the step begins to copy what was listed.
pub open spec fn starts_copying(
    listed: Map<Seq<char>, Seq<char>>,
    step: Step<CaptureFiles, FileSetManifest>,
) -> bool {
    exists|entries: Seq<TextEntry>| begins_with(entries, listed, step)
}

proof fn lemma_copied(
    found: Seq<TextEntry>,
    before: Seq<ManifestFile>,
    after: Seq<ManifestFile>,
    index: int,
)
    requires
        0 <= index < found.len(),
        ordered::ascending(found),
        names_of(before) == found_names(found.take(index)),
        after.len() > 0,
        after.drop_last() == before,
        after.last().name == found[index].key,
    ensures
        after.len() == index + 1,
        names_of(after) == found_names(found.take(index + 1)),
        after.len() == found.len() ==> names_rise(names_of(after)),
{
    assert(names_of(before).len() == before.len());
    assert(found_names(found.take(index)).len() == index);
    assert forall|i: int| 0 <= i < after.len() implies names_of(after)[i] == found_names(
        found.take(index + 1),
    )[i] by {
        if i < index {
            assert(names_of(before)[i] == found_names(found.take(index))[i]);
            assert(after[i] == before[i]);
        }
    }
    assert(names_of(after) =~= found_names(found.take(index + 1)));
    if after.len() == found.len() {
        assert forall|i: int, j: int| 0 <= i < j < names_of(after).len() implies text::text_less(
            #[trigger] names_of(after)[i],
            #[trigger] names_of(after)[j],
        ) by {
            assert(names_of(after)[i] == found[i].key@);
            assert(names_of(after)[j] == found[j].key@);
        }
    }
}

/// Begins to copy all of the client's files.
pub fn capture_file_set() -> (operation: CaptureFiles)
    ensures
        operation == CaptureFiles::CheckingSource,
        operation.valid(),
{
    CaptureFiles::CheckingSource
}

/// The manifest of a copy names every regular file that was listed, and each once: when the
/// last one was copied, the names are those of the list, in order.
pub proof fn law_every_listed_file_is_copied_once(
    operation: CaptureFiles,
    reply: CaptureReply,
    step: Step<CaptureFiles, FileSetManifest>,
)
    requires
        operation.valid(),
        operation is Copying,
        operation.leads_to(reply, step),
        step matches Step::Perform { operation: CaptureFiles::ReadingClock { .. }, .. },
    ensures
        step matches Step::Perform { operation: CaptureFiles::ReadingClock { files }, .. }
            && names_of(files@) == found_names(operation->found@),
{
    match (operation, reply, step) {
        (
            CaptureFiles::Copying { found, index, files },
            CaptureReply::Copied(Ok(copied)),
            Step::Perform { operation: CaptureFiles::ReadingClock { files: all }, .. },
        ) => {
            assert(names_of(files@).len() == files.len());
            assert(found_names(found@.take(index as int)).len() == index);
            assert(all@.drop_last() =~= files@);
            lemma_copied(found@, files@, all@, index as int);
            assert(found@.take(index + 1) =~= found@);
        },
        _ => {},
    }
}

impl CopyFile {
    /// How the operation goes on.
    pub open spec fn steps() -> spec_fn(CopyFile, CopyReply) -> StepView<
        CopyFile,
        CopiedFileView,
    > {
        |operation: CopyFile, reply: CopyReply| operation.next(reply)
    }
}

/// Copying a file succeeds exactly where the source is a plain file and no redirection, it
/// was opened, the destination was created, the source was read, all the bytes that were
/// read were written, and the destination was made durable. The size and the digest that
/// are given are those of these bytes.
pub proof fn law_copied_bytes_are_those_that_were_read(
    source: String,
    run: Seq<Moment<CopyFile, CopyReply>>,
)
    requires
        step::is_run(CopyFile::steps(), CopyFile::Looking { source }, run),
    ensures
        step::result_of(CopyFile::steps(), run) is Ok <==> {
            let bytes = run[3].reply->Bytes_0->Ok_0;
            &&& run.len() == 6
            &&& run[0].reply is Facts
            &&& run[0].reply->Facts_0 is Ok
            &&& run[0].reply->Facts_0->Ok_0.is_file
            &&& !paths::redirects(run[0].reply->Facts_0->Ok_0.attributes)
            &&& run[1].operation is Opening
            &&& run[1].reply is Io
            &&& run[1].reply->Io_0 is Ok
            &&& run[2].operation is Creating
            &&& run[2].reply is Io
            &&& run[2].reply->Io_0 is Ok
            &&& run[3].operation is Reading
            &&& run[3].reply is Bytes
            &&& run[3].reply->Bytes_0 is Ok
            &&& run[4].operation == (CopyFile::Writing { bytes })
            &&& run[4].reply is Io
            &&& run[4].reply->Io_0 is Ok
            &&& run[5].operation is Syncing
            &&& run[5].reply is Io
            &&& run[5].reply->Io_0 is Ok
        },
        step::result_of(CopyFile::steps(), run) is Ok ==> {
            let bytes = run[3].reply->Bytes_0->Ok_0;
            step::result_of(CopyFile::steps(), run) == Ok::<CopiedFileView, ErrorView>(CopiedFileView { size: bytes@.len() as u64, sha256: outside::sha256_hex(bytes@) })
        },
        run.len() <= 6,
{
    let steps = CopyFile::steps();
    assert(step::follows(steps, run, 0));
    if run.len() > 1 {
        assert(step::follows(steps, run, 1));
    }
    if run.len() > 2 {
        assert(step::follows(steps, run, 2));
    }
    if run.len() > 3 {
        assert(step::follows(steps, run, 3));
    }
    if run.len() > 4 {
        assert(step::follows(steps, run, 4));
    }
    if run.len() > 5 {
        assert(step::follows(steps, run, 5));
    }
}

impl CaptureFiles {
    /// How the operation may go on.
    pub open spec fn leads() -> spec_fn(CaptureFiles, CaptureReply, Step<CaptureFiles, FileSetManifest>) -> bool {
        |operation: CaptureFiles, reply: CaptureReply, step: Step<CaptureFiles, FileSetManifest>|
            operation.leads_to(reply, step)
    }
}

/// The record of the file that was copied at the moment.
pub open spec fn copied_file(
    found: Seq<TextEntry>,
    run: Seq<Taken<CaptureFiles, CaptureReply, FileSetManifest>>,
    j: int,
) -> ManifestFile {
    ManifestFile {
        name: found[j].key,
        size: run[4 + j].reply->Copied_0->Ok_0.size,
        sha256: run[4 + j].reply->Copied_0->Ok_0.sha256,
    }
}

/// Whether the file with this number was copied.
pub open spec fn was_copied(
    run: Seq<Taken<CaptureFiles, CaptureReply, FileSetManifest>>,
    j: int,
) -> bool {
    &&& run[4 + j].operation is Copying
    &&& run[4 + j].operation->index == j
    &&& run[4 + j].reply is Copied
    &&& run[4 + j].reply->Copied_0 is Ok
}

proof fn lemma_capture_begins(run: Seq<Taken<CaptureFiles, CaptureReply, FileSetManifest>>)
    requires
        step::is_taken_run(CaptureFiles::leads(), CaptureFiles::CheckingSource, run),
    ensures
        run.len() > 4 <==> {
            &&& run[0].reply is Checked
            &&& run[0].reply->Checked_0 is Ok
            &&& run[1].operation is CreatingOutput
            &&& run[1].reply is Io
            &&& run[1].reply->Io_0 is Ok
            &&& run[2].operation is CreatingFiles
            &&& run[2].reply is Io
            &&& run[2].reply->Io_0 is Ok
            &&& run[3].operation is Listing
            &&& run[3].reply is Listed
            &&& run[3].reply->Listed_0 is Ok
        },
        run.len() > 4 ==> starts_copying(run[3].reply->Listed_0->Ok_0@, run[3].step)
            && run[3].step is Perform && run[4].operation == run[3].step->operation,
        run.len() <= 4 ==> step::taken_result(run) is Err,
{
    let leads = CaptureFiles::leads();
    assert(step::goes_on(leads, run, 0));
    if run.len() > 1 {
        assert(step::goes_on(leads, run, 1));
    }
    if run.len() > 2 {
        assert(step::goes_on(leads, run, 2));
    }
    if run.len() > 3 {
        assert(step::goes_on(leads, run, 3));
    }
}

proof fn lemma_capture_goes_on(
    run: Seq<Taken<CaptureFiles, CaptureReply, FileSetManifest>>,
    found: Seq<TextEntry>,
    i: int,
)
    requires
        step::is_taken_run(CaptureFiles::leads(), CaptureFiles::CheckingSource, run),
        run.len() > 4,
        begins_with(found, run[3].reply->Listed_0->Ok_0@, run[3].step),
        run[4].operation == run[3].step->operation,
        4 <= i < run.len(),
    ensures
        i - 4 <= found.len(),
        i - 4 < found.len() ==> {
            &&& run[i].operation is Copying
            &&& run[i].operation->found@ == found
            &&& run[i].operation->index == i - 4
            &&& run[i].operation->Copying_files@ == Seq::new(
                (i - 4) as nat,
                |j: int| copied_file(found, run, j),
            )
        },
        i - 4 == found.len() ==> {
            &&& run[i].operation is ReadingClock
            &&& run[i].operation->ReadingClock_files@ == Seq::new(
                (i - 4) as nat,
                |j: int| copied_file(found, run, j),
            )
        },
        forall|j: int| 0 <= j < i - 4 ==> #[trigger] was_copied(run, j),
    decreases i,
{
    if i == 4 {
        assert(Seq::<ManifestFile>::empty() =~= Seq::new(
            0,
            |j: int| copied_file(found, run, j),
        ));
    } else {
        lemma_capture_goes_on(run, found, i - 1);
        assert(step::goes_on(CaptureFiles::leads(), run, i - 1));
        if run[i - 1].operation is Copying {
            let files = run[i - 1].operation->Copying_files@;
            assert(files.push(copied_file(found, run, i - 5)) =~= Seq::new(
                (i - 4) as nat,
                |j: int| copied_file(found, run, j),
            ));
        }
    }
}

/// Copying the client's files succeeds exactly where their path was in order, the two
/// directories were created, the files were listed, each listed file was copied, one after
/// the other in the order of their names, and the time was read. The manifest holds, sorted
/// by name, for each listed name one file with the size and the digest that copying it gave,
/// and nothing else, and the time that was read.
pub proof fn law_copied_files_are_the_listed_ones(
    run: Seq<Taken<CaptureFiles, CaptureReply, FileSetManifest>>,
) -> (found: Seq<TextEntry>)
    requires
        step::is_taken_run(CaptureFiles::leads(), CaptureFiles::CheckingSource, run),
    ensures
        run.len() > 4 ==> ordered::ascending(found) && ordered::map_of(found)
            == run[3].reply->Listed_0->Ok_0@,
        step::taken_result(run) is Ok <==> {
            &&& run.len() == 5 + found.len()
            &&& run[0].reply is Checked
            &&& run[0].reply->Checked_0 is Ok
            &&& run[1].operation is CreatingOutput
            &&& run[1].reply is Io
            &&& run[1].reply->Io_0 is Ok
            &&& run[2].operation is CreatingFiles
            &&& run[2].reply is Io
            &&& run[2].reply->Io_0 is Ok
            &&& run[3].operation is Listing
            &&& run[3].reply is Listed
            &&& run[3].reply->Listed_0 is Ok
            &&& forall|j: int| 0 <= j < found.len() ==> #[trigger] was_copied(run, j)
            &&& run.last().operation is ReadingClock
            &&& run.last().reply is Time
        },
        step::taken_result(run) is Ok ==> {
            let manifest = step::taken_result(run)->Ok_0;
            &&& manifest.version == snapshot::SNAPSHOT_VERSION
            &&& manifest.created_at == run.last().reply->Time_0
            &&& snapshot::sorted_by_name(manifest.files@)
            &&& manifest.files@.to_multiset() == Seq::new(
                found.len(),
                |j: int| copied_file(found, run, j),
            ).to_multiset()
        },
{
    lemma_capture_begins(run);
    if run.len() > 4 {
        let listed = run[3].reply->Listed_0->Ok_0@;
        let found = choose|entries: Seq<TextEntry>| begins_with(entries, listed, run[3].step);
        let last = run.len() - 1;
        lemma_capture_goes_on(run, found, last);
        assert(step::goes_on(CaptureFiles::leads(), run, last));
        if run.len() == 5 + found.len() {
            assert(run[last].operation is ReadingClock);
        }
        found
    } else {
        Seq::empty()
    }
}

} // verus!
