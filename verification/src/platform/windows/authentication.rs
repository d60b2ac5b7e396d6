//! The client's authentication values in the Windows registry. A login is fresh
//! where a value has appeared or changed since a baseline was taken.

use vstd::prelude::*;

use crate::error::AppError;
use crate::error::ErrorView;
use crate::ordered::TextMap;
use crate::outside;
use crate::step::Moment;
use crate::step;
use crate::step::Step;
use crate::step::StepView;
use crate::text;

verus! {

pub const ERROR_SUCCESS: i32 = 0;

pub const ERROR_FILE_NOT_FOUND: i32 = 2;

pub const ERROR_MORE_DATA: i32 = 234;

pub const ERROR_NO_MORE_ITEMS: i32 = 259;

/// How often an unstable state is read again before it is given up.
pub const READ_ATTEMPTS: u8 = 3;

/// The pause between the two reads that have to agree.
pub const AGREEMENT_PAUSE_MS: u64 = 20;

/// The authentication values at one moment: the fingerprint of each value by
/// its name.
#[derive(Debug)]
pub struct AuthenticationBaseline {
    values: TextMap,
}

impl View for AuthenticationBaseline {
    type V = Map<Seq<char>, Seq<char>>;

    closed spec fn view(&self) -> Map<Seq<char>, Seq<char>> {
        self.values@
    }
}

impl Clone for AuthenticationBaseline {
    fn clone(&self) -> (copy: Self)
        ensures
            copy@ == self@,
    {
        AuthenticationBaseline { values: self.values.clone() }
    }
}

impl Default for AuthenticationBaseline {
    fn default() -> (baseline: Self)
        ensures
            baseline@ == Map::<Seq<char>, Seq<char>>::empty(),
    {
        AuthenticationBaseline { values: TextMap::new() }
    }
}

/// Whether `current` holds a value that `baseline` does not hold, or holds
/// otherwise.
pub open spec fn is_fresh(
    baseline: Map<Seq<char>, Seq<char>>,
    current: Map<Seq<char>, Seq<char>>,
) -> bool {
    exists|name: Seq<char>| #[trigger]
        current.dom().contains(name) && !(baseline.dom().contains(name) && baseline[name]
            == current[name])
}

/// Nothing is fresh exactly where all current values were there before.
proof fn lemma_fresh(baseline: Map<Seq<char>, Seq<char>>, current: Map<Seq<char>, Seq<char>>)
    ensures
        is_fresh(baseline, current) == !current.submap_of(baseline),
{
    if is_fresh(baseline, current) {
        let name = choose|name: Seq<char>| #[trigger]
            current.dom().contains(name) && !(baseline.dom().contains(name) && baseline[name]
                == current[name]);
        assert(current.dom().contains(name));
        assert(!(baseline.dom().contains(name) && baseline[name] == current[name]));
        if current.submap_of(baseline) {
            assert(current.dom().contains(name) ==> baseline.dom().contains(name) && current[name]
                == baseline[name]);
        }
    } else {
        assert forall|name: Seq<char>| current.dom().contains(name) implies baseline.dom().contains(
            name,
        ) && current[name] == baseline[name] by {}
    }
}

impl AuthenticationBaseline {
    /// The baseline of the given values.
    pub fn of(values: TextMap) -> (baseline: AuthenticationBaseline)
        ensures
            baseline@ == values@,
    {
        AuthenticationBaseline { values }
    }

    /// The values by their names.
    pub fn values(&self) -> (values: &TextMap)
        ensures
            values@ == self@,
    {
        &self.values
    }

    /// Whether `current` holds a value that this baseline does not hold, or holds
    /// otherwise.
    pub fn has_fresh_value_since(&self, current: &AuthenticationBaseline) -> (fresh: bool)
        ensures
            fresh == is_fresh(self@, current@),
    {
        proof {
            lemma_fresh(self@, current@);
        }
        !current.values.within(&self.values)
    }

    /// Begins to take a baseline: two reads in a row have to agree.
    pub fn capture() -> (capture: CaptureBaseline)
        ensures
            capture == (CaptureBaseline { attempts: READ_ATTEMPTS, first: None }),
    {
        CaptureBaseline { attempts: READ_ATTEMPTS, first: None }
    }
}

/// Taking a baseline: the values are read; after the first read of a pair they
/// are read once more.
#[derive(Debug)]
pub struct CaptureBaseline {
    /// The pairs that may still be read, the one under way included.
    pub attempts: u8,
    /// What the first read of the pair gave.
    pub first: Option<TextMap>,
}

impl CaptureBaseline {
    /// What to do with the values that were read.
    pub open spec fn next(self, read: Result<TextMap, AppError>) -> StepView<
        CaptureBaseline,
        Map<Seq<char>, Seq<char>>,
    > {
        match read {
            Err(error) => step::failing(error@),
            Ok(values) => match self.first {
                None => step::going(
                    CaptureBaseline { attempts: self.attempts, first: Some(values) },
                ),
                Some(first) => if first@ == values@ {
                    step::ending(values@)
                } else if self.attempts > 1 {
                    step::going(
                        CaptureBaseline { attempts: (self.attempts - 1) as u8, first: None },
                    )
                } else {
                    step::failing(ErrorView::Login("战网认证状态正在变化，暂时无法稳定读取"@))
                },
            },
        }
    }

    /// Takes the values that were read.
    pub fn resume(self, read: Result<TextMap, AppError>) -> (step: Step<
        CaptureBaseline,
        AuthenticationBaseline,
    >)
        ensures
            step@ == self.next(read),
    {
        match read {
            Err(error) => step::fail(error),
            Ok(values) => match self.first {
                None => step::go(CaptureBaseline { attempts: self.attempts, first: Some(values) }),
                Some(first) => if first.same(&values) {
                    step::end(AuthenticationBaseline { values })
                } else if self.attempts > 1 {
                    step::go(CaptureBaseline { attempts: self.attempts - 1, first: None })
                } else {
                    step::fail(
                        AppError::Login("战网认证状态正在变化，暂时无法稳定读取".to_owned()),
                    )
                },
            },
        }
    }
}

/// One value as the registry gave it.
#[derive(Debug)]
pub struct RegistryRead {
    pub status: i32,
    /// The units of the name, without the closing zero.
    pub name: Vec<u16>,
    pub value_type: u32,
    pub data: Vec<u8>,
}

/// Why the values could not be read.
#[derive(Clone, Copy, Debug, PartialEq, Eq, Structural)]
pub enum RegistryReadError {
    /// They changed while they were read.
    Changed,
    Status(i32),
}

/// The bytes of `n`, the lowest first.
pub open spec fn little_endian(n: u32) -> Seq<u8> {
    seq![
        (n % 256) as u8,
        (n / 256 % 256) as u8,
        (n / 65536 % 256) as u8,
        (n / 16777216 % 256) as u8,
    ]
}

/// The fingerprint of a value: the digest of its type and its data.
pub open spec fn fingerprint(value_type: u32, data: Seq<u8>) -> Seq<char> {
    outside::sha256_hex(little_endian(value_type) + data)
}

/// The fingerprint of a value: the digest of its type and its data.
pub fn value_fingerprint(value_type: u32, data: &Vec<u8>) -> (hex: String)
    ensures
        hex@ == fingerprint(value_type, data@),
{
    let mut bytes: Vec<u8> = Vec::new();
    bytes.push((value_type % 256) as u8);
    bytes.push((value_type / 256 % 256) as u8);
    bytes.push((value_type / 65536 % 256) as u8);
    bytes.push((value_type / 16777216 % 256) as u8);
    assert(bytes@ =~= little_endian(value_type));
    let mut i: usize = 0;
    assert(bytes@ =~= little_endian(value_type) + data@.take(0));
    while i < data.len()
        invariant
            i <= data.len(),
            bytes@ == little_endian(value_type) + data@.take(i as int),
        decreases data.len() - i,
    {
        bytes.push(data[i]);
        assert(data@.take(i + 1) =~= data@.take(i as int).push(data@[i as int]));
        assert(bytes@ =~= little_endian(value_type) + data@.take(i + 1));
        i = i + 1;
    }
    assert(data@.take(i as int) =~= data@);
    outside::sha256(&bytes)
}

/// The values that the reads give on top of `values`. A read that finds no more
/// items ends them; the first other failure is the error, and so is a name that
/// is no text. Names are compared without regard to case.
pub open spec fn values_of(
    reads: Seq<RegistryRead>,
    values: Map<Seq<char>, Seq<char>>,
) -> Result<Map<Seq<char>, Seq<char>>, RegistryReadError>
    decreases reads.len(),
{
    if reads.len() == 0 || reads[0].status == ERROR_NO_MORE_ITEMS {
        Ok(values)
    } else if reads[0].status == ERROR_MORE_DATA {
        Err(RegistryReadError::Changed)
    } else if reads[0].status != ERROR_SUCCESS {
        Err(RegistryReadError::Status(reads[0].status))
    } else {
        match text::utf16_text(reads[0].name@, None) {
            None => Err(RegistryReadError::Status(ERROR_MORE_DATA)),
            Some(name) => values_of(
                reads.subrange(1, reads.len() as int),
                values.insert(
                    text::uppered(name),
                    fingerprint(reads[0].value_type, reads[0].data@),
                ),
            ),
        }
    }
}

/// The number of values that may be read: one more than the registry counted.
pub open spec fn read_limit(value_count: u32) -> int {
    if value_count == u32::MAX {
        u32::MAX as int
    } else {
        value_count + 1
    }
}

/// The reads within the limit.
pub open spec fn limited(reads: Seq<RegistryRead>, value_count: u32) -> Seq<RegistryRead> {
    if reads.len() <= read_limit(value_count) {
        reads
    } else {
        reads.take(read_limit(value_count))
    }
}

/// The number of values that may be read: one more than the registry counted.
pub fn reads_wanted(value_count: u32) -> (limit: u32)
    ensures
        limit == read_limit(value_count),
{
    if value_count == u32::MAX {
        u32::MAX
    } else {
        value_count + 1
    }
}

/// The fingerprints of the values by their names. `info_status` and
/// `value_count` are what the registry said of the key, `reads` what it gave for
/// one index after another.
pub fn enumerate_values(
    info_status: i32,
    value_count: u32,
    reads: &Vec<RegistryRead>,
) -> (values: Result<TextMap, RegistryReadError>)
    ensures
        info_status != ERROR_SUCCESS ==> values == Err::<TextMap, RegistryReadError>(
            RegistryReadError::Status(info_status),
        ),
        info_status == ERROR_SUCCESS ==> match values {
            Ok(values) => values_of(limited(reads@, value_count), Map::empty()) == Ok::<
                Map<Seq<char>, Seq<char>>,
                RegistryReadError,
            >(values@),
            Err(error) => values_of(limited(reads@, value_count), Map::empty()) == Err::<
                Map<Seq<char>, Seq<char>>,
                RegistryReadError,
            >(error),
        },
{
    if info_status != ERROR_SUCCESS {
        return Err(RegistryReadError::Status(info_status));
    }
    let limit: u32 = reads_wanted(value_count);
    let count: usize = if (reads.len() as u64) <= limit as u64 {
        reads.len()
    } else {
        limit as usize
    };
    let ghost all = limited(reads@, value_count);
    assert(all =~= reads@.take(count as int));
    assert(all.subrange(0, count as int) =~= all);
    let mut values = TextMap::new();
    let mut i: usize = 0;
    while i < count
        invariant
            info_status == ERROR_SUCCESS,
            i <= count <= reads.len(),
            all == limited(reads@, value_count),
            all == reads@.take(count as int),
            values_of(all, Map::empty()) == values_of(
                all.subrange(i as int, count as int),
                values@,
            ),
        decreases count - i,
    {
        let ghost rest = all.subrange(i as int, count as int);
        let read = &reads[i];
        assert(rest[0] == *read);
        assert(rest.subrange(1, rest.len() as int) =~= all.subrange(i + 1, count as int));
        if read.status == ERROR_NO_MORE_ITEMS {
            return Ok(values);
        }
        if read.status == ERROR_MORE_DATA {
            return Err(RegistryReadError::Changed);
        }
        if read.status != ERROR_SUCCESS {
            return Err(RegistryReadError::Status(read.status));
        }
        let name = match text::decode_utf16(&read.name, None) {
            Some(name) => name,
            None => {
                return Err(RegistryReadError::Status(ERROR_MORE_DATA));
            },
        };
        let hex = value_fingerprint(read.value_type, &read.data);
        values = values.with(text::to_ascii_uppercase(name.as_str()), hex);
        i = i + 1;
    }
    Ok(values)
}

/// The error for a registry status.
pub open spec fn registry_failure(context: Seq<char>, status: i32) -> ErrorView {
    ErrorView::Login(
        context + "（Windows 错误 "@ + text::signed_decimal(status as int) + "）"@,
    )
}

fn registry_error(context: &str, status: i32) -> (error: AppError)
    ensures
        error@ == registry_failure(context@, status),
{
    let number = text::signed_decimal_text(status as i64);
    AppError::Login(text::joined4(context, "（Windows 错误 ", number.as_str(), "）"))
}

/// Reading the values of the key: it is opened, and its values are enumerated
/// until they do not change meanwhile.
#[derive(Clone, Copy, Debug, PartialEq, Eq, Structural)]
pub enum ReadRegistry {
    Opening,
    /// The enumerations that may still be tried.
    Enumerating { attempts: u8 },
}

/// What came of opening the key or of enumerating its values.
#[derive(Debug)]
pub enum RegistryReply {
    Opened { status: i32 },
    Values(Result<TextMap, RegistryReadError>),
}

impl ReadRegistry {
    /// What to do with the answer.
    pub open spec fn next(self, reply: RegistryReply) -> StepView<
        ReadRegistry,
        Map<Seq<char>, Seq<char>>,
    > {
        match (self, reply) {
            (ReadRegistry::Opening, RegistryReply::Opened { status }) => if status
                == ERROR_FILE_NOT_FOUND {
                step::ending(Map::empty())
            } else if status != ERROR_SUCCESS {
                step::failing(registry_failure("无法打开战网认证注册表"@, status))
            } else {
                step::going(ReadRegistry::Enumerating { attempts: READ_ATTEMPTS })
            },
            (ReadRegistry::Enumerating { attempts }, RegistryReply::Values(values)) => match values {
                Ok(values) => step::ending(values@),
                Err(RegistryReadError::Changed) => if attempts > 1 {
                    step::going(ReadRegistry::Enumerating { attempts: (attempts - 1) as u8 })
                } else {
                    step::failing(
                        ErrorView::Login("战网认证状态正在变化，暂时无法建立登录基线"@),
                    )
                },
                Err(RegistryReadError::Status(status)) => step::failing(
                    registry_failure("无法读取战网认证注册表"@, status),
                ),
            },
            _ => step::confused(),
        }
    }

    /// Takes the answer.
    pub fn resume(self, reply: RegistryReply) -> (step: Step<ReadRegistry, TextMap>)
        ensures
            step@ == self.next(reply),
    {
        match (self, reply) {
            (ReadRegistry::Opening, RegistryReply::Opened { status }) => if status
                == ERROR_FILE_NOT_FOUND {
                step::end(TextMap::new())
            } else if status != ERROR_SUCCESS {
                step::fail(registry_error("无法打开战网认证注册表", status))
            } else {
                step::go(ReadRegistry::Enumerating { attempts: READ_ATTEMPTS })
            },
            (ReadRegistry::Enumerating { attempts }, RegistryReply::Values(values)) => match values {
                Ok(values) => step::end(values),
                Err(RegistryReadError::Changed) => if attempts > 1 {
                    step::go(ReadRegistry::Enumerating { attempts: attempts - 1 })
                } else {
                    step::fail(
                        AppError::Login("战网认证状态正在变化，暂时无法建立登录基线".to_owned()),
                    )
                },
                Err(RegistryReadError::Status(status)) => step::fail(
                    registry_error("无法读取战网认证注册表", status),
                ),
            },
            _ => step::give_up(),
        }
    }
}

/// Reads the authentication values.
pub fn read_registry_values() -> (read: ReadRegistry)
    ensures
        read == ReadRegistry::Opening,
{
    ReadRegistry::Opening
}

/// Values that disappear are no sign of a login: where everything that is there
/// now was there before, nothing is fresh.
pub proof fn law_deletion_alone_is_not_fresh(
    before: Map<Seq<char>, Seq<char>>,
    after: Map<Seq<char>, Seq<char>>,
)
    requires
        after.submap_of(before),
    ensures
        !is_fresh(before, after),
{
    lemma_fresh(before, after);
}

/// A value that is new, or that is not what it was, is a sign of a login.
pub proof fn law_new_or_replaced_value_is_fresh(
    before: Map<Seq<char>, Seq<char>>,
    after: Map<Seq<char>, Seq<char>>,
    name: Seq<char>,
)
    requires
        after.dom().contains(name),
        !before.dom().contains(name) || before[name] != after[name],
    ensures
        is_fresh(before, after),
{
}

impl CaptureBaseline {
    /// How the operation goes on.
    pub open spec fn steps() -> spec_fn(CaptureBaseline, Result<TextMap, AppError>) -> StepView<
        CaptureBaseline,
        Map<Seq<char>, Seq<char>>,
    > {
        |operation: CaptureBaseline, reply: Result<TextMap, AppError>| operation.next(reply)
    }
}

/// Whether the two reads with these numbers gave the same values.
pub open spec fn reads_agree(
    run: Seq<Moment<CaptureBaseline, Result<TextMap, AppError>>>,
    i: int,
    j: int,
) -> bool {
    run[i].reply is Ok && run[j].reply is Ok && run[i].reply->Ok_0@ == run[j].reply->Ok_0@
}

/// Taking a baseline succeeds exactly where all reads succeeded, and those of the last pair,
/// and of no earlier one, agree; what they gave is the baseline. There are at most three
/// pairs of reads, and a read that fails ends it with its error.
pub proof fn law_baseline_is_what_two_reads_agree_on(
    run: Seq<Moment<CaptureBaseline, Result<TextMap, AppError>>>,
)
    requires
        step::is_run(
            CaptureBaseline::steps(),
            CaptureBaseline { attempts: READ_ATTEMPTS, first: None },
            run,
        ),
    ensures
        run.len() <= 6,
        step::result_of(CaptureBaseline::steps(), run) is Ok <==> {
            let n = run.len() as int;
            &&& n == 2 || n == 4 || n == 6
            &&& forall|i: int| 0 <= i < n ==> (#[trigger] run[i]).reply is Ok
            &&& reads_agree(run, n - 2, n - 1)
            &&& n > 2 ==> !reads_agree(run, 0, 1)
            &&& n > 4 ==> !reads_agree(run, 2, 3)
        },
        step::result_of(CaptureBaseline::steps(), run) is Ok ==> step::result_of(
            CaptureBaseline::steps(),
            run,
        ) == Ok::<Map<Seq<char>, Seq<char>>, ErrorView>(run.last().reply->Ok_0@),
        forall|i: int|
            0 <= i < run.len() && (#[trigger] run[i]).reply is Err ==> i == run.len() - 1
                && step::result_of(CaptureBaseline::steps(), run) == Err::<
                Map<Seq<char>, Seq<char>>,
                ErrorView,
            >(run[i].reply->Err_0@),
        run.len() >= 2 && reads_agree(run, 0, 1) ==> run.len() == 2,
        run.len() >= 4 && reads_agree(run, 2, 3) ==> run.len() == 4,
        run.len() == 2 || run.len() == 4 ==> run.last().reply is Err || reads_agree(
            run,
            run.len() - 2,
            run.len() - 1,
        ),
        run.len() % 2 == 1 ==> run.last().reply is Err,
{
    let steps = CaptureBaseline::steps();
    assert(step::follows(steps, run, 0));
    if run.len() > 1 {
        assert(step::follows(steps, run, 1));
    }
    if run.len() > 2 {
        assert(step::follows(steps, run, 2));
    }
    if run.len() > 3 {
        assert(step::follows(steps, run, 3));
    }
    if run.len() > 4 {
        assert(step::follows(steps, run, 4));
    }
    if run.len() > 5 {
        assert(step::follows(steps, run, 5));
    }
}

impl ReadRegistry {
    /// How the operation goes on.
    pub open spec fn steps() -> spec_fn(ReadRegistry, RegistryReply) -> StepView<
        ReadRegistry,
        Map<Seq<char>, Seq<char>>,
    > {
        |operation: ReadRegistry, reply: RegistryReply| operation.next(reply)
    }
}

/// Reading the registry gives no values where there is no such key, and else the values of
/// the first enumeration during which they did not change, of at most three; every other
/// status, and values that change during all three, end it in an error.
pub proof fn law_registry_values_are_those_of_an_undisturbed_read(
    run: Seq<Moment<ReadRegistry, RegistryReply>>,
)
    requires
        step::is_run(ReadRegistry::steps(), ReadRegistry::Opening, run),
    ensures
        run.len() <= 4,
        step::result_of(ReadRegistry::steps(), run) is Ok <==> {
            ||| run.len() == 1 && run[0].reply == (RegistryReply::Opened {
                status: ERROR_FILE_NOT_FOUND,
            })
            ||| {
                &&& run.len() > 1
                &&& run[0].reply == (RegistryReply::Opened { status: ERROR_SUCCESS })
                &&& run.last().reply is Values
                &&& run.last().reply->Values_0 is Ok
            }
        },
        step::result_of(ReadRegistry::steps(), run) is Ok ==> step::result_of(
            ReadRegistry::steps(),
            run,
        )->Ok_0 == (if run.len() == 1 {
            Map::empty()
        } else {
            run.last().reply->Values_0->Ok_0@
        }),
        forall|i: int|
            0 < i < run.len() - 1 ==> (#[trigger] run[i]).reply == RegistryReply::Values(
                Err(RegistryReadError::Changed),
            ),
        1 < run.len() < 4 ==> run.last().reply != RegistryReply::Values(
            Err(RegistryReadError::Changed),
        ),
        run[0].reply == (RegistryReply::Opened { status: ERROR_SUCCESS }) ==> run.len() > 1,
{
    let steps = ReadRegistry::steps();
    assert(step::follows(steps, run, 0));
    if run.len() > 1 {
        assert(step::follows(steps, run, 1));
    }
    if run.len() > 2 {
        assert(step::follows(steps, run, 2));
    }
    if run.len() > 3 {
        assert(step::follows(steps, run, 3));
    }
}

} // verus!
