use vstd::prelude::*;
use crate::codec::{
    entry_len, inline_bytes, inline_entry, lemma_entry_len_is_low_byte, lemma_inline_bytes_layout,
    lemma_inline_entry_layout, lemma_inline_entry_len, lemma_inline_roundtrip, pack_inline,
    unpack_inline, INLINE_LIMIT,
};
use crate::error::{NvsError, ESP_ERR_NVS_INVALID_LENGTH, ESP_ERR_NVS_NOT_FOUND, ESP_OK};

verus! {

/// The NVS partition on which a storage's namespace was opened.
#[derive(Clone, Copy, Debug, PartialEq, Eq, Structural)]
pub enum NvsPartition {
    /// The default `nvs` partition.
    Default,
    /// A partition chosen by its label.
    Custom,
}

/// A namespace opened on an NVS partition, through which keys are read and written.
#[derive(Debug)]
pub struct EspNvsStorage {
    pub partition: NvsPartition,
    pub handle: u32,
}

impl EspNvsStorage {
    /// A storage on the default partition, from the result of opening the namespace there.
    pub fn new_default(opened: Result<u32, NvsError>) -> (r: Result<EspNvsStorage, NvsError>)
        ensures
            opened_answers(opened, NvsPartition::Default, r),
            match opened {
                Ok(handle) => r matches Ok(s) && s.partition == NvsPartition::Default && s.handle
                    == handle,
                Err(e) => r matches Err(e2) && e2 == e,
            },
    {
        match opened {
            Ok(handle) => Ok(EspNvsStorage { partition: NvsPartition::Default, handle }),
            Err(e) => Err(e),
        }
    }

    /// A storage on a labelled partition, from the result of opening the namespace there.
    pub fn new(opened: Result<u32, NvsError>) -> (r: Result<EspNvsStorage, NvsError>)
        ensures
            opened_answers(opened, NvsPartition::Custom, r),
            match opened {
                Ok(handle) => r matches Ok(s) && s.partition == NvsPartition::Custom && s.handle
                    == handle,
                Err(e) => r matches Err(e2) && e2 == e,
            },
    {
        match opened {
            Ok(handle) => Ok(EspNvsStorage { partition: NvsPartition::Custom, handle }),
            Err(e) => Err(e),
        }
    }
}

/// `r` is the answer to reading a key as a `u64` entry when NVS returned
/// `status` and `entry`: `None` for a missing key, the entry on success, the
/// failure otherwise.
pub open spec fn entry_lookup_answers(status: i32, entry: u64, r: Result<Option<u64>, NvsError>) -> bool {
    if status == ESP_ERR_NVS_NOT_FOUND {
        r == Ok::<Option<u64>, NvsError>(None)
    } else if status == ESP_OK {
        r == Ok::<Option<u64>, NvsError>(Some(entry))
    } else {
        r matches Err(e) && e@ == status
    }
}

/// The answer to reading a key as a `u64` entry, from the status and the entry
/// that NVS returned.
pub fn entry_lookup(status: i32, entry: u64) -> (r: Result<Option<u64>, NvsError>)
    ensures
        entry_lookup_answers(status, entry, r),
{
    if status == ESP_ERR_NVS_NOT_FOUND {
        Ok(None)
    } else {
        match NvsError::check(status) {
            Err(e) => Err(e),
            Ok(_) => Ok(Some(entry)),
        }
    }
}

/// The answer to erasing a key, from the status that NVS returned: whether
/// the key was present, or the failure.
pub fn erase_outcome(status: i32) -> (r: Result<bool, NvsError>)
    ensures
        erase_answers(status, r),
        status == ESP_ERR_NVS_NOT_FOUND ==> r == Ok::<bool, NvsError>(false),
        status != ESP_ERR_NVS_NOT_FOUND && status != ESP_OK ==> (r matches Err(e) && e@ == status),
        status == ESP_OK ==> r == Ok::<bool, NvsError>(true),
{
    if status == ESP_ERR_NVS_NOT_FOUND {
        Ok(false)
    } else {
        match NvsError::check(status) {
            Err(e) => Err(e),
            Ok(_) => Ok(true),
        }
    }
}

/// `r` is whether a key is present, given the result of reading it as a
/// `u64` entry.
///
/// An entry that exists but is too long to be read as a `u64` is a blob, so
/// the key is present too.
pub open spec fn contains_answers(lookup: Result<Option<u64>, NvsError>, r: Result<bool, NvsError>) -> bool {
    match lookup {
        Ok(Some(_)) => r == Ok::<bool, NvsError>(true),
        Ok(None) => r == Ok::<bool, NvsError>(false),
        Err(e) => if e@ == ESP_ERR_NVS_INVALID_LENGTH {
            r == Ok::<bool, NvsError>(true)
        } else {
            r == Err::<bool, NvsError>(e)
        },
    }
}

/// Whether a key is present, from the result of reading it as a `u64` entry.
pub fn contains_outcome(lookup: Result<Option<u64>, NvsError>) -> (r: Result<bool, NvsError>)
    ensures
        contains_answers(lookup, r),
{
    match lookup {
        Ok(Some(_)) => Ok(true),
        Ok(None) => Ok(false),
        Err(e) => {
            if e.code() == ESP_ERR_NVS_INVALID_LENGTH {
                Ok(true)
            } else {
                Err(e)
            }
        },
    }
}

/// What a change of the namespace does next: commit it, or finish.
#[derive(Debug, PartialEq, Eq)]
pub enum CommitStep {
    /// Commit the namespace; `found` is whether the key was present before the change.
    Commit { found: bool },
    /// The operation is over, with this result.
    Finished(Result<bool, NvsError>),
}

/// The step after erasing a key: commit on success, or fail with the erase's error.
pub fn after_erase(erased: Result<bool, NvsError>) -> (r: CommitStep)
    ensures
        after_erase_answers(erased, r),
        match erased {
            Ok(found) => r == CommitStep::Commit { found },
            Err(e) => r == CommitStep::Finished(Err(e)),
        },
{
    match erased {
        Ok(found) => CommitStep::Commit { found },
        Err(e) => CommitStep::Finished(Err(e)),
    }
}

/// The result of a change once the commit has answered: whether the key was
/// present before the change, or the commit's error.
pub fn after_commit(found: bool, committed: Result<(), NvsError>) -> (r: Result<bool, NvsError>)
    ensures
        after_commit_answers(found, committed, r),
        match committed {
            Ok(_) => r == Ok::<bool, NvsError>(found),
            Err(e) => r == Err::<bool, NvsError>(e),
        },
{
    match committed {
        Ok(_) => Ok(found),
        Err(e) => Err(e),
    }
}

/// What a length query does next: ask for the blob length, or finish.
#[derive(Debug, PartialEq, Eq)]
pub enum LenStep {
    /// Ask NVS for the length of the key's blob.
    QueryBlobLength,
    /// The query is over, with this result.
    Finished(Result<Option<usize>, NvsError>),
}

/// `r` is the step of a length query after NVS answered a `u64` read with
/// `status` and `entry`.
pub open spec fn len_entry_answers(status: i32, entry: u64, r: LenStep) -> bool {
    if status == ESP_ERR_NVS_NOT_FOUND {
        r == LenStep::QueryBlobLength
    } else if status == ESP_OK {
        r == LenStep::Finished(Ok(Some(entry_len(entry) as usize)))
    } else {
        r matches LenStep::Finished(Err(e)) && e@ == status
    }
}

/// The step of a length query after NVS answered a `u64` read with `status`
/// and `entry`.
///
/// A missing `u64` entry sends the query on to the blob length; any other
/// failure ends it with that failure; a present entry ends it with the
/// length that the entry records.
pub fn len_after_entry_query(status: i32, entry: u64) -> (r: LenStep)
    ensures
        len_entry_answers(status, entry, r),
{
    if status == ESP_ERR_NVS_NOT_FOUND {
        LenStep::QueryBlobLength
    } else {
        match NvsError::check(status) {
            Err(e) => LenStep::Finished(Err(e)),
            Ok(_) => {
                let len: u8 = (entry & 0xff) as u8;
                proof {
                    assert(entry & 0xffu64 <= 0xffu64) by (bit_vector);
                }
                LenStep::Finished(Ok(Some(len as usize)))
            },
        }
    }
}

/// `r` is the result of a length query after NVS answered a blob-length
/// read with `status` and `blob_len`: `None` for a missing blob.
pub open spec fn len_blob_answers(status: i32, blob_len: usize, r: Result<Option<usize>, NvsError>) -> bool {
    if status == ESP_ERR_NVS_NOT_FOUND {
        r == Ok::<Option<usize>, NvsError>(None)
    } else if status == ESP_OK {
        r == Ok::<Option<usize>, NvsError>(Some(blob_len))
    } else {
        r matches Err(e) && e@ == status
    }
}

/// The result of a length query after NVS answered a blob-length read with
/// `status` and `blob_len`.
pub fn len_after_blob_query(status: i32, blob_len: usize) -> (r: Result<Option<usize>, NvsError>)
    ensures
        len_blob_answers(status, blob_len, r),
{
    if status == ESP_ERR_NVS_NOT_FOUND {
        Ok(None)
    } else {
        match NvsError::check(status) {
            Err(e) => Err(e),
            Ok(_) => Ok(Some(blob_len)),
        }
    }
}

/// The result of reading a key's blob into `buf`, once NVS answered with
/// `status` and the number of bytes `read` that it filled: the first `read`
/// bytes of `buf` (all of `buf` if `read` is larger), or the failure.
pub fn blob_read_outcome(status: i32, buf: Vec<u8>, read: usize) -> (r: Result<Option<Vec<u8>>, NvsError>)
    ensures
        blob_read_answers(status, buf@, read, r),
        status == ESP_OK ==> (r matches Ok(Some(v)) && v@ == (if read <= buf@.len() {
            buf@.subrange(0, read as int)
        } else {
            buf@
        })),
        status != ESP_OK ==> (r matches Err(e) && e@ == status),
{
    match NvsError::check(status) {
        Err(e) => Err(e),
        Ok(_) => {
            let mut buf = buf;
            buf.truncate(read);
            Ok(Some(buf))
        },
    }
}

/// What a read does next: read the key's blob, or finish.
#[derive(Debug, PartialEq, Eq)]
pub enum GetRawStep {
    /// Read the key as a blob, and answer with what that read returns.
    ReadBlob,
    /// The read is over, with this result.
    Finished(Result<Option<Vec<u8>>, NvsError>),
}

/// Whether an inline entry can be read back: its recorded length names at
/// most the seven bytes that the entry can hold.
pub fn entry_readable(entry: u64) -> (r: bool)
    ensures
        r == (entry % 256 < 8),
        r == (entry_len(entry) < INLINE_LIMIT),
{
    proof {
        lemma_entry_len_is_low_byte(entry);
    }
    (entry & 0xff) < 8
}

/// `r` is the step of a read after NVS answered a `u64` read of the key.
///
/// A missing key reads as `None`; an inline entry reads as its bytes; an
/// entry too long for a `u64` sends the read on to the blob; any other
/// failure ends the read with that failure.
pub open spec fn get_raw_answers(lookup: Result<Option<u64>, NvsError>, r: GetRawStep) -> bool {
    match lookup {
        Ok(None) => r matches GetRawStep::Finished(Ok(None)),
        Ok(Some(entry)) => r matches GetRawStep::Finished(Ok(Some(v))) && v@ == inline_bytes(entry),
        Err(e) => if e@ == ESP_ERR_NVS_INVALID_LENGTH {
            r is ReadBlob
        } else {
            r matches GetRawStep::Finished(Err(e2)) && e2 == e
        },
    }
}

/// The step of a read after NVS answered a `u64` read of the key.
pub fn get_raw_after_entry_query(lookup: Result<Option<u64>, NvsError>) -> (r: GetRawStep)
    requires
        lookup matches Ok(Some(entry)) ==> entry_len(entry) < INLINE_LIMIT,
    ensures
        get_raw_answers(lookup, r),
{
    match lookup {
        Ok(None) => GetRawStep::Finished(Ok(None)),
        Ok(Some(entry)) => GetRawStep::Finished(Ok(Some(unpack_inline(entry)))),
        Err(e) => {
            if e.code() == ESP_ERR_NVS_INVALID_LENGTH {
                GetRawStep::ReadBlob
            } else {
                GetRawStep::Finished(Err(e))
            }
        },
    }
}

/// How a value is written to NVS.
#[derive(Debug, PartialEq, Eq)]
pub enum NvsWrite {
    /// As one `u64` entry that holds the value inline.
    Entry(u64),
    /// As a blob holding these bytes.
    Blob(Vec<u8>),
}

/// `w` is how `value` is written: inline when it is shorter than
/// `INLINE_LIMIT` bytes, as a blob of the same bytes otherwise.
pub open spec fn writes_value(w: NvsWrite, value: Seq<u8>) -> bool {
    match w {
        NvsWrite::Entry(entry) => value.len() < INLINE_LIMIT && entry == inline_entry(value),
        NvsWrite::Blob(bytes) => value.len() >= INLINE_LIMIT && bytes@ == value,
    }
}

/// Chooses how a value is written.
pub fn write_for(value: Vec<u8>) -> (w: NvsWrite)
    ensures
        writes_value(w, value@),
{
    if value.len() < INLINE_LIMIT {
        NvsWrite::Entry(pack_inline(value.as_slice()))
    } else {
        NvsWrite::Blob(value)
    }
}

/// What a write of a value does next: write it, or finish.
#[derive(Debug, PartialEq, Eq)]
pub enum PutStep {
    /// Perform `write`; `found` is whether the key was present before.
    Write { found: bool, write: NvsWrite },
    /// The operation is over, with this result.
    Finished(Result<bool, NvsError>),
}

/// The step of a write after the key was erased: write the value on
/// success, or fail with the erase's error.
pub fn put_raw_after_erase(erased: Result<bool, NvsError>, value: Vec<u8>) -> (r: PutStep)
    ensures
        put_raw_after_erase_answers(erased, value@, r),
        match erased {
            Ok(found) => r matches PutStep::Write { found: f, write } && f == found && writes_value(
                write,
                value@,
            ),
            Err(e) => r == PutStep::Finished(Err(e)),
        },
{
    match erased {
        Ok(found) => PutStep::Write { found, write: write_for(value) },
        Err(e) => PutStep::Finished(Err(e)),
    }
}

/// The step of a write after NVS answered the write itself: commit on
/// success, or fail with the write's error.
pub fn put_raw_after_write(found: bool, written: Result<(), NvsError>) -> (r: CommitStep)
    ensures
        put_raw_after_write_answers(found, written, r),
        match written {
            Ok(_) => r == CommitStep::Commit { found },
            Err(e) => r == CommitStep::Finished(Err(e)),
        },
{
    match written {
        Ok(_) => CommitStep::Commit { found },
        Err(e) => CommitStep::Finished(Err(e)),
    }
}

/// Reading back what a write stored gives the written value, for every value
/// of at most five bytes and every value of at least `INLINE_LIMIT` bytes: an
/// inline entry is readable and reads as the value, and a blob holds the value.
pub proof fn lemma_read_back_of_write(w: NvsWrite, value: Seq<u8>)
    requires
        writes_value(w, value),
        value.len() <= 5 || value.len() >= INLINE_LIMIT,
    ensures
        match w {
            NvsWrite::Entry(entry) => entry_len(entry) < INLINE_LIMIT && inline_bytes(entry)
                == value,
            NvsWrite::Blob(bytes) => bytes@ == value,
        },
{
    if let NvsWrite::Entry(entry) = w {
        lemma_inline_entry_len(value);
        lemma_inline_roundtrip(value);
    }
}

/// The length that a length query finds for a written value is the value's
/// length, whichever way it was written.
pub proof fn lemma_length_of_write(w: NvsWrite, value: Seq<u8>)
    requires
        writes_value(w, value),
    ensures
        match w {
            NvsWrite::Entry(entry) => entry_len(entry) == value.len(),
            NvsWrite::Blob(bytes) => bytes@.len() == value.len(),
        },
{
    if let NvsWrite::Entry(entry) = w {
        lemma_inline_entry_len(value);
    }
}

/// A `u64` read answers with the entry NVS returned, unchanged, when it
/// succeeds; with "absent" when the key is not found; and with the failing
/// status itself otherwise, whatever entry came with it.
pub proof fn lemma_entry_lookup_law(status: i32, entry: u64, r: Result<Option<u64>, NvsError>)
    requires
        entry_lookup_answers(status, entry, r),
    ensures
        status == 0 ==> r == Ok::<Option<u64>, NvsError>(Some(entry)),
        status == 0x1102 ==> r == Ok::<Option<u64>, NvsError>(None),
        status != 0 && status != 0x1102 ==> (r matches Err(e) && e@ == status),
{
}

/// A key is present exactly when the `u64` read found an entry or failed
/// because the key holds a blob; it is absent exactly when the read found
/// nothing; any other failure of the read is the answer.
pub proof fn lemma_contains_law(lookup: Result<Option<u64>, NvsError>, r: Result<bool, NvsError>)
    requires
        contains_answers(lookup, r),
    ensures
        (r == Ok::<bool, NvsError>(true)) <==> (lookup is Ok && lookup->Ok_0 is Some || (
        lookup matches Err(e) && e@ == 0x110c)),
        (r == Ok::<bool, NvsError>(false)) <==> lookup == Ok::<Option<u64>, NvsError>(None),
        r matches Err(e) ==> lookup == Err::<Option<u64>, NvsError>(e),
        lookup matches Err(e) ==> (e@ != 0x110c ==> r == Err::<bool, NvsError>(e)),
{
}

/// A length query answers with the length recorded in the entry (the entry
/// modulo `256`) when the `u64` read succeeds; moves on to the blob when the
/// key has no `u64` entry; and fails with the status otherwise. The blob
/// query answers with exactly the length NVS reported, "absent" when there is
/// no blob, and the failing status otherwise.
pub proof fn lemma_len_law(
    status: i32,
    entry: u64,
    r: LenStep,
    blob_status: i32,
    blob_len: usize,
    blob_r: Result<Option<usize>, NvsError>,
)
    requires
        len_entry_answers(status, entry, r),
        len_blob_answers(blob_status, blob_len, blob_r),
    ensures
        status == 0 ==> r == LenStep::Finished(Ok(Some((entry % 256) as usize))),
        status == 0x1102 ==> r == LenStep::QueryBlobLength,
        status != 0 && status != 0x1102 ==> (r matches LenStep::Finished(Err(e)) && e@ == status),
        blob_status == 0 ==> blob_r == Ok::<Option<usize>, NvsError>(Some(blob_len)),
        blob_status == 0x1102 ==> blob_r == Ok::<Option<usize>, NvsError>(None),
        blob_status != 0 && blob_status != 0x1102 ==> (blob_r matches Err(e) && e@ == blob_status),
{
    lemma_entry_len_is_low_byte(entry);
}

/// A read of a key answers "absent" when the `u64` read found nothing; the
/// bytes held in the entry when it found one (as many as the entry modulo
/// `256`, the first five from bytes `1` to `5` of the entry, the sixth from
/// its top byte, the seventh zero); goes on to the blob when the key holds a
/// blob; and fails with any other failure of the `u64` read.
pub proof fn lemma_get_raw_law(lookup: Result<Option<u64>, NvsError>, r: GetRawStep)
    requires
        get_raw_answers(lookup, r),
        lookup matches Ok(Some(entry)) ==> entry % 256 < 8,
    ensures
        lookup == Ok::<Option<u64>, NvsError>(None) ==> r matches GetRawStep::Finished(Ok(None)),
        lookup matches Ok(Some(entry)) ==> {
            &&& r matches GetRawStep::Finished(Ok(Some(v)))
            &&& r->Finished_0->Ok_0->Some_0@.len() == entry % 256
            &&& forall|i: int|
                0 <= i < entry % 256 ==> {
                    let b = #[trigger] r->Finished_0->Ok_0->Some_0@[i] as u64;
                    &&& i < 5 ==> b == (entry >> ((8 * i + 8) as u64)) & 0xffu64
                    &&& i == 5 ==> b == (entry >> 56u64) & 0xffu64
                    &&& i == 6 ==> b == 0
                }
        },
        lookup matches Err(e) && e@ == 0x110c ==> r is ReadBlob,
        lookup matches Err(e) ==> (e@ != 0x110c ==> (r matches GetRawStep::Finished(Err(e2))
            && e2 == e)),
{
    if let Ok(Some(entry)) = lookup {
        lemma_entry_len_is_low_byte(entry);
        assert forall|i: int| 0 <= i < entry % 256 implies {
            let b = #[trigger] r->Finished_0->Ok_0->Some_0@[i] as u64;
            &&& i < 5 ==> b == (entry >> ((8 * i + 8) as u64)) & 0xffu64
            &&& i == 5 ==> b == (entry >> 56u64) & 0xffu64
            &&& i == 6 ==> b == 0
        } by {
            lemma_inline_bytes_layout(entry, i);
        }
    }
}

/// How a value is written: inline exactly when it is shorter than eight
/// bytes, in an entry whose lowest byte is the value's length and whose byte
/// `i + 1` is the value's byte `i`; otherwise as a blob of exactly its bytes.
pub proof fn lemma_write_law(w: NvsWrite, value: Seq<u8>)
    requires
        writes_value(w, value),
    ensures
        (w is Entry) <==> value.len() < 8,
        w matches NvsWrite::Entry(entry) ==> {
            &&& entry % 256 == value.len()
            &&& forall|i: int|
                0 <= i < value.len() ==> (entry >> ((8 * i + 8) as u64)) & 0xffu64
                    == #[trigger] value[i] as u64
        },
        w matches NvsWrite::Blob(bytes) ==> bytes@ == value,
{
    if let NvsWrite::Entry(entry) = w {
        lemma_inline_entry_len(value);
        lemma_entry_len_is_low_byte(entry);
        assert forall|i: int| 0 <= i < value.len() implies (entry >> ((8 * i + 8) as u64))
            & 0xffu64 == #[trigger] value[i] as u64 by {
            lemma_inline_entry_layout(value, i);
        }
    }
}

/// Once a value of at most five bytes has been written inline, the key is
/// present, reads back as exactly that value, and has that value's length.
pub proof fn lemma_read_after_inline_write(
    value: Seq<u8>,
    w: NvsWrite,
    entry: u64,
    lookup: Result<Option<u64>, NvsError>,
    present: Result<bool, NvsError>,
    read: GetRawStep,
    len_step: LenStep,
)
    requires
        writes_value(w, value),
        value.len() <= 5,
        w == NvsWrite::Entry(entry),
        entry_lookup_answers(ESP_OK, entry, lookup),
        contains_answers(lookup, present),
        get_raw_answers(lookup, read),
        len_entry_answers(ESP_OK, entry, len_step),
    ensures
        present == Ok::<bool, NvsError>(true),
        read matches GetRawStep::Finished(Ok(Some(v))) && v@ == value,
        len_step == LenStep::Finished(Ok(Some(value.len() as usize))),
{
    lemma_write_law(w, value);
    lemma_entry_lookup_law(ESP_OK, entry, lookup);
    lemma_read_back_of_write(w, value);
    lemma_length_of_write(w, value);
}

/// For one key, with no write between the reads, `contains`, `get_raw` and
/// `len` agree: when the `u64` read finds an inline entry, the key is present,
/// it reads as bytes as many as the entry records, and its length is that
/// number; when the `u64` read and the blob-length read both find nothing, the
/// key is absent, reads as `None` and has no length; and when the `u64` read
/// fails with any other failure than a blob's length mismatch, all three fail
/// with it. When the `u64` read finds a blob, `contains` answers present and
/// `get_raw` goes on to the blob, while `len` fails with that status.
pub proof fn lemma_views_of_one_key_agree(
    status: i32,
    entry: u64,
    lookup: Result<Option<u64>, NvsError>,
    present: Result<bool, NvsError>,
    read: GetRawStep,
    len_step: LenStep,
    blob_status: i32,
    blob_len: usize,
    blob_len_answer: Result<Option<usize>, NvsError>,
)
    requires
        entry_lookup_answers(status, entry, lookup),
        contains_answers(lookup, present),
        get_raw_answers(lookup, read),
        len_entry_answers(status, entry, len_step),
        len_blob_answers(blob_status, blob_len, blob_len_answer),
    ensures
        status == 0 && entry % 256 < 8 ==> {
            &&& present == Ok::<bool, NvsError>(true)
            &&& read matches GetRawStep::Finished(Ok(Some(v))) && v@.len() == entry % 256
            &&& len_step == LenStep::Finished(Ok(Some((entry % 256) as usize)))
        },
        status == 0x1102 && blob_status == 0x1102 ==> {
            &&& present == Ok::<bool, NvsError>(false)
            &&& read matches GetRawStep::Finished(Ok(None))
            &&& len_step == LenStep::QueryBlobLength
            &&& blob_len_answer == Ok::<Option<usize>, NvsError>(None)
        },
        status == 0x110c ==> {
            &&& present == Ok::<bool, NvsError>(true)
            &&& read is ReadBlob
            &&& len_step matches LenStep::Finished(Err(e)) && e@ == status
        },
        status != 0 && status != 0x1102 && status != 0x110c ==> {
            &&& present matches Err(e) && e@ == status
            &&& read matches GetRawStep::Finished(Err(e)) && e@ == status
            &&& len_step matches LenStep::Finished(Err(e)) && e@ == status
        },
{
    lemma_entry_len_is_low_byte(entry);
}

/// `r` is the storage made from the result `opened` of opening a namespace
/// on `partition`.
pub open spec fn opened_answers(
    opened: Result<u32, NvsError>,
    partition: NvsPartition,
    r: Result<EspNvsStorage, NvsError>,
) -> bool {
    match opened {
        Ok(handle) => r matches Ok(s) && s.partition == partition && s.handle == handle,
        Err(e) => r matches Err(e2) && e2 == e,
    }
}

/// `r` is the answer to erasing a key when NVS returned `status`.
pub open spec fn erase_answers(status: i32, r: Result<bool, NvsError>) -> bool {
    if status == ESP_ERR_NVS_NOT_FOUND {
        r == Ok::<bool, NvsError>(false)
    } else if status == ESP_OK {
        r == Ok::<bool, NvsError>(true)
    } else {
        r matches Err(e) && e@ == status
    }
}

/// `r` is the step after erasing a key answered `erased`.
pub open spec fn after_erase_answers(erased: Result<bool, NvsError>, r: CommitStep) -> bool {
    match erased {
        Ok(found) => r == CommitStep::Commit { found },
        Err(e) => r == CommitStep::Finished(Err(e)),
    }
}

/// `r` is the result of a change once the commit answered `committed`.
pub open spec fn after_commit_answers(
    found: bool,
    committed: Result<(), NvsError>,
    r: Result<bool, NvsError>,
) -> bool {
    match committed {
        Ok(_) => r == Ok::<bool, NvsError>(found),
        Err(e) => r == Err::<bool, NvsError>(e),
    }
}

/// `r` is the step of writing `value` after erasing its key answered `erased`.
pub open spec fn put_raw_after_erase_answers(
    erased: Result<bool, NvsError>,
    value: Seq<u8>,
    r: PutStep,
) -> bool {
    match erased {
        Ok(found) => r matches PutStep::Write { found: f, write } && f == found && writes_value(
            write,
            value,
        ),
        Err(e) => r == PutStep::Finished(Err(e)),
    }
}

/// `r` is the step of a write after NVS answered the write with `written`.
pub open spec fn put_raw_after_write_answers(
    found: bool,
    written: Result<(), NvsError>,
    r: CommitStep,
) -> bool {
    match written {
        Ok(_) => r == CommitStep::Commit { found },
        Err(e) => r == CommitStep::Finished(Err(e)),
    }
}

/// `r` is the result of reading a blob into `buf` when NVS answered with
/// `status` and filled `read` bytes.
pub open spec fn blob_read_answers(
    status: i32,
    buf: Seq<u8>,
    read: usize,
    r: Result<Option<Vec<u8>>, NvsError>,
) -> bool {
    if status == ESP_OK {
        r matches Ok(Some(v)) && v@ == (if read <= buf.len() {
            buf.subrange(0, read as int)
        } else {
            buf
        })
    } else {
        r matches Err(e) && e@ == status
    }
}

/// Opening a storage keeps the handle that NVS gave and records the
/// partition it was opened on; a failure to open is the answer unchanged.
pub proof fn lemma_open_law(
    opened: Result<u32, NvsError>,
    partition: NvsPartition,
    r: Result<EspNvsStorage, NvsError>,
)
    requires
        opened_answers(opened, partition, r),
    ensures
        opened is Ok <==> r is Ok,
        r matches Ok(s) ==> s.handle == opened->Ok_0 && s.partition == partition,
        r matches Err(e) ==> opened == Err::<u32, NvsError>(e),
{
}

/// Removing a key answers whether it was present: after an erase that
/// succeeded the namespace is committed and the answer is `true`, after an
/// erase that found nothing it is committed and the answer is `false`; a
/// failing erase or commit is the answer, with its status.
pub proof fn lemma_remove_law(
    erase_status: i32,
    erased: Result<bool, NvsError>,
    step: CommitStep,
    committed: Result<(), NvsError>,
    done: Result<bool, NvsError>,
)
    requires
        erase_answers(erase_status, erased),
        after_erase_answers(erased, step),
        step is Commit ==> after_commit_answers(step->found, committed, done),
    ensures
        erase_status == 0 ==> step == (CommitStep::Commit { found: true }),
        erase_status == 0x1102 ==> step == (CommitStep::Commit { found: false }),
        erase_status != 0 && erase_status != 0x1102 ==> (step matches CommitStep::Finished(Err(e))
            && e@ == erase_status),
        step is Commit && committed is Ok ==> done == Ok::<bool, NvsError>(erase_status == 0),
        step is Commit ==> (committed matches Err(e) ==> done == Err::<bool, NvsError>(e)),
{
}

/// Writing a value answers whether its key was present before: the key is
/// erased, then the value written as `lemma_write_law` says, then the
/// namespace committed; the first failure among these is the answer.
pub proof fn lemma_put_law(
    erased: Result<bool, NvsError>,
    value: Seq<u8>,
    step: PutStep,
    written: Result<(), NvsError>,
    write_step: CommitStep,
    committed: Result<(), NvsError>,
    done: Result<bool, NvsError>,
)
    requires
        put_raw_after_erase_answers(erased, value, step),
        step is Write ==> put_raw_after_write_answers(step->found, written, write_step),
        write_step is Commit ==> after_commit_answers(write_step->found, committed, done),
    ensures
        erased matches Err(e) ==> step == PutStep::Finished(Err(e)),
        erased matches Ok(found) ==> {
            &&& (step matches PutStep::Write { found: f, write } && f == found)
            &&& (step->write is Entry) <==> value.len() < 8
            &&& step->write matches NvsWrite::Entry(entry) ==> entry % 256 == value.len()
            &&& step->write matches NvsWrite::Blob(bytes) ==> bytes@ == value
            &&& written is Ok ==> write_step == (CommitStep::Commit { found })
            &&& written matches Err(e) ==> write_step == CommitStep::Finished(Err(e))
            &&& written is Ok && committed is Ok ==> done == Ok::<bool, NvsError>(found)
            &&& written is Ok ==> (committed matches Err(e) ==> done == Err::<bool, NvsError>(e))
        },
{
    if let PutStep::Write { found, write } = step {
        lemma_write_law(write, value);
    }
}

/// Reading a blob answers with the bytes NVS filled in, no more and no less
/// than it reported (capped by the buffer); a failing read is the answer,
/// with its status.
pub proof fn lemma_blob_read_law(
    status: i32,
    buf: Seq<u8>,
    read: usize,
    r: Result<Option<Vec<u8>>, NvsError>,
)
    requires
        blob_read_answers(status, buf, read, r),
    ensures
        status == 0 ==> {
            &&& r matches Ok(Some(v))
            &&& r->Ok_0->Some_0@.len() == if read <= buf.len() {
                read as int
            } else {
                buf.len() as int
            }
            &&& forall|i: int|
                0 <= i < r->Ok_0->Some_0@.len() ==> #[trigger] r->Ok_0->Some_0@[i] == buf[i]
        },
        status != 0 ==> (r matches Err(e) && e@ == status),
{
}

} // verus!
