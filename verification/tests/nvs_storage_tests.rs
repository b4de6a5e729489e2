use nvs_storage::codec::{pack_inline, unpack_inline, INLINE_LIMIT};
use nvs_storage::error::{NvsError, ESP_ERR_NVS_INVALID_LENGTH, ESP_ERR_NVS_NOT_FOUND, ESP_OK};
use nvs_storage::storage::{
    after_commit, after_erase, blob_read_outcome, contains_outcome, entry_lookup, entry_readable, erase_outcome, get_raw_after_entry_query,
    len_after_blob_query, len_after_entry_query, put_raw_after_erase, put_raw_after_write,
    write_for, CommitStep, EspNvsStorage, GetRawStep, LenStep, NvsPartition, NvsWrite, PutStep,
};

const ESP_ERR_NVS_INVALID_HANDLE: i32 = 0x1107;
const ESP_ERR_NVS_NOT_ENOUGH_SPACE: i32 = 0x1105;

fn err(code: i32) -> NvsError {
    NvsError::from_code(code).unwrap()
}

#[test]
fn error_from_code_rejects_ok() {
    assert!(NvsError::from_code(ESP_OK).is_none());
    assert_eq!(NvsError::from_code(ESP_ERR_NVS_NOT_FOUND).unwrap().code(), 0x1102);
    assert_eq!(NvsError::check(ESP_OK), Ok(()));
    assert_eq!(NvsError::check(-1).unwrap_err().code(), -1);
}

#[test]
fn pack_empty_value() {
    assert_eq!(pack_inline(&[]), 0);
}

#[test]
fn pack_three_bytes() {
    assert_eq!(pack_inline(&[1, 2, 3]), 0x0302_0103);
}

#[test]
fn pack_seven_bytes() {
    assert_eq!(pack_inline(&[0xff; 7]), 0xffff_ffff_ffff_ff07);
    assert_eq!(pack_inline(&[1, 2, 3, 4, 5, 6, 7]), 0x0706_0504_0302_0107);
}

#[test]
fn unpack_three_bytes() {
    assert_eq!(unpack_inline(0x0302_0103), vec![1, 2, 3]);
    assert_eq!(unpack_inline(0xdead_beef_0000_0000), Vec::<u8>::new());
}

#[test]
fn roundtrip_up_to_five_bytes() {
    let sample: [u8; 5] = [0x10, 0xff, 0x00, 0x7f, 0x80];
    for n in 0..=5 {
        let v = &sample[..n];
        assert_eq!(unpack_inline(pack_inline(v)), v.to_vec());
        assert_eq!((pack_inline(v) & 0xff) as usize, n);
    }
}

#[test]
fn six_and_seven_bytes_read_back_differently() {
    assert_eq!(unpack_inline(pack_inline(&[1, 2, 3, 4, 5, 6])), vec![1, 2, 3, 4, 5, 0]);
    assert_eq!(unpack_inline(pack_inline(&[1, 2, 3, 4, 5, 6, 7])), vec![1, 2, 3, 4, 5, 7, 0]);
}

#[test]
fn readable_entries() {
    assert!(entry_readable(0x0302_0103));
    assert!(entry_readable(0x07));
    assert!(!entry_readable(0x08));
    assert!(!entry_readable(0xff));
}

#[test]
fn open_default_and_custom() {
    let s = EspNvsStorage::new_default(Ok(7)).unwrap();
    assert_eq!(s.partition, NvsPartition::Default);
    assert_eq!(s.handle, 7);
    let s = EspNvsStorage::new(Ok(9)).unwrap();
    assert_eq!(s.partition, NvsPartition::Custom);
    assert_eq!(s.handle, 9);
    assert_eq!(EspNvsStorage::new_default(Err(err(ESP_ERR_NVS_NOT_FOUND))).unwrap_err().code(), ESP_ERR_NVS_NOT_FOUND);
    assert_eq!(EspNvsStorage::new(Err(err(ESP_ERR_NVS_INVALID_HANDLE))).unwrap_err().code(), ESP_ERR_NVS_INVALID_HANDLE);
}

#[test]
fn contains_cases() {
    assert_eq!(contains_outcome(Ok(Some(0))), Ok(true));
    assert_eq!(contains_outcome(Ok(None)), Ok(false));
    assert_eq!(contains_outcome(Err(err(ESP_ERR_NVS_INVALID_LENGTH))), Ok(true));
    assert_eq!(contains_outcome(Err(err(ESP_ERR_NVS_INVALID_HANDLE))), Err(err(ESP_ERR_NVS_INVALID_HANDLE)));
}

#[test]
fn remove_steps() {
    assert_eq!(after_erase(Ok(true)), CommitStep::Commit { found: true });
    assert_eq!(after_erase(Ok(false)), CommitStep::Commit { found: false });
    assert_eq!(after_erase(Err(err(ESP_ERR_NVS_NOT_FOUND))), CommitStep::Finished(Err(err(ESP_ERR_NVS_NOT_FOUND))));
    assert_eq!(after_commit(true, Ok(())), Ok(true));
    assert_eq!(after_commit(false, Ok(())), Ok(false));
    assert_eq!(after_commit(true, Err(err(-1))), Err(err(-1)));
}

#[test]
fn len_of_entry() {
    assert_eq!(len_after_entry_query(ESP_OK, 0x0302_0103), LenStep::Finished(Ok(Some(3))));
    assert_eq!(len_after_entry_query(ESP_OK, 0xff), LenStep::Finished(Ok(Some(255))));
    assert_eq!(len_after_entry_query(ESP_ERR_NVS_NOT_FOUND, 0), LenStep::QueryBlobLength);
    assert_eq!(
        len_after_entry_query(ESP_ERR_NVS_INVALID_HANDLE, 3),
        LenStep::Finished(Err(err(ESP_ERR_NVS_INVALID_HANDLE)))
    );
}

#[test]
fn len_of_blob() {
    assert_eq!(len_after_blob_query(ESP_ERR_NVS_NOT_FOUND, 5), Ok(None));
    assert_eq!(len_after_blob_query(ESP_OK, 40), Ok(Some(40)));
    assert_eq!(len_after_blob_query(ESP_ERR_NVS_INVALID_LENGTH, 40), Err(err(ESP_ERR_NVS_INVALID_LENGTH)));
}

#[test]
fn get_raw_steps() {
    assert_eq!(get_raw_after_entry_query(Ok(None)), GetRawStep::Finished(Ok(None)));
    assert_eq!(
        get_raw_after_entry_query(Ok(Some(0x0302_0103))),
        GetRawStep::Finished(Ok(Some(vec![1, 2, 3])))
    );
    assert_eq!(get_raw_after_entry_query(Err(err(ESP_ERR_NVS_INVALID_LENGTH))), GetRawStep::ReadBlob);
    assert_eq!(
        get_raw_after_entry_query(Err(err(ESP_ERR_NVS_INVALID_HANDLE))),
        GetRawStep::Finished(Err(err(ESP_ERR_NVS_INVALID_HANDLE)))
    );
}

#[test]
fn write_choice() {
    assert_eq!(write_for(vec![1, 2, 3]), NvsWrite::Entry(0x0302_0103));
    assert_eq!(write_for(vec![]), NvsWrite::Entry(0));
    assert_eq!(write_for(vec![9; 7]), NvsWrite::Entry(0x0909_0909_0909_0907));
    assert_eq!(write_for(vec![9; INLINE_LIMIT]), NvsWrite::Blob(vec![9; 8]));
    assert_eq!(write_for(vec![1; 100]), NvsWrite::Blob(vec![1; 100]));
}

#[test]
fn put_raw_steps() {
    assert_eq!(
        put_raw_after_erase(Ok(true), vec![5]),
        PutStep::Write { found: true, write: NvsWrite::Entry(0x0501) }
    );
    assert_eq!(
        put_raw_after_erase(Ok(false), vec![0; 10]),
        PutStep::Write { found: false, write: NvsWrite::Blob(vec![0; 10]) }
    );
    assert_eq!(
        put_raw_after_erase(Err(err(ESP_ERR_NVS_INVALID_HANDLE)), vec![5]),
        PutStep::Finished(Err(err(ESP_ERR_NVS_INVALID_HANDLE)))
    );
    assert_eq!(put_raw_after_write(true, Ok(())), CommitStep::Commit { found: true });
    assert_eq!(
        put_raw_after_write(false, Err(err(ESP_ERR_NVS_NOT_ENOUGH_SPACE))),
        CommitStep::Finished(Err(err(ESP_ERR_NVS_NOT_ENOUGH_SPACE)))
    );
}

#[test]
fn read_back_of_write_on_values() {
    for value in [vec![], vec![0xaa], vec![1, 2, 3, 4, 5], vec![7; 8], vec![3; 64]] {
        match write_for(value.clone()) {
            NvsWrite::Entry(entry) => {
                assert!(entry_readable(entry));
                assert_eq!(get_raw_after_entry_query(Ok(Some(entry))), GetRawStep::Finished(Ok(Some(value.clone()))));
                assert_eq!(len_after_entry_query(ESP_OK, entry), LenStep::Finished(Ok(Some(value.len()))));
                assert_eq!(contains_outcome(Ok(Some(entry))), Ok(true));
            }
            NvsWrite::Blob(bytes) => assert_eq!(bytes, value),
        }
    }
}

#[test]
fn entry_lookup_cases() {
    assert_eq!(entry_lookup(ESP_ERR_NVS_NOT_FOUND, 5), Ok(None));
    assert_eq!(entry_lookup(ESP_OK, 0x0302_0103), Ok(Some(0x0302_0103)));
    assert_eq!(entry_lookup(ESP_ERR_NVS_INVALID_LENGTH, 5), Err(err(ESP_ERR_NVS_INVALID_LENGTH)));
}

#[test]
fn erase_outcome_cases() {
    assert_eq!(erase_outcome(ESP_ERR_NVS_NOT_FOUND), Ok(false));
    assert_eq!(erase_outcome(ESP_OK), Ok(true));
    assert_eq!(erase_outcome(ESP_ERR_NVS_INVALID_HANDLE), Err(err(ESP_ERR_NVS_INVALID_HANDLE)));
}

#[test]
fn blob_read_cases() {
    assert_eq!(blob_read_outcome(ESP_OK, vec![1, 2, 3, 4], 2), Ok(Some(vec![1, 2])));
    assert_eq!(blob_read_outcome(ESP_OK, vec![1, 2, 3, 4], 4), Ok(Some(vec![1, 2, 3, 4])));
    assert_eq!(blob_read_outcome(ESP_OK, vec![1, 2], 9), Ok(Some(vec![1, 2])));
    assert_eq!(blob_read_outcome(ESP_ERR_NVS_INVALID_LENGTH, vec![1, 2], 2), Err(err(ESP_ERR_NVS_INVALID_LENGTH)));
}

#[test]
fn views_of_one_key_agree_on_values() {
    // An inline entry: present, reads as its bytes, and has their length.
    let entry = pack_inline(&[4, 5, 6]);
    let lookup = entry_lookup(ESP_OK, entry);
    assert_eq!(contains_outcome(lookup), Ok(true));
    assert_eq!(get_raw_after_entry_query(lookup), GetRawStep::Finished(Ok(Some(vec![4, 5, 6]))));
    assert_eq!(len_after_entry_query(ESP_OK, entry), LenStep::Finished(Ok(Some(3))));
    // A missing key: absent everywhere.
    let lookup = entry_lookup(ESP_ERR_NVS_NOT_FOUND, 0);
    assert_eq!(contains_outcome(lookup), Ok(false));
    assert_eq!(get_raw_after_entry_query(lookup), GetRawStep::Finished(Ok(None)));
    assert_eq!(len_after_entry_query(ESP_ERR_NVS_NOT_FOUND, 0), LenStep::QueryBlobLength);
    assert_eq!(len_after_blob_query(ESP_ERR_NVS_NOT_FOUND, 0), Ok(None));
    // Any other failure: all three fail with it.
    let lookup = entry_lookup(ESP_ERR_NVS_INVALID_HANDLE, 0);
    assert_eq!(contains_outcome(lookup), Err(err(ESP_ERR_NVS_INVALID_HANDLE)));
    assert_eq!(get_raw_after_entry_query(lookup), GetRawStep::Finished(Err(err(ESP_ERR_NVS_INVALID_HANDLE))));
    assert_eq!(
        len_after_entry_query(ESP_ERR_NVS_INVALID_HANDLE, 0),
        LenStep::Finished(Err(err(ESP_ERR_NVS_INVALID_HANDLE)))
    );
}
