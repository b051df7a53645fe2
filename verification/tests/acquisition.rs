use file_acquirer::acquire::acquire;
use file_acquirer::acquire::read_file_or_fail;
use file_acquirer::acquire::read_file_or_fail_shorthand;
use file_acquirer::failure::decide_on_open_failure;
use file_acquirer::failure::AcquireError;
use file_acquirer::failure::AcquisitionOrReadError;
use file_acquirer::failure::FailureKind;
use file_acquirer::failure::ReadError;
use file_acquirer::failure::Recovery;
use file_acquirer::filesystem::Fs;

#[test]
fn missing_path_with_create_yields_empty_file() {
    let mut fs = Fs::new(true);
    let path = b"hello.txt".to_vec();
    let handle = acquire(&mut fs, &path, true).expect("create-on-missing must succeed");
    assert_eq!(fs.open_attempt_count(), 1);
    assert_eq!(fs.create_attempt_count(), 1);
    let content = fs.read_all(&handle).expect("reading a fresh file must succeed");
    assert_eq!(content, Vec::<u8>::new());
    fs.close(handle);
}

#[test]
fn second_acquire_opens_without_second_create() {
    let mut fs = Fs::new(true);
    let path = b"hello.txt".to_vec();
    let first = acquire(&mut fs, &path, true).expect("first call must create");
    fs.close(first);
    assert_eq!(fs.create_attempt_count(), 1);
    let second = acquire(&mut fs, &path, true).expect("second call must open");
    fs.close(second);
    assert_eq!(fs.open_attempt_count(), 2);
    assert_eq!(fs.create_attempt_count(), 1);
}

#[test]
fn existing_path_never_sees_a_create_attempt() {
    let mut fs = Fs::new(true);
    fs.seed_file(b"hello.txt".to_vec(), b"hello".to_vec(), true, None);
    let with_flag = acquire(&mut fs, &b"hello.txt".to_vec(), true).expect("open must succeed");
    fs.close(with_flag);
    let without_flag = acquire(&mut fs, &b"hello.txt".to_vec(), false).expect("open must succeed");
    fs.close(without_flag);
    assert_eq!(fs.open_attempt_count(), 2);
    assert_eq!(fs.create_attempt_count(), 0);
}

#[test]
fn open_of_existing_file_never_truncates() {
    let mut fs = Fs::new(true);
    fs.seed_file(b"hello.txt".to_vec(), b"hello".to_vec(), true, None);
    let handle = acquire(&mut fs, &b"hello.txt".to_vec(), true).expect("open must succeed");
    let content = fs.read_all(&handle).expect("read must succeed");
    assert_eq!(content, b"hello".to_vec());
    fs.close(handle);
}

#[test]
fn permission_failure_is_terminal_and_wraps_its_kind() {
    let mut fs = Fs::new(true);
    fs.seed_file(b"secret.txt".to_vec(), b"hidden".to_vec(), false, None);
    let err = acquire(&mut fs, &b"secret.txt".to_vec(), true).expect_err("open must be refused");
    assert_eq!(err, AcquireError::PermissionFailure);
    assert_eq!(err.wrapped_kind(), FailureKind::PermissionDenied);
    assert_eq!(fs.create_attempt_count(), 0);
    assert_eq!(fs.open_handle_count(), 0);
}

#[test]
fn missing_path_without_create_flag_fails_not_found() {
    let mut fs = Fs::new(true);
    let err = acquire(&mut fs, &b"absent.txt".to_vec(), false).expect_err("open must fail");
    assert_eq!(err, AcquireError::NotFoundFailure);
    assert_eq!(err.wrapped_kind(), FailureKind::NotFound);
    assert_eq!(fs.create_attempt_count(), 0);
}

#[test]
fn refused_create_is_wrapped_not_discarded() {
    let mut fs = Fs::new(false);
    let err = acquire(&mut fs, &b"absent.txt".to_vec(), true).expect_err("create must be refused");
    assert_eq!(err, AcquireError::CreateFailure(FailureKind::PermissionDenied));
    assert_eq!(err.wrapped_kind(), FailureKind::PermissionDenied);
    assert_eq!(fs.create_attempt_count(), 1);
    assert_eq!(fs.open_handle_count(), 0);
}

#[test]
fn decision_tree_on_each_failure_kind() {
    assert_eq!(
        decide_on_open_failure(FailureKind::NotFound, true),
        Recovery::AttemptCreate
    );
    assert_eq!(
        decide_on_open_failure(FailureKind::NotFound, false),
        Recovery::Fail(AcquireError::NotFoundFailure)
    );
    assert_eq!(
        decide_on_open_failure(FailureKind::PermissionDenied, true),
        Recovery::Fail(AcquireError::PermissionFailure)
    );
    assert_eq!(
        decide_on_open_failure(FailureKind::Other(7), true),
        Recovery::Fail(AcquireError::OtherIoFailure(7))
    );
    assert_eq!(
        AcquireError::OtherIoFailure(7).wrapped_kind(),
        FailureKind::Other(7)
    );
}

#[test]
fn no_handle_remains_after_any_outcome() {
    let mut fs = Fs::new(true);
    assert_eq!(fs.open_handle_count(), 0);
    let handle = acquire(&mut fs, &b"hello.txt".to_vec(), true).expect("create must succeed");
    assert_eq!(fs.open_handle_count(), 1);
    fs.close(handle);
    assert_eq!(fs.open_handle_count(), 0);
    acquire(&mut fs, &b"absent.txt".to_vec(), false).expect_err("open must fail");
    assert_eq!(fs.open_handle_count(), 0);
    read_file_or_fail(&mut fs, &b"hello.txt".to_vec()).expect("read must succeed");
    assert_eq!(fs.open_handle_count(), 0);
    read_file_or_fail(&mut fs, &b"absent.txt".to_vec()).expect_err("read must fail");
    assert_eq!(fs.open_handle_count(), 0);
}

#[test]
fn both_propagation_forms_agree_on_existing_content() {
    let mut fs = Fs::new(true);
    fs.seed_file(b"hello.txt".to_vec(), b"hello".to_vec(), true, None);
    let explicit = read_file_or_fail(&mut fs, &b"hello.txt".to_vec());
    let shorthand = read_file_or_fail_shorthand(&mut fs, &b"hello.txt".to_vec());
    assert_eq!(explicit, Ok(b"hello".to_vec()));
    assert_eq!(explicit, shorthand);
}

#[test]
fn both_propagation_forms_agree_on_missing_file() {
    let mut fs = Fs::new(true);
    let explicit = read_file_or_fail(&mut fs, &b"absent.txt".to_vec());
    let shorthand = read_file_or_fail_shorthand(&mut fs, &b"absent.txt".to_vec());
    assert_eq!(
        explicit,
        Err(AcquisitionOrReadError::Acquisition(AcquireError::NotFoundFailure))
    );
    assert_eq!(explicit, shorthand);
    assert_eq!(fs.create_attempt_count(), 0);
}

#[test]
fn both_propagation_forms_agree_on_permission_denied() {
    let mut fs = Fs::new(true);
    fs.seed_file(b"secret.txt".to_vec(), b"hidden".to_vec(), false, None);
    let explicit = read_file_or_fail(&mut fs, &b"secret.txt".to_vec());
    let shorthand = read_file_or_fail_shorthand(&mut fs, &b"secret.txt".to_vec());
    assert_eq!(
        explicit,
        Err(AcquisitionOrReadError::Acquisition(AcquireError::PermissionFailure))
    );
    assert_eq!(explicit, shorthand);
}

#[test]
fn read_fault_partway_discards_partial_content() {
    let mut fs = Fs::new(true);
    fs.seed_file(
        b"flaky.txt".to_vec(),
        b"hello".to_vec(),
        true,
        Some((2, FailureKind::Other(9))),
    );
    let handle = acquire(&mut fs, &b"flaky.txt".to_vec(), false).expect("open must succeed");
    let err = fs.read_all(&handle).expect_err("read must fail at the fault");
    assert_eq!(err, ReadError { kind: FailureKind::Other(9) });
    fs.close(handle);
    let composed = read_file_or_fail(&mut fs, &b"flaky.txt".to_vec());
    assert_eq!(
        composed,
        Err(AcquisitionOrReadError::Read(ReadError { kind: FailureKind::Other(9) }))
    );
    assert_eq!(fs.open_handle_count(), 0);
}

#[test]
fn read_fault_past_the_end_never_triggers() {
    let mut fs = Fs::new(true);
    fs.seed_file(
        b"sound.txt".to_vec(),
        b"hello".to_vec(),
        true,
        Some((6, FailureKind::Other(9))),
    );
    let content = read_file_or_fail(&mut fs, &b"sound.txt".to_vec());
    assert_eq!(content, Ok(b"hello".to_vec()));
}

#[test]
fn read_fault_at_the_end_fails_the_final_probe() {
    let mut fs = Fs::new(true);
    fs.seed_file(
        b"edge.txt".to_vec(),
        b"hello".to_vec(),
        true,
        Some((5, FailureKind::Other(3))),
    );
    let err = read_file_or_fail(&mut fs, &b"edge.txt".to_vec());
    assert_eq!(
        err,
        Err(AcquisitionOrReadError::Read(ReadError { kind: FailureKind::Other(3) }))
    );
}

#[test]
fn messages_name_operation_and_cause() {
    assert_eq!(
        AcquireError::NotFoundFailure.message(),
        "problem opening the file: not found"
    );
    assert_eq!(
        AcquireError::PermissionFailure.message(),
        "problem opening the file: permission denied"
    );
    assert_eq!(
        AcquireError::CreateFailure(FailureKind::PermissionDenied).message(),
        "problem creating the file: permission denied"
    );
    assert_eq!(
        ReadError { kind: FailureKind::Other(9) }.message(),
        "problem reading the file: unclassified failure"
    );
    assert_eq!(
        AcquisitionOrReadError::Read(ReadError { kind: FailureKind::NotFound }).message(),
        "problem reading the file: not found"
    );
}

#[test]
fn seeded_empty_file_reads_empty() {
    let mut fs = Fs::new(true);
    fs.seed_file(b"empty.txt".to_vec(), Vec::new(), true, None);
    let content = read_file_or_fail(&mut fs, &b"empty.txt".to_vec());
    assert_eq!(content, Ok(Vec::new()));
}
