use rcargo::scan::{calculate_directory_size, FsNode, ScanError};

fn file(len: u64) -> FsNode {
    FsNode::File { len }
}

fn dir(entries: Vec<FsNode>) -> FsNode {
    FsNode::Dir { entries }
}

#[test]
fn empty_directory_has_size_zero() {
    assert_eq!(calculate_directory_size(&vec![]), Ok(0));
}

#[test]
fn files_nested_one_level_deep() {
    let listing = vec![dir(vec![file(10), file(20), file(30)])];
    assert_eq!(calculate_directory_size(&listing), Ok(60));
}

#[test]
fn files_at_every_level_count() {
    let listing = vec![
        file(1),
        dir(vec![file(2), dir(vec![file(4), dir(vec![]), file(8)])]),
        dir(vec![]),
        file(16),
    ];
    assert_eq!(calculate_directory_size(&listing), Ok(31));
}

#[test]
fn empty_files_and_directories_add_nothing() {
    let listing = vec![file(0), dir(vec![dir(vec![dir(vec![])])]), file(0)];
    assert_eq!(calculate_directory_size(&listing), Ok(0));
}

#[test]
fn the_largest_total_that_fits() {
    let listing = vec![file(u64::MAX - 5), dir(vec![file(5)])];
    assert_eq!(calculate_directory_size(&listing), Ok(u64::MAX));
}

#[test]
fn a_total_beyond_u64_is_an_error() {
    let listing = vec![file(u64::MAX), file(1)];
    assert_eq!(calculate_directory_size(&listing), Err(ScanError::TotalTooLarge));
    let nested = vec![dir(vec![file(u64::MAX), dir(vec![file(1)])])];
    assert_eq!(calculate_directory_size(&nested), Err(ScanError::TotalTooLarge));
    let later = vec![file(u64::MAX), file(1), file(3)];
    assert_eq!(calculate_directory_size(&later), Err(ScanError::TotalTooLarge));
}

#[test]
fn the_error_says_what_is_wrong() {
    assert_eq!(ScanError::TotalTooLarge.message(), "the total size is more than 64 bits can hold");
}
