use photo_cull::deletion::{conclude, delete_file, DeleteError, DeleteStep};
use photo_cull::reply::FsReply;

#[test]
fn a_missing_file_is_not_found_and_nothing_is_removed() {
    assert_eq!(delete_file(false), DeleteStep::Finish(Err(DeleteError::NotFound)));
}

#[test]
fn a_file_that_exists_is_to_be_removed() {
    assert_eq!(delete_file(true), DeleteStep::Remove);
}

#[test]
fn a_removal_that_works_concludes_well() {
    assert_eq!(conclude(FsReply::Done), Ok(()));
}

#[test]
fn a_removal_that_fails_passes_the_report_on() {
    assert_eq!(
        conclude(FsReply::Failed("permission denied".to_string())),
        Err(DeleteError::Io("permission denied".to_string()))
    );
}

#[test]
fn deletion_failures_have_their_message() {
    assert_eq!(DeleteError::NotFound.message(), "File not found");
    assert_eq!(DeleteError::Io("is a directory".to_string()).message(), "is a directory");
}
