use platform_utils::store::{
    finish_after_write, initial_content, plan_after_create, plan_after_read, ReadOutcome,
    StoreError, StorePlan, WritePlan,
};

#[test]
fn missing_file_is_created_with_default_content() {
    let initial = initial_content(Some("hello".to_string()));
    let plan = plan_after_read(ReadOutcome::Missing, initial.clone());
    assert_eq!(plan, StorePlan::CreateThenWrite("hello".to_string()));
    let write = plan_after_create(None, initial.clone());
    assert_eq!(write, WritePlan::Write("hello".to_string()));
    let result = finish_after_write(None, initial);
    assert_eq!(result, Ok("hello".to_string()));
    // A second access now finds the file and returns the same content.
    let plan = plan_after_read(ReadOutcome::Content("hello".to_string()), initial_content(None));
    assert_eq!(plan, StorePlan::Finished(Ok("hello".to_string())));
}

#[test]
fn missing_file_without_default_gets_empty_content() {
    let initial = initial_content(None);
    assert_eq!(initial, "");
    let plan = plan_after_read(ReadOutcome::Missing, initial.clone());
    assert_eq!(plan, StorePlan::CreateThenWrite(String::new()));
    let result = finish_after_write(None, initial);
    assert_eq!(result, Ok(String::new()));
}

#[test]
fn existing_file_is_returned_verbatim() {
    let plan = plan_after_read(
        ReadOutcome::Content("existing text".to_string()),
        initial_content(Some("ignored default".to_string())),
    );
    assert_eq!(plan, StorePlan::Finished(Ok("existing text".to_string())));
}

#[test]
fn directory_creation_failure_plans_no_write() {
    let write = plan_after_create(Some("parent is a file".to_string()), "c".to_string());
    assert_eq!(
        write,
        WritePlan::Fail(StoreError::DirectoryCreateFailed("parent is a file".to_string()))
    );
}

#[test]
fn other_read_failure_is_surfaced_without_creation() {
    let plan = plan_after_read(
        ReadOutcome::Failed("permission denied".to_string()),
        initial_content(None),
    );
    assert_eq!(
        plan,
        StorePlan::Finished(Err(StoreError::ReadFailed("permission denied".to_string())))
    );
}

#[test]
fn write_failure_is_surfaced() {
    let result = finish_after_write(Some("disk full".to_string()), "c".to_string());
    assert_eq!(result, Err(StoreError::WriteFailed("disk full".to_string())));
}

#[test]
fn error_messages_name_the_failed_step() {
    assert_eq!(
        StoreError::DirectoryCreateFailed("no space".to_string()).message(),
        "failed to create directory: no space"
    );
    assert_eq!(
        StoreError::WriteFailed("disk full".to_string()).message(),
        "failed to write file: disk full"
    );
    assert_eq!(
        StoreError::ReadFailed("permission denied".to_string()).message(),
        "failed to read file: permission denied"
    );
}
