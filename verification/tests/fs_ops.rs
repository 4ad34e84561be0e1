use mdeno::fs_ops::{makes_parents, remove_plan, write_plan, RemovePlan, WriteOptions, WritePlan};

fn options(append: Option<bool>, create: Option<bool>, create_new: Option<bool>) -> WriteOptions {
    WriteOptions { append, create, create_new }
}

#[test]
fn a_write_without_options_replaces_the_content() {
    assert_eq!(write_plan(options(None, None, None), true), WritePlan::Replace);
    assert_eq!(write_plan(options(None, None, None), false), WritePlan::Replace);
    assert_eq!(write_plan(options(Some(false), Some(false), Some(false)), true), WritePlan::Replace);
}

#[test]
fn a_file_that_was_to_be_new_is_left_alone() {
    assert_eq!(write_plan(options(None, None, Some(true)), true), WritePlan::Refuse);
    assert_eq!(write_plan(options(Some(true), None, Some(true)), true), WritePlan::Refuse);
    assert_eq!(write_plan(options(None, None, Some(true)), false), WritePlan::Replace);
}

#[test]
fn an_appending_write_makes_the_file_unless_told_not_to() {
    assert_eq!(write_plan(options(Some(true), None, None), false), WritePlan::Append { create: true });
    assert_eq!(
        write_plan(options(Some(true), Some(false), None), true),
        WritePlan::Append { create: false }
    );
    assert_eq!(
        write_plan(options(Some(true), Some(true), Some(true)), false),
        WritePlan::Append { create: true }
    );
}

#[test]
fn what_is_removed_follows_what_is_there() {
    assert_eq!(remove_plan(false, false, None), RemovePlan::NotFound);
    assert_eq!(remove_plan(false, true, Some(true)), RemovePlan::NotFound);
    assert_eq!(remove_plan(true, true, Some(true)), RemovePlan::DirectoryAndContent);
    assert_eq!(remove_plan(true, true, Some(false)), RemovePlan::EmptyDirectory);
    assert_eq!(remove_plan(true, true, None), RemovePlan::EmptyDirectory);
    assert_eq!(remove_plan(true, false, Some(true)), RemovePlan::File);
    assert_eq!(remove_plan(true, false, None), RemovePlan::File);
}

#[test]
fn parents_are_made_only_when_asked_for() {
    assert!(makes_parents(Some(true)));
    assert!(!makes_parents(Some(false)));
    assert!(!makes_parents(None));
}
