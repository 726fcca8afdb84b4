use paimon_iceberg::write_builder::{CommitTarget, WriteBuilder};

#[test]
fn commits_go_to_the_table_by_a_random_user() {
    let first = WriteBuilder::new();
    let second = WriteBuilder::new();
    assert_eq!(first.commit_user().len(), 36);
    assert_ne!(first.commit_user(), second.commit_user());
    match first.new_commit() {
        CommitTarget::Main { commit_user } => assert_eq!(commit_user, first.commit_user()),
        CommitTarget::Branch { .. } => panic!("there is no branch"),
    }
}

#[test]
fn commits_go_to_a_branch_by_a_given_user() {
    let builder = WriteBuilder::new()
        .with_branch("b1".to_owned())
        .with_commit_user("u".to_owned());
    assert_eq!(builder.commit_user(), "u");
    match builder.new_commit() {
        CommitTarget::Branch {
            commit_user,
            branch,
        } => {
            assert_eq!(commit_user, "u");
            assert_eq!(branch, "b1");
        }
        CommitTarget::Main { .. } => panic!("there is a branch"),
    }
}
