use repo_model::repository::blob::Segment;
use repo_model::repository::change::{Detail, Summary, Type};
use repo_model::repository::{Blob, Branch, Commit, File, Folder, Metadata, Remote, Stash, Tag};

fn text(t: &str) -> String {
    String::from(t)
}

fn commit(hash: &str) -> Commit {
    Commit::new(text(hash), text("ann"), text("msg"), 100).unwrap()
}

fn summary(path: &str) -> Summary {
    Summary::new(text(path), Type::Delete, text("gone")).unwrap()
}

fn file(path: &str) -> File {
    let blob = Blob::new(text("blob"), 3).unwrap();
    let metadata = Metadata::new(1, 2, text("ann")).unwrap();
    File::new(text(path), blob, metadata).unwrap()
}

#[test]
fn file_blob_can_grow_in_place() {
    let mut f = file("a");
    f.get_blob_mut().add_segment(Segment::new(4, vec![4, 4], false).unwrap()).unwrap();
    f.get_blob_mut().set_recombine(true);
    assert_eq!(f.get_blob().recombine_segments(), vec![4u8, 4]);
    assert_eq!(f.get_path(), "a");
    assert_eq!(f.get_metadata().get_created(), 1);
}

#[test]
fn file_metadata_can_change_in_place() {
    let mut f = file("a");
    f.get_metadata_mut().updated = 50;
    assert_eq!(f.get_metadata().get_updated(), 50);
    assert_eq!(f.get_metadata().get_created(), 1);
    assert_eq!(f.get_blob().get_id(), "blob");
}

#[test]
fn branch_in_a_remote_can_be_archived_in_place() {
    let mut r = Remote::new(text("origin"), text("url")).unwrap();
    r.add_branch(Branch::new(text("old"), commit("h0"), 10).unwrap());
    r.add_branch(Branch::new(text("new"), commit("h0"), 90).unwrap());
    for b in r.get_branches_mut().iter_mut() {
        b.archive_if_inactive(50);
    }
    assert!(r.get_branches()[0].is_archived());
    assert!(!r.get_branches()[1].is_archived());
    assert_eq!(r.get_branches().len(), 2);
    assert_eq!(r.get_name(), "origin");
}

#[test]
fn head_can_change_without_the_history() {
    let mut b = Branch::new(text("main"), commit("h0"), 1).unwrap();
    b.add_commit(commit("h1"));
    b.get_head_mut().add_change(summary("late"), Detail::new(1, text("o"), text("n")).unwrap());
    assert_eq!(b.get_head().get_changes().len(), 1);
    assert_eq!(b.get_commits().len(), 1);
    assert!(b.get_commits()[0].get_changes().is_empty());
}

#[test]
fn history_can_change_without_the_head() {
    let mut b = Branch::new(text("main"), commit("h0"), 1).unwrap();
    b.get_commits_mut().push(commit("side"));
    assert_eq!(b.get_head().get_hash(), "h0");
    assert_eq!(b.get_commits().len(), 1);
    assert_eq!(b.get_commits()[0].get_hash(), "side");
}

#[test]
fn folder_children_can_change_in_place() {
    let mut root = Folder::new(text("root")).unwrap();
    root.add_folder(Folder::new(text("root/sub")).unwrap());
    root.get_folders_mut()[0].add_file(file("root/sub/x"));
    root.get_files_mut().push(file("root/y"));
    assert_eq!(root.get_folders()[0].get_files().len(), 1);
    assert_eq!(root.get_folders()[0].get_files()[0].get_path(), "root/sub/x");
    assert_eq!(root.get_files().len(), 1);
    assert_eq!(root.get_files()[0].get_path(), "root/y");
    assert_eq!(root.get_path(), "root");
}

#[test]
fn tagged_commit_can_change_in_place() {
    let mut t = Tag::new(text("v1"), commit("h"), text("m")).unwrap();
    t.get_commit_mut().add_change(summary("f"), Detail::new(2, text("o"), text("n")).unwrap());
    assert_eq!(t.get_commit().get_changes().len(), 1);
    assert_eq!(t.get_commit().get_detailed_changes().len(), 1);
    assert_eq!(t.get_name(), "v1");
    assert_eq!(t.get_message(), "m");
}

#[test]
fn stash_changes_can_change_in_place() {
    let mut s = Stash::new(text("s"), text("m"), 3).unwrap();
    s.add_change(summary("a"));
    s.add_change(summary("b"));
    s.get_changes_mut().remove(0);
    assert_eq!(s.get_changes().len(), 1);
    assert_eq!(s.get_changes()[0].get_file_path(), "b");
    assert_eq!(s.get_id(), "s");
    assert_eq!(s.get_timestamp(), 3);
}
