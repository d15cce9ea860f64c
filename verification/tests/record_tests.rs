use repo_model::error::RepoError;
use repo_model::repository::blob::Segment;
use repo_model::repository::change::{Detail, Summary, Type};
use repo_model::repository::issue::{Comment, Status as IssueStatus};
use repo_model::repository::pull::Status as PullStatus;
use repo_model::repository::{Blob, File, Folder, Hook, Metadata};

fn text(t: &str) -> String {
    String::from(t)
}

fn file(path: &str) -> File {
    let blob = Blob::new(text("blob"), 3).unwrap();
    let metadata = Metadata::new(1, 2, text("ann")).unwrap();
    File::new(text(path), blob, metadata).unwrap()
}

#[test]
fn pull_status_describes_itself() {
    assert_eq!(PullStatus::Open.describe(), "Pull request đang mở");
    assert_eq!(PullStatus::Merged.describe(), "Pull request đã được gộp");
    assert_eq!(PullStatus::Closed.describe(), "Pull request đã bị đóng");
}

#[test]
fn issue_status_describes_itself() {
    assert_eq!(IssueStatus::Open.describe(), "Issue đang mở");
    assert_eq!(IssueStatus::InProgress.describe(), "Issue đang được xử lý");
    assert_eq!(IssueStatus::Resolved.describe(), "Issue đã được giải quyết");
    assert_eq!(IssueStatus::Closed.describe(), "Issue đã bị đóng");
}

#[test]
fn change_type_describes_itself() {
    assert_eq!(Type::Add.describe(), "Thêm mới tệp hoặc thư mục");
    assert_eq!(Type::Modify.describe(), "Chỉnh sửa tệp hoặc thư mục");
    assert_eq!(Type::Delete.describe(), "Xóa tệp hoặc thư mục");
}

#[test]
fn summary_holds_its_parts() {
    let s = Summary::new(text("src/a.rs"), Type::Add, text("new file")).unwrap();
    assert_eq!(s.get_file_path(), "src/a.rs");
    assert_eq!(*s.get_change_type(), Type::Add);
    assert_eq!(s.get_summary(), "new file");
    let c = s.clone();
    assert_eq!(c.get_file_path(), "src/a.rs");
    assert_eq!(*c.get_change_type(), Type::Add);
    assert_eq!(c.get_summary(), "new file");
}

#[test]
fn summary_with_an_empty_field_is_refused() {
    assert_eq!(
        Summary::new(text(""), Type::Add, text("s")).err(),
        Some(RepoError::InvalidArgument)
    );
    assert_eq!(
        Summary::new(text("p"), Type::Delete, text("")).err(),
        Some(RepoError::InvalidArgument)
    );
}

#[test]
fn detail_holds_its_parts() {
    let d = Detail::new(12, text("before"), text("after")).unwrap();
    assert_eq!(d.get_line_number(), 12);
    assert_eq!(d.get_old_content(), "before");
    assert_eq!(d.get_new_content(), "after");
    let c = d.clone();
    assert_eq!(c.get_line_number(), 12);
    assert_eq!(c.get_old_content(), "before");
    assert_eq!(c.get_new_content(), "after");
}

#[test]
fn detail_with_an_empty_content_is_refused() {
    assert_eq!(Detail::new(1, text(""), text("n")).err(), Some(RepoError::InvalidArgument));
    assert_eq!(Detail::new(1, text("o"), text("")).err(), Some(RepoError::InvalidArgument));
    assert!(Detail::new(0, text("o"), text("n")).is_ok());
}

#[test]
fn comment_holds_its_parts() {
    let c = Comment::new(text("bob"), text("looks good"), 99).unwrap();
    assert_eq!(c.get_author(), "bob");
    assert_eq!(c.get_content(), "looks good");
    assert_eq!(c.get_timestamp(), 99);
}

#[test]
fn comment_with_an_empty_field_is_refused() {
    assert_eq!(Comment::new(text(""), text("c"), 1).err(), Some(RepoError::InvalidArgument));
    assert_eq!(Comment::new(text("a"), text(""), 1).err(), Some(RepoError::InvalidArgument));
}

#[test]
fn metadata_holds_its_parts() {
    let m = Metadata::new(10, 20, text("ann")).unwrap();
    assert_eq!(m.get_created(), 10);
    assert_eq!(m.get_updated(), 20);
    assert_eq!(m.get_author(), "ann");
    assert_eq!(m.created, 10);
    assert_eq!(m.updated, 20);
    assert_eq!(m.author, "ann");
}

#[test]
fn metadata_without_author_is_refused() {
    assert_eq!(Metadata::new(1, 2, text("")).err(), Some(RepoError::InvalidArgument));
}

#[test]
fn hook_holds_its_parts() {
    let h = Hook::new(text("lint"), text("pre-commit"), text("run-lint")).unwrap();
    assert_eq!(h.get_name(), "lint");
    assert_eq!(h.get_event(), "pre-commit");
    assert_eq!(h.get_script(), "run-lint");
}

#[test]
fn hook_with_an_empty_field_is_refused() {
    assert_eq!(Hook::new(text(""), text("e"), text("s")).err(), Some(RepoError::InvalidArgument));
    assert_eq!(Hook::new(text("n"), text(""), text("s")).err(), Some(RepoError::InvalidArgument));
    assert_eq!(Hook::new(text("n"), text("e"), text("")).err(), Some(RepoError::InvalidArgument));
}

#[test]
fn file_holds_its_blob_and_metadata() {
    let mut blob = Blob::new(text("content"), 3).unwrap();
    blob.add_segment(Segment::new(0, vec![1, 2, 3], false).unwrap()).unwrap();
    blob.set_recombine(true);
    let metadata = Metadata::new(1, 2, text("ann")).unwrap();
    let f = File::new(text("a/b.txt"), blob, metadata).unwrap();
    assert_eq!(f.get_path(), "a/b.txt");
    assert_eq!(f.get_blob().get_id(), "content");
    assert_eq!(f.get_blob().recombine_segments(), vec![1u8, 2, 3]);
    assert_eq!(f.get_metadata().get_author(), "ann");
    assert_eq!(f.get_metadata().get_updated(), 2);
}

#[test]
fn file_without_path_is_refused() {
    let blob = Blob::new(text("blob"), 3).unwrap();
    let metadata = Metadata::new(1, 2, text("ann")).unwrap();
    assert_eq!(File::new(text(""), blob, metadata).err(), Some(RepoError::InvalidArgument));
}

#[test]
fn folder_starts_empty() {
    let f = Folder::new(text("root")).unwrap();
    assert_eq!(f.get_path(), "root");
    assert!(f.get_files().is_empty());
    assert!(f.get_folders().is_empty());
}

#[test]
fn folder_without_path_is_refused() {
    assert_eq!(Folder::new(text("")).err(), Some(RepoError::InvalidArgument));
}

#[test]
fn folder_keeps_children_in_insertion_order() {
    let mut root = Folder::new(text("root")).unwrap();
    root.add_file(file("root/b"));
    root.add_file(file("root/a"));
    root.add_file(file("root/b"));
    let mut sub = Folder::new(text("root/sub")).unwrap();
    sub.add_file(file("root/sub/x"));
    let mut deep = Folder::new(text("root/sub/deep")).unwrap();
    deep.add_file(file("root/sub/deep/y"));
    sub.add_folder(deep);
    root.add_folder(sub);
    root.add_folder(Folder::new(text("root/other")).unwrap());

    let paths: Vec<&str> = root.get_files().iter().map(|f| f.get_path().as_str()).collect();
    assert_eq!(paths, vec!["root/b", "root/a", "root/b"]);
    assert_eq!(root.get_folders().len(), 2);
    let sub = &root.get_folders()[0];
    assert_eq!(sub.get_path(), "root/sub");
    assert_eq!(sub.get_files().len(), 1);
    assert_eq!(sub.get_files()[0].get_path(), "root/sub/x");
    assert_eq!(sub.get_folders().len(), 1);
    assert_eq!(sub.get_folders()[0].get_path(), "root/sub/deep");
    assert_eq!(sub.get_folders()[0].get_files()[0].get_path(), "root/sub/deep/y");
    assert!(sub.get_folders()[0].get_folders().is_empty());
    assert_eq!(root.get_folders()[1].get_path(), "root/other");
    assert!(root.get_folders()[1].get_files().is_empty());
}
