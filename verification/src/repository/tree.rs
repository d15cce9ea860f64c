//! The file tree: files bound to a blob and a metadata record, and folders
//! that hold files and further folders.

use vstd::prelude::*;
use crate::error::RepoError;
use crate::model::{is_present, lemma_views_push, lift, present, views};
use crate::repository::metadata::{Metadata, MetadataView};
use crate::repository::object::{Blob, BlobView};

verus! {

/// What a file is: its path, its content and its metadata.
pub struct FileView {
    pub path: Seq<char>,
    pub blob: BlobView,
    pub metadata: MetadataView,
}

impl FileView {
    /// The path is present.
    pub open spec fn wf(self) -> bool {
        present(self.path)
    }

    /// The outcome of building a file from its parts.
    pub open spec fn create(path: Seq<char>, blob: BlobView, metadata: MetadataView) -> Result<
        FileView,
        RepoError,
    > {
        if present(path) {
            Ok(FileView { path, blob, metadata })
        } else {
            Err(RepoError::InvalidArgument)
        }
    }
}

/// A path bound to a blob and a metadata record.
pub struct File {
    pub(crate) path: String,
    pub(crate) blob: Blob,
    pub(crate) metadata: Metadata,
}

impl View for File {
    type V = FileView;

    closed spec fn view(&self) -> FileView {
        FileView { path: self.path@, blob: self.blob@, metadata: self.metadata@ }
    }
}

impl File {
    /// Builds a file; an empty path is refused.
    pub fn new(path: String, blob: Blob, metadata: Metadata) -> (r: Result<File, RepoError>)
        ensures
            lift(r) == FileView::create(path@, blob@, metadata@),
            r matches Ok(v) ==> v@.wf(),
    {
        if !is_present(&path) {
            return Err(RepoError::InvalidArgument);
        }
        Ok(File { path, blob, metadata })
    }

    pub fn get_path(&self) -> (r: &String)
        ensures
            r@ == self@.path,
    {
        &self.path
    }

    /// The content of the file.
    pub fn get_blob(&self) -> (r: &Blob)
        ensures
            r@ == self@.blob,
    {
        &self.blob
    }

    /// The metadata of the file.
    pub fn get_metadata(&self) -> (r: &Metadata)
        ensures
            r@ == self@.metadata,
    {
        &self.metadata
    }

    /// The content of the file, to be changed in place: what the borrower
    /// leaves is the content afterwards, and nothing else changes.
    pub fn get_blob_mut(&mut self) -> (r: &mut Blob)
        ensures
            r@ == old(self)@.blob,
            final(self)@ == (FileView { blob: final(r)@, ..old(self)@ }),
    {
        &mut self.blob
    }

    /// The metadata of the file, to be changed in place in the same way.
    pub fn get_metadata_mut(&mut self) -> (r: &mut Metadata)
        ensures
            r@ == old(self)@.metadata,
            final(self)@ == (FileView { metadata: final(r)@, ..old(self)@ }),
    {
        &mut self.metadata
    }
}

/// What a folder is: its path, its files and its child folders, each list in
/// the order in which its items were added.
pub struct FolderView {
    pub path: Seq<char>,
    pub files: Seq<FileView>,
    pub folders: Seq<FolderView>,
}

impl FolderView {
    /// The path is present.
    pub open spec fn wf(self) -> bool {
        present(self.path)
    }

    /// The outcome of building a folder: it starts empty.
    pub open spec fn create(path: Seq<char>) -> Result<FolderView, RepoError> {
        if present(path) {
            Ok(FolderView { path, files: Seq::empty(), folders: Seq::empty() })
        } else {
            Err(RepoError::InvalidArgument)
        }
    }

    /// The folder with one more file at the end.
    pub open spec fn with_file(self, file: FileView) -> FolderView {
        FolderView { files: self.files.push(file), ..self }
    }

    /// The folder with one more child folder at the end.
    pub open spec fn with_folder(self, folder: FolderView) -> FolderView {
        FolderView { folders: self.folders.push(folder), ..self }
    }
}

/// A node of the tree.
pub struct Folder {
    pub(crate) path: String,
    pub(crate) files: Vec<File>,
    pub(crate) folders: Vec<Folder>,
}

/// The view of a folder: the views of its files and, level by level, of its
/// child folders.
pub closed spec fn folder_view(f: Folder) -> FolderView
    decreases f,
{
    FolderView {
        path: f.path@,
        files: views(f.files@),
        folders: Seq::new(
            f.folders@.len(),
            |i: int|
                if 0 <= i < f.folders@.len() {
                    folder_view(f.folders@[i])
                } else {
                    arbitrary()
                },
        ),
    }
}

impl View for Folder {
    type V = FolderView;

    open spec fn view(&self) -> FolderView {
        folder_view(*self)
    }
}

/// The view of a folder, one level down: its path, the views of its files
/// and the views of its child folders.
proof fn lemma_folder_view(f: Folder)
    ensures
        f@ == (FolderView { path: f.path@, files: views(f.files@), folders: views(f.folders@) }),
{
    assert(f@.folders =~= views(f.folders@));
}

impl Folder {
    /// Builds an empty folder; an empty path is refused.
    pub fn new(path: String) -> (r: Result<Folder, RepoError>)
        ensures
            lift(r) == FolderView::create(path@),
            r matches Ok(v) ==> v@.wf(),
    {
        if !is_present(&path) {
            return Err(RepoError::InvalidArgument);
        }
        let folder = Folder { path, files: Vec::new(), folders: Vec::new() };
        proof {
            lemma_folder_view(folder);
            assert(views(folder.files@) =~= Seq::empty());
            assert(views(folder.folders@) =~= Seq::empty());
        }
        Ok(folder)
    }

    pub fn get_path(&self) -> (r: &String)
        ensures
            r@ == self@.path,
    {
        &self.path
    }

    /// The files, in the order in which they were added.
    pub fn get_files(&self) -> (r: &Vec<File>)
        ensures
            views(r@) == self@.files,
    {
        &self.files
    }

    /// The child folders, in the order in which they were added.
    pub fn get_folders(&self) -> (r: &Vec<Folder>)
        ensures
            views(r@) == self@.folders,
    {
        proof {
            lemma_folder_view(*self);
        }
        &self.folders
    }

    /// The files, to be changed in place: what the borrower leaves are the
    /// files afterwards. The child folders are not touched.
    pub fn get_files_mut(&mut self) -> (r: &mut Vec<File>)
        ensures
            views(r@) == old(self)@.files,
            final(self)@ == (FolderView { files: views(final(r)@), ..old(self)@ }),
    {
        &mut self.files
    }

    /// The child folders, to be changed in place: what the borrower leaves
    /// are the child folders afterwards. The files are not touched.
    pub fn get_folders_mut(&mut self) -> (r: &mut Vec<Folder>)
        ensures
            views(r@) == old(self)@.folders,
            final(self)@ == (FolderView { folders: views(final(r)@), ..old(self)@ }),
    {
        proof {
            assert forall|f: Folder| #[trigger]
                folder_view(f) == (FolderView {
                    path: f.path@,
                    files: views(f.files@),
                    folders: views(f.folders@),
                }) by {
                lemma_folder_view(f);
            }
        }
        &mut self.folders
    }

    /// Adds a file at the end, whatever its path.
    pub fn add_file(&mut self, file: File)
        ensures
            final(self)@ == old(self)@.with_file(file@),
            old(self)@.wf() ==> final(self)@.wf(),
    {
        proof {
            lemma_views_push(self.files@, file);
        }
        self.files.push(file);
        proof {
            lemma_folder_view(*old(self));
            lemma_folder_view(*self);
        }
    }

    /// Adds a child folder at the end, whatever its path.
    pub fn add_folder(&mut self, folder: Folder)
        ensures
            final(self)@ == old(self)@.with_folder(folder@),
            old(self)@.wf() ==> final(self)@.wf(),
    {
        proof {
            lemma_views_push(self.folders@, folder);
        }
        self.folders.push(folder);
        proof {
            lemma_folder_view(*old(self));
            lemma_folder_view(*self);
        }
    }
}

/// A folder that was built is well formed and empty.
pub proof fn law_new_folder_is_empty(path: Seq<char>)
    ensures
        FolderView::create(path) is Ok <==> present(path),
        FolderView::create(path) matches Ok(f) ==> f.wf() && f.files.len() == 0 && f.folders.len()
            == 0,
{
}

/// An added file or folder is the last of its list; the rest of that list
/// stays in place and the other list is untouched.
pub proof fn law_added_child_is_last(f: FolderView, file: FileView, folder: FolderView)
    ensures
        f.with_file(file).files.last() == file,
        f.with_file(file).files.drop_last() == f.files,
        f.with_file(file).folders == f.folders,
        f.with_folder(folder).folders.last() == folder,
        f.with_folder(folder).folders.drop_last() == f.folders,
        f.with_folder(folder).files == f.files,
{
    assert(f.with_file(file).files.drop_last() =~= f.files);
    assert(f.with_folder(folder).folders.drop_last() =~= f.folders);
}

} // verus!
