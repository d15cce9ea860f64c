//! The entities of a repository, leaves first.

pub mod blob;
pub mod branch;
pub mod change;
pub mod commit;
pub mod hook;
pub mod issue;
pub mod metadata;
pub mod object;
pub mod pull;
pub mod remote;
pub mod stash;
pub mod tag;
pub mod tree;

pub use branch::{Branch, BranchView};
pub use commit::{Commit, CommitView};
pub use hook::{Hook, HookView};
pub use metadata::{Metadata, MetadataView};
pub use object::{Blob, BlobView};
pub use remote::{Remote, RemoteView, Retention};
pub use stash::{Stash, StashView};
pub use tag::{Tag, TagView};
pub use tree::{File, FileView, Folder, FolderView};
