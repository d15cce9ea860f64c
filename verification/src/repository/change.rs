//! Changes: what a commit did to one file, in summary and line by line.

use vstd::prelude::*;
use crate::error::RepoError;
use crate::model::{is_present, lift, present};

verus! {

/// The kind of a change.
#[derive(Debug, Clone, Copy, PartialEq, Eq, Structural)]
pub enum Type {
    Add,
    Modify,
    Delete,
}

impl Type {
    /// The sentence that describes each kind.
    pub open spec fn description(self) -> Seq<char> {
        match self {
            Type::Add => "Thêm mới tệp hoặc thư mục"@,
            Type::Modify => "Chỉnh sửa tệp hoặc thư mục"@,
            Type::Delete => "Xóa tệp hoặc thư mục"@,
        }
    }

    /// The sentence that describes this kind.
    pub fn describe(&self) -> (r: &'static str)
        ensures
            r@ == self.description(),
    {
        match self {
            Type::Add => "Thêm mới tệp hoặc thư mục",
            Type::Modify => "Chỉnh sửa tệp hoặc thư mục",
            Type::Delete => "Xóa tệp hoặc thư mục",
        }
    }
}

/// What a change summary is: the file, the kind of change and a short text.
pub struct SummaryView {
    pub file_path: Seq<char>,
    pub change_type: Type,
    pub summary: Seq<char>,
}

impl SummaryView {
    /// Path and text are both present.
    pub open spec fn wf(self) -> bool {
        present(self.file_path) && present(self.summary)
    }

    /// The outcome of building a summary from its parts.
    pub open spec fn create(file_path: Seq<char>, change_type: Type, summary: Seq<char>) -> Result<
        SummaryView,
        RepoError,
    > {
        if present(file_path) && present(summary) {
            Ok(SummaryView { file_path, change_type, summary })
        } else {
            Err(RepoError::InvalidArgument)
        }
    }
}

/// A short description of what happened to one file.
pub struct Summary {
    pub(crate) file_path: String,
    pub(crate) change_type: Type,
    pub(crate) summary: String,
}

impl View for Summary {
    type V = SummaryView;

    closed spec fn view(&self) -> SummaryView {
        SummaryView {
            file_path: self.file_path@,
            change_type: self.change_type,
            summary: self.summary@,
        }
    }
}

impl Clone for Summary {
    fn clone(&self) -> (r: Self)
        ensures
            r == *self,
    {
        Summary {
            file_path: self.file_path.clone(),
            change_type: self.change_type,
            summary: self.summary.clone(),
        }
    }
}

impl Summary {
    /// Builds a summary; an empty path or text is refused.
    pub fn new(file_path: String, change_type: Type, summary: String) -> (r: Result<
        Summary,
        RepoError,
    >)
        ensures
            lift(r) == SummaryView::create(file_path@, change_type, summary@),
            r matches Ok(v) ==> v@.wf(),
    {
        if !is_present(&file_path) || !is_present(&summary) {
            return Err(RepoError::InvalidArgument);
        }
        Ok(Summary { file_path, change_type, summary })
    }

    pub fn get_file_path(&self) -> (r: &String)
        ensures
            r@ == self@.file_path,
    {
        &self.file_path
    }

    pub fn get_change_type(&self) -> (r: &Type)
        ensures
            *r == self@.change_type,
    {
        &self.change_type
    }

    pub fn get_summary(&self) -> (r: &String)
        ensures
            r@ == self@.summary,
    {
        &self.summary
    }
}

/// What a change detail is: a line and its content before and after.
pub struct DetailView {
    pub line_number: u32,
    pub old_content: Seq<char>,
    pub new_content: Seq<char>,
}

impl DetailView {
    /// Both contents are present.
    pub open spec fn wf(self) -> bool {
        present(self.old_content) && present(self.new_content)
    }

    /// The outcome of building a detail from its parts.
    pub open spec fn create(
        line_number: u32,
        old_content: Seq<char>,
        new_content: Seq<char>,
    ) -> Result<DetailView, RepoError> {
        if present(old_content) && present(new_content) {
            Ok(DetailView { line_number, old_content, new_content })
        } else {
            Err(RepoError::InvalidArgument)
        }
    }
}

/// One changed line, with its content before and after the change.
pub struct Detail {
    pub(crate) line_number: u32,
    pub(crate) old_content: String,
    pub(crate) new_content: String,
}

impl View for Detail {
    type V = DetailView;

    closed spec fn view(&self) -> DetailView {
        DetailView {
            line_number: self.line_number,
            old_content: self.old_content@,
            new_content: self.new_content@,
        }
    }
}

impl Clone for Detail {
    fn clone(&self) -> (r: Self)
        ensures
            r == *self,
    {
        Detail {
            line_number: self.line_number,
            old_content: self.old_content.clone(),
            new_content: self.new_content.clone(),
        }
    }
}

impl Detail {
    /// Builds a detail; an empty old or new content is refused.
    pub fn new(line_number: u32, old_content: String, new_content: String) -> (r: Result<
        Detail,
        RepoError,
    >)
        ensures
            lift(r) == DetailView::create(line_number, old_content@, new_content@),
            r matches Ok(v) ==> v@.wf(),
    {
        if !is_present(&old_content) || !is_present(&new_content) {
            return Err(RepoError::InvalidArgument);
        }
        Ok(Detail { line_number, old_content, new_content })
    }

    pub fn get_line_number(&self) -> (r: u32)
        ensures
            r == self@.line_number,
    {
        self.line_number
    }

    pub fn get_old_content(&self) -> (r: &String)
        ensures
            r@ == self@.old_content,
    {
        &self.old_content
    }

    pub fn get_new_content(&self) -> (r: &String)
        ensures
            r@ == self@.new_content,
    {
        &self.new_content
    }
}

} // verus!
