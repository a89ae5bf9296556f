use vstd::prelude::*;
use crate::line_index::{line_ids, rebuild};
use crate::rope_store::{line_count_of, TextRope};

verus! {

/// Why an open or a save did not take place.
#[derive(Clone, Copy, Debug, PartialEq, Eq, Structural)]
pub enum DocError {
    /// The file could not be read or written.
    Io,
    /// A plain save was asked for while the document has no file yet.
    NoPath,
}

/// The characters of an optional path.
pub open spec fn path_view(p: Option<&str>) -> Option<Seq<char>> {
    match p {
        Some(s) => Some(s@),
        None => None,
    }
}

/// The characters of an optional owned path.
pub open spec fn owned_path_view(p: Option<String>) -> Option<Seq<char>> {
    match p {
        Some(s) => Some(s@),
        None => None,
    }
}

/// Where a save goes: the path given, else the document's own path.
pub open spec fn save_target_of(given: Option<Seq<char>>, current: Option<Seq<char>>) -> Option<
    Seq<char>,
> {
    match given {
        Some(p) => Some(p),
        None => current,
    }
}

/// The one open document: its flat text, the rope that mirrors it, the line
/// index derived from the rope, and where it lives on disk.
pub struct Document {
    /// The editable content.
    pub text: String,
    /// The backing file; `None` until the document is opened or saved as.
    pub file_path: Option<String>,
    /// Whether `text` has diverged from what was last loaded or saved.
    pub is_modified: bool,
    /// A character position in `text`.
    pub cursor_offset: usize,
    /// The structural mirror of `text`.
    pub rope: TextRope,
    /// One identifier per line of `rope`, from zero.
    pub line_starts: Vec<usize>,
}

impl Document {
    /// The cursor stays within the text.
    pub open spec fn wf(&self) -> bool {
        self.cursor_offset <= self.text@.len()
    }

    /// The rope holds exactly the flat text.
    pub open spec fn in_sync(&self) -> bool {
        self.rope@ == self.text@
    }

    /// The line index has one identifier for each line of the rope.
    pub open spec fn lines_match(&self) -> bool {
        self.line_starts@ == line_ids(line_count_of(self.rope@))
    }

    /// The characters of the document's path, if it has one.
    pub open spec fn path(&self) -> Option<Seq<char>> {
        owned_path_view(self.file_path)
    }

    /// What one synchronisation from the flat text to the rope does: where the
    /// text differs from the rope, the rope is rebuilt from it and the document
    /// is marked modified; else the rope and the flag stay. The line index is
    /// rebuilt in either case, and nothing else changes.
    pub open spec fn sync_to_rope_step(pre: Document, post: Document) -> bool {
        &&& post.text == pre.text
        &&& post.file_path == pre.file_path
        &&& post.cursor_offset == pre.cursor_offset
        &&& pre.rope@ == pre.text@ ==> post.rope == pre.rope && post.is_modified == pre.is_modified
        &&& pre.rope@ != pre.text@ ==> post.rope@ == pre.text@ && post.is_modified
        &&& post.lines_match()
    }

    /// An empty, unmodified document with no file, the cursor at the start, an
    /// empty rope and an empty line index.
    pub fn new() -> (r: Document)
        ensures
            r.text@ == Seq::<char>::empty(),
            r.file_path.is_none(),
            !r.is_modified,
            r.cursor_offset == 0,
            r.rope@ == Seq::<char>::empty(),
            r.line_starts@ == Seq::<usize>::empty(),
            r.wf(),
            r.in_sync(),
    {
        let text = String::new();
        let rope = TextRope::from_text(text.as_str());
        Document {
            text,
            file_path: None,
            is_modified: false,
            cursor_offset: 0,
            rope,
            line_starts: Vec::new(),
        }
    }

    /// Rebuilds the line index from the rope.
    pub fn sync_lines_from_rope(&mut self)
        ensures
            final(self).lines_match(),
            final(self).text == old(self).text,
            final(self).file_path == old(self).file_path,
            final(self).is_modified == old(self).is_modified,
            final(self).cursor_offset == old(self).cursor_offset,
            final(self).rope == old(self).rope,
    {
        self.line_starts = rebuild(&self.rope);
    }

    /// Makes the flat text what the rope holds, the rope being authoritative,
    /// and rebuilds the line index from the rope.
    pub fn sync_from_rope(&mut self)
        ensures
            final(self).text@ == old(self).rope@,
            final(self).in_sync(),
            final(self).file_path == old(self).file_path,
            final(self).is_modified == old(self).is_modified,
            final(self).cursor_offset == old(self).cursor_offset,
            final(self).rope == old(self).rope,
            final(self).lines_match(),
    {
        self.text = self.rope.to_text();
        self.sync_lines_from_rope();
    }

    /// Brings the rope and the line index up to date with the flat text,
    /// marking the document modified where the text had changed.
    pub fn sync_to_rope(&mut self)
        ensures
            Self::sync_to_rope_step(*old(self), *final(self)),
            final(self).in_sync(),
            final(self).lines_match(),
            old(self).wf() ==> final(self).wf(),
    {
        let rope_content = self.rope.to_text();
        if rope_content != self.text {
            self.rope = TextRope::from_text(self.text.as_str());
            self.is_modified = true;
        }
        self.sync_lines_from_rope();
    }

    /// Opens the file at `path`, given what reading it gave: its content, or
    /// `None` where it could not be read. A failed read leaves the document as
    /// it was; a good one replaces the content, takes the path, clears the
    /// modified flag and puts the cursor at the start.
    pub fn open_file(&mut self, path: &str, read: Option<String>) -> (r: Result<(), DocError>)
        ensures
            read.is_none() ==> r == Err::<(), DocError>(DocError::Io) && *final(self) == *old(self),
            read.is_some() ==> {
                &&& r is Ok
                &&& final(self).text@ == read.unwrap()@
                &&& final(self).in_sync()
                &&& final(self).lines_match()
                &&& final(self).path() == Some(path@)
                &&& !final(self).is_modified
                &&& final(self).cursor_offset == 0
                &&& final(self).wf()
            },
    {
        match read {
            None => Err(DocError::Io),
            Some(content) => {
                self.rope = TextRope::from_text(content.as_str());
                self.sync_from_rope();
                self.file_path = Some(path.to_owned());
                self.is_modified = false;
                self.cursor_offset = 0;
                self.sync_lines_from_rope();
                Ok(())
            },
        }
    }

    /// The path a save goes to: `path` where given, else the document's own.
    pub fn save_target(&self, path: Option<&str>) -> (r: Result<String, DocError>)
        ensures
            save_target_of(path_view(path), self.path()) is None ==> r == Err::<String, DocError>(
                DocError::NoPath,
            ),
            save_target_of(path_view(path), self.path()) is Some ==> r is Ok && r.unwrap()@
                == save_target_of(path_view(path), self.path()).unwrap(),
    {
        match path {
            Some(p) => Ok(p.to_owned()),
            None => match &self.file_path {
                Some(f) => Ok(f.clone()),
                None => Err(DocError::NoPath),
            },
        }
    }

    /// Records a save, given whether writing the text to its target worked.
    /// With no target this is `NoPath`, and a failed write is `Io`; either
    /// leaves the document as it was. A good save clears the modified flag
    /// and, where `path` was given ("save as"), makes it the document's path.
    pub fn save_file(&mut self, path: Option<&str>, written: bool) -> (r: Result<(), DocError>)
        ensures
            save_target_of(path_view(path), old(self).path()) is None ==> r == Err::<(), DocError>(
                DocError::NoPath,
            ) && *final(self) == *old(self),
            save_target_of(path_view(path), old(self).path()) is Some && !written ==> r == Err::<
                (),
                DocError,
            >(DocError::Io) && *final(self) == *old(self),
            save_target_of(path_view(path), old(self).path()) is Some && written ==> {
                &&& r is Ok
                &&& !final(self).is_modified
                &&& path is None ==> final(self).file_path == old(self).file_path
                &&& path is Some ==> final(self).path() == path_view(path)
                &&& final(self).text == old(self).text
                &&& final(self).cursor_offset == old(self).cursor_offset
                &&& final(self).rope == old(self).rope
                &&& final(self).line_starts == old(self).line_starts
            },
    {
        if path.is_none() && self.file_path.is_none() {
            return Err(DocError::NoPath);
        }
        if !written {
            return Err(DocError::Io);
        }
        match path {
            Some(p) => {
                self.file_path = Some(p.to_owned());
            },
            None => {},
        }
        self.is_modified = false;
        Ok(())
    }
}

impl Default for Document {
    fn default() -> (r: Document)
        ensures
            r.text@ == Seq::<char>::empty(),
            r.file_path.is_none(),
            !r.is_modified,
            r.cursor_offset == 0,
            r.rope@ == Seq::<char>::empty(),
            r.line_starts@ == Seq::<usize>::empty(),
    {
        Document::new()
    }
}

/// Synchronising twice in a row, with no change to the text between, leaves
/// the rope, the line index and the modified flag as the first call left them.
pub proof fn lemma_sync_to_rope_idempotent(a: Document, b: Document, c: Document)
    requires
        Document::sync_to_rope_step(a, b),
        Document::sync_to_rope_step(b, c),
    ensures
        c.rope == b.rope,
        c.line_starts@ == b.line_starts@,
        c.is_modified == b.is_modified,
{
}

} // verus!
