//! The minibuffer: the find-file and switch-buffer completion engine.

use vstd::prelude::*;

verus! {

use crate::buffer::buffer::Cursor;
use crate::buffer::command_line::DirEntry;
use crate::buffer::error::Error;
use crate::keybinding::actions::{Action, OpenBufferAction, OpenFileAction};
use crate::text::{
    clone_line,
    clone_lines,
    contains_chars,
    has_substring,
    lines_equal,
    lines_view,
    sort_lines,
    sorted_lex,
    str_to_line,
};

/// What the minibuffer is completing over: nothing, a path (as the list
/// of its components, the root written `/`), or the open buffers'
/// titles.
#[derive(Debug, PartialEq, Eq, Clone)]
pub enum MinibufferKind {
    Nop,
    File(Vec<Vec<char>>),
    Buffer(Vec<Vec<char>>),
}

impl Default for MinibufferKind {
    fn default() -> (r: MinibufferKind)
        ensures
            r == MinibufferKind::Nop,
    {
        MinibufferKind::Nop
    }
}

/// A single-line editor with its own cursor and candidate list.
/// `matched_input` holds the already-confirmed path components; `input`
/// the still-unconfirmed text being typed after them.
#[derive(Debug, Clone)]
pub struct Minibuffer {
    pub cursor: Cursor,
    pub input: Vec<char>,
    pub matched_input: Vec<Vec<char>>,
    pub prefix: Vec<char>,
    pub content: Vec<Vec<char>>,
    pub kind: MinibufferKind,
}

impl Default for Minibuffer {
    fn default() -> (r: Minibuffer)
        ensures
            r.cursor == (Cursor { x: 0, y: 0, desired_x: 0 }),
            r.input@ == Seq::<char>::empty(),
            r.matched_input@ == Seq::<Vec<char>>::empty(),
            r.prefix@ == Seq::<char>::empty(),
            r.content@ == Seq::<Vec<char>>::empty(),
            r.kind == MinibufferKind::Nop,
    {
        Minibuffer {
            cursor: Cursor::default(),
            input: Vec::new(),
            matched_input: Vec::new(),
            prefix: Vec::new(),
            content: Vec::new(),
            kind: MinibufferKind::Nop,
        }
    }
}


/// What a round of filling the candidate list asks of the caller:
/// nothing, or a listing of the directory the input just descended
/// into, after which `fill` is to be called again.
#[derive(Debug, PartialEq, Eq, Clone, Copy, Structural)]
pub enum FillStep {
    Done,
    Descend,
}

/// What the file system says about the accumulated path; the caller
/// checks and reports it, the minibuffer itself never touches a disk.
#[derive(Debug, PartialEq, Eq, Clone, Copy, Structural)]
pub enum PathKind {
    IsFile,
    IsDirectory,
    Missing,
}

/// Index of the first entry whose name is exactly `input`, or the
/// number of entries if none is.
pub open spec fn first_exact_from(entries: Seq<DirEntry>, input: Seq<char>, i: int) -> int
    decreases entries.len() - i,
{
    if i < 0 || i >= entries.len() {
        entries.len() as int
    } else if entries[i].name@ == input {
        i
    } else {
        first_exact_from(entries, input, i + 1)
    }
}

/// The names of the entries of one kind (directories or files) that
/// contain `pat`, in listing order.
pub open spec fn matching_names(entries: Seq<DirEntry>, pat: Seq<char>, want_dir: bool) -> Seq<
    Seq<char>,
>
    decreases entries.len(),
{
    if entries.len() == 0 {
        Seq::<Seq<char>>::empty()
    } else {
        let rest = matching_names(entries.drop_last(), pat, want_dir);
        let e = entries.last();
        if e.is_dir == want_dir && has_substring(e.name@, pat) {
            rest.push(e.name@)
        } else {
            rest
        }
    }
}

/// The titles that contain `pat`, in order.
pub open spec fn matching_titles(titles: Seq<Vec<char>>, pat: Seq<char>) -> Seq<Seq<char>>
    decreases titles.len(),
{
    if titles.len() == 0 {
        Seq::<Seq<char>>::empty()
    } else {
        let rest = matching_titles(titles.drop_last(), pat);
        if has_substring(titles.last()@, pat) {
            rest.push(titles.last()@)
        } else {
            rest
        }
    }
}

/// Index of the first title that contains `item`, or the number of
/// titles if none does.
pub open spec fn first_title_containing(titles: Seq<Vec<char>>, item: Seq<char>, i: int) -> int
    decreases titles.len() - i,
{
    if i < 0 || i >= titles.len() {
        titles.len() as int
    } else if has_substring(titles[i]@, item) {
        i
    } else {
        first_title_containing(titles, item, i + 1)
    }
}

/// What `Minibuffer::append` leaves behind: the highlighted candidate
/// copied into the input with the cursor at the end of the combined
/// text, when there is a candidate and it extends the input.
pub open spec fn candidate_appended(
    pre: Minibuffer,
    post: Minibuffer,
    candidate: PathKind,
    r: Result<(), Error>,
) -> bool {
    // a highlighted path candidate that names nothing is refused
    let refused = pre.cursor.y < pre.content@.len() && pre.kind is File && candidate
        == PathKind::Missing;
    &&& (post.matched_input == pre.matched_input)
    &&& (post.prefix == pre.prefix)
    &&& (post.content == pre.content)
    &&& (post.kind == pre.kind)
    &&& (refused ==> post == pre && r == Err::<(), Error>(Error::InvalidPathError))
    &&& (!refused ==> r is Ok)
    &&& (!refused && pre.cursor.y < pre.content@.len() && pre.content@[pre.cursor.y as int]@.len()
        >= pre.input@.len() && pre.content@[pre.cursor.y as int]@.len() <= usize::MAX
        - pre.matched_input@.len() ==> {
        let item = pre.content@[pre.cursor.y as int]@;
        &&& post.input@ == item
        &&& post.cursor.y == 0
        &&& post.cursor.x == pre.cursor.x + item.len() - pre.input@.len()
    })
    &&& (!refused && !(pre.cursor.y < pre.content@.len() && pre.content@[pre.cursor.y as int]@.len()
        >= pre.input@.len() && pre.content@[pre.cursor.y as int]@.len() <= usize::MAX
        - pre.matched_input@.len()) ==> post == pre)
}

/// The first matching title comes no earlier than where the search
/// began and no later than one past the last title; a hit contains the
/// sought text.
pub proof fn lemma_first_title_bounds(titles: Seq<Vec<char>>, item: Seq<char>, i: int)
    requires
        0 <= i <= titles.len(),
    ensures
        i <= first_title_containing(titles, item, i) <= titles.len(),
        first_title_containing(titles, item, i) < titles.len() ==> has_substring(
            titles[first_title_containing(titles, item, i)]@,
            item,
        ),
    decreases titles.len() - i,
{
    if i < titles.len() {
        lemma_first_title_bounds(titles, item, i + 1);
    }
}

impl Minibuffer {
    /// Rebuilds the candidate list.
    ///
    /// Completing a path: an entry named exactly like the input is
    /// entered — a file becomes the single candidate and the path now
    /// names it; a directory is confirmed into `matched_input` and the
    /// caller is asked to list it and fill again.  Otherwise the
    /// candidates are the entries containing the input, directories
    /// first, each group sorted.  Completing a buffer title: the titles
    /// containing the input, sorted.
    pub fn fill(&mut self, entries: Vec<DirEntry>) -> (step: FillStep)
        requires
            old(self).wf(),
            old(self).matched_input@.len() + old(self).input@.len() < usize::MAX,
        ensures
            final(self).wf(),
            old(self).kind == MinibufferKind::Nop ==> step == FillStep::Done && final(self).content@ == Seq::<Vec<char>>::empty() && final(self).kind == old(self).kind && final(self).input == old(self).input && final(self).matched_input == old(self).matched_input
                && final(self).cursor == old(self).cursor,
            old(self).kind matches MinibufferKind::Buffer(titles) ==> {
                &&& step == FillStep::Done
                &&& final(self).prefix@ == "Find Buffer:"@
                &&& sorted_lex(lines_view(final(self).content@))
                &&& lines_view(final(self).content@).to_multiset() == matching_titles(
                    titles@,
                    old(self).input@,
                ).to_multiset()
                &&& final(self).kind == old(self).kind
                &&& final(self).input == old(self).input
                &&& final(self).matched_input == old(self).matched_input
                &&& final(self).cursor == old(self).cursor
            },
            old(self).kind matches MinibufferKind::File(path) ==> {
                let k = first_exact_from(entries@, old(self).input@, 0);
                &&& k == entries@.len() ==> {
                    let dirs = matching_names(entries@, old(self).input@, true);
                    let files = matching_names(entries@, old(self).input@, false);
                    let cv = lines_view(final(self).content@);
                    &&& step == FillStep::Done
                    &&& cv.len() == dirs.len() + files.len()
                    &&& sorted_lex(cv.subrange(0, dirs.len() as int))
                    &&& cv.subrange(0, dirs.len() as int).to_multiset() == dirs.to_multiset()
                    &&& sorted_lex(cv.subrange(dirs.len() as int, cv.len() as int))
                    &&& cv.subrange(dirs.len() as int, cv.len() as int).to_multiset()
                        == files.to_multiset()
                    &&& final(self).kind == old(self).kind
                    &&& final(self).input == old(self).input
                    &&& final(self).matched_input == old(self).matched_input
                    &&& final(self).cursor == old(self).cursor
                    &&& final(self).prefix == old(self).prefix
                }
                &&& k < entries@.len() && !entries@[k].is_dir ==> {
                    &&& step == FillStep::Done
                    &&& (final(self).kind matches MinibufferKind::File(q) && lines_view(q@)
                        == lines_view(path@).push(entries@[k].name@))
                    &&& lines_view(final(self).content@) == seq![entries@[k].name@]
                    &&& final(self).input == old(self).input
                    &&& final(self).matched_input == old(self).matched_input
                    &&& final(self).cursor == old(self).cursor
                    &&& final(self).prefix == old(self).prefix
                }
                &&& k < entries@.len() && entries@[k].is_dir ==> {
                    &&& step == FillStep::Descend
                    &&& (final(self).kind matches MinibufferKind::File(q) && lines_view(q@)
                        == lines_view(path@).push(entries@[k].name@))
                    &&& lines_view(final(self).matched_input@) == lines_view(
                        old(self).matched_input@,
                    ).push(entries@[k].name@)
                    &&& final(self).input@ == Seq::<char>::empty()
                    &&& final(self).cursor.x == final(self).matched_input@.len()
                    &&& final(self).cursor.y == old(self).cursor.y
                    &&& final(self).content == old(self).content
                    &&& final(self).prefix == old(self).prefix
                }
            },
    {
        match &mut self.kind {
            MinibufferKind::Nop => {
                self.content = Vec::new();
                FillStep::Done
            },
            MinibufferKind::Buffer(titles) => {
                let mut matches: Vec<Vec<char>> = Vec::new();
                let mut i: usize = 0;
                while i < titles.len()
                    invariant
                        i <= titles@.len(),
                        lines_view(matches@) == matching_titles(
                            titles@.take(i as int),
                            old(self).input@,
                        ),
                        self.input == old(self).input,
                        titles@ == old(self).kind->Buffer_0@,
                    decreases titles@.len() - i,
                {
                    proof {
                        assert(titles@.take(i + 1).drop_last() =~= titles@.take(i as int));
                        assert(titles@.take(i + 1).last() == titles@[i as int]);
                    }
                    if contains_chars(&titles[i], &self.input) {
                        matches.push(clone_line(&titles[i]));
                    }
                    i += 1;
                    proof {
                        assert(lines_view(matches@) =~= matching_titles(
                            titles@.take(i as int),
                            old(self).input@,
                        ));
                    }
                }
                proof {
                    assert(titles@.take(titles@.len() as int) =~= titles@);
                }
                let sorted = sort_lines(matches);
                self.prefix = str_to_line("Find Buffer:");
                self.content = sorted;
                FillStep::Done
            },
            MinibufferKind::File(path) => {
                // look for an entry named exactly like the input
                let mut k: usize = 0;
                while k < entries.len() && !lines_equal(&entries[k].name, &self.input)
                    invariant
                        k <= entries@.len(),
                        first_exact_from(entries@, old(self).input@, 0) == first_exact_from(
                            entries@,
                            old(self).input@,
                            k as int,
                        ),
                        self.input == old(self).input,
                    decreases entries@.len() - k,
                {
                    k += 1;
                }

                if k < entries.len() {
                    let name = clone_line(&entries[k].name);
                    if !entries[k].is_dir {
                        path.push(name);
                        let mut only: Vec<Vec<char>> = Vec::new();
                        only.push(clone_line(&entries[k].name));
                        self.content = only;
                        proof {
                            assert(lines_view(self.content@) =~= seq![entries@[k as int].name@]);
                            assert(lines_view(self.kind->File_0@) =~= lines_view(
                                old(self).kind->File_0@,
                            ).push(entries@[k as int].name@));
                        }
                        FillStep::Done
                    } else {
                        path.push(name);
                        self.matched_input.push(clone_line(&entries[k].name));
                        self.input = Vec::new();
                        self.cursor.x = self.matched_input.len();
                        proof {
                            assert(lines_view(self.matched_input@) =~= lines_view(
                                old(self).matched_input@,
                            ).push(entries@[k as int].name@));
                            assert(lines_view(self.kind->File_0@) =~= lines_view(
                                old(self).kind->File_0@,
                            ).push(entries@[k as int].name@));
                        }
                        FillStep::Descend
                    }
                } else {
                    let mut dirs: Vec<Vec<char>> = Vec::new();
                    let mut files: Vec<Vec<char>> = Vec::new();
                    let mut i: usize = 0;
                    while i < entries.len()
                        invariant
                            i <= entries@.len(),
                            lines_view(dirs@) == matching_names(
                                entries@.take(i as int),
                                old(self).input@,
                                true,
                            ),
                            lines_view(files@) == matching_names(
                                entries@.take(i as int),
                                old(self).input@,
                                false,
                            ),
                            self.input == old(self).input,
                        decreases entries@.len() - i,
                    {
                        proof {
                            assert(entries@.take(i + 1).drop_last() =~= entries@.take(i as int));
                            assert(entries@.take(i + 1).last() == entries@[i as int]);
                        }
                        if contains_chars(&entries[i].name, &self.input) {
                            if entries[i].is_dir {
                                dirs.push(clone_line(&entries[i].name));
                            } else {
                                files.push(clone_line(&entries[i].name));
                            }
                        }
                        i += 1;
                        proof {
                            assert(lines_view(dirs@) =~= matching_names(
                                entries@.take(i as int),
                                old(self).input@,
                                true,
                            ));
                            assert(lines_view(files@) =~= matching_names(
                                entries@.take(i as int),
                                old(self).input@,
                                false,
                            ));
                        }
                    }
                    proof {
                        assert(entries@.take(entries@.len() as int) =~= entries@);
                    }
                    let mut out = sort_lines(dirs);
                    let mut tail = sort_lines(files);
                    let ghost g1 = lines_view(out@);
                    let ghost g2 = lines_view(tail@);
                    out.append(&mut tail);
                    proof {
                        let fd = matching_names(entries@, old(self).input@, true);
                        let ff = matching_names(entries@, old(self).input@, false);
                        vstd::seq_lib::to_multiset_len(g1);
                        vstd::seq_lib::to_multiset_len(g2);
                        vstd::seq_lib::to_multiset_len(fd);
                        vstd::seq_lib::to_multiset_len(ff);
                        assert(g1.len() == fd.len() && g2.len() == ff.len());
                        assert(lines_view(out@) =~= g1 + g2);
                        let cv = lines_view(out@);
                        assert(cv.subrange(0, g1.len() as int) =~= g1);
                        assert(cv.subrange(g1.len() as int, cv.len() as int) =~= g2);
                    }
                    self.content = out;
                    FillStep::Done
                }
            },
        }
    }

    /// Begins a find-file session at the given directory: its
    /// components become the confirmed path, and the prompt and cursor
    /// are set up for typing the next component.
    pub fn seed_path(&mut self, cwd: Vec<Vec<char>>)
        ensures
            final(self).wf(),
            final(self).kind == MinibufferKind::File(cwd),
            lines_view(final(self).matched_input@) == lines_view(cwd@),
            final(self).input@ == Seq::<char>::empty(),
            final(self).prefix@ == "Find File:"@,
            final(self).cursor.x == cwd@.len(),
            final(self).cursor.y == 0,
            final(self).content == old(self).content,
    {
        self.matched_input = crate::text::clone_lines(&cwd);
        let len = self.matched_input.len();
        self.kind = MinibufferKind::File(cwd);
        self.input = Vec::new();
        self.prefix = str_to_line("Find File:");
        self.cursor = Cursor { x: len, y: 0, desired_x: 0 };
    }

    /// Copies the highlighted candidate into the input and puts the
    /// cursor at the end of the combined text.  For a path, the caller
    /// reports what the file system says of the candidate; one that
    /// names neither a file nor a directory is refused.
    pub fn append(&mut self, candidate: PathKind) -> (r: Result<(), Error>)
        requires
            old(self).wf(),
        ensures
            final(self).wf(),
            candidate_appended(*old(self), *final(self), candidate, r),
    {
        if self.cursor.y < self.content.len() {
            let is_file_kind = match &self.kind {
                MinibufferKind::File(_) => true,
                _ => false,
            };
            if is_file_kind && candidate == PathKind::Missing {
                return Err(Error::InvalidPathError);
            }
            let item_len = self.content[self.cursor.y].len();
            if item_len >= self.input.len() && item_len <= usize::MAX - self.matched_input.len() {
                let item = clone_line(&self.content[self.cursor.y]);
                let grow = item_len - self.input.len();
                self.cursor.y = 0;
                self.cursor.x = self.cursor.x + grow;
                self.input = item;
            }
        }
        Ok(())
    }

    /// Resolves the minibuffer: a path that names a file opens it, a
    /// directory needs more navigation, anything else is an invalid
    /// path; a buffer search opens the first open buffer whose title
    /// contains the selected or typed text, or reports that nothing
    /// matches.  The caller supplies what the file system says about
    /// the accumulated path.
    pub fn execute(&self, path_kind: PathKind) -> (r: Result<Option<Action>, Error>)
        ensures
            self.kind == MinibufferKind::Nop ==> r == Ok::<Option<Action>, Error>(None),
            self.kind matches MinibufferKind::File(path) ==> {
                &&& path_kind == PathKind::IsFile ==> (r matches Ok(Some(Action::OpenFile(a)))
                    && lines_view(a.path@) == lines_view(path@))
                &&& path_kind == PathKind::IsDirectory ==> r == Ok::<Option<Action>, Error>(None)
                &&& path_kind == PathKind::Missing ==> r == Err::<Option<Action>, Error>(
                    Error::InvalidPathError,
                )
            },
            self.kind matches MinibufferKind::Buffer(titles) ==> {
                let item = if self.content@.len() > 1 {
                    if self.cursor.y < self.content@.len() {
                        self.content@[self.cursor.y as int]@
                    } else {
                        Seq::<char>::empty()
                    }
                } else {
                    self.input@
                };
                let idx = first_title_containing(titles@, item, 0);
                &&& idx < titles@.len() ==> r == Ok::<Option<Action>, Error>(
                    Some(Action::OpenBuffer(OpenBufferAction { index: idx as usize })),
                )
                &&& idx == titles@.len() ==> r == Err::<Option<Action>, Error>(Error::NoMatchError)
            },
    {
        match &self.kind {
            MinibufferKind::Nop => Ok(None),
            MinibufferKind::File(path) => {
                match path_kind {
                    PathKind::IsFile => Ok(
                        Some(Action::OpenFile(OpenFileAction { path: clone_lines(path) })),
                    ),
                    PathKind::IsDirectory => Ok(None),
                    PathKind::Missing => Err(Error::InvalidPathError),
                }
            },
            MinibufferKind::Buffer(titles) => {
                let empty_item: Vec<char> = Vec::new();
                let item: &Vec<char> = if self.content.len() > 1 {
                    if self.cursor.y < self.content.len() {
                        &self.content[self.cursor.y]
                    } else {
                        &empty_item
                    }
                } else {
                    &self.input
                };
                let mut i: usize = 0;
                while i < titles.len() && !contains_chars(&titles[i], item)
                    invariant
                        i <= titles@.len(),
                        first_title_containing(titles@, item@, 0) == first_title_containing(
                            titles@,
                            item@,
                            i as int,
                        ),
                    decreases titles@.len() - i,
                {
                    i += 1;
                }
                if i < titles.len() {
                    Ok(Some(Action::OpenBuffer(OpenBufferAction { index: i })))
                } else {
                    Err(Error::NoMatchError)
                }
            },
        }
    }
}

} // verus!
