//! The command-line manager: the `:`-command editor together with the
//! find-file completion state.
//!
//! The file system itself stays outside the crate: the surrounding
//! program asks `wants_commit` whether the typed path should be checked,
//! commits it with `commit_suffix`, and hands each directory listing to
//! `load_directory` as plain entries.

use vstd::prelude::*;

verus! {

use crate::buffer::buffer::Cursor;
use crate::buffer::error::Error;
use crate::text::{clone_line, has_substring, lines_view, sort_lines, sorted_lex};

/// What the command line is being used for.
#[derive(Debug, PartialEq, Eq, Hash, Clone, Copy, Structural)]
pub enum CommandLineState {
    Default,
    FindFile,
    SwitchBuffer,
    Error,
}

impl Default for CommandLineState {
    fn default() -> (r: CommandLineState)
        ensures
            r == CommandLineState::Default,
    {
        CommandLineState::Default
    }
}

/// One entry of a directory listing, as the completion engine sees it.
#[derive(Debug, PartialEq, Eq, Clone)]
pub struct DirEntry {
    pub name: Vec<char>,
    pub is_dir: bool,
}

/// A name whose first character is a dot.
pub open spec fn is_dot_name(name: Seq<char>) -> bool {
    name.len() > 0 && name[0] == '.'
}

/// The names of the entries that fall in one completion bucket, in
/// listing order: directories or files, dotted or not, filtered by the
/// pattern the user has typed.
pub open spec fn bucket_names(
    entries: Seq<DirEntry>,
    pat: Seq<char>,
    want_dir: bool,
    want_dot: bool,
) -> Seq<Seq<char>>
    decreases entries.len(),
{
    if entries.len() == 0 {
        Seq::<Seq<char>>::empty()
    } else {
        let rest = bucket_names(entries.drop_last(), pat, want_dir, want_dot);
        let e = entries.last();
        if e.is_dir == want_dir && is_dot_name(e.name@) == want_dot && has_substring(e.name@, pat) {
            rest.push(e.name@)
        } else {
            rest
        }
    }
}

/// A sorted permutation of `names`.
pub open spec fn sorted_copy_of(s: Seq<Seq<char>>, names: Seq<Seq<char>>) -> bool {
    sorted_lex(s) && s.to_multiset() == names.to_multiset()
}

/// The single-line editor powering `:` commands and the find-file and
/// switch-buffer flows, with its candidate list.
#[derive(Debug, Clone)]
pub struct CommandLineManager {
    pub state: CommandLineState,
    pub content: Vec<Vec<char>>,
    pub prefix: Vec<char>,
    pub input: Vec<char>,
    pub suffix: Vec<char>,
    pub cursor: Cursor,
}

impl Default for CommandLineManager {
    fn default() -> (r: CommandLineManager)
        ensures
            r.state == CommandLineState::Default,
            r.content@ == Seq::<Vec<char>>::empty(),
            r.prefix@ == Seq::<char>::empty(),
            r.input@ == Seq::<char>::empty(),
            r.suffix@ == Seq::<char>::empty(),
            r.cursor == (Cursor { x: 0, y: 0, desired_x: 0 }),
            r.wf(),
    {
        CommandLineManager {
            state: CommandLineState::Default,
            content: Vec::new(),
            prefix: Vec::new(),
            input: Vec::new(),
            suffix: Vec::new(),
            cursor: Cursor::default(),
        }
    }
}

impl CommandLineManager {
    /// The cursor stays between the end of the prefix and the end of the
    /// typed text; an error banner parks it at the start.
    pub open spec fn wf(self) -> bool {
        &&& self.prefix@.len() + self.input@.len() + self.suffix@.len() <= usize::MAX
        &&& self.cursor.x <= self.prefix@.len() + self.input@.len() + self.suffix@.len()
        &&& self.state != CommandLineState::Error ==> self.prefix@.len() <= self.cursor.x
    }

    /// Resets everything to an empty default-state command line.
    pub fn clear(&mut self)
        ensures
            final(self).wf(),
            final(self).state == CommandLineState::Default,
            final(self).content@ == Seq::<Vec<char>>::empty(),
            final(self).prefix@ == Seq::<char>::empty(),
            final(self).input@ == Seq::<char>::empty(),
            final(self).suffix@ == Seq::<char>::empty(),
            final(self).cursor == (Cursor { x: 0, y: 0, desired_x: 0 }),
    {
        self.prefix = Vec::new();
        self.input = Vec::new();
        self.suffix = Vec::new();
        self.state = CommandLineState::Default;
        self.content = Vec::new();
        self.cursor = Cursor::default();
    }

    /// Clears the command line and shows an error banner in its place.
    pub fn display_error(&mut self, error_msg: Vec<char>)
        ensures
            final(self).wf(),
            final(self).state == CommandLineState::Error,
            final(self).prefix == error_msg,
            final(self).content@ == Seq::<Vec<char>>::empty(),
            final(self).input@ == Seq::<char>::empty(),
            final(self).suffix@ == Seq::<char>::empty(),
            final(self).cursor == (Cursor { x: 0, y: 0, desired_x: 0 }),
    {
        self.clear();

        self.state = CommandLineState::Error;
        self.prefix = error_msg;
        proof {
            vstd::std_specs::vec::axiom_spec_len(&self.prefix);
        }
    }

    /// Moves the cursor: the row through the candidate list, the column
    /// through the typed text, clamped on both sides.
    pub fn move_cursor(&mut self, x: i32, y: i32)
        requires
            old(self).wf(),
        ensures
            final(self).wf(),
            final(self).state == old(self).state,
            final(self).content == old(self).content,
            final(self).prefix == old(self).prefix,
            final(self).input == old(self).input,
            final(self).suffix == old(self).suffix,
            final(self).cursor.y == crate::buffer::navigation::clamp_int(
                old(self).cursor.y + y,
                0,
                if old(self).content@.len() == 0 {
                    0
                } else {
                    old(self).content@.len() - 1
                },
            ),
            x != 0 ==> final(self).cursor.x == crate::buffer::navigation::clamp_int(
                old(self).cursor.x + x,
                old(self).prefix@.len() as int,
                old(self).prefix@.len() + old(self).input@.len() + old(self).suffix@.len() as int,
            ) && final(self).cursor.desired_x == final(self).cursor.x,
            x == 0 ==> final(self).cursor.x == old(self).cursor.x && final(self).cursor.desired_x
                == old(self).cursor.desired_x,
    {
        let max_y = if self.content.len() == 0 {
            0
        } else {
            self.content.len() - 1
        };
        let new_y = crate::buffer::navigation::clamp_add(self.cursor.y, y, 0, max_y);
        self.cursor.y = new_y;

        if x != 0 {
            let hi = self.prefix.len() + self.input.len() + self.suffix.len();
            let new_x = crate::buffer::navigation::clamp_add(self.cursor.x, x, self.prefix.len(), hi);
            self.cursor.x = new_x;
            self.cursor.desired_x = new_x;
        }
    }

    /// Inserts a character at the cursor: into the input for ordinary
    /// commands and the switch-buffer flow, into the trailing suffix
    /// while a path is being completed.  An error-state command line
    /// ignores it.
    pub fn add_char(&mut self, character: char) -> (r: Result<(), Error>)
        requires
            old(self).wf(),
            old(self).prefix@.len() + old(self).input@.len() + old(self).suffix@.len()
                < usize::MAX,
        ensures
            final(self).wf(),
            r is Ok,
            final(self).state == old(self).state,
            final(self).content == old(self).content,
            final(self).prefix == old(self).prefix,
            (old(self).state == CommandLineState::Default || old(self).state
                == CommandLineState::SwitchBuffer) ==> {
                let pos = old(self).cursor.x - old(self).prefix@.len();
                &&& final(self).suffix == old(self).suffix
                &&& pos <= old(self).input@.len() ==> final(self).input@ == old(self).input@.insert(pos, character) && final(self).cursor.x == old(self).cursor.x + 1
                &&& pos > old(self).input@.len() ==> *final(self) == *old(self)
            },
            old(self).state == CommandLineState::FindFile ==> {
                let pos = old(self).cursor.x - old(self).prefix@.len() - old(self).input@.len();
                &&& final(self).input == old(self).input
                &&& old(self).cursor.x >= old(self).prefix@.len() + old(self).input@.len()
                    ==> final(self).suffix@ == old(self).suffix@.insert(pos, character) && final(self).cursor.x == old(self).cursor.x + 1
                &&& old(self).cursor.x < old(self).prefix@.len() + old(self).input@.len()
                    ==> *final(self) == *old(self)
            },
            old(self).state == CommandLineState::Error ==> *final(self) == *old(self),
    {
        match self.state {
            CommandLineState::Default | CommandLineState::SwitchBuffer => {
                let pos = self.cursor.x - self.prefix.len();
                if pos <= self.input.len() {
                    self.input.insert(pos, character);
                    self.cursor.x = self.cursor.x + 1;
                }
            },
            CommandLineState::FindFile => {
                let base = self.prefix.len() + self.input.len();
                if self.cursor.x >= base {
                    let pos = self.cursor.x - base;
                    self.suffix.insert(pos, character);
                    self.cursor.x = self.cursor.x + 1;
                }
            },
            CommandLineState::Error => {},
        }
        Ok(())
    }


    /// Removes the character left of the cursor.  While completing a
    /// path with an empty suffix, it instead steps up one directory by
    /// dropping the last component of the confirmed input; the caller
    /// then reloads the listing.  An error banner ignores the key.
    pub fn remove_char(&mut self) -> (r: Result<(), Error>)
        requires
            old(self).wf(),
        ensures
            final(self).wf(),
            r is Ok,
            final(self).state == old(self).state,
            final(self).content == old(self).content,
            final(self).prefix == old(self).prefix,
            old(self).state == CommandLineState::FindFile && old(self).suffix@.len() == 0 ==> {
                &&& final(self).suffix == old(self).suffix
                &&& old(self).input@.len() > 0 ==> final(self).input@ == parent_path_spec(
                    old(self).input@,
                ) && final(self).cursor.x == old(self).prefix@.len() + final(self).input@.len()
                    && final(self).cursor.y == 0
                &&& old(self).input@.len() == 0 ==> *final(self) == *old(self)
            },
            old(self).state == CommandLineState::FindFile && old(self).suffix@.len() > 0 ==> {
                let base = old(self).prefix@.len() + old(self).input@.len();
                &&& final(self).input == old(self).input
                &&& old(self).cursor.x > base && old(self).cursor.x - base <= old(self).suffix@.len() ==> final(self).suffix@ == old(self).suffix@.remove(
                    old(self).cursor.x - base - 1,
                ) && final(self).cursor.x == old(self).cursor.x - 1
                &&& !(old(self).cursor.x > base && old(self).cursor.x - base <= old(self).suffix@.len()) ==> *final(self) == *old(self)
            },
            old(self).state == CommandLineState::Default || old(self).state
                == CommandLineState::SwitchBuffer ==> {
                let pl = old(self).prefix@.len() as int;
                &&& final(self).suffix == old(self).suffix
                &&& old(self).input@.len() > 0 && old(self).cursor.x > pl && old(self).cursor.x
                    - pl <= old(self).input@.len() ==> final(self).input@ == old(self).input@.remove(old(self).cursor.x - pl - 1) && final(self).cursor.x == old(self).cursor.x - 1
                &&& !(old(self).input@.len() > 0 && old(self).cursor.x > pl && old(self).cursor.x
                    - pl <= old(self).input@.len()) ==> *final(self) == *old(self)
            },
            old(self).state == CommandLineState::Error ==> *final(self) == *old(self),
    {
        match self.state {
            CommandLineState::FindFile => {
                if self.suffix.is_empty() {
                    if !self.input.is_empty() {
                        let parent = parent_path(&self.input);
                        self.input = parent;
                        self.cursor.x = self.prefix.len() + self.input.len();
                        self.cursor.y = 0;
                    }
                } else {
                    let base = self.prefix.len() + self.input.len();
                    if self.cursor.x > base && self.cursor.x - base <= self.suffix.len() {
                        self.suffix.remove(self.cursor.x - base - 1);
                        self.cursor.x = self.cursor.x - 1;
                    }
                }
            },
            CommandLineState::Default | CommandLineState::SwitchBuffer => {
                let pl = self.prefix.len();
                if !self.input.is_empty() && self.cursor.x > pl && self.cursor.x - pl
                    <= self.input.len() {
                    self.input.remove(self.cursor.x - pl - 1);
                    self.cursor.x = self.cursor.x - 1;
                }
            },
            CommandLineState::Error => {},
        }
        Ok(())
    }

    /// While completing a path, a suffix that ends in a separator is
    /// ready to be checked against the file system.
    pub fn wants_commit(&self) -> (r: bool)
        ensures
            r == (self.state == CommandLineState::FindFile && self.suffix@.len() > 0
                && self.suffix@.last() == '/'),
    {
        match self.state {
            CommandLineState::FindFile => {
                if self.suffix.len() > 0 {
                    self.suffix[self.suffix.len() - 1] == '/'
                } else {
                    false
                }
            },
            _ => false,
        }
    }

    /// Folds the typed suffix into the confirmed input, once the caller
    /// has checked that the combined path names an existing directory.
    pub fn commit_suffix(&mut self)
        requires
            old(self).wf(),
        ensures
            final(self).wf(),
            final(self).state == old(self).state,
            final(self).content == old(self).content,
            final(self).prefix == old(self).prefix,
            final(self).input@ == old(self).input@ + old(self).suffix@,
            final(self).suffix@ == Seq::<char>::empty(),
            final(self).cursor.x == old(self).cursor.x,
            final(self).cursor.y == 0,
            final(self).cursor.desired_x == old(self).cursor.desired_x,
    {
        let mut moved = Vec::new();
        core::mem::swap(&mut moved, &mut self.suffix);
        self.input.append(&mut moved);
        self.cursor.y = 0;
    }

    /// Rebuilds the candidate list from a directory listing: the entries
    /// whose name contains the typed suffix, dot names first within the
    /// directories and again within the files, each group sorted.
    pub fn load_directory(&mut self, entries: Vec<DirEntry>)
        ensures
            final(self).state == old(self).state,
            final(self).prefix == old(self).prefix,
            final(self).input == old(self).input,
            final(self).suffix == old(self).suffix,
            final(self).cursor == old(self).cursor,
            ({
                let f1 = bucket_names(entries@, old(self).suffix@, true, true);
                let f2 = bucket_names(entries@, old(self).suffix@, true, false);
                let f3 = bucket_names(entries@, old(self).suffix@, false, true);
                let f4 = bucket_names(entries@, old(self).suffix@, false, false);
                let cv = lines_view(final(self).content@);
                let n1 = f1.len() as int;
                let n2 = n1 + f2.len();
                let n3 = n2 + f3.len();
                let n4 = n3 + f4.len();
                &&& cv.len() == n4
                &&& sorted_copy_of(cv.subrange(0, n1), f1)
                &&& sorted_copy_of(cv.subrange(n1, n2), f2)
                &&& sorted_copy_of(cv.subrange(n2, n3), f3)
                &&& sorted_copy_of(cv.subrange(n3, n4), f4)
            }),
    {
        let mut dot_dirs: Vec<Vec<char>> = Vec::new();
        let mut dirs: Vec<Vec<char>> = Vec::new();
        let mut dot_files: Vec<Vec<char>> = Vec::new();
        let mut files: Vec<Vec<char>> = Vec::new();

        let mut i: usize = 0;
        while i < entries.len()
            invariant
                i <= entries@.len(),
                lines_view(dot_dirs@) == bucket_names(
                    entries@.take(i as int),
                    old(self).suffix@,
                    true,
                    true,
                ),
                lines_view(dirs@) == bucket_names(
                    entries@.take(i as int),
                    old(self).suffix@,
                    true,
                    false,
                ),
                lines_view(dot_files@) == bucket_names(
                    entries@.take(i as int),
                    old(self).suffix@,
                    false,
                    true,
                ),
                lines_view(files@) == bucket_names(
                    entries@.take(i as int),
                    old(self).suffix@,
                    false,
                    false,
                ),
                *self == *old(self),
                self.suffix@ == old(self).suffix@,
            decreases entries@.len() - i,
        {
            let e = &entries[i];
            let is_dot = e.name.len() > 0 && e.name[0] == '.';
            let keep = crate::text::contains_chars(&e.name, &self.suffix);
            proof {
                assert(entries@.take(i + 1).drop_last() =~= entries@.take(i as int));
                assert(entries@.take(i + 1).last() == entries@[i as int]);
            }
            if keep {
                let name = clone_line(&e.name);
                if e.is_dir {
                    if is_dot {
                        dot_dirs.push(name);
                    } else {
                        dirs.push(name);
                    }
                } else {
                    if is_dot {
                        dot_files.push(name);
                    } else {
                        files.push(name);
                    }
                }
            }
            i += 1;
            proof {
                assert(lines_view(dot_dirs@) =~= bucket_names(
                    entries@.take(i as int),
                    old(self).suffix@,
                    true,
                    true,
                ));
                assert(lines_view(dirs@) =~= bucket_names(
                    entries@.take(i as int),
                    old(self).suffix@,
                    true,
                    false,
                ));
                assert(lines_view(dot_files@) =~= bucket_names(
                    entries@.take(i as int),
                    old(self).suffix@,
                    false,
                    true,
                ));
                assert(lines_view(files@) =~= bucket_names(
                    entries@.take(i as int),
                    old(self).suffix@,
                    false,
                    false,
                ));
            }
        }
        proof {
            assert(entries@.take(entries@.len() as int) =~= entries@);
        }

        let mut out = sort_lines(dot_dirs);
        let mut s2 = sort_lines(dirs);
        let mut s3 = sort_lines(dot_files);
        let mut s4 = sort_lines(files);
        let ghost g1 = lines_view(out@);
        let ghost g2 = lines_view(s2@);
        let ghost g3 = lines_view(s3@);
        let ghost g4 = lines_view(s4@);
        out.append(&mut s2);
        out.append(&mut s3);
        out.append(&mut s4);
        proof {
            let f1 = bucket_names(entries@, old(self).suffix@, true, true);
            let f2 = bucket_names(entries@, old(self).suffix@, true, false);
            let f3 = bucket_names(entries@, old(self).suffix@, false, true);
            let f4 = bucket_names(entries@, old(self).suffix@, false, false);
            vstd::seq_lib::to_multiset_len(g1);
            vstd::seq_lib::to_multiset_len(g2);
            vstd::seq_lib::to_multiset_len(g3);
            vstd::seq_lib::to_multiset_len(g4);
            vstd::seq_lib::to_multiset_len(f1);
            vstd::seq_lib::to_multiset_len(f2);
            vstd::seq_lib::to_multiset_len(f3);
            vstd::seq_lib::to_multiset_len(f4);
            assert(g1.len() == f1.len() && g2.len() == f2.len() && g3.len() == f3.len()
                && g4.len() == f4.len());
            assert(lines_view(out@) =~= g1 + g2 + g3 + g4);
            let cv = lines_view(out@);
            let n1 = g1.len() as int;
            let n2 = n1 + g2.len();
            let n3 = n2 + g3.len();
            let n4 = n3 + g4.len();
            assert(cv.subrange(0, n1) =~= g1);
            assert(cv.subrange(n1, n2) =~= g2);
            assert(cv.subrange(n2, n3) =~= g3);
            assert(cv.subrange(n3, n4) =~= g4);
        }
        self.content = out;
    }
}


/// Position reached from `e` by stepping left over characters that are
/// (`slash` true) or are not (`slash` false) the path separator.
pub open spec fn strip_while(s: Seq<char>, e: int, slash: bool) -> int
    decreases e,
{
    if e <= 0 {
        0
    } else if (s[e - 1] == '/') == slash {
        strip_while(s, e - 1, slash)
    } else {
        e
    }
}

/// A path with its last component removed: trailing separators go, then
/// the component, keeping the separator before it; stripping everything
/// leaves the root `/`.
pub open spec fn parent_path_spec(s: Seq<char>) -> Seq<char> {
    let c = strip_while(s, strip_while(s, s.len() as int, true), false);
    if c == 0 {
        seq!['/']
    } else {
        s.take(c)
    }
}

fn strip_pos(line: &Vec<char>, from: usize, slash: bool) -> (r: usize)
    requires
        from <= line@.len(),
    ensures
        r == strip_while(line@, from as int, slash),
        r <= from,
    decreases from,
{
    if from == 0 {
        0
    } else if (line[from - 1] == '/') == slash {
        strip_pos(line, from - 1, slash)
    } else {
        from
    }
}

/// Drops the last component of a path.
pub fn parent_path(input: &Vec<char>) -> (r: Vec<char>)
    ensures
        r@ == parent_path_spec(input@),
        input@.len() > 0 ==> r@.len() <= input@.len(),
        r@.len() >= 1,
{
    let e1 = strip_pos(input, input.len(), true);
    let c = strip_pos(input, e1, false);
    if c == 0 {
        let mut r: Vec<char> = Vec::new();
        r.push('/');
        proof {
            assert(r@ =~= seq!['/']);
        }
        r
    } else {
        let mut r = clone_line(input);
        r.truncate(c);
        r
    }
}

} // verus!
