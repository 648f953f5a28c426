//! The project's terminal pane: a shell runs beside the IDE, its output is
//! shown above a prompt line, and the line typed after the prompt is sent to
//! the shell when Enter is pressed. This module decides what the pane shows
//! from the shell's output, and what is sent.

use vstd::prelude::*;
use vstd::utf8::encode_utf8;

use crate::project::Project;
use crate::text::{chars_of, sub_string, first_index_of, contains_str, str_eq, strs, contains_seq};

verus! {

/// The shell behind the terminal pane, which decides how its prompt looks.
#[derive(Clone, Copy, Debug, PartialEq, Eq, Structural)]
pub enum Shell {
    /// A Windows shell, whose prompt ends with `>`.
    Windows,
    /// A Unix shell, which is asked for its working directory and whose
    /// prompt is given a closing `%`.
    Unix,
}

impl Shell {
    /// The character that ends the prompt.
    pub open spec fn mark(self) -> char {
        match self {
            Shell::Windows => '>',
            Shell::Unix => '%',
        }
    }
}

/// Whether a character takes one byte in UTF-8.
pub open spec fn one_byte(c: char) -> bool {
    (c as u32) < 0x80
}

/// The prompt line that the shell's last line of output gives: the line
/// itself on Windows; on Unix the line without its first and last
/// characters, closed by `%`.
pub open spec fn prompt_line(shell: Shell, last: Seq<char>) -> Seq<char> {
    match shell {
        Shell::Windows => last,
        Shell::Unix => last.subrange(1, last.len() - 1).push('%'),
    }
}

/// Whether a last line of output can be made a prompt line: on Unix it has
/// two characters at least, the last of one byte.
pub open spec fn prompt_line_ok(shell: Shell, last: Seq<char>) -> bool {
    match shell {
        Shell::Windows => true,
        Shell::Unix => last.len() >= 2 && one_byte(last.last()),
    }
}

/// Whether a prompt line is cut after its mark: when it holds the mark,
/// and (on Unix) does not end with it.
pub open spec fn cuts(shell: Shell, line: Seq<char>) -> bool {
    line.contains(shell.mark()) && !(shell == Shell::Unix && line.last() == shell.mark())
}

/// The directory that a prompt line shows: the line up to the character
/// after its first mark, when it is cut; else the whole line.
pub open spec fn cut_prompt(shell: Shell, line: Seq<char>) -> Seq<char> {
    if cuts(shell, line) {
        line.take(line.index_of_first(shell.mark())->0 + 2)
    } else {
        line
    }
}

/// Whether a prompt line can be cut: a character of one byte follows its
/// first mark.
pub open spec fn cut_ok(shell: Shell, line: Seq<char>) -> bool {
    cuts(shell, line) ==> {
        let k = line.index_of_first(shell.mark())->0;
        k + 1 < line.len() && one_byte(line[k + 1])
    }
}

/// The prompt line of the output, or nothing when there is no output.
pub open spec fn last_prompt(shell: Shell, lines: Seq<Seq<char>>) -> Seq<char> {
    if lines.len() > 0 {
        prompt_line(shell, lines.last())
    } else {
        Seq::empty()
    }
}

/// Whether the output shows a prompt other than the current directory.
pub open spec fn prompt_moved(shell: Shell, directory: Seq<char>, lines: Seq<Seq<char>>) -> bool {
    lines.len() > 0 && last_prompt(shell, lines).contains(shell.mark()) && directory != last_prompt(
        shell,
        lines,
    )
}

/// Whether the pane takes the prompt of the output as its directory: there
/// is output, and the prompt is to be read again, or has moved, or no
/// directory is known yet.
pub open spec fn takes_prompt(
    shell: Shell,
    directory: Seq<char>,
    update: bool,
    lines: Seq<Seq<char>>,
) -> bool {
    lines.len() > 0 && (update || prompt_moved(shell, directory, lines) || directory.len() == 0)
}

/// The output lines joined by line breaks.
pub open spec fn joined(lines: Seq<Seq<char>>) -> Seq<char>
    decreases lines.len(),
{
    if lines.len() == 0 {
        Seq::empty()
    } else if lines.len() == 1 {
        lines[0]
    } else {
        joined(lines.drop_last()) + seq!['\n'] + lines.last()
    }
}

/// The length in bytes of a text, as `str::len` reports it.
pub open spec fn byte_len(s: Seq<char>) -> usize {
    encode_utf8(s).len() as usize
}

/// Whether the shell's output can be shown without failing.
pub open spec fn refresh_ok(
    shell: Shell,
    directory: Seq<char>,
    update: bool,
    lines: Seq<Seq<char>>,
) -> bool {
    lines.len() > 0 ==> {
        &&& prompt_line_ok(shell, lines.last())
        &&& takes_prompt(shell, directory, update, lines) ==> cut_ok(
            shell,
            last_prompt(shell, lines),
        )
    }
}

/// The command typed on a terminal line: what follows the first mark, or,
/// when there is none, all but the first character.
pub open spec fn typed_command(shell: Shell, line: Seq<char>) -> Seq<char> {
    match line.index_of_first(shell.mark()) {
        Some(k) => line.skip(k + 1),
        None => line.skip(1),
    }
}

/// Whether a command can be read off a terminal line: it holds the mark, or
/// starts with a character of one byte.
pub open spec fn command_ok(shell: Shell, line: Seq<char>) -> bool {
    line.contains(shell.mark()) || (line.len() > 0 && one_byte(line[0]))
}

/// Joins the first `n` lines with line breaks.
fn join_lines(lines: &Vec<String>, n: usize) -> (r: String)
    requires
        n <= lines@.len(),
    ensures
        r@ == joined(strs(lines@).take(n as int)),
{
    let mut r = String::new();
    let mut i: usize = 0;
    while i < n
        invariant
            i <= n <= lines@.len(),
            r@ == joined(strs(lines@).take(i as int)),
        decreases n - i,
    {
        proof {
            let t = strs(lines@).take(i + 1);
            assert(t.drop_last() =~= strs(lines@).take(i as int));
            assert(t.last() == lines@[i as int]@);
        }
        if i > 0 {
            proof {
                reveal_strlit("\n");
            }
            r.append("\n");
        }
        r.append(lines[i].as_str());
        proof {
            let t = strs(lines@).take(i + 1);
            if i == 0 {
                assert(t =~= seq![lines@[0]@]);
            }
        }
        i = i + 1;
    }
    r
}

/// The prompt line that a last line of output gives.
fn make_prompt_line(shell: Shell, last: &str) -> (r: String)
    requires
        prompt_line_ok(shell, last@),
    ensures
        r@ == prompt_line(shell, last@),
{
    match shell {
        Shell::Windows => String::from_str(last),
        Shell::Unix => {
            let v = chars_of(last);
            let mut r = sub_string(&v, 1, v.len() - 1);
            r.append("%");
            proof {
                reveal_strlit("%");
                assert(r@ =~= prompt_line(shell, last@));
            }
            r
        },
    }
}

/// The directory a prompt line shows.
fn make_cut_prompt(shell: Shell, line: &String) -> (r: String)
    requires
        cut_ok(shell, line@),
    ensures
        r@ == cut_prompt(shell, line@),
{
    let v = chars_of(line.as_str());
    let mark = match shell {
        Shell::Windows => '>',
        Shell::Unix => '%',
    };
    let ends_with_mark = v.len() > 0 && v[v.len() - 1] == mark;
    match first_index_of(&v, mark) {
        Some(k) => {
            proof {
                v@.index_of_first_ensures(mark);
            }
            if shell == Shell::Unix && ends_with_mark {
                return line.clone();
            }
            sub_string(&v, 0, k + 2)
        },
        None => {
            proof {
                v@.index_of_first_ensures(mark);
            }
            line.clone()
        },
    }
}

impl Project {
    /// Shows the shell's latest output in the terminal pane. The last line
    /// gives the prompt; when the prompt has moved, is to be read again, or
    /// no directory is known yet, the prompt becomes the directory and the
    /// line being typed. An empty line being typed, or one shorter (in
    /// bytes) than the directory, is reset to the directory. The other lines
    /// are shown above.
    pub fn refresh_terminal(&mut self, shell: Shell, lines: &Vec<String>)
        requires
            refresh_ok(shell, old(self).directory@, old(self).update_directory, strs(lines@)),
        ensures
            ({
                let ls = strs(lines@);
                let takes = takes_prompt(
                    shell,
                    old(self).directory@,
                    old(self).update_directory,
                    ls,
                );
                let dir = if takes {
                    cut_prompt(shell, last_prompt(shell, ls))
                } else {
                    old(self).directory@
                };
                let buf = if takes {
                    dir
                } else {
                    old(self).terminal_buffer@
                };
                let buf = if buf.len() == 0 {
                    dir
                } else {
                    buf
                };
                let buf = if buf.len() > 0 && byte_len(buf) < byte_len(dir) {
                    dir
                } else {
                    buf
                };
                &&& final(self).directory@ == dir
                &&& final(self).update_directory == (!takes && (old(self).update_directory
                    || prompt_moved(shell, old(self).directory@, ls)))
                &&& final(self).terminal_buffer@ == buf
                &&& final(self).persistant_buffer@ == joined(
                    if ls.len() > 0 {
                        ls.drop_last()
                    } else {
                        ls
                    },
                )
            }),
            final(self).name == old(self).name,
            final(self).location == old(self).location,
            final(self).boards == old(self).boards,
            final(self).system == old(self).system,
    {
        let ghost ls = strs(lines@);
        let n = lines.len();
        let mut last = String::new();
        if n > 0 {
            proof {
                assert(ls.last() == lines@[n - 1]@);
            }
            last = make_prompt_line(shell, lines[n - 1].as_str());
            let mark = match shell {
                Shell::Windows => '>',
                Shell::Unix => '%',
            };
            let lv = chars_of(last.as_str());
            let has_mark = first_index_of(&lv, mark).is_some();
            proof {
                lv@.index_of_first_ensures(mark);
            }
            if has_mark && !str_eq(self.directory.as_str(), last.as_str()) {
                self.update_directory = true;
            }
        }
        if (self.update_directory && n > 0) || (n > 0 && self.directory.as_str().unicode_len() == 0) {
            self.directory = make_cut_prompt(shell, &last);
            self.terminal_buffer = self.directory.clone();
            self.update_directory = false;
        }
        if self.terminal_buffer.as_str().unicode_len() == 0 {
            self.terminal_buffer = self.directory.clone();
        }
        if self.terminal_buffer.as_str().unicode_len() > 0 {
            if self.terminal_buffer.as_str().len() < self.directory.as_str().len() {
                self.terminal_buffer = self.directory.clone();
            }
        }
        let shown = if n > 0 {
            n - 1
        } else {
            0
        };
        self.persistant_buffer = join_lines(lines, shown);
        proof {
            if n > 0 {
                assert(ls.take(shown as int) =~= ls.drop_last());
            } else {
                assert(ls.take(0) =~= ls);
            }
        }
    }

    /// Enter was pressed in the terminal pane: reads the command typed after
    /// the prompt, clears the line, and notes that the prompt is to be read
    /// again when the command holds `cd`. Returns the command for the shell.
    pub fn submit_terminal_line(&mut self, shell: Shell) -> (command: String)
        requires
            command_ok(shell, old(self).terminal_buffer@),
        ensures
            command@ == typed_command(shell, old(self).terminal_buffer@),
            final(self).update_directory == (old(self).update_directory || contains_seq(
                command@,
                "cd"@,
            )),
            final(self).terminal_buffer@.len() == 0,
            final(self).directory == old(self).directory,
            final(self).persistant_buffer == old(self).persistant_buffer,
            final(self).name == old(self).name,
            final(self).location == old(self).location,
            final(self).boards == old(self).boards,
            final(self).system == old(self).system,
    {
        let v = chars_of(self.terminal_buffer.as_str());
        let mark = match shell {
            Shell::Windows => '>',
            Shell::Unix => '%',
        };
        proof {
            v@.index_of_first_ensures(mark);
        }
        let start = match first_index_of(&v, mark) {
            Some(k) => {
                assert(k < v.len());
                k + 1
            },
            None => 1,
        };
        let command = sub_string(&v, start, v.len());
        proof {
            assert(command@ =~= typed_command(shell, old(self).terminal_buffer@));
        }
        if contains_str(command.as_str(), "cd") {
            self.update_directory = true;
        }
        self.terminal_buffer = String::new();
        command
    }
}

} // verus!
