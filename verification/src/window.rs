//! Naming the application behind a window, and telling whether a window
//! fills its monitor.

use vstd::prelude::*;
use crate::error::ClipError;
use crate::paths::{file_name_of, file_stem_of, spec_file_name, spec_file_stem, spec_has_file_name};
use crate::text::{chars_of, push_char};

verus! {

/// Whether `c` may stand in a folder name as it is: an ASCII letter or digit,
/// a dot, an underscore, a hyphen or a space.
pub open spec fn is_allowed_char(c: char) -> bool {
    ||| 'a' <= c <= 'z'
    ||| 'A' <= c <= 'Z'
    ||| '0' <= c <= '9'
    ||| c == '.'
    ||| c == '_'
    ||| c == '-'
    ||| c == ' '
}

/// The character that stands for `c` in a folder name.
pub open spec fn normalize_char(c: char) -> char {
    if is_allowed_char(c) {
        c
    } else {
        '_'
    }
}

/// The folder name made from a window title: each character normalized in place.
pub open spec fn normalized(name: Seq<char>) -> Seq<char> {
    Seq::new(name.len(), |i: int| normalize_char(name[i]))
}

/// Whether every character of `name` may stand in a folder name.
pub open spec fn is_safe_name(name: Seq<char>) -> bool {
    forall|i: int| 0 <= i < name.len() ==> is_allowed_char(#[trigger] name[i])
}

fn normalize_one(c: char) -> (out: char)
    ensures
        out == normalize_char(c),
{
    if ('a' <= c && c <= 'z') || ('A' <= c && c <= 'Z') || ('0' <= c && c <= '9') || c == '.'
        || c == '_' || c == '-' || c == ' ' {
        c
    } else {
        '_'
    }
}

/// Turns a window title into a folder name of the same length: characters
/// that are allowed stay, every other character becomes an underscore.
pub fn normalize_name(name: &str) -> (out: String)
    ensures
        out@ == normalized(name@),
        out@.len() == name@.len(),
        forall|i: int|
            0 <= i < name@.len() ==> #[trigger] out@[i] == (if is_allowed_char(name@[i]) {
                name@[i]
            } else {
                '_'
            }),
        is_safe_name(out@),
{
    let chars = chars_of(name);
    let n = chars.len();
    let mut out = String::new();
    let mut i: usize = 0;
    while i < n
        invariant
            chars@ == name@,
            n == name@.len(),
            i <= n,
            out@ == normalized(name@).subrange(0, i as int),
        decreases n - i,
    {
        let c = normalize_one(chars[i]);
        push_char(&mut out, c);
        i += 1;
        assert(out@ =~= normalized(name@).subrange(0, i as int));
    }
    assert(out@ =~= normalized(name@));
    out
}

/// Normalizing a name that is already safe changes nothing, so normalizing
/// twice gives what normalizing once gives.
pub proof fn lemma_normalized_idempotent(name: Seq<char>)
    ensures
        is_safe_name(normalized(name)),
        is_safe_name(name) ==> normalized(name) == name,
        normalized(normalized(name)) == normalized(name),
{
    assert(is_safe_name(name) ==> normalized(name) =~= name);
    assert(normalized(normalized(name)) =~= normalized(name));
}

/// The edges of a rectangle on the virtual screen, in pixels.
#[derive(Clone, Copy, Debug, PartialEq, Eq, Structural)]
pub struct Rect {
    pub left: i32,
    pub top: i32,
    pub right: i32,
    pub bottom: i32,
}

impl Rect {
    /// Whether each edge of this rectangle lies on or beyond the same edge of `inner`.
    pub open spec fn covers(self, inner: Rect) -> bool {
        &&& self.left <= inner.left
        &&& self.right >= inner.right
        &&& self.top <= inner.top
        &&& self.bottom >= inner.bottom
    }

    /// Whether some edge of this rectangle lies strictly inside `outer`.
    pub open spec fn falls_short_of(self, outer: Rect) -> bool {
        ||| self.left > outer.left
        ||| self.right < outer.right
        ||| self.top > outer.top
        ||| self.bottom < outer.bottom
    }
}

/// Whether a window with outer rectangle `window` fills the monitor with
/// rectangle `monitor`: true exactly when all four edges of the window meet
/// or exceed those of the monitor.
pub fn is_window_fullscreen(window: &Rect, monitor: &Rect) -> (full: bool)
    ensures
        full == window.covers(*monitor),
        window.falls_short_of(*monitor) ==> !full,
{
    window.left <= monitor.left && window.right >= monitor.right && window.top <= monitor.top
        && window.bottom >= monitor.bottom
}

/// A window that fills its monitor is one that falls short of it on no edge.
pub proof fn lemma_covers_iff_no_edge_short(window: Rect, monitor: Rect)
    ensures
        window.covers(monitor) <==> !window.falls_short_of(monitor),
{
}

/// One running process, as a process listing reports it.
#[derive(Debug)]
pub struct ProcessEntry {
    pub pid: u32,
    /// The executable's file name, possibly with directories before it.
    pub exe_file: String,
}

/// The position of the first entry of `processes` whose process id is `pid`,
/// or the length of `processes` where there is none.
pub open spec fn first_with_pid(processes: Seq<ProcessEntry>, pid: u32) -> int
    decreases processes.len(),
{
    if processes.len() == 0 {
        0
    } else if processes[0].pid == pid {
        0
    } else {
        1 + first_with_pid(processes.drop_first(), pid)
    }
}

/// The name of the process `pid`: the stem of the executable of the first
/// listed entry with that id.
pub open spec fn spec_process_name(processes: Seq<ProcessEntry>, pid: u32) -> Result<
    Seq<char>,
    ClipError,
> {
    let at = first_with_pid(processes, pid);
    if at >= processes.len() {
        Err(ClipError::NotFound)
    } else if !spec_has_file_name(processes[at].exe_file@) {
        Err(ClipError::ResolutionError)
    } else {
        Ok(spec_file_stem(spec_file_name(processes[at].exe_file@)))
    }
}

/// The first entry with a given process id is one with that id, and no
/// entry before it has it.
pub proof fn lemma_first_with_pid(processes: Seq<ProcessEntry>, pid: u32)
    ensures
        0 <= first_with_pid(processes, pid) <= processes.len(),
        first_with_pid(processes, pid) < processes.len() ==> processes[first_with_pid(
            processes,
            pid,
        )].pid == pid,
        forall|i: int|
            0 <= i < first_with_pid(processes, pid) ==> (#[trigger] processes[i]).pid != pid,
    decreases processes.len(),
{
    if processes.len() > 0 && processes[0].pid != pid {
        let rest = processes.drop_first();
        lemma_first_with_pid(rest, pid);
        assert forall|i: int| 0 <= i < first_with_pid(processes, pid) implies (
        #[trigger] processes[i]).pid != pid by {
            if i > 0 {
                assert(processes[i] == rest[i - 1]);
            }
        }
    }
}

fn find_process(processes: &Vec<ProcessEntry>, pid: u32) -> (at: usize)
    ensures
        at == first_with_pid(processes@, pid),
        at <= processes@.len(),
{
    let n = processes.len();
    let mut i: usize = 0;
    assert(processes@.subrange(0, n as int) =~= processes@);
    while i < n
        invariant
            i <= n,
            n == processes@.len(),
            first_with_pid(processes@, pid) == i + first_with_pid(
                processes@.subrange(i as int, n as int),
                pid,
            ),
        decreases n - i,
    {
        if processes[i].pid == pid {
            return i;
        }
        assert(processes@.subrange(i as int, n as int).drop_first() =~= processes@.subrange(
            i + 1,
            n as int,
        ));
        i += 1;
    }
    i
}

/// The name of the running process `pid`: the file name of its executable
/// without directories and without extension. Fails with `NotFound` where
/// `processes` lists no such process, and with `ResolutionError` where the
/// entry's executable names no file.
pub fn get_process_name_from_pid(processes: &Vec<ProcessEntry>, pid: u32) -> (name: Result<
    String,
    ClipError,
>)
    ensures
        name_view(name) == spec_process_name(processes@, pid),
        name == Err::<String, ClipError>(ClipError::NotFound) <==> forall|i: int|
            0 <= i < processes@.len() ==> (#[trigger] processes@[i]).pid != pid,
{
    let at = find_process(processes, pid);
    proof {
        lemma_first_with_pid(processes@, pid);
    }
    if at >= processes.len() {
        return Err(ClipError::NotFound);
    }
    match file_name_of(processes[at].exe_file.as_str()) {
        Some(file) => Ok(file_stem_of(file.as_str())),
        None => Err(ClipError::ResolutionError),
    }
}

/// A name or an error, the name as the sequence of its characters.
pub open spec fn name_view(name: Result<String, ClipError>) -> Result<Seq<char>, ClipError> {
    match name {
        Ok(text) => Ok(text@),
        Err(e) => Err(e),
    }
}

/// What is known of a window when its identity is asked for.
#[derive(Debug)]
pub struct WindowSnapshot {
    /// The id of the process that owns the window; 0 where it has none.
    pub pid: u32,
    /// The window's title, where it could be read.
    pub title: Option<String>,
}

/// Where the identity of a window comes from.
#[derive(Clone, Copy, Debug, PartialEq, Eq, Structural)]
pub enum IdentitySource {
    /// From the window's title: the window has no owning process.
    WindowTitle,
    /// From the executable of the process that owns the window.
    OwningProcess,
}

/// Tells from the owning process id of a window which of the two sources
/// names it, so that a caller queries only that one.
pub fn identity_source(pid: u32) -> (source: IdentitySource)
    ensures
        source == (if pid == 0 {
            IdentitySource::WindowTitle
        } else {
            IdentitySource::OwningProcess
        }),
{
    if pid == 0 {
        IdentitySource::WindowTitle
    } else {
        IdentitySource::OwningProcess
    }
}

/// The identity of `window`: the name of its owning process, or, for a
/// window without one, its normalized title.
pub open spec fn spec_window_name(window: WindowSnapshot, processes: Seq<ProcessEntry>) -> Result<
    Seq<char>,
    ClipError,
> {
    if window.pid == 0 {
        match window.title {
            Some(title) => Ok(normalized(title@)),
            None => Err(ClipError::ResolutionError),
        }
    } else {
        spec_process_name(processes, window.pid)
    }
}

/// Resolves the identity under which captures of `window` are filed.
///
/// A window with an owning process is named after that process's executable,
/// whatever its title. A window without one is named by its normalized title,
/// and fails with `ResolutionError` where the title could not be read.
pub fn get_window_name(window: &WindowSnapshot, processes: &Vec<ProcessEntry>) -> (name: Result<
    String,
    ClipError,
>)
    ensures
        name_view(name) == spec_window_name(*window, processes@),
        window.pid != 0 ==> name_view(name) == spec_process_name(processes@, window.pid),
        window.pid == 0 && name is Ok ==> is_safe_name(name.unwrap()@),
{
    match identity_source(window.pid) {
        IdentitySource::WindowTitle => match &window.title {
            Some(title) => Ok(normalize_name(title.as_str())),
            None => Err(ClipError::ResolutionError),
        },
        IdentitySource::OwningProcess => get_process_name_from_pid(processes, window.pid),
    }
}

/// Two windows owned by the same process have the same identity, whatever
/// their titles: it is the stem of the executable of that process.
pub proof fn lemma_identity_ignores_title(
    first: WindowSnapshot,
    second: WindowSnapshot,
    processes: Seq<ProcessEntry>,
)
    requires
        first.pid != 0,
        first.pid == second.pid,
    ensures
        spec_window_name(first, processes) == spec_window_name(second, processes),
        spec_window_name(first, processes) == spec_process_name(processes, first.pid),
        first_with_pid(processes, first.pid) < processes.len() && spec_has_file_name(
            processes[first_with_pid(processes, first.pid)].exe_file@,
        ) ==> spec_window_name(first, processes) == Ok::<Seq<char>, ClipError>(
            spec_file_stem(
                spec_file_name(processes[first_with_pid(processes, first.pid)].exe_file@),
            ),
        ),
{
}

} // verus!
