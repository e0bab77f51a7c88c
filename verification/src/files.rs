//! Decisions about files on the operator's machine: which kubeconfig files
//! exist, which exports are the most recent, and how a file is opened or
//! shown by the system.
//!
//! The shell looks at the disk and runs the commands; the functions here
//! decide on what it saw.

use vstd::prelude::*;
use vstd::seq_lib::lemma_multiset_commutative;
use vstd::string::*;
use crate::text::{concat2, str_eq, strings_view};

verus! {

/// The segments of `s` between the separators, from the segment that begins
/// at `start` on, where `i` is how far that segment has been read.
pub open spec fn spec_split_from(s: Seq<char>, separator: char, start: int, i: int) -> Seq<
    Seq<char>,
>
    decreases s.len() - i,
{
    if i < start || start < 0 || i >= s.len() {
        seq![s.subrange(start, s.len() as int)]
    } else if s[i] == separator {
        seq![s.subrange(start, i)] + spec_split_from(s, separator, i + 1, i + 1)
    } else {
        spec_split_from(s, separator, start, i + 1)
    }
}

/// The segments of `s` between the separators. There is one segment more
/// than there are separators; segments may be empty.
pub open spec fn spec_split(s: Seq<char>, separator: char) -> Seq<Seq<char>> {
    spec_split_from(s, separator, 0, 0)
}

/// Splits `s` at every `separator`.
pub fn split(s: &str, separator: char) -> (res: Vec<String>)
    ensures
        strings_view(res@) == spec_split(s@, separator),
{
    let n = s.unicode_len();
    let mut parts: Vec<String> = Vec::new();
    let mut start: usize = 0;
    let mut i: usize = 0;
    proof {
        assert(strings_view(parts@) + spec_split_from(s@, separator, 0, 0) =~= spec_split(
            s@,
            separator,
        ));
    }
    while i < n
        invariant
            start <= i <= n == s@.len(),
            spec_split(s@, separator) == strings_view(parts@) + spec_split_from(
                s@,
                separator,
                start as int,
                i as int,
            ),
        decreases n - i,
    {
        if s.get_char(i) == separator {
            let part = s.substring_char(start, i).to_owned();
            proof {
                let done = strings_view(parts@);
                let grown = strings_view(parts@.push(part));
                assert(grown =~= done + seq![part@]);
                assert(done + (seq![part@] + spec_split_from(s@, separator, i + 1, i + 1))
                    =~= grown + spec_split_from(s@, separator, i + 1, i + 1));
            }
            parts.push(part);
            start = i + 1;
        }
        i = i + 1;
    }
    let last = s.substring_char(start, n).to_owned();
    proof {
        assert(strings_view(parts@.push(last)) =~= strings_view(parts@) + seq![last@]);
    }
    parts.push(last);
    parts
}

/// A path that may hold a kubeconfig, and whether a file exists there.
#[derive(Debug, PartialEq, Eq)]
pub struct PathCandidate {
    pub path: String,
    pub exists: bool,
}

/// The paths found so far, extended by the candidates from `from` on: each
/// candidate that exists and is not yet among the paths is added at the end.
pub open spec fn spec_detect_from(
    found: Seq<Seq<char>>,
    candidates: Seq<PathCandidate>,
    from: int,
) -> Seq<Seq<char>>
    decreases candidates.len() - from,
{
    if from < 0 || from >= candidates.len() {
        found
    } else if candidates[from].exists && !found.contains(candidates[from].path@) {
        spec_detect_from(found.push(candidates[from].path@), candidates, from + 1)
    } else {
        spec_detect_from(found, candidates, from + 1)
    }
}

/// The kubeconfig files on this machine: the default one, if it exists, and
/// then the existing ones among the candidates, each once.
pub open spec fn spec_auto_detect(default_path: Option<Seq<char>>, candidates: Seq<PathCandidate>) -> Seq<
    Seq<char>,
> {
    spec_detect_from(
        match default_path {
            Some(path) => seq![path],
            None => seq![],
        },
        candidates,
        0,
    )
}

fn contains_text(list: &Vec<String>, text: &str) -> (res: bool)
    ensures
        res == strings_view(list@).contains(text@),
{
    let mut i: usize = 0;
    while i < list.len()
        invariant
            i <= list.len(),
            forall|k: int| 0 <= k < i ==> strings_view(list@)[k] != text@,
        decreases list.len() - i,
    {
        if str_eq(list[i].as_str(), text) {
            assert(strings_view(list@)[i as int] == text@);
            return true;
        }
        i = i + 1;
    }
    false
}

/// Lists the kubeconfig files of this machine. `default_path` is the file
/// below the home directory, if the home directory is known and the file
/// exists; `candidates` are the entries of the `KUBECONFIG` variable, in
/// order, each with whether a file exists there.
pub fn auto_detect_kubeconfig(default_path: Option<String>, candidates: &Vec<PathCandidate>) -> (res:
    Vec<String>)
    ensures
        strings_view(res@) == spec_auto_detect(
            match default_path {
                Some(path) => Some(path@),
                None => None,
            },
            candidates@,
        ),
{
    let mut paths: Vec<String> = Vec::new();
    match default_path {
        Some(path) => {
            paths.push(path);
            assert(strings_view(paths@) =~= seq![path@]);
        },
        None => {
            assert(strings_view(paths@) =~= Seq::<Seq<char>>::empty());
        },
    }
    let ghost first = strings_view(paths@);
    let mut i: usize = 0;
    while i < candidates.len()
        invariant
            i <= candidates.len(),
            spec_detect_from(first, candidates@, 0) == spec_detect_from(
                strings_view(paths@),
                candidates@,
                i as int,
            ),
        decreases candidates.len() - i,
    {
        let candidate = &candidates[i];
        if candidate.exists && !contains_text(&paths, candidate.path.as_str()) {
            let path = candidate.path.clone();
            proof {
                assert(strings_view(paths@.push(path)) =~= strings_view(paths@).push(path@));
            }
            paths.push(path);
        }
        i = i + 1;
    }
    paths
}

/// An export file and when it was last modified, in nanoseconds since the
/// Unix epoch; `None` where the time could not be read.
#[derive(Debug, PartialEq, Eq)]
pub struct ExportFile {
    pub path: String,
    pub modified: Option<i128>,
}

/// How many exports the shell shows.
pub const RECENT_EXPORTS: usize = 10;

/// Whether a file modified at `a` is listed before one modified at `b`: the
/// later time first, and a file without time after every file with one.
pub open spec fn newer(a: Option<i128>, b: Option<i128>) -> bool {
    match (a, b) {
        (Some(x), Some(y)) => x > y,
        (Some(_), None) => true,
        _ => false,
    }
}

fn is_newer(a: Option<i128>, b: Option<i128>) -> (res: bool)
    ensures
        res == newer(a, b),
{
    match (a, b) {
        (Some(x), Some(y)) => x > y,
        (Some(_), None) => true,
        _ => false,
    }
}

/// Where `file` goes into a list that is in order: before the first file at
/// or after `from` that it is newer than, or at the end.
pub open spec fn insert_position(sorted: Seq<ExportFile>, modified: Option<i128>, from: int) -> int
    decreases sorted.len() - from,
{
    if from < 0 || from >= sorted.len() || newer(modified, sorted[from].modified) {
        from
    } else {
        insert_position(sorted, modified, from + 1)
    }
}

/// The list in order with `file` put into its place. Among files of the same
/// time the one that came first stays first.
pub open spec fn spec_insert(sorted: Seq<ExportFile>, file: ExportFile) -> Seq<ExportFile> {
    sorted.insert(insert_position(sorted, file.modified, 0), file)
}

/// The first `n` files put in order, most recent first.
pub open spec fn spec_sorted(files: Seq<ExportFile>, n: int) -> Seq<ExportFile>
    decreases n,
{
    if n <= 0 || n > files.len() {
        Seq::empty()
    } else {
        spec_insert(spec_sorted(files, n - 1), files[n - 1])
    }
}

/// The paths of the most recent exports: the files in order of their time of
/// modification, the latest first, and of these the first ten.
pub open spec fn spec_recent_exports(files: Seq<ExportFile>) -> Seq<Seq<char>> {
    let sorted = spec_sorted(files, files.len() as int);
    let shown = if sorted.len() > RECENT_EXPORTS {
        sorted.subrange(0, RECENT_EXPORTS as int)
    } else {
        sorted
    };
    Seq::new(shown.len(), |i: int| shown[i].path@)
}

/// Whether a list is in order: no file comes before a newer one.
pub open spec fn in_order(files: Seq<ExportFile>) -> bool {
    forall|i: int, j: int|
        0 <= i < j < files.len() ==> !newer(#[trigger] files[j].modified, #[trigger] files[i].modified)
}

proof fn lemma_insert_position(sorted: Seq<ExportFile>, modified: Option<i128>, from: int)
    requires
        0 <= from <= sorted.len(),
    ensures
        from <= insert_position(sorted, modified, from) <= sorted.len(),
        forall|k: int|
            from <= k < insert_position(sorted, modified, from) ==> !newer(
                modified,
                #[trigger] sorted[k].modified,
            ),
        insert_position(sorted, modified, from) < sorted.len() ==> newer(
            modified,
            sorted[insert_position(sorted, modified, from)].modified,
        ),
    decreases sorted.len() - from,
{
    if from < sorted.len() && !newer(modified, sorted[from].modified) {
        lemma_insert_position(sorted, modified, from + 1);
    }
}

/// Putting a file into a list that is in order keeps the order and keeps
/// every file: the result holds the files of the list and the new one,
/// nothing else.
pub proof fn lemma_insert_keeps_order(sorted: Seq<ExportFile>, file: ExportFile)
    requires
        in_order(sorted),
    ensures
        in_order(spec_insert(sorted, file)),
        spec_insert(sorted, file).to_multiset() == sorted.to_multiset().insert(file),
        spec_insert(sorted, file).len() == sorted.len() + 1,
{
    let pos = insert_position(sorted, file.modified, 0);
    lemma_insert_position(sorted, file.modified, 0);
    let result = spec_insert(sorted, file);
    assert forall|i: int, j: int| 0 <= i < j < result.len() implies !newer(
        #[trigger] result[j].modified,
        #[trigger] result[i].modified,
    ) by {
        if j == pos {
            assert(result[i] == sorted[i]);
        } else if i == pos {
            assert(result[j] == sorted[j - 1]);
            if pos < sorted.len() {
                if j - 1 > pos {
                    assert(!newer(sorted[j - 1].modified, sorted[pos].modified));
                }
            }
        } else {
            let a = if i < pos {
                i
            } else {
                i - 1
            };
            let b = if j < pos {
                j
            } else {
                j - 1
            };
            assert(result[i] == sorted[a]);
            assert(result[j] == sorted[b]);
        }
    }
    lemma_insert_multiset(sorted, pos, file);
}

proof fn lemma_insert_multiset(s: Seq<ExportFile>, pos: int, file: ExportFile)
    requires
        0 <= pos <= s.len(),
    ensures
        s.insert(pos, file).to_multiset() == s.to_multiset().insert(file),
{
    let head = s.subrange(0, pos);
    let tail = s.subrange(pos, s.len() as int);
    assert(s =~= head + tail);
    assert(s.insert(pos, file) =~= head.push(file) + tail);
    lemma_multiset_commutative(head, tail);
    lemma_multiset_commutative(head.push(file), tail);
    head.to_multiset_ensures();
    assert(s.insert(pos, file).to_multiset() =~= s.to_multiset().insert(file));
}

/// The files put in order are in order, and they are the same files.
pub proof fn lemma_sorted(files: Seq<ExportFile>, n: int)
    requires
        0 <= n <= files.len(),
    ensures
        in_order(spec_sorted(files, n)),
        spec_sorted(files, n).to_multiset() == files.subrange(0, n).to_multiset(),
        spec_sorted(files, n).len() == n,
    decreases n,
{
    if n == 0 {
        assert(files.subrange(0, 0) =~= Seq::<ExportFile>::empty());
    } else {
        lemma_sorted(files, n - 1);
        lemma_insert_keeps_order(spec_sorted(files, n - 1), files[n - 1]);
        assert(files.subrange(0, n) =~= files.subrange(0, n - 1).push(files[n - 1]));
        files.subrange(0, n - 1).to_multiset_ensures();
    }
}

fn insert_in_order(sorted: &mut Vec<ExportFile>, file: ExportFile)
    ensures
        final(sorted)@ == spec_insert(old(sorted)@, file),
{
    let mut pos: usize = 0;
    while pos < sorted.len() && !is_newer(file.modified, sorted[pos].modified)
        invariant
            pos <= sorted.len(),
            *sorted == *old(sorted),
            insert_position(sorted@, file.modified, 0) == insert_position(
                sorted@,
                file.modified,
                pos as int,
            ),
        decreases sorted.len() - pos,
    {
        pos = pos + 1;
    }
    sorted.insert(pos, file);
}

/// Picks the exports to show: the ten most recently modified files, the
/// latest first. Files of the same time stay in the order in which they were
/// listed, and files without a time come last.
pub fn get_recent_exports(files: &Vec<ExportFile>) -> (res: Vec<String>)
    ensures
        strings_view(res@) == spec_recent_exports(files@),
{
    let mut sorted: Vec<ExportFile> = Vec::new();
    let mut n: usize = 0;
    while n < files.len()
        invariant
            n <= files.len(),
            sorted@ == spec_sorted(files@, n as int),
        decreases files.len() - n,
    {
        let file = ExportFile { path: files[n].path.clone(), modified: files[n].modified };
        insert_in_order(&mut sorted, file);
        n = n + 1;
    }
    let mut paths: Vec<String> = Vec::new();
    let mut i: usize = 0;
    while i < sorted.len() && i < RECENT_EXPORTS
        invariant
            i <= sorted.len(),
            i <= RECENT_EXPORTS,
            paths@.len() == i,
            forall|k: int| 0 <= k < i ==> paths@[k]@ == sorted@[k].path@,
        decreases sorted.len() - i,
    {
        paths.push(sorted[i].path.clone());
        i = i + 1;
    }
    assert(strings_view(paths@) =~= spec_recent_exports(files@));
    paths
}

/// The desktop systems that the shell runs on.
#[derive(Debug, Clone, Copy, PartialEq, Eq)]
pub enum DesktopOs {
    Windows,
    MacOs,
    Linux,
    /// A system for which the shell knows no command.
    Other,
}

/// A command for the system to run.
#[derive(Debug, PartialEq, Eq)]
pub struct CommandLine {
    pub program: String,
    pub args: Vec<String>,
}

impl View for CommandLine {
    type V = (Seq<char>, Seq<Seq<char>>);

    open spec fn view(&self) -> (Seq<char>, Seq<Seq<char>>) {
        (self.program@, strings_view(self.args@))
    }
}

fn command1(program: &str, a: &str) -> (res: CommandLine)
    ensures
        res@ == (program@, seq![a@]),
{
    let mut args: Vec<String> = Vec::new();
    args.push(String::from_str(a));
    let res = CommandLine { program: String::from_str(program), args };
    assert(strings_view(res.args@) =~= seq![a@]);
    res
}

fn command2(program: &str, a: &str, b: &str) -> (res: CommandLine)
    ensures
        res@ == (program@, seq![a@, b@]),
{
    let mut args: Vec<String> = Vec::new();
    args.push(String::from_str(a));
    args.push(String::from_str(b));
    let res = CommandLine { program: String::from_str(program), args };
    assert(strings_view(res.args@) =~= seq![a@, b@]);
    res
}

/// The message for a file that does not exist.
pub open spec fn file_not_found(path: Seq<char>) -> Seq<char> {
    "File not found: "@ + path
}

/// The command that opens a file in the editor that the system associates
/// with it, if the system has one.
pub open spec fn spec_open_command(os: DesktopOs, path: Seq<char>) -> Option<
    (Seq<char>, Seq<Seq<char>>),
> {
    match os {
        DesktopOs::Windows => Some(("cmd"@, seq!["/C"@, "start"@, ""@, path])),
        DesktopOs::MacOs => Some(("open"@, seq![path])),
        DesktopOs::Linux => Some(("xdg-open"@, seq![path])),
        DesktopOs::Other => None,
    }
}

/// Decides how a file is opened in the system's editor. A file that does not
/// exist gives an error that names it; on a system without such a command
/// nothing is to be run.
pub fn open_in_system_editor(os: DesktopOs, file_path: &str, exists: bool) -> (res: Result<
    Option<CommandLine>,
    String,
>)
    ensures
        match res {
            Ok(Some(command)) => exists && spec_open_command(os, file_path@) == Some(command@),
            Ok(None) => exists && spec_open_command(os, file_path@) is None,
            Err(message) => !exists && message@ == file_not_found(file_path@),
        },
{
    if !exists {
        return Err(concat2("File not found: ", file_path));
    }
    match os {
        DesktopOs::Windows => {
            let mut args: Vec<String> = Vec::new();
            args.push(String::from_str("/C"));
            args.push(String::from_str("start"));
            args.push(String::from_str(""));
            args.push(String::from_str(file_path));
            let command = CommandLine { program: String::from_str("cmd"), args };
            assert(strings_view(command.args@) =~= seq!["/C"@, "start"@, ""@, file_path@]);
            Ok(Some(command))
        },
        DesktopOs::MacOs => Ok(Some(command1("open", file_path))),
        DesktopOs::Linux => Ok(Some(command1("xdg-open", file_path))),
        DesktopOs::Other => Ok(None),
    }
}

/// The command that shows a file in the system's file manager: selected,
/// where the file manager can do that, and else by opening its directory.
pub open spec fn spec_reveal_command(os: DesktopOs, path: Seq<char>, parent: Option<Seq<char>>) -> Option<
    (Seq<char>, Seq<Seq<char>>),
> {
    match os {
        DesktopOs::Windows => Some(("explorer"@, seq!["/select,"@, path])),
        DesktopOs::MacOs => Some(("open"@, seq!["-R"@, path])),
        DesktopOs::Linux => match parent {
            Some(dir) => Some(("xdg-open"@, seq![dir])),
            None => None,
        },
        DesktopOs::Other => None,
    }
}

/// Decides how a file is shown in the system's file manager. `parent` is the
/// directory of the file, if it has one.
pub fn reveal_in_file_manager(
    os: DesktopOs,
    file_path: &str,
    parent: Option<&str>,
    exists: bool,
) -> (res: Result<Option<CommandLine>, String>)
    ensures
        match res {
            Ok(Some(command)) => exists && spec_reveal_command(
                os,
                file_path@,
                crate::text::opt(parent),
            ) == Some(command@),
            Ok(None) => exists && spec_reveal_command(os, file_path@, crate::text::opt(parent))
                is None,
            Err(message) => !exists && message@ == file_not_found(file_path@),
        },
{
    if !exists {
        return Err(concat2("File not found: ", file_path));
    }
    match os {
        DesktopOs::Windows => Ok(Some(command2("explorer", "/select,", file_path))),
        DesktopOs::MacOs => Ok(Some(command2("open", "-R", file_path))),
        DesktopOs::Linux => match parent {
            Some(dir) => Ok(Some(command1("xdg-open", dir))),
            None => Ok(None),
        },
        DesktopOs::Other => Ok(None),
    }
}

} // verus!
