//! What a launch needs to know before the shell spawns a process: the name
//! that a bundled executable carries on this platform, where the `kcli`
//! executable is found, whether the AI service's executable exists, and the
//! environment that each service is started with.
//!
//! The shell reads directories and asks the system; the functions here decide
//! on what it read.

use vstd::prelude::*;
use vstd::string::*;
use crate::text::{
    concat2, decimal_digits, decimal_string, ends_with, first_line, first_line_trimmed,
    starts_with, str_eq,
};

verus! {

/// The vendor part of the target triple for an operating system.
pub open spec fn spec_target_vendor(os: Seq<char>) -> Seq<char> {
    if os == "macos"@ || os == "ios"@ {
        "apple"@
    } else if os == "windows"@ {
        "pc"@
    } else {
        "unknown"@
    }
}

/// The vendor part of the target triple for an operating system.
pub fn target_vendor(os: &str) -> (res: &'static str)
    ensures
        res@ == spec_target_vendor(os@),
{
    if str_eq(os, "macos") || str_eq(os, "ios") {
        "apple"
    } else if str_eq(os, "windows") {
        "pc"
    } else {
        "unknown"
    }
}

/// The last part of the target triple for an operating system.
pub open spec fn spec_target_os_suffix(os: Seq<char>) -> Seq<char> {
    if os == "macos"@ {
        "darwin"@
    } else if os == "ios"@ {
        "ios"@
    } else if os == "linux"@ {
        "linux-gnu"@
    } else if os == "windows"@ {
        "windows-msvc"@
    } else {
        os
    }
}

/// The last part of the target triple for an operating system; an operating
/// system that has no name of its own there stands for itself.
pub fn target_os_suffix(os: &str) -> (res: String)
    ensures
        res@ == spec_target_os_suffix(os@),
{
    if str_eq(os, "macos") {
        String::from_str("darwin")
    } else if str_eq(os, "ios") {
        String::from_str("ios")
    } else if str_eq(os, "linux") {
        String::from_str("linux-gnu")
    } else if str_eq(os, "windows") {
        String::from_str("windows-msvc")
    } else {
        String::from_str(os)
    }
}

/// The file name of the bundled executable `base` for an architecture and an
/// operating system: the base name, the target triple and, on Windows, `.exe`.
pub open spec fn spec_expected_binary_name(base: Seq<char>, arch: Seq<char>, os: Seq<char>) -> Seq<
    char,
> {
    base + "-"@ + arch + "-"@ + spec_target_vendor(os) + "-"@ + spec_target_os_suffix(os) + (if os
        == "windows"@ {
        ".exe"@
    } else {
        Seq::<char>::empty()
    })
}

/// The file name under which the executable `base` is bundled for the given
/// architecture and operating system, so that a universal build picks the
/// executable of the right architecture.
pub fn expected_binary_name(base: &str, arch: &str, os: &str) -> (res: String)
    ensures
        res@ == spec_expected_binary_name(base@, arch@, os@),
{
    let mut name = String::from_str(base);
    name.append("-");
    name.append(arch);
    name.append("-");
    name.append(target_vendor(os));
    name.append("-");
    name.append(target_os_suffix(os).as_str());
    if str_eq(os, "windows") {
        name.append(".exe");
    } else {
        assert(name@ + Seq::<char>::empty() =~= name@);
    }
    name
}

/// How a platform tells whether a file can be executed.
#[derive(Debug, Clone, Copy, PartialEq, Eq)]
pub enum Platform {
    /// By the permission bits of the file.
    Unix,
    /// By the name of the file.
    Windows,
    /// Not at all: every file counts.
    Other,
}

/// Whether a file counts as executable: on Unix one of the three execute bits
/// is set, on Windows the name ends in `.exe` or is `kcli`.
pub open spec fn spec_is_executable(platform: Platform, mode: u32, file_name: Seq<char>) -> bool {
    match platform {
        Platform::Unix => mode & 0o111 != 0,
        Platform::Windows => ".exe"@.is_suffix_of(file_name) || file_name == "kcli"@,
        Platform::Other => true,
    }
}

/// Whether a file with the permission bits `mode` and the name `file_name`
/// counts as executable on `platform`.
pub fn is_executable(platform: Platform, mode: u32, file_name: &str) -> (res: bool)
    ensures
        res == spec_is_executable(platform, mode, file_name@),
{
    match platform {
        Platform::Unix => mode & 0o111 != 0,
        Platform::Windows => ends_with(file_name, ".exe") || str_eq(file_name, "kcli"),
        Platform::Other => true,
    }
}

/// One entry of a directory, as the shell read it.
#[derive(Debug)]
pub struct DirEntryInfo {
    /// The file name; empty where it is no valid text.
    pub file_name: String,
    /// The full path of the entry.
    pub path: String,
    /// Whether the file can be executed; false where its metadata could not be read.
    pub executable: bool,
}

/// A name that may stand for `kcli` where the exact name is missing.
pub open spec fn is_fallback_name(name: Seq<char>) -> bool {
    name == "kcli"@ || name == "kcli.exe"@ || "kcli-"@.is_prefix_of(name)
}

/// Whether an entry is a candidate: executable, and named exactly as
/// expected or, for a fallback, by one of the fallback names.
pub open spec fn is_candidate(entry: DirEntryInfo, expected: Seq<char>, exact: bool) -> bool {
    entry.executable && if exact {
        entry.file_name@ == expected
    } else {
        is_fallback_name(entry.file_name@)
    }
}

/// The index of the first candidate at or after `from`.
pub open spec fn first_candidate(
    entries: Seq<DirEntryInfo>,
    expected: Seq<char>,
    exact: bool,
    from: int,
) -> Option<int>
    decreases entries.len() - from,
{
    if from < 0 || from >= entries.len() {
        None
    } else if is_candidate(entries[from], expected, exact) {
        Some(from)
    } else {
        first_candidate(entries, expected, exact, from + 1)
    }
}

/// The entry of a directory that is taken for `kcli`: the first executable
/// with the expected name, or else the first executable with a fallback name.
pub open spec fn spec_pick_in_dir(entries: Seq<DirEntryInfo>, expected: Seq<char>) -> Option<int> {
    match first_candidate(entries, expected, true, 0) {
        Some(i) => Some(i),
        None => first_candidate(entries, expected, false, 0),
    }
}

fn is_fallback(name: &str) -> (res: bool)
    ensures
        res == is_fallback_name(name@),
{
    str_eq(name, "kcli") || str_eq(name, "kcli.exe") || starts_with(name, "kcli-")
}

/// Picks the entry of one directory that is taken for `kcli`.
pub fn pick_in_dir(entries: &Vec<DirEntryInfo>, expected: &str) -> (res: Option<usize>)
    ensures
        match res {
            Some(i) => spec_pick_in_dir(entries@, expected@) == Some(i as int) && i < entries.len(),
            None => spec_pick_in_dir(entries@, expected@) is None,
        },
{
    let mut fallback: Option<usize> = None;
    let mut i: usize = 0;
    while i < entries.len()
        invariant
            i <= entries.len(),
            first_candidate(entries@, expected@, true, 0) == first_candidate(
                entries@,
                expected@,
                true,
                i as int,
            ),
            match fallback {
                Some(k) => k < i && first_candidate(entries@, expected@, false, 0) == Some(
                    k as int,
                ),
                None => first_candidate(entries@, expected@, false, 0) == first_candidate(
                    entries@,
                    expected@,
                    false,
                    i as int,
                ),
            },
        decreases entries.len() - i,
    {
        let entry = &entries[i];
        if entry.executable {
            if str_eq(entry.file_name.as_str(), expected) {
                return Some(i);
            }
            if fallback.is_none() && is_fallback(entry.file_name.as_str()) {
                fallback = Some(i);
            }
        }
        i = i + 1;
    }
    fallback
}

/// The first directory at or after `from` that was read and holds a pick,
/// with the index of the pick.
pub open spec fn first_pick(
    dirs: Seq<Option<Vec<DirEntryInfo>>>,
    expected: Seq<char>,
    from: int,
) -> Option<(int, int)>
    decreases dirs.len() - from,
{
    if from < 0 || from >= dirs.len() {
        None
    } else {
        match dirs[from] {
            Some(entries) => match spec_pick_in_dir(entries@, expected) {
                Some(i) => Some((from, i)),
                None => first_pick(dirs, expected, from + 1),
            },
            None => first_pick(dirs, expected, from + 1),
        }
    }
}

/// The path of the bundled `kcli`, if the bundle declares one and a directory holds it.
pub open spec fn spec_find_bundled_kcli(
    sidecar_exists: bool,
    dirs: Seq<Option<Vec<DirEntryInfo>>>,
    arch: Seq<char>,
    os: Seq<char>,
) -> Option<Seq<char>> {
    if !sidecar_exists {
        None
    } else {
        match first_pick(dirs, spec_expected_binary_name("kcli"@, arch, os), 0) {
            Some((d, i)) => Some(dirs[d]->0@[i].path@),
            None => None,
        }
    }
}

/// Looks for the bundled `kcli` in the directories of the bundle, in order.
/// `dirs` holds for each directory its entries, or `None` where the
/// directory is unknown or could not be read. In each directory the
/// executable with the name for this architecture wins over one with a
/// fallback name, and an earlier directory wins over a later one.
#[verifier::loop_isolation(false)]
pub fn find_bundled_kcli(
    sidecar_exists: bool,
    dirs: &Vec<Option<Vec<DirEntryInfo>>>,
    arch: &str,
    os: &str,
) -> (res: Option<String>)
    ensures
        res is Some <==> spec_find_bundled_kcli(sidecar_exists, dirs@, arch@, os@) is Some,
        res matches Some(path) ==> spec_find_bundled_kcli(sidecar_exists, dirs@, arch@, os@)
            == Some(path@),
{
    if !sidecar_exists {
        return None;
    }
    let expected = expected_binary_name("kcli", arch, os);
    let mut d: usize = 0;
    while d < dirs.len()
        invariant
            d <= dirs.len(),
            expected@ == spec_expected_binary_name("kcli"@, arch@, os@),
            first_pick(dirs@, expected@, 0) == first_pick(dirs@, expected@, d as int),
        decreases dirs.len() - d,
    {
        match &dirs[d] {
            Some(entries) => {
                match pick_in_dir(entries, expected.as_str()) {
                    Some(i) => {
                        return Some(entries[i].path.clone());
                    },
                    None => {},
                }
            },
            None => {},
        }
        d = d + 1;
    }
    None
}

/// The path that a lookup on `PATH` printed: the first line of the output,
/// trimmed, unless the lookup failed or that line is empty.
pub open spec fn spec_kcli_on_path(lookup: Option<Seq<char>>) -> Option<Seq<char>> {
    match lookup {
        Some(output) => if first_line_trimmed(output).len() > 0 {
            Some(first_line_trimmed(output))
        } else {
            None
        },
        None => None,
    }
}

/// Where `kcli` is found: the bundled executable first, then what the lookup
/// on `PATH` printed, and as the last resort the bare name, which leaves the
/// search to the backend.
pub open spec fn spec_resolve_kcli_binary_path(
    sidecar_exists: bool,
    dirs: Seq<Option<Vec<DirEntryInfo>>>,
    arch: Seq<char>,
    os: Seq<char>,
    lookup: Option<Seq<char>>,
) -> Seq<char> {
    match spec_find_bundled_kcli(sidecar_exists, dirs, arch, os) {
        Some(path) => path,
        None => match spec_kcli_on_path(lookup) {
            Some(path) => path,
            None => "kcli"@,
        },
    }
}

/// Resolves the path of the `kcli` executable that the backend is told to
/// use. `lookup` is the output of the system's lookup of `kcli` on `PATH`, or
/// `None` where the lookup failed.
pub fn resolve_kcli_binary_path(
    sidecar_exists: bool,
    dirs: &Vec<Option<Vec<DirEntryInfo>>>,
    arch: &str,
    os: &str,
    lookup: Option<&str>,
) -> (res: String)
    ensures
        res@ == spec_resolve_kcli_binary_path(
            sidecar_exists,
            dirs@,
            arch@,
            os@,
            match lookup {
                Some(output) => Some(output@),
                None => None,
            },
        ),
{
    match find_bundled_kcli(sidecar_exists, dirs, arch, os) {
        Some(path) => {
            return path;
        },
        None => {},
    }
    match lookup {
        Some(output) => {
            let line = first_line(output);
            if line.as_str().unicode_len() > 0 {
                return line;
            }
        },
        None => {},
    }
    String::from_str("kcli")
}

/// What the shell found of the AI service's executable in one directory.
#[derive(Debug)]
pub struct DirProbe {
    /// Whether a file with the expected name exists there.
    pub exact_exists: bool,
    /// The names of the files in the directory; `None` where it could not be read.
    pub entries: Option<Vec<String>>,
}

/// Whether one directory holds the executable: under its exact name, or
/// under any name that begins with the base name.
pub open spec fn dir_has_binary(probe: DirProbe, base: Seq<char>) -> bool {
    probe.exact_exists || match probe.entries {
        Some(names) => exists|i: int| 0 <= i < names.len() && base.is_prefix_of(#[trigger] names[i]@),
        None => false,
    }
}

/// Whether a directory that the shell may not have been able to name holds the executable.
pub open spec fn slot_has_binary(slot: Option<DirProbe>, base: Seq<char>) -> bool {
    match slot {
        Some(probe) => dir_has_binary(probe, base),
        None => false,
    }
}

/// Whether some directory that the shell could name holds the executable.
pub open spec fn spec_binary_exists(dirs: Seq<Option<DirProbe>>, base: Seq<char>) -> bool {
    exists|d: int| 0 <= d < dirs.len() && slot_has_binary(#[trigger] dirs[d], base)
}

#[verifier::loop_isolation(false)]
fn dir_holds(probe: &DirProbe, base: &str) -> (res: bool)
    ensures
        res == dir_has_binary(*probe, base@),
{
    if probe.exact_exists {
        return true;
    }
    match &probe.entries {
        Some(names) => {
            let mut i: usize = 0;
            while i < names.len()
                invariant
                    i <= names.len(),
                    forall|k: int| 0 <= k < i ==> !base@.is_prefix_of(#[trigger] names[k]@),
                decreases names.len() - i,
            {
                if starts_with(names[i].as_str(), base) {
                    assert(base@.is_prefix_of(names[i as int]@));
                    return true;
                }
                i = i + 1;
            }
            false
        },
        None => false,
    }
}

/// Whether the executable `base` is on disk, which the bundle's declaration
/// alone does not tell. `dirs` holds what the shell found in each directory of
/// the bundle, or `None` where the directory is unknown.
pub fn binary_exists(dirs: &Vec<Option<DirProbe>>, base: &str) -> (res: bool)
    ensures
        res == spec_binary_exists(dirs@, base@),
{
    let mut d: usize = 0;
    while d < dirs.len()
        invariant
            d <= dirs.len(),
            forall|k: int| 0 <= k < d ==> !slot_has_binary(#[trigger] dirs[k], base@),
        decreases dirs.len() - d,
    {
        match &dirs[d] {
            Some(probe) => {
                if dir_holds(probe, base) {
                    return true;
                }
            },
            None => {},
        }
        d = d + 1;
    }
    false
}

/// Whether the executable of the AI service is on disk.
pub fn check_ai_binary_exists(dirs: &Vec<Option<DirProbe>>) -> (res: bool)
    ensures
        res == spec_binary_exists(dirs@, "kubilitics-ai"@),
{
    binary_exists(dirs, "kubilitics-ai")
}

/// The address of the health endpoint of the service on `port`.
pub open spec fn spec_health_url(port: u16) -> Seq<char> {
    "http://localhost:"@ + decimal_digits(port as nat) + "/health"@
}

/// The address that a health probe is sent to.
pub fn health_url(port: u16) -> (res: String)
    ensures
        res@ == spec_health_url(port),
{
    let mut url = String::from_str("http://localhost:");
    url.append(decimal_string(port as u64).as_str());
    url.append("/health");
    url
}

/// The address of the shutdown endpoint of the service on `port`.
pub open spec fn spec_shutdown_url(port: u16) -> Seq<char> {
    "http://localhost:"@ + decimal_digits(port as nat) + "/api/v1/shutdown"@
}

/// The address that the request to shut down is posted to.
pub fn shutdown_url(port: u16) -> (res: String)
    ensures
        res@ == spec_shutdown_url(port),
{
    let mut url = String::from_str("http://localhost:");
    url.append(decimal_string(port as u64).as_str());
    url.append("/api/v1/shutdown");
    url
}

/// The web origins that a service accepts requests from: those of the
/// shell's web view on every platform, the development server, and the
/// backend on `backend_port`.
pub open spec fn spec_allowed_origins(backend_port: u16) -> Seq<char> {
    "tauri://localhost,tauri://,http://tauri.localhost,http://localhost:5173,http://localhost:"@
        + decimal_digits(backend_port as nat)
}

/// The comma-separated list of web origins that a service is told to accept.
pub fn allowed_origins(backend_port: u16) -> (res: String)
    ensures
        res@ == spec_allowed_origins(backend_port),
{
    concat2(
        "tauri://localhost,tauri://,http://tauri.localhost,http://localhost:5173,http://localhost:",
        decimal_string(backend_port as u64).as_str(),
    )
}

/// One variable of a process environment.
#[derive(Debug, PartialEq, Eq)]
pub struct EnvVar {
    pub name: String,
    pub value: String,
}

impl View for EnvVar {
    type V = (Seq<char>, Seq<char>);

    open spec fn view(&self) -> (Seq<char>, Seq<char>) {
        (self.name@, self.value@)
    }
}

/// The names and values of a list of variables.
pub open spec fn env_view(vars: Seq<EnvVar>) -> Seq<(Seq<char>, Seq<char>)> {
    Seq::new(vars.len(), |i: int| vars[i]@)
}

fn env_var(name: &str, value: String) -> (res: EnvVar)
    ensures
        res@ == (name@, value@),
{
    EnvVar { name: String::from_str(name), value }
}

/// The environment of the backend engine: its port, the path of `kcli`, the
/// accepted web origins and the database file; and the kubeconfig, but only
/// where one was found, since an empty value would keep the backend from
/// looking in the default place.
pub open spec fn spec_backend_environment(
    port: u16,
    kcli_bin: Seq<char>,
    db_file: Seq<char>,
    kubeconfig: Seq<char>,
) -> Seq<(Seq<char>, Seq<char>)> {
    seq![
        ("KUBILITICS_PORT"@, decimal_digits(port as nat)),
        ("KCLI_BIN"@, kcli_bin),
        ("KUBILITICS_ALLOWED_ORIGINS"@, spec_allowed_origins(port)),
        ("KUBILITICS_DATABASE_PATH"@, db_file),
    ] + (if kubeconfig.len() > 0 {
        seq![("KUBECONFIG"@, kubeconfig)]
    } else {
        seq![]
    })
}

/// Builds the environment that the backend engine is spawned with.
pub fn backend_environment(port: u16, kcli_bin: &str, db_file: &str, kubeconfig: &str) -> (res: Vec<
    EnvVar,
>)
    ensures
        env_view(res@) == spec_backend_environment(port, kcli_bin@, db_file@, kubeconfig@),
{
    let mut vars: Vec<EnvVar> = Vec::new();
    vars.push(env_var("KUBILITICS_PORT", decimal_string(port as u64)));
    vars.push(env_var("KCLI_BIN", String::from_str(kcli_bin)));
    vars.push(env_var("KUBILITICS_ALLOWED_ORIGINS", allowed_origins(port)));
    vars.push(env_var("KUBILITICS_DATABASE_PATH", String::from_str(db_file)));
    if kubeconfig.unicode_len() > 0 {
        vars.push(env_var("KUBECONFIG", String::from_str(kubeconfig)));
    }
    assert(env_view(vars@) =~= spec_backend_environment(port, kcli_bin@, db_file@, kubeconfig@));
    vars
}

/// The environment of the AI service: its port, where it reaches the backend,
/// its features, its database and the accepted web origins.
pub open spec fn spec_ai_environment(port: u16, backend_port: u16, db_file: Seq<char>) -> Seq<
    (Seq<char>, Seq<char>),
> {
    seq![
        ("KUBILITICS_PORT"@, decimal_digits(port as nat)),
        ("KUBILITICS_BACKEND_ADDRESS"@, "localhost:50051"@),
        (
            "KUBILITICS_BACKEND_HTTP_BASE_URL"@,
            "http://localhost:"@ + decimal_digits(backend_port as nat),
        ),
        ("KUBILITICS_MCP_ENABLED"@, "true"@),
        ("KUBILITICS_SAFETY_ENABLED"@, "true"@),
        ("KUBILITICS_ANALYTICS_ENABLED"@, "true"@),
        ("KUBILITICS_DATABASE_PATH"@, db_file),
        ("KUBILITICS_DATABASE_SQLITE_PATH"@, db_file),
        ("KUBILITICS_DATABASE_TYPE"@, "sqlite"@),
        ("KUBILITICS_ALLOWED_ORIGINS"@, spec_allowed_origins(backend_port)),
    ]
}

/// Builds the environment that the AI service is spawned with.
pub fn ai_environment(port: u16, backend_port: u16, db_file: &str) -> (res: Vec<EnvVar>)
    ensures
        env_view(res@) == spec_ai_environment(port, backend_port, db_file@),
{
    let mut vars: Vec<EnvVar> = Vec::new();
    vars.push(env_var("KUBILITICS_PORT", decimal_string(port as u64)));
    vars.push(env_var("KUBILITICS_BACKEND_ADDRESS", String::from_str("localhost:50051")));
    vars.push(
        env_var(
            "KUBILITICS_BACKEND_HTTP_BASE_URL",
            concat2("http://localhost:", decimal_string(backend_port as u64).as_str()),
        ),
    );
    vars.push(env_var("KUBILITICS_MCP_ENABLED", String::from_str("true")));
    vars.push(env_var("KUBILITICS_SAFETY_ENABLED", String::from_str("true")));
    vars.push(env_var("KUBILITICS_ANALYTICS_ENABLED", String::from_str("true")));
    vars.push(env_var("KUBILITICS_DATABASE_PATH", String::from_str(db_file)));
    vars.push(env_var("KUBILITICS_DATABASE_SQLITE_PATH", String::from_str(db_file)));
    vars.push(env_var("KUBILITICS_DATABASE_TYPE", String::from_str("sqlite")));
    vars.push(env_var("KUBILITICS_ALLOWED_ORIGINS", allowed_origins(backend_port)));
    assert(env_view(vars@) =~= spec_ai_environment(port, backend_port, db_file@));
    vars
}

} // verus!
