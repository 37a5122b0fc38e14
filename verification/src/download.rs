//! Where the browser is downloaded from and installed to, and how its
//! archive is unpacked.
use crate::error::Error;
use crate::json::views;
use zip::result::ZipError;
use vstd::prelude::*;

verus! {

/// The platforms a browser can be downloaded for.
#[derive(Debug, Clone, Copy, PartialEq, Eq, Structural)]
pub enum Platform {
    Linux,
    MacOs,
    Windows,
}

/// The directory, under the home directory, that browsers are installed in.
pub fn browsers_dir() -> (r: &'static str)
    ensures
        r@ == ".spectre/browsers"@,
{
    ".spectre/browsers"
}

/// The archive of Chrome for Testing for a platform.
pub open spec fn chrome_archive_url(p: Platform) -> Seq<char> {
    match p {
        Platform::Linux => "https://storage.googleapis.com/chrome-for-testing-public/136.0.7103.49/linux64/chrome-linux64.zip"@,
        Platform::MacOs => "https://storage.googleapis.com/chrome-for-testing-public/136.0.7103.49/mac-arm64/chrome-mac-arm64.zip"@,
        Platform::Windows => "https://storage.googleapis.com/chrome-for-testing-public/135.0.7049.95/win64/chrome-win64.zip"@,
    }
}

/// The path of the browser binary in the installation directory.
pub open spec fn chrome_binary_path(p: Platform) -> Seq<char> {
    match p {
        Platform::Linux => "chrome-linux64/chrome"@,
        Platform::MacOs => "chrome-mac-arm64/Google Chrome for Testing.app/Contents/MacOS/Google Chrome for Testing"@,
        Platform::Windows => "chrome-win64/chrome.exe"@,
    }
}

impl Platform {
    pub fn chrome_archive_url(self) -> (r: &'static str)
        ensures
            r@ == chrome_archive_url(self),
    {
        match self {
            Platform::Linux => "https://storage.googleapis.com/chrome-for-testing-public/136.0.7103.49/linux64/chrome-linux64.zip",
            Platform::MacOs => "https://storage.googleapis.com/chrome-for-testing-public/136.0.7103.49/mac-arm64/chrome-mac-arm64.zip",
            Platform::Windows => "https://storage.googleapis.com/chrome-for-testing-public/135.0.7049.95/win64/chrome-win64.zip",
        }
    }

    /// Whether the unpacked files are made executable: on the unix
    /// platforms, not on Windows.
    pub fn marks_executable(self) -> (r: bool)
        ensures
            r == !(self is Windows),
    {
        match self {
            Platform::Windows => false,
            _ => true,
        }
    }

    pub fn chrome_binary_path(self) -> (r: &'static str)
        ensures
            r@ == chrome_binary_path(self),
    {
        match self {
            Platform::Linux => "chrome-linux64/chrome",
            Platform::MacOs => "chrome-mac-arm64/Google Chrome for Testing.app/Contents/MacOS/Google Chrome for Testing",
            Platform::Windows => "chrome-win64/chrome.exe",
        }
    }
}

/// `zip::result::ZipError`, why an archive could not be read.
#[verifier::external_type_specification]
#[verifier::external_body]
pub struct ExZipError(ZipError);

/// An entry of a zip archive: its stored name and its unpacked bytes.
#[derive(Debug)]
pub struct ArchiveEntry {
    pub name: String,
    pub data: Vec<u8>,
}

impl View for ArchiveEntry {
    type V = (Seq<char>, Seq<u8>);

    open spec fn view(&self) -> (Seq<char>, Seq<u8>) {
        (self.name@, self.data@)
    }
}

/// The entries of the zip archive `archive`, in the order of its central
/// directory: the name each entry is stored under and its unpacked bytes, as
/// the `zip` crate reads them; `None` when it cannot read them.
pub uninterp spec fn zip_entries(archive: Seq<u8>) -> Option<Seq<(Seq<char>, Seq<u8>)>>;

/// Reads every entry of a zip archive with the `zip` crate:
/// `ZipArchive::new`, then for each index `by_index`, the stored `name`
/// and `read_to_end`. These depend on the bytes alone; the contract names
/// their outcome ([`zip_entries`]), and the `zip` crate's own error comes
/// back when the archive cannot be read.
#[verifier::external_body]
fn read_archive(archive: &[u8]) -> (r: Result<Vec<ArchiveEntry>, ZipError>)
    ensures
        match r {
            Ok(es) => zip_entries(archive@) == Some(views(es@)),
            Err(_) => zip_entries(archive@) is None,
        },
{
    let mut zip = zip::ZipArchive::new(std::io::Cursor::new(archive))?;
    let mut entries = Vec::new();
    for i in 0..zip.len() {
        let mut file = zip.by_index(i)?;
        let mut data = Vec::new();
        std::io::Read::read_to_end(&mut file, &mut data)?;
        entries.push(ArchiveEntry { name: file.name().to_owned(), data });
    }
    Ok(entries)
}

/// Whether `c` separates the parts of a path: `/`, or `\` as on Windows.
pub open spec fn is_separator(c: char) -> bool {
    c == '/' || c == '\\'
}

/// Whether the entry `name` is a directory: its name ends with a separator.
pub open spec fn is_dir_name(name: Seq<char>) -> bool {
    name.len() > 0 && is_separator(name.last())
}

/// How deep a path is after its part `part`: one up for `..`, the same for
/// an empty part or `.`, one down for any other.
pub open spec fn depth_after(part: Seq<char>, depth: int) -> int {
    if part == seq!['.', '.'] {
        depth - 1
    } else if part.len() == 0 || part == seq!['.'] {
        depth
    } else {
        depth + 1
    }
}

/// Whether the rest `s` of a path, read at `depth` parts below the directory
/// with the part `part` begun, never climbs above that directory.
pub open spec fn stays_inside(s: Seq<char>, part: Seq<char>, depth: int) -> bool
    decreases s.len(),
{
    if s.len() == 0 {
        depth_after(part, depth) >= 0
    } else if is_separator(s[0]) {
        depth_after(part, depth) >= 0 && stays_inside(s.drop_first(), Seq::empty(), depth_after(part, depth))
    } else {
        stays_inside(s.drop_first(), part.push(s[0]), depth)
    }
}

/// Whether `name` starts with a drive, as `C:` on Windows: a `:` before the
/// first separator.
pub open spec fn has_drive(name: Seq<char>) -> bool
    decreases name.len(),
{
    if name.len() == 0 {
        false
    } else if name[0] == ':' {
        true
    } else if is_separator(name[0]) {
        false
    } else {
        has_drive(name.drop_first())
    }
}

/// Whether an entry may be unpacked under its name on any platform: no NUL
/// character, not an absolute path, no drive, and never climbing above the
/// directory it is unpacked into, with `/` and `\` both separating parts.
pub open spec fn is_safe_name(name: Seq<char>) -> bool {
    &&& !name.contains('\0')
    &&& !(name.len() > 0 && is_separator(name[0]))
    &&& !has_drive(name)
    &&& stays_inside(name, Seq::empty(), 0)
}

/// Whether the entry `name` is a directory.
pub fn entry_is_dir(name: &str) -> (r: bool)
    ensures
        r == is_dir_name(name@),
{
    let n = name.unicode_len();
    if n == 0 {
        false
    } else {
        let c = name.get_char(n - 1);
        c == '/' || c == '\\'
    }
}

/// Whether the entry `name` may be unpacked (see [`is_safe_name`]).
pub fn safe_name(name: &str) -> (r: bool)
    ensures
        r == is_safe_name(name@),
{
    let n = name.unicode_len();
    let ghost s = name@;
    let ghost mut part: Seq<char> = Seq::empty();
    let mut part_len: usize = 0;
    let mut part_dots = true;
    let mut depth: usize = 0;
    let mut seen_separator = false;
    let mut i: usize = 0;
    assert(s.skip(0) =~= s);
    while i < n
        invariant
            n == s.len(),
            s == name@,
            i <= n,
            part.len() == part_len,
            part_len <= i,
            depth <= i,
            part_dots == (forall|k: int| 0 <= k < part.len() ==> #[trigger] part[k] == '.'),
            has_drive(s) == (!seen_separator && has_drive(s.skip(i as int))),
            forall|k: int| 0 <= k < i ==> #[trigger] s[k] != '\0',
            i > 0 ==> !is_separator(s[0]),
            stays_inside(s, Seq::empty(), 0) == stays_inside(s.skip(i as int), part, depth as int),
        decreases n - i,
    {
        let c = name.get_char(i);
        assert(s.skip(i as int)[0] == c);
        assert(s.skip(i as int).drop_first() =~= s.skip(i + 1));
        if c == '\0' {
            assert(s.contains('\0'));
            return false;
        }
        let sep = c == '/' || c == '\\';
        if sep && i == 0 {
            return false;
        }
        if c == ':' && !seen_separator {
            return false;
        }
        if sep {
            proof {
                if part_dots && part_len == 2 {
                    assert(part =~= seq!['.', '.']);
                } else if part_dots && part_len == 1 {
                    assert(part =~= seq!['.']);
                    assert(part != seq!['.', '.']);
                } else if part_len > 0 {
                    if !part_dots {
                        let k = choose|k: int| 0 <= k < part.len() && part[k] != '.';
                        if part.len() == 2 {
                            assert(seq!['.', '.'][k] == '.');
                        }
                        if part.len() == 1 {
                            assert(seq!['.'][k] == '.');
                        }
                    }
                    assert(part != seq!['.', '.']);
                    assert(part != seq!['.']);
                }
            }
            if part_dots && part_len == 2 {
                if depth == 0 {
                    return false;
                }
                depth = depth - 1;
            } else if part_len > 0 && !(part_dots && part_len == 1) {
                depth = depth + 1;
            }
            proof {
                part = Seq::empty();
            }
            part_len = 0;
            part_dots = true;
            seen_separator = true;
        } else {
            let ghost before = part;
            proof {
                part = part.push(c);
                assert(forall|k: int| 0 <= k < before.len() ==> part[k] == #[trigger] before[k]);
            }
            part_len = part_len + 1;
            part_dots = part_dots && c == '.';
            assert(part_dots == (forall|k: int| 0 <= k < part.len() ==> #[trigger] part[k] == '.')) by {
                if !part_dots {
                    if c != '.' {
                        assert(part[part.len() - 1] == c);
                    } else {
                        let k = choose|k: int| 0 <= k < before.len() && before[k] != '.';
                        assert(part[k] == before[k]);
                    }
                }
            }
        }
        i = i + 1;
    }
    assert(s.skip(n as int).len() == 0);
    proof {
        if part_dots && part_len == 2 {
            assert(part =~= seq!['.', '.']);
        } else if part_dots && part_len == 1 {
            assert(part =~= seq!['.']);
            assert(part != seq!['.', '.']);
        } else if part_len > 0 {
            if !part_dots {
                let k = choose|k: int| 0 <= k < part.len() && part[k] != '.';
                if part.len() == 2 {
                    assert(seq!['.', '.'][k] == '.');
                }
                if part.len() == 1 {
                    assert(seq!['.'][k] == '.');
                }
            }
            assert(part != seq!['.', '.']);
            assert(part != seq!['.']);
        }
        assert(!s.contains('\0'));
    }
    !(part_dots && part_len == 2 && depth == 0)
}

/// What unpacking does for one entry.
#[derive(Debug)]
pub enum InstallStep {
    /// Create the directory (and its parents).
    CreateDir(String),
    /// Write the file with these bytes, and make it executable if asked.
    WriteFile { path: String, data: Vec<u8>, executable: bool },
}

pub enum InstallStepV {
    CreateDir(Seq<char>),
    WriteFile { path: Seq<char>, data: Seq<u8>, executable: bool },
}

impl View for InstallStep {
    type V = InstallStepV;

    open spec fn view(&self) -> InstallStepV {
        match self {
            InstallStep::CreateDir(p) => InstallStepV::CreateDir(p@),
            InstallStep::WriteFile { path, data, executable } => InstallStepV::WriteFile {
                path: path@,
                data: data@,
                executable: *executable,
            },
        }
    }
}

/// Where the entry `name` is unpacked in `dir`.
pub open spec fn entry_path(dir: Seq<char>, name: Seq<char>) -> Seq<char> {
    dir + "/"@ + name
}

/// The step that unpacks the entry `e` into `dir`.
pub open spec fn install_step(dir: Seq<char>, e: (Seq<char>, Seq<u8>), executable: bool) -> InstallStepV {
    let path = entry_path(dir, e.0);
    if is_dir_name(e.0) {
        InstallStepV::CreateDir(path)
    } else {
        InstallStepV::WriteFile { path, data: e.1, executable }
    }
}

/// `steps` unpack the entries `es` into `dir` one by one, in order, up to the
/// first entry whose name is not a safe relative path; `stopped` says that
/// such an entry was met (and unpacking must stop there).
pub open spec fn is_install_plan(
    dir: Seq<char>,
    es: Seq<(Seq<char>, Seq<u8>)>,
    executable: bool,
    steps: Seq<InstallStepV>,
    stopped: bool,
) -> bool {
    &&& steps.len() <= es.len()
    &&& forall|i: int|
        0 <= i < steps.len() ==> is_safe_name((#[trigger] es[i]).0) && steps[i] == install_step(
            dir,
            es[i],
            executable,
        )
    &&& stopped == (steps.len() < es.len())
    &&& stopped ==> !is_safe_name(es[steps.len() as int].0)
}

/// The steps that unpack `entries` into `dir`: one per entry, in order,
/// until an entry whose name is not safe ([`is_safe_name`]), where the plan
/// stops (`true`).
pub fn install_plan(dir: &str, entries: Vec<ArchiveEntry>, executable: bool) -> (r: (Vec<InstallStep>, bool))
    ensures
        is_install_plan(dir@, views(entries@), executable, views(r.0@), r.1),
{
    let ghost es = views(entries@);
    let n = entries.len();
    let mut rest = entries;
    let mut steps: Vec<InstallStep> = Vec::new();
    proof {
        reveal_strlit("/");
    }
    let prefix = dir.to_owned().concat("/");
    let mut i: usize = 0;
    assert(views(rest@) =~= es.subrange(0, n as int));
    while i < n
        invariant
            n == es.len(),
            es == views(entries@),
            i <= n,
            prefix@ == dir@ + "/"@,
            steps.len() == i,
            rest.len() == n - i,
            views(rest@) =~= es.subrange(i as int, n as int),
            forall|k: int|
                0 <= k < i ==> is_safe_name((#[trigger] es[k]).0) && steps@[k]@ == install_step(
                    dir@,
                    es[k],
                    executable,
                ),
        decreases n - i,
    {
        assert(views(rest@)[0] == es[i as int]);
        let ghost before = rest@;
        assert(before[0]@ == es[i as int]);
        let e = rest.remove(0);
        assert(forall|k: int| 0 <= k < rest@.len() ==> #[trigger] rest@[k] == before[k + 1]);
        assert(views(rest@) =~= es.subrange(i + 1, n as int)) by {
            assert forall|k: int| 0 <= k < rest@.len() implies #[trigger] views(rest@)[k] == es[i + 1 + k] by {
                assert(views(before)[k + 1] == es.subrange(i as int, n as int)[k + 1]);
            }
        }
        assert(e@ == es[i as int]);
        if !safe_name(e.name.as_str()) {
            {
                assert(es[i as int] == e@);
                let r = (steps, true);
                assert forall|k: int| 0 <= k < views(r.0@).len() implies #[trigger] views(r.0@)[k]
                    == install_step(dir@, es[k], executable) by {
                    assert(views(r.0@)[k] == r.0@[k]@);
                }
                return r;
            }
        } else {
            {
                let path = prefix.clone().concat(e.name.as_str());
                if entry_is_dir(e.name.as_str()) {
                    steps.push(InstallStep::CreateDir(path));
                } else {
                    steps.push(InstallStep::WriteFile { path, data: e.data, executable });
                }
                i = i + 1;
            }
        }
    }
    let r = (steps, false);
    assert forall|k: int| 0 <= k < views(r.0@).len() implies #[trigger] views(r.0@)[k]
        == install_step(dir@, es[k], executable) by {
        assert(views(r.0@)[k] == r.0@[k]@);
    }
    r
}

/// The steps that unpack the zip archive `archive` into `dir` (see
/// [`install_plan`]), or the error of an archive that cannot be read.
pub fn unpack_steps(dir: &str, archive: &[u8], executable: bool) -> (r: Result<(Vec<InstallStep>, bool), Error>)
    ensures
        match r {
            Ok((steps, stopped)) => zip_entries(archive@) matches Some(es) && is_install_plan(
                dir@,
                es,
                executable,
                views(steps@),
                stopped,
            ),
            Err(e) => zip_entries(archive@) is None && e is ZipError,
        },
{
    match read_archive(archive) {
        Ok(entries) => Ok(install_plan(dir, entries, executable)),
        Err(e) => Err(Error::ZipError(e)),
    }
}


/// An entry is unpacked at the directory, a `/`, then its name; a directory
/// entry (its name ends with a separator) becomes a directory, any other a
/// file with the entry's bytes and the asked permission.
pub proof fn lemma_install_step(dir: Seq<char>, e: (Seq<char>, Seq<u8>), executable: bool)
    ensures
        entry_path(dir, e.0) == dir + seq!['/'] + e.0,
        (e.0.len() > 0 && (e.0.last() == '/' || e.0.last() == '\\')) ==> install_step(dir, e, executable)
            == InstallStepV::CreateDir(dir + seq!['/'] + e.0),
        !(e.0.len() > 0 && (e.0.last() == '/' || e.0.last() == '\\')) ==> install_step(dir, e, executable)
            == (InstallStepV::WriteFile { path: dir + seq!['/'] + e.0, data: e.1, executable }),
{
    reveal_strlit("/");
    assert("/"@ =~= seq!['/']);
}

/// A name of one part (no separator, no `:`, no NUL) other than `.` and `..`
/// is safe; a name that starts with a separator, or whose first part is `..`,
/// is not.
pub proof fn lemma_safe_names(name: Seq<char>)
    ensures
        (forall|i: int| 0 <= i < name.len() ==> {
            let c = #[trigger] name[i];
            c != '/' && c != '\\' && c != ':' && c != '\0'
        }) && name != seq!['.', '.'] ==> is_safe_name(name),
        name.len() > 0 && (name[0] == '/' || name[0] == '\\') ==> !is_safe_name(name),
        name.len() >= 3 && name[0] == '.' && name[1] == '.' && (name[2] == '/' || name[2] == '\\')
            ==> !is_safe_name(name),
{
    if (forall|i: int| 0 <= i < name.len() ==> {
        let c = #[trigger] name[i];
        c != '/' && c != '\\' && c != ':' && c != '\0'
    }) && name != seq!['.', '.'] {
        lemma_one_part(name, Seq::empty());
        lemma_no_drive(name);
        assert(name.skip(0) =~= name);
    }
    if name.len() >= 3 && name[0] == '.' && name[1] == '.' && (name[2] == '/' || name[2] == '\\') {
        let s1 = name.drop_first();
        let s2 = s1.drop_first();
        assert(s1[0] == '.');
        assert(s2[0] == name[2]);
        assert(seq!['.'].push('.') =~= seq!['.', '.']);
        assert(Seq::<char>::empty().push('.') =~= seq!['.']);
        assert(stays_inside(name, Seq::empty(), 0) == stays_inside(s1, seq!['.'], 0));
        assert(stays_inside(s1, seq!['.'], 0) == stays_inside(s2, seq!['.', '.'], 0));
        assert(depth_after(seq!['.', '.'], 0) == -1);
        assert(!stays_inside(s2, seq!['.', '.'], 0));
    }
}

proof fn lemma_no_drive(name: Seq<char>)
    requires
        forall|i: int| 0 <= i < name.len() ==> #[trigger] name[i] != ':',
    ensures
        !has_drive(name),
    decreases name.len(),
{
    if name.len() > 0 {
        assert forall|i: int| 0 <= i < name.drop_first().len() implies #[trigger] name.drop_first()[i] != ':' by {
            assert(name.drop_first()[i] == name[i + 1]);
        }
        lemma_no_drive(name.drop_first());
    }
}

/// Reading the rest `s` of a single part begun with `part` keeps inside the
/// directory, unless the whole part is `..`.
proof fn lemma_one_part(s: Seq<char>, part: Seq<char>)
    requires
        forall|i: int| 0 <= i < s.len() ==> !is_separator(#[trigger] s[i]),
        part + s != seq!['.', '.'],
    ensures
        stays_inside(s, part, 0),
    decreases s.len(),
{
    if s.len() == 0 {
        assert(part + s =~= part);
    } else {
        assert forall|i: int| 0 <= i < s.drop_first().len() implies !is_separator(#[trigger] s.drop_first()[i]) by {
            assert(s.drop_first()[i] == s[i + 1]);
        }
        assert(part.push(s[0]) + s.drop_first() =~= part + s);
        lemma_one_part(s.drop_first(), part.push(s[0]));
    }
}


/// Chrome for Testing is fetched from Google's storage for each platform, and
/// its binary is found in the unpacked directory of that platform.
pub proof fn lemma_download_tables()
    ensures
        chrome_archive_url(Platform::Linux) == "https://storage.googleapis.com/chrome-for-testing-public/136.0.7103.49/linux64/chrome-linux64.zip"@,
        chrome_archive_url(Platform::MacOs) == "https://storage.googleapis.com/chrome-for-testing-public/136.0.7103.49/mac-arm64/chrome-mac-arm64.zip"@,
        chrome_archive_url(Platform::Windows) == "https://storage.googleapis.com/chrome-for-testing-public/135.0.7049.95/win64/chrome-win64.zip"@,
        chrome_binary_path(Platform::Linux) == "chrome-linux64/chrome"@,
        chrome_binary_path(Platform::MacOs) == "chrome-mac-arm64/Google Chrome for Testing.app/Contents/MacOS/Google Chrome for Testing"@,
        chrome_binary_path(Platform::Windows) == "chrome-win64/chrome.exe"@,
{
}

} // verus!
