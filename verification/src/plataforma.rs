//! What changes between Linux, macOS and Windows: the names of binaries and of the
//! published assets, the places things are installed (relative to the home directory),
//! the Linux family, the build dependencies to install, the Rust toolchain bootstrap,
//! the PATH set-up and the desktop launcher.

use vstd::prelude::*;
use crate::comando::{invocacao, push_str, strings, Invocacao};
use crate::texto::{
    chars_of, contains, contains_str, first_line, first_line_of, lemma_trailing_until, lowercase, slice_to_string, str_eq,
    str_views, to_lower, trailing_until, views, white, Cut,
};

verus! {

/// Repository of the app (CLI).
pub const APP_REPO: &'static str = "schematizeme/schematize-cli";

/// Repository of the app's window (Slint).
pub const GUI_REPO: &'static str = "schematizeme/schematize_gui_slint";

/// Repository of this program: it is the one component nobody else updates.
pub const UPDATER_REPO: &'static str = "schematizeme/schematize-updater";

/// Repository of the updater's own window (optional).
pub const UPDATER_GUI_REPO: &'static str = "schematizeme/schematize-updater-gui";

/// Operating system the updater runs on.
#[derive(Clone, Copy, PartialEq, Eq, Debug, Structural)]
pub enum Os {
    Linux,
    Mac,
    Windows,
}

/// Family of a Linux distribution (it chooses the package manager).
#[derive(Clone, Copy, PartialEq, Eq, Debug, Structural)]
pub enum LinuxFam {
    Debian,
    Rpm,
    Arch,
    Unknown,
}

/// A place on disk, as path components joined in order: either under the home
/// directory, or starting from the first component as written (an absolute directory
/// such as `/usr/bin`, or a bare program name that the PATH resolves).
pub enum Caminho {
    SobHome(Vec<String>),
    Literal(Vec<String>),
}

/// What a [`Caminho`] denotes.
pub enum CaminhoV {
    SobHome(Seq<Seq<char>>),
    Literal(Seq<Seq<char>>),
}

impl View for Caminho {
    type V = CaminhoV;

    open spec fn view(&self) -> CaminhoV {
        match self {
            Caminho::SobHome(p) => CaminhoV::SobHome(views(p@)),
            Caminho::Literal(p) => CaminhoV::Literal(views(p@)),
        }
    }
}

/// `c` joined with `name`.
pub open spec fn child(c: CaminhoV, name: Seq<char>) -> CaminhoV {
    match c {
        CaminhoV::SobHome(p) => CaminhoV::SobHome(p.push(name)),
        CaminhoV::Literal(p) => CaminhoV::Literal(p.push(name)),
    }
}

fn copy_strings(v: &Vec<String>) -> (r: Vec<String>)
    ensures
        views(r@) == views(v@),
{
    let mut r: Vec<String> = Vec::new();
    let mut i: usize = 0;
    while i < v.len()
        invariant
            i <= v.len(),
            views(r@) == views(v@).subrange(0, i as int),
        decreases v.len() - i,
    {
        push_str(&mut r, v[i].as_str());
        assert(views(v@).subrange(0, i + 1) =~= views(v@).subrange(0, i as int).push(v@[i as int]@));
        i = i + 1;
    }
    assert(views(v@).subrange(0, v@.len() as int) =~= views(v@));
    r
}

impl Caminho {
    /// This place joined with `name`.
    pub fn join(&self, name: &str) -> (r: Caminho)
        ensures
            r@ == child(self@, name@),
    {
        match self {
            Caminho::SobHome(p) => {
                let mut q = copy_strings(p);
                push_str(&mut q, name);
                Caminho::SobHome(q)
            },
            Caminho::Literal(p) => {
                let mut q = copy_strings(p);
                push_str(&mut q, name);
                Caminho::Literal(q)
            },
        }
    }

    /// The bare program `name`, found through the PATH.
    pub fn nome(name: String) -> (r: Caminho)
        ensures
            r@ == CaminhoV::Literal(seq![name@]),
    {
        let mut p: Vec<String> = Vec::new();
        push_str(&mut p, name.as_str());
        assert(views(p@) =~= seq![name@]);
        Caminho::Literal(p)
    }
}

/// The operating system named by `target_os` (`std::env::consts::OS`): Windows, macOS,
/// and Linux for every other (the code for Linux serves the other Unixes too).
pub open spec fn os_named(target_os: Seq<char>) -> Os {
    if target_os == "windows"@ {
        Os::Windows
    } else if target_os == "macos"@ {
        Os::Mac
    } else {
        Os::Linux
    }
}

/// The operating system named by `target_os`.
pub fn os(target_os: &str) -> (r: Os)
    ensures
        r == os_named(target_os@),
{
    if str_eq(target_os, "windows") {
        Os::Windows
    } else if str_eq(target_os, "macos") {
        Os::Mac
    } else {
        Os::Linux
    }
}

/// The family a lowercased `/etc/os-release` names, by the first group of names it
/// contains.
pub open spec fn family_of(low: Seq<char>) -> LinuxFam {
    if contains(low, "debian"@) || contains(low, "ubuntu"@) || contains(low, "mint"@) || contains(
        low,
        "pop"@,
    ) || contains(low, "elementary"@) {
        LinuxFam::Debian
    } else if contains(low, "suse"@) || contains(low, "opensuse"@) || contains(low, "sles"@)
        || contains(low, "fedora"@) || contains(low, "rhel"@) || contains(low, "centos"@)
        || contains(low, "rocky"@) || contains(low, "alma"@) {
        LinuxFam::Rpm
    } else if contains(low, "arch"@) || contains(low, "manjaro"@) || contains(low, "endeavour"@) {
        LinuxFam::Arch
    } else {
        LinuxFam::Unknown
    }
}

/// How an os-release names its family: any of `debian`, `ubuntu`, `mint`, `pop`,
/// `elementary` makes it Debian (apt-get); failing those, any of `suse`, `opensuse`,
/// `sles`, `fedora`, `rhel`, `centos`, `rocky`, `alma` makes it Rpm; failing those, any
/// of `arch`, `manjaro`, `endeavour` makes it Arch; and a text that names none is
/// Unknown.
pub proof fn lemma_family_by_names(low: Seq<char>)
    ensures
        contains(low, "debian"@) ==> family_of(low) == LinuxFam::Debian,
        contains(low, "ubuntu"@) ==> family_of(low) == LinuxFam::Debian,
        contains(low, "mint"@) ==> family_of(low) == LinuxFam::Debian,
        contains(low, "pop"@) ==> family_of(low) == LinuxFam::Debian,
        contains(low, "elementary"@) ==> family_of(low) == LinuxFam::Debian,
        family_of(low) != LinuxFam::Debian ==> {
            &&& contains(low, "suse"@) ==> family_of(low) == LinuxFam::Rpm
            &&& contains(low, "opensuse"@) ==> family_of(low) == LinuxFam::Rpm
            &&& contains(low, "sles"@) ==> family_of(low) == LinuxFam::Rpm
            &&& contains(low, "fedora"@) ==> family_of(low) == LinuxFam::Rpm
            &&& contains(low, "rhel"@) ==> family_of(low) == LinuxFam::Rpm
            &&& contains(low, "centos"@) ==> family_of(low) == LinuxFam::Rpm
            &&& contains(low, "rocky"@) ==> family_of(low) == LinuxFam::Rpm
            &&& contains(low, "alma"@) ==> family_of(low) == LinuxFam::Rpm
        },
        family_of(low) != LinuxFam::Debian && family_of(low) != LinuxFam::Rpm ==> {
            &&& contains(low, "arch"@) ==> family_of(low) == LinuxFam::Arch
            &&& contains(low, "manjaro"@) ==> family_of(low) == LinuxFam::Arch
            &&& contains(low, "endeavour"@) ==> family_of(low) == LinuxFam::Arch
        },
        family_of(low) == LinuxFam::Debian ==> (contains(low, "debian"@) || contains(low, "ubuntu"@)
            || contains(low, "mint"@) || contains(low, "pop"@) || contains(low, "elementary"@)),
        family_of(low) == LinuxFam::Rpm ==> (contains(low, "suse"@) || contains(low, "opensuse"@)
            || contains(low, "sles"@) || contains(low, "fedora"@) || contains(low, "rhel"@)
            || contains(low, "centos"@) || contains(low, "rocky"@) || contains(low, "alma"@)),
        family_of(low) == LinuxFam::Arch ==> (contains(low, "arch"@) || contains(low, "manjaro"@)
            || contains(low, "endeavour"@)),
{
}

fn has_any(low: &str, names: &[&str]) -> (r: bool)
    ensures
        r == exists|i: int| 0 <= i < names@.len() && contains(low@, #[trigger] names@[i]@),
{
    let mut i: usize = 0;
    while i < names.len()
        invariant
            i <= names@.len(),
            forall|j: int| 0 <= j < i ==> !contains(low@, #[trigger] names@[j]@),
        decreases names.len() - i,
    {
        if contains_str(low, names[i]) {
            return true;
        }
        i = i + 1;
    }
    false
}

/// The Linux family of the text of `/etc/os-release` (lowercased, then matched against
/// the known distribution names); `Unknown` when none matches or the file is absent
/// (empty text).
pub fn linux_family(os_release: &str) -> (r: LinuxFam)
    ensures
        r == family_of(lowercase(os_release@)),
{
    let low = to_lower(os_release);
    family_of_lowered(low.as_str())
}

/// The Linux family named by an already lowercased `/etc/os-release`.
pub fn family_of_lowered(l: &str) -> (r: LinuxFam)
    ensures
        r == family_of(l@),
{
    let debian = has_any(l, &["debian", "ubuntu", "mint", "pop", "elementary"]);
    assert(debian == (contains(l@, "debian"@) || contains(l@, "ubuntu"@) || contains(l@, "mint"@)
        || contains(l@, "pop"@) || contains(l@, "elementary"@))) by {
        let ws = seq!["debian", "ubuntu", "mint", "pop", "elementary"];
        if contains(l@, "pop"@) {
            assert(ws[3]@ == "pop"@);
        }
        if contains(l@, "debian"@) {
            assert(ws[0]@ == "debian"@);
        }
        if contains(l@, "ubuntu"@) {
            assert(ws[1]@ == "ubuntu"@);
        }
        if contains(l@, "mint"@) {
            assert(ws[2]@ == "mint"@);
        }
        if contains(l@, "elementary"@) {
            assert(ws[4]@ == "elementary"@);
        }
    }
    if debian {
        return LinuxFam::Debian;
    }
    let rpm = has_any(l, &["suse", "opensuse", "sles", "fedora", "rhel", "centos", "rocky", "alma"]);
    assert(rpm == (contains(l@, "suse"@) || contains(l@, "opensuse"@) || contains(l@, "sles"@)
        || contains(l@, "fedora"@) || contains(l@, "rhel"@) || contains(l@, "centos"@) || contains(
        l@,
        "rocky"@,
    ) || contains(l@, "alma"@))) by {
        let ws = seq!["suse", "opensuse", "sles", "fedora", "rhel", "centos", "rocky", "alma"];
        if contains(l@, "suse"@) {
            assert(ws[0]@ == "suse"@);
        }
        if contains(l@, "opensuse"@) {
            assert(ws[1]@ == "opensuse"@);
        }
        if contains(l@, "sles"@) {
            assert(ws[2]@ == "sles"@);
        }
        if contains(l@, "fedora"@) {
            assert(ws[3]@ == "fedora"@);
        }
        if contains(l@, "rhel"@) {
            assert(ws[4]@ == "rhel"@);
        }
        if contains(l@, "centos"@) {
            assert(ws[5]@ == "centos"@);
        }
        if contains(l@, "rocky"@) {
            assert(ws[6]@ == "rocky"@);
        }
        if contains(l@, "alma"@) {
            assert(ws[7]@ == "alma"@);
        }
    }
    if rpm {
        return LinuxFam::Rpm;
    }
    let arch = has_any(l, &["arch", "manjaro", "endeavour"]);
    assert(arch == (contains(l@, "arch"@) || contains(l@, "manjaro"@) || contains(
        l@,
        "endeavour"@,
    ))) by {
        let ws = seq!["arch", "manjaro", "endeavour"];
        if contains(l@, "arch"@) {
            assert(ws[0]@ == "arch"@);
        }
        if contains(l@, "manjaro"@) {
            assert(ws[1]@ == "manjaro"@);
        }
        if contains(l@, "endeavour"@) {
            assert(ws[2]@ == "endeavour"@);
        }
    }
    if arch {
        LinuxFam::Arch
    } else {
        LinuxFam::Unknown
    }
}

// ---------------------------------------------------------------------------
// Names of binaries and assets
// ---------------------------------------------------------------------------

/// The executable suffix of `os`.
pub open spec fn suffix(os: Os) -> Seq<char> {
    if os == Os::Windows {
        ".exe"@
    } else {
        ""@
    }
}

/// Suffix of executables: `.exe` on Windows, nothing elsewhere.
pub fn exe_suffix(os: Os) -> (s: &'static str)
    ensures
        s@ == suffix(os),
{
    if os == Os::Windows {
        ".exe"
    } else {
        ""
    }
}

/// `base` with the executable suffix of `os`.
pub fn with_suffix(base: &str, os: Os) -> (r: String)
    ensures
        r@ == base@ + suffix(os),
{
    let mut r = base.to_owned();
    r.append(exe_suffix(os));
    r
}

/// Names of the installed binaries: (CLI, GUI).
pub fn bin_names(os: Os) -> (r: (String, String))
    ensures
        r.0@ == "schematize"@ + suffix(os),
        r.1@ == "schematize-gui"@ + suffix(os),
{
    (with_suffix("schematize", os), with_suffix("schematize-gui", os))
}

/// Names the CLI and the GUI had in the interregno (the Overflow names): no version is
/// published under them any more, so a copy left with them is an orphan.
pub fn bin_names_interregno(os: Os) -> (r: (String, String))
    ensures
        r.0@ == "overflow"@ + suffix(os),
        r.1@ == "overflow-gui"@ + suffix(os),
{
    (with_suffix("overflow", os), with_suffix("overflow-gui", os))
}

/// Name of the updater's window binary.
pub fn updater_gui_bin(os: Os) -> (r: String)
    ensures
        r@ == "schematize-updater-gui"@ + suffix(os),
{
    with_suffix("schematize-updater-gui", os)
}

/// Name of this program's binary.
pub fn updater_bin_name(os: Os) -> (r: String)
    ensures
        r@ == "schematize-updater"@ + suffix(os),
{
    with_suffix("schematize-updater", os)
}

/// The precompiled assets (CLI, GUI) a release publishes for `os` and `arch`
/// (`std::env::consts::ARCH`), when it publishes any.
pub open spec fn assets_for(os: Os, arch: Seq<char>) -> Option<(Seq<char>, Seq<char>)> {
    if os == Os::Linux && arch == "x86_64"@ {
        Some(("schematize-linux-x86_64"@, "schematize-gui-linux-x86_64"@))
    } else if os == Os::Mac && arch == "aarch64"@ {
        Some(("schematize-macos-arm64"@, "schematize-gui-macos-arm64"@))
    } else if os == Os::Mac && arch == "x86_64"@ {
        Some(("schematize-macos-x86_64"@, "schematize-gui-macos-x86_64"@))
    } else if os == Os::Windows && arch == "x86_64"@ {
        Some(("schematize-windows-x86_64.exe"@, "schematize-gui-windows-x86_64.exe"@))
    } else {
        None
    }
}

/// The published assets name the platform they run on: there are assets exactly for
/// `x86_64` on every system and for `aarch64` on macOS; the CLI asset is
/// `schematize-<system>-<arch>`, naming `linux`, `macos` or `windows` and `x86_64` or
/// `arm64` as asked, with `.exe` on Windows; and the GUI asset is the same name with
/// `schematize-gui-` in front.
pub proof fn lemma_assets_name_the_platform(os: Os, arch: Seq<char>)
    ensures
        assets_for(os, arch) is Some <==> (arch == "x86_64"@ || (os == Os::Mac && arch
            == "aarch64"@)),
        assets_for(os, arch) matches Some((c, g)) ==> {
            &&& c.len() > 11 && c.subrange(0, 11) == "schematize-"@
            &&& g == "schematize-gui-"@ + c.subrange(11, c.len() as int)
            &&& (arch == "x86_64"@ ==> contains(c, "x86_64"@))
            &&& (arch == "aarch64"@ ==> contains(c, "arm64"@))
            &&& (os == Os::Linux ==> contains(c, "linux"@))
            &&& (os == Os::Mac ==> contains(c, "macos"@))
            &&& (os == Os::Windows ==> contains(c, "windows"@) && c.subrange(
                c.len() - 4,
                c.len() as int,
            ) == ".exe"@)
        },
{
    reveal_strlit("x86_64");
    reveal_strlit("aarch64");
    reveal_strlit("arm64");
    reveal_strlit("linux");
    reveal_strlit("macos");
    reveal_strlit("windows");
    reveal_strlit(".exe");
    reveal_strlit("schematize-");
    reveal_strlit("schematize-gui-");
    reveal_strlit("schematize-linux-x86_64");
    reveal_strlit("schematize-gui-linux-x86_64");
    reveal_strlit("schematize-macos-arm64");
    reveal_strlit("schematize-gui-macos-arm64");
    reveal_strlit("schematize-macos-x86_64");
    reveal_strlit("schematize-gui-macos-x86_64");
    reveal_strlit("schematize-windows-x86_64.exe");
    reveal_strlit("schematize-gui-windows-x86_64.exe");
    assert("aarch64"@ != "x86_64"@) by {
        assert("aarch64"@[0] != "x86_64"@[0]);
    }
    if let Some((c, g)) = assets_for(os, arch) {
        assert(c.subrange(0, 11) =~= "schematize-"@);
        assert(g =~= "schematize-gui-"@ + c.subrange(11, c.len() as int));
        if os == Os::Linux {
            assert(c.subrange(11, 11 + "linux"@.len() as int) =~= "linux"@);
            assert(c.subrange(17, 17 + "x86_64"@.len() as int) =~= "x86_64"@);
        } else if os == Os::Mac {
            assert(c.subrange(11, 11 + "macos"@.len() as int) =~= "macos"@);
            if arch == "x86_64"@ {
                assert(c.subrange(17, 17 + "x86_64"@.len() as int) =~= "x86_64"@);
            } else {
                assert(c.subrange(17, 17 + "arm64"@.len() as int) =~= "arm64"@);
            }
        } else {
            assert(c.subrange(11, 11 + "windows"@.len() as int) =~= "windows"@);
            assert(c.subrange(19, 19 + "x86_64"@.len() as int) =~= "x86_64"@);
            assert(c.subrange(c.len() - 4, c.len() as int) =~= ".exe"@);
        }
    }
}

/// Names of the precompiled assets of a release for this platform; `None` when none is
/// published for it (the install then builds from source).
pub fn asset_names(os: Os, arch: &str) -> (r: Option<(&'static str, &'static str)>)
    ensures
        match r {
            Some((c, g)) => assets_for(os, arch@) == Some((c@, g@)),
            None => assets_for(os, arch@) is None,
        },
{
    let x86 = str_eq(arch, "x86_64");
    let arm = str_eq(arch, "aarch64");
    match os {
        Os::Linux => if x86 {
            Some(("schematize-linux-x86_64", "schematize-gui-linux-x86_64"))
        } else {
            None
        },
        Os::Mac => if arm {
            Some(("schematize-macos-arm64", "schematize-gui-macos-arm64"))
        } else if x86 {
            Some(("schematize-macos-x86_64", "schematize-gui-macos-x86_64"))
        } else {
            None
        },
        Os::Windows => if x86 {
            Some(("schematize-windows-x86_64.exe", "schematize-gui-windows-x86_64.exe"))
        } else {
            None
        },
    }
}

// ---------------------------------------------------------------------------
// Places
// ---------------------------------------------------------------------------

/// Where the app's binaries go (where `cargo install` puts them): `~/.cargo/bin`.
pub fn install_dir() -> (r: Caminho)
    ensures
        r@ == CaminhoV::SobHome(seq![".cargo"@, "bin"@]),
{
    let p = strings(&[".cargo", "bin"]);
    assert(views(p@) =~= seq![".cargo"@, "bin"@]);
    Caminho::SobHome(p)
}

/// The updater's state (pin, downloads, builds): `~/.schematize/updater`.
pub fn state_dir() -> (r: Caminho)
    ensures
        r@ == CaminhoV::SobHome(seq![".schematize"@, "updater"@]),
{
    let p = strings(&[".schematize", "updater"]);
    assert(views(p@) =~= seq![".schematize"@, "updater"@]);
    Caminho::SobHome(p)
}

/// The last component of a repository name (`org/name` gives `name`).
pub open spec fn repo_name(repo: Seq<char>) -> Seq<char> {
    trailing_until(repo, Cut::Slash)
}

fn repo_last(repo: &str) -> (r: String)
    ensures
        r@ == repo_name(repo@),
{
    let v = chars_of(repo);
    let mut k = v.len();
    while k > 0 && v[k - 1] != '/'
        invariant
            k <= v.len(),
            forall|x: int| k <= x < v.len() ==> #[trigger] v@[x] != '/',
        decreases k,
    {
        k = k - 1;
    }
    proof {
        lemma_trailing_until(v@, Cut::Slash, k as int);
    }
    slice_to_string(repo, &v, k, v.len())
}

/// The persistent build checkout of `repo`: `~/.schematize/updater/build/<name>`. It is
/// kept between updates so the next build is incremental.
pub fn build_src_dir(repo: &str) -> (r: Caminho)
    ensures
        r@ == CaminhoV::SobHome(seq![".schematize"@, "updater"@, "build"@, repo_name(repo@)]),
{
    let mut p = strings(&[".schematize", "updater", "build"]);
    let name = repo_last(repo);
    push_str(&mut p, name.as_str());
    assert(views(p@) =~= seq![".schematize"@, "updater"@, "build"@, repo_name(repo@)]);
    Caminho::SobHome(p)
}

/// The `target/` shared by every repository built here:
/// `~/.schematize/updater/build/target` (dependencies common to the builds compile once).
pub fn shared_target_dir() -> (r: Caminho)
    ensures
        r@ == CaminhoV::SobHome(seq![".schematize"@, "updater"@, "build"@, "target"@]),
{
    let p = strings(&[".schematize", "updater", "build", "target"]);
    assert(views(p@) =~= seq![".schematize"@, "updater"@, "build"@, "target"@]);
    Caminho::SobHome(p)
}

/// The pin file: `~/.schematize/updater/pin`.
pub fn pin_file() -> (r: Caminho)
    ensures
        r@ == CaminhoV::SobHome(seq![".schematize"@, "updater"@, "pin"@]),
{
    let p = strings(&[".schematize", "updater", "pin"]);
    assert(views(p@) =~= seq![".schematize"@, "updater"@, "pin"@]);
    Caminho::SobHome(p)
}

/// The binary of the app to run: the one in the install directory when it is there
/// (`installed` tells whether `~/.cargo/bin/<name>` is a file), else the bare name.
pub fn app_bin(os: Os, gui: bool, installed: bool) -> (r: Caminho)
    ensures
        ({
            let name = if gui {
                "schematize-gui"@ + suffix(os)
            } else {
                "schematize"@ + suffix(os)
            };
            if installed {
                r@ == CaminhoV::SobHome(seq![".cargo"@, "bin"@, name])
            } else {
                r@ == CaminhoV::Literal(seq![name])
            }
        }),
{
    let (cli, gui_n) = bin_names(os);
    let name = if gui {
        gui_n
    } else {
        cli
    };
    if installed {
        let mut p = strings(&[".cargo", "bin"]);
        push_str(&mut p, name.as_str());
        assert(views(p@) =~= seq![".cargo"@, "bin"@, name@]);
        Caminho::SobHome(p)
    } else {
        Caminho::nome(name)
    }
}

// ---------------------------------------------------------------------------
// Probes
// ---------------------------------------------------------------------------

/// How to ask whether the system's development libsqlite3 is present.
pub fn sqlite_query() -> (r: Invocacao)
    ensures
        r@ == ("pkg-config"@, seq!["--exists"@, "sqlite3"@]),
{
    invocacao("pkg-config", &["--exists", "sqlite3"])
}

/// Whether the system's libsqlite3 is there (then the CLI links it instead of building
/// the bundled SQLite), given what [`sqlite_query`] printed (`None` when it failed).
pub fn tem_sqlite_do_sistema(output: Option<String>) -> (r: bool)
    ensures
        r == output is Some,
{
    output.is_some()
}

/// How to ask the user id (to tell root).
pub fn id_query() -> (r: Invocacao)
    ensures
        r@ == ("id"@, seq!["-u"@]),
{
    invocacao("id", &["-u"])
}

/// The prefix for package installs on Unix: `sudo` unless the user is root (`id -u`
/// printed `0`) or there is no `sudo`; empty then.
pub fn sudo(id_output: Option<String>, has_sudo: bool) -> (r: &'static str)
    ensures
        ({
            let root = match id_output {
                Some(s) => s@ == "0"@,
                None => false,
            };
            if root || !has_sudo {
                r@ == ""@
            } else {
                r@ == "sudo"@
            }
        }),
{
    let root = match &id_output {
        Some(s) => str_eq(s.as_str(), "0"),
        None => false,
    };
    if root || !has_sudo {
        ""
    } else {
        "sudo"
    }
}

/// A command given as its words (program first): `Err` when there are none.
pub fn run_words(words: &Vec<String>) -> (r: Result<Invocacao, String>)
    ensures
        words.len() == 0 ==> (r matches Err(e) && e@ == "comando vazio"@),
        words.len() > 0 ==> (r matches Ok(i) && i@ == (views(words@)[0], views(words@).drop_first())),
{
    if words.len() == 0 {
        return Err("comando vazio".to_owned());
    }
    let mut args: Vec<String> = Vec::new();
    let mut i: usize = 1;
    while i < words.len()
        invariant
            1 <= i <= words.len(),
            views(args@) == views(words@).subrange(1, i as int),
        decreases words.len() - i,
    {
        push_str(&mut args, words[i].as_str());
        assert(views(words@).subrange(1, i + 1) =~= views(words@).subrange(1, i as int).push(
            words@[i as int]@,
        ));
        i = i + 1;
    }
    assert(views(words@).subrange(1, words@.len() as int) =~= views(words@).drop_first());
    Ok(Invocacao { programa: words[0].clone(), args })
}

/// The words of a package-manager call, prefixed by `sudo` when `prefix` is not empty.
pub open spec fn with_prefix(prefix: Seq<char>, mgr: Seq<Seq<char>>) -> Seq<Seq<char>> {
    if prefix.len() == 0 {
        mgr
    } else {
        seq![prefix] + mgr
    }
}

/// A package-manager call (`mgr` holds the program and its arguments), run through
/// `prefix` (`sudo` or nothing, see [`sudo`]).
pub fn pkg_install(prefix: &str, mgr: &[&str]) -> (r: Result<Invocacao, String>)
    ensures
        with_prefix(prefix@, str_views(mgr@)).len() == 0 ==> r is Err,
        with_prefix(prefix@, str_views(mgr@)).len() > 0 ==> (r matches Ok(i) && i@ == (
            with_prefix(prefix@, str_views(mgr@))[0],
            with_prefix(prefix@, str_views(mgr@)).drop_first(),
        )),
{
    let words = if prefix.unicode_len() == 0 {
        strings(mgr)
    } else {
        let mut w: Vec<String> = Vec::new();
        push_str(&mut w, prefix);
        let rest = strings(mgr);
        let mut i: usize = 0;
        while i < rest.len()
            invariant
                i <= rest.len(),
                views(rest@) == str_views(mgr@),
                views(w@) == seq![prefix@] + views(rest@).subrange(0, i as int),
            decreases rest.len() - i,
        {
            push_str(&mut w, rest[i].as_str());
            assert(views(rest@).subrange(0, i + 1) =~= views(rest@).subrange(0, i as int).push(
                rest@[i as int]@,
            ));
            i = i + 1;
        }
        assert(views(rest@).subrange(0, rest@.len() as int) =~= views(rest@));
        w
    };
    run_words(&words)
}

// ---------------------------------------------------------------------------
// Build dependencies
// ---------------------------------------------------------------------------

/// One command of a plan; when a mandatory one fails the plan fails with its error,
/// an optional one is run for what it gives.
pub struct Passo {
    pub cmd: Invocacao,
    pub obrigatorio: bool,
}

impl View for Passo {
    type V = ((Seq<char>, Seq<Seq<char>>), bool);

    open spec fn view(&self) -> ((Seq<char>, Seq<Seq<char>>), bool) {
        (self.cmd@, self.obrigatorio)
    }
}

pub open spec fn passos_view(v: Seq<Passo>) -> Seq<((Seq<char>, Seq<Seq<char>>), bool)> {
    v.map_values(|p: Passo| p@)
}

pub open spec fn opt_str(o: Option<String>) -> Option<Seq<char>> {
    match o {
        Some(s) => Some(s@),
        None => None,
    }
}

/// How to install the build dependencies: a notice to print first, the commands in
/// order, and the error to end with once they ran (`None`: success).
pub struct PlanoDeps {
    pub aviso: Option<String>,
    pub passos: Vec<Passo>,
    pub erro: Option<String>,
}

impl View for PlanoDeps {
    type V = (Option<Seq<char>>, Seq<((Seq<char>, Seq<Seq<char>>), bool)>, Option<Seq<char>>);

    open spec fn view(&self) -> (
        Option<Seq<char>>,
        Seq<((Seq<char>, Seq<Seq<char>>), bool)>,
        Option<Seq<char>>,
    ) {
        (opt_str(self.aviso), passos_view(self.passos@), opt_str(self.erro))
    }
}

/// The command a package-manager call becomes once prefixed.
pub open spec fn prefixed(prefix: Seq<char>, mgr: Seq<Seq<char>>) -> (Seq<char>, Seq<Seq<char>>) {
    (with_prefix(prefix, mgr)[0], with_prefix(prefix, mgr).drop_first())
}

pub open spec fn apt_update() -> Seq<Seq<char>> {
    seq!["apt-get"@, "update"@, "-qq"@]
}

pub open spec fn apt_build() -> Seq<Seq<char>> {
    seq![
        "apt-get"@,
        "install"@,
        "-y"@,
        "build-essential"@,
        "pkg-config"@,
        "libx11-dev"@,
        "libxcursor-dev"@,
        "libxrandr-dev"@,
        "libxi-dev"@,
        "libxkbcommon-dev"@,
        "libwayland-dev"@,
        "libgl1-mesa-dev"@,
        "libxcb1-dev"@,
        "libxcb-render0-dev"@,
        "libxcb-shape0-dev"@,
        "libxcb-xfixes0-dev"@,
        "libfontconfig1-dev"@,
    ]
}

pub open spec fn apt_fonts() -> Seq<Seq<char>> {
    seq!["apt-get"@, "install"@, "-y"@, "fonts-noto-core"@, "fonts-noto-cjk"@, "fonts-dejavu-core"@]
}

pub open spec fn zypper_build() -> Seq<Seq<char>> {
    seq![
        "zypper"@,
        "--non-interactive"@,
        "install"@,
        "-y"@,
        "gcc"@,
        "gcc-c++"@,
        "make"@,
        "pkg-config"@,
        "libX11-devel"@,
        "libXcursor-devel"@,
        "libXrandr-devel"@,
        "libXi-devel"@,
        "libxkbcommon-devel"@,
        "wayland-devel"@,
        "Mesa-libGL-devel"@,
        "libxcb-devel"@,
        "fontconfig-devel"@,
    ]
}

pub open spec fn zypper_fonts() -> Seq<Seq<char>> {
    seq![
        "zypper"@,
        "--non-interactive"@,
        "install"@,
        "-y"@,
        "noto-sans-fonts"@,
        "noto-sans-cjk-fonts"@,
        "dejavu-fonts"@,
    ]
}

pub open spec fn dnf_build() -> Seq<Seq<char>> {
    seq![
        "dnf"@,
        "install"@,
        "-y"@,
        "gcc"@,
        "gcc-c++"@,
        "make"@,
        "pkg-config"@,
        "libX11-devel"@,
        "libXcursor-devel"@,
        "libXrandr-devel"@,
        "libXi-devel"@,
        "libxkbcommon-devel"@,
        "wayland-devel"@,
        "Mesa-libGL-devel"@,
        "libxcb-devel"@,
        "fontconfig-devel"@,
    ]
}

pub open spec fn dnf_fonts() -> Seq<Seq<char>> {
    seq![
        "dnf"@,
        "install"@,
        "-y"@,
        "google-noto-sans-fonts"@,
        "google-noto-sans-cjk-fonts"@,
        "dejavu-sans-fonts"@,
    ]
}

pub open spec fn pacman_all() -> Seq<Seq<char>> {
    seq![
        "pacman"@,
        "-S"@,
        "--needed"@,
        "--noconfirm"@,
        "base-devel"@,
        "pkgconf"@,
        "libx11"@,
        "libxcursor"@,
        "libxrandr"@,
        "libxi"@,
        "libxkbcommon"@,
        "wayland"@,
        "mesa"@,
        "libxcb"@,
        "fontconfig"@,
        "noto-fonts"@,
        "noto-fonts-cjk"@,
    ]
}

pub open spec fn unknown_distro_error() -> Seq<char> {
    "distro Linux não reconhecida: instale manualmente as libs de X11/Wayland/GL/fontconfig (dev) e rode de novo."@
}

/// The Linux plan: the X11/Wayland/GL/xcb/fontconfig development packages of the
/// family's package manager (zypper, else dnf, for the RPM family), fonts best-effort.
pub open spec fn linux_deps(fam: LinuxFam, has_zypper: bool, prefix: Seq<char>) -> (
    Option<Seq<char>>,
    Seq<((Seq<char>, Seq<Seq<char>>), bool)>,
    Option<Seq<char>>,
) {
    match fam {
        LinuxFam::Debian => (
            None,
            seq![
                (prefixed(prefix, apt_update()), false),
                (prefixed(prefix, apt_build()), true),
                (prefixed(prefix, apt_fonts()), false),
            ],
            None,
        ),
        LinuxFam::Rpm => if has_zypper {
            (
                None,
                seq![(prefixed(prefix, zypper_build()), true), (prefixed(prefix, zypper_fonts()), false)],
                None,
            )
        } else {
            (
                None,
                seq![(prefixed(prefix, dnf_build()), true), (prefixed(prefix, dnf_fonts()), false)],
                None,
            )
        },
        LinuxFam::Arch => (None, seq![(prefixed(prefix, pacman_all()), true)], None),
        LinuxFam::Unknown => (None, Seq::empty(), Some(unknown_distro_error())),
    }
}

fn package_step(prefix: &str, mgr: &[&str], mandatory: bool) -> (r: Passo)
    requires
        mgr@.len() > 0,
    ensures
        r@ == (prefixed(prefix@, str_views(mgr@)), mandatory),
{
    assert(with_prefix(prefix@, str_views(mgr@)).len() > 0);
    match pkg_install(prefix, mgr) {
        Ok(cmd) => Passo { cmd, obrigatorio: mandatory },
        Err(_) => Passo { cmd: invocacao("", &[]), obrigatorio: mandatory },
    }
}

/// The plan for the build dependencies on Linux.
pub fn ensure_build_deps_linux(fam: LinuxFam, has_zypper: bool, prefix: &str) -> (r: PlanoDeps)
    ensures
        r@ == linux_deps(fam, has_zypper, prefix@),
{
    let mut passos: Vec<Passo> = Vec::new();
    match fam {
        LinuxFam::Debian => {
            let a = package_step(prefix, &["apt-get", "update", "-qq"], false);
            let b = package_step(
                prefix,
                &[
                    "apt-get",
                    "install",
                    "-y",
                    "build-essential",
                    "pkg-config",
                    "libx11-dev",
                    "libxcursor-dev",
                    "libxrandr-dev",
                    "libxi-dev",
                    "libxkbcommon-dev",
                    "libwayland-dev",
                    "libgl1-mesa-dev",
                    "libxcb1-dev",
                    "libxcb-render0-dev",
                    "libxcb-shape0-dev",
                    "libxcb-xfixes0-dev",
                    "libfontconfig1-dev",
                ],
                true,
            );
            let c = package_step(
                prefix,
                &["apt-get", "install", "-y", "fonts-noto-core", "fonts-noto-cjk", "fonts-dejavu-core"],
                false,
            );
            assert(a@.0 == prefixed(prefix@, apt_update())) by {
                assert(str_views(seq!["apt-get", "update", "-qq"]) =~= apt_update());
            }
            assert(b@.0 == prefixed(prefix@, apt_build())) by {
                assert(str_views(
                    seq![
                        "apt-get",
                        "install",
                        "-y",
                        "build-essential",
                        "pkg-config",
                        "libx11-dev",
                        "libxcursor-dev",
                        "libxrandr-dev",
                        "libxi-dev",
                        "libxkbcommon-dev",
                        "libwayland-dev",
                        "libgl1-mesa-dev",
                        "libxcb1-dev",
                        "libxcb-render0-dev",
                        "libxcb-shape0-dev",
                        "libxcb-xfixes0-dev",
                        "libfontconfig1-dev",
                    ],
                ) =~= apt_build());
            }
            assert(c@.0 == prefixed(prefix@, apt_fonts())) by {
                assert(str_views(
                    seq!["apt-get", "install", "-y", "fonts-noto-core", "fonts-noto-cjk", "fonts-dejavu-core"],
                ) =~= apt_fonts());
            }
            passos.push(a);
            passos.push(b);
            passos.push(c);
            assert(passos_view(passos@) =~= linux_deps(fam, has_zypper, prefix@).1);
            PlanoDeps { aviso: None, passos, erro: None }
        },
        LinuxFam::Rpm => {
            if has_zypper {
                let a = package_step(
                    prefix,
                    &[
                        "zypper",
                        "--non-interactive",
                        "install",
                        "-y",
                        "gcc",
                        "gcc-c++",
                        "make",
                        "pkg-config",
                        "libX11-devel",
                        "libXcursor-devel",
                        "libXrandr-devel",
                        "libXi-devel",
                        "libxkbcommon-devel",
                        "wayland-devel",
                        "Mesa-libGL-devel",
                        "libxcb-devel",
                        "fontconfig-devel",
                    ],
                    true,
                );
                let b = package_step(
                    prefix,
                    &[
                        "zypper",
                        "--non-interactive",
                        "install",
                        "-y",
                        "noto-sans-fonts",
                        "noto-sans-cjk-fonts",
                        "dejavu-fonts",
                    ],
                    false,
                );
                assert(a@.0 == prefixed(prefix@, zypper_build())) by {
                    assert(str_views(
                        seq![
                            "zypper",
                            "--non-interactive",
                            "install",
                            "-y",
                            "gcc",
                            "gcc-c++",
                            "make",
                            "pkg-config",
                            "libX11-devel",
                            "libXcursor-devel",
                            "libXrandr-devel",
                            "libXi-devel",
                            "libxkbcommon-devel",
                            "wayland-devel",
                            "Mesa-libGL-devel",
                            "libxcb-devel",
                            "fontconfig-devel",
                        ],
                    ) =~= zypper_build());
                }
                assert(b@.0 == prefixed(prefix@, zypper_fonts())) by {
                    assert(str_views(
                        seq![
                            "zypper",
                            "--non-interactive",
                            "install",
                            "-y",
                            "noto-sans-fonts",
                            "noto-sans-cjk-fonts",
                            "dejavu-fonts",
                        ],
                    ) =~= zypper_fonts());
                }
                passos.push(a);
                passos.push(b);
            } else {
                let a = package_step(
                    prefix,
                    &[
                        "dnf",
                        "install",
                        "-y",
                        "gcc",
                        "gcc-c++",
                        "make",
                        "pkg-config",
                        "libX11-devel",
                        "libXcursor-devel",
                        "libXrandr-devel",
                        "libXi-devel",
                        "libxkbcommon-devel",
                        "wayland-devel",
                        "Mesa-libGL-devel",
                        "libxcb-devel",
                        "fontconfig-devel",
                    ],
                    true,
                );
                let b = package_step(
                    prefix,
                    &[
                        "dnf",
                        "install",
                        "-y",
                        "google-noto-sans-fonts",
                        "google-noto-sans-cjk-fonts",
                        "dejavu-sans-fonts",
                    ],
                    false,
                );
                assert(a@.0 == prefixed(prefix@, dnf_build())) by {
                    assert(str_views(
                        seq![
                            "dnf",
                            "install",
                            "-y",
                            "gcc",
                            "gcc-c++",
                            "make",
                            "pkg-config",
                            "libX11-devel",
                            "libXcursor-devel",
                            "libXrandr-devel",
                            "libXi-devel",
                            "libxkbcommon-devel",
                            "wayland-devel",
                            "Mesa-libGL-devel",
                            "libxcb-devel",
                            "fontconfig-devel",
                        ],
                    ) =~= dnf_build());
                }
                assert(b@.0 == prefixed(prefix@, dnf_fonts())) by {
                    assert(str_views(
                        seq![
                            "dnf",
                            "install",
                            "-y",
                            "google-noto-sans-fonts",
                            "google-noto-sans-cjk-fonts",
                            "dejavu-sans-fonts",
                        ],
                    ) =~= dnf_fonts());
                }
                passos.push(a);
                passos.push(b);
            }
            assert(passos_view(passos@) =~= linux_deps(fam, has_zypper, prefix@).1);
            PlanoDeps { aviso: None, passos, erro: None }
        },
        LinuxFam::Arch => {
            let a = package_step(
                prefix,
                &[
                    "pacman",
                    "-S",
                    "--needed",
                    "--noconfirm",
                    "base-devel",
                    "pkgconf",
                    "libx11",
                    "libxcursor",
                    "libxrandr",
                    "libxi",
                    "libxkbcommon",
                    "wayland",
                    "mesa",
                    "libxcb",
                    "fontconfig",
                    "noto-fonts",
                    "noto-fonts-cjk",
                ],
                true,
            );
            assert(a@.0 == prefixed(prefix@, pacman_all())) by {
                assert(str_views(
                    seq![
                        "pacman",
                        "-S",
                        "--needed",
                        "--noconfirm",
                        "base-devel",
                        "pkgconf",
                        "libx11",
                        "libxcursor",
                        "libxrandr",
                        "libxi",
                        "libxkbcommon",
                        "wayland",
                        "mesa",
                        "libxcb",
                        "fontconfig",
                        "noto-fonts",
                        "noto-fonts-cjk",
                    ],
                ) =~= pacman_all());
            }
            passos.push(a);
            assert(passos_view(passos@) =~= linux_deps(fam, has_zypper, prefix@).1);
            PlanoDeps { aviso: None, passos, erro: None }
        },
        LinuxFam::Unknown => {
            assert(passos_view(passos@) =~= Seq::empty());
            PlanoDeps {
                aviso: None,
                passos,
                erro: Some(
                    "distro Linux não reconhecida: instale manualmente as libs de X11/Wayland/GL/fontconfig (dev) e rode de novo.".to_owned(),
                ),
            }
        },
    }
}

/// Whether the Xcode Command Line Tools are there, given what `xcode-select -p` printed.
pub open spec fn clt_present(output: Option<Seq<char>>) -> bool {
    match output {
        Some(s) => s.len() > 0,
        None => false,
    }
}

/// How to ask where the Xcode Command Line Tools are.
pub fn xcode_query() -> (r: Invocacao)
    ensures
        r@ == ("xcode-select"@, seq!["-p"@]),
{
    invocacao("xcode-select", &["-p"])
}

/// The macOS plan: nothing when the Command Line Tools are there; else open their
/// installer and stop, asking to finish it and run again.
pub fn ensure_build_deps_mac(xcode_output: Option<String>) -> (r: PlanoDeps)
    ensures
        clt_present(opt_str(xcode_output)) ==> r@ == (
            None::<Seq<char>>,
            Seq::<((Seq<char>, Seq<Seq<char>>), bool)>::empty(),
            None::<Seq<char>>,
        ),
        !clt_present(opt_str(xcode_output)) ==> r@ == (
            Some("→ instalando as Command Line Tools do Xcode (aceite o popup)…"@),
            seq![(("xcode-select"@, seq!["--install"@]), false)],
            Some("conclua a instalação das Command Line Tools do Xcode (popup) e rode de novo."@),
        ),
{
    let ok = match &xcode_output {
        Some(s) => s.as_str().unicode_len() > 0,
        None => false,
    };
    let mut passos: Vec<Passo> = Vec::new();
    if ok {
        assert(passos_view(passos@) =~= Seq::empty());
        PlanoDeps { aviso: None, passos, erro: None }
    } else {
        let cmd = invocacao("xcode-select", &["--install"]);
        assert(cmd@.1 =~= seq!["--install"@]);
        passos.push(Passo { cmd, obrigatorio: false });
        assert(passos_view(passos@) =~= seq![(("xcode-select"@, seq!["--install"@]), false)]);
        PlanoDeps {
            aviso: Some("→ instalando as Command Line Tools do Xcode (aceite o popup)…".to_owned()),
            passos,
            erro: Some(
                "conclua a instalação das Command Line Tools do Xcode (popup) e rode de novo.".to_owned(),
            ),
        }
    }
}

pub open spec fn winget_args() -> Seq<Seq<char>> {
    seq![
        "install"@,
        "--id"@,
        "Microsoft.VisualStudio.2022.BuildTools"@,
        "-e"@,
        "--accept-source-agreements"@,
        "--accept-package-agreements"@,
        "--override"@,
        "--wait --passive --add Microsoft.VisualStudio.Workload.VCTools"@,
    ]
}

/// The Windows plan: nothing when the MSVC linker or compiler is on the PATH; else
/// install the Build Tools with winget when there is winget, and stop either way
/// with what to do next.
pub fn ensure_build_deps_windows(has_link: bool, has_cl: bool, has_winget: bool) -> (r: PlanoDeps)
    ensures
        has_link || has_cl ==> r@ == (
            None::<Seq<char>>,
            Seq::<((Seq<char>, Seq<Seq<char>>), bool)>::empty(),
            None::<Seq<char>>,
        ),
        !(has_link || has_cl) && has_winget ==> r@ == (
            Some("→ instalando o Visual Studio Build Tools (MSVC) via winget…"@),
            seq![(("winget"@, winget_args()), false)],
            Some("instalei o MSVC Build Tools — REABRA o terminal (pra o PATH pegar) e rode de novo."@),
        ),
        !(has_link || has_cl) && !has_winget ==> r@ == (
            None::<Seq<char>>,
            Seq::<((Seq<char>, Seq<Seq<char>>), bool)>::empty(),
            Some(
                "no Windows a compilação do fonte precisa do MSVC Build Tools. Instale o 'Visual Studio Build Tools' (workload C++) e rode de novo, ou aguarde um binário pré-compilado."@,
            ),
        ),
{
    let mut passos: Vec<Passo> = Vec::new();
    if has_link || has_cl {
        assert(passos_view(passos@) =~= Seq::empty());
        return PlanoDeps { aviso: None, passos, erro: None };
    }
    if has_winget {
        let cmd = invocacao(
            "winget",
            &[
                "install",
                "--id",
                "Microsoft.VisualStudio.2022.BuildTools",
                "-e",
                "--accept-source-agreements",
                "--accept-package-agreements",
                "--override",
                "--wait --passive --add Microsoft.VisualStudio.Workload.VCTools",
            ],
        );
        assert(cmd@.1 =~= winget_args());
        passos.push(Passo { cmd, obrigatorio: false });
        assert(passos_view(passos@) =~= seq![(("winget"@, winget_args()), false)]);
        return PlanoDeps {
            aviso: Some("→ instalando o Visual Studio Build Tools (MSVC) via winget…".to_owned()),
            passos,
            erro: Some(
                "instalei o MSVC Build Tools — REABRA o terminal (pra o PATH pegar) e rode de novo.".to_owned(),
            ),
        };
    }
    assert(passos_view(passos@) =~= Seq::empty());
    PlanoDeps {
        aviso: None,
        passos,
        erro: Some(
            "no Windows a compilação do fonte precisa do MSVC Build Tools. Instale o 'Visual Studio Build Tools' (workload C++) e rode de novo, ou aguarde um binário pré-compilado.".to_owned(),
        ),
    }
}

/// What was found on the machine before planning its build dependencies (only the
/// facts of the running system are consulted).
pub struct Sondagem {
    pub familia: LinuxFam,
    pub tem_zypper: bool,
    pub prefixo_sudo: String,
    pub saida_xcode: Option<String>,
    pub tem_link: bool,
    pub tem_cl: bool,
    pub tem_winget: bool,
}

/// The plan for the libraries needed to build the GUI from source, by system.
pub fn ensure_build_deps(os: Os, s: &Sondagem) -> (r: PlanoDeps)
    ensures
        os == Os::Linux ==> r@ == linux_deps(s.familia, s.tem_zypper, s.prefixo_sudo@),
        os == Os::Mac ==> r@ == if clt_present(opt_str(s.saida_xcode)) {
            (
                None::<Seq<char>>,
                Seq::<((Seq<char>, Seq<Seq<char>>), bool)>::empty(),
                None::<Seq<char>>,
            )
        } else {
            (
                Some("→ instalando as Command Line Tools do Xcode (aceite o popup)…"@),
                seq![(("xcode-select"@, seq!["--install"@]), false)],
                Some("conclua a instalação das Command Line Tools do Xcode (popup) e rode de novo."@),
            )
        },
        os == Os::Windows ==> r@ == if s.tem_link || s.tem_cl {
            (
                None::<Seq<char>>,
                Seq::<((Seq<char>, Seq<Seq<char>>), bool)>::empty(),
                None::<Seq<char>>,
            )
        } else if s.tem_winget {
            (
                Some("→ instalando o Visual Studio Build Tools (MSVC) via winget…"@),
                seq![(("winget"@, winget_args()), false)],
                Some("instalei o MSVC Build Tools — REABRA o terminal (pra o PATH pegar) e rode de novo."@),
            )
        } else {
            (
                None::<Seq<char>>,
                Seq::<((Seq<char>, Seq<Seq<char>>), bool)>::empty(),
                Some(
                    "no Windows a compilação do fonte precisa do MSVC Build Tools. Instale o 'Visual Studio Build Tools' (workload C++) e rode de novo, ou aguarde um binário pré-compilado."@,
                ),
            )
        },
{
    match os {
        Os::Linux => ensure_build_deps_linux(s.familia, s.tem_zypper, s.prefixo_sudo.as_str()),
        Os::Mac => ensure_build_deps_mac(s.saida_xcode.clone()),
        Os::Windows => ensure_build_deps_windows(s.tem_link, s.tem_cl, s.tem_winget),
    }
}

// ---------------------------------------------------------------------------
// Rust toolchain
// ---------------------------------------------------------------------------

/// How to install rustup when cargo is missing.
pub enum Rustup {
    /// Windows: download `url` to `destino` (failing with `falha` when the download
    /// fails), then run the downloaded file with `args`.
    Baixar { url: String, destino: Caminho, falha: String, args: Vec<String> },
    /// Elsewhere: run the official install script.
    Script(Invocacao),
}

/// Where cargo comes from.
pub enum Toolchain {
    /// Cargo is there, at this path.
    Pronto(Caminho),
    /// Cargo must be installed first.
    Instalar(Rustup),
}

/// The cargo binary rustup installs: `~/.cargo/bin/cargo` (with `.exe` on Windows).
pub open spec fn cargo_abs(os: Os) -> CaminhoV {
    CaminhoV::SobHome(seq![".cargo"@, "bin"@, "cargo"@ + suffix(os)])
}

/// The path of the cargo binary rustup installs.
pub fn cargo_abs_path(os: Os) -> (r: Caminho)
    ensures
        r@ == cargo_abs(os),
{
    let mut p = strings(&[".cargo", "bin"]);
    let name = with_suffix("cargo", os);
    push_str(&mut p, name.as_str());
    assert(views(p@) =~= seq![".cargo"@, "bin"@, "cargo"@ + suffix(os)]);
    Caminho::SobHome(p)
}

/// Where cargo is according to the probe that locates it on the PATH
/// ([`crate::comando::has_query`]; `None` when the probe failed): the first line it
/// printed, trimmed, when it printed anything.
pub open spec fn located_cargo(output: Option<Seq<char>>) -> Option<Seq<char>> {
    match output {
        Some(s) => if s.len() > 0 {
            Some(first_line(s))
        } else {
            None
        },
        None => None,
    }
}

fn located(output: &Option<String>) -> (r: Option<Caminho>)
    ensures
        match located_cargo(opt_str(*output)) {
            Some(p) => r matches Some(c) && c@ == CaminhoV::Literal(seq![p]),
            None => r is None,
        },
{
    match output {
        Some(s) => if s.as_str().unicode_len() > 0 {
            let p = first_line_of(s.as_str());
            Some(Caminho::nome(p))
        } else {
            None
        },
        None => None,
    }
}

/// Where cargo is (its absolute path), or how to get it: the path the PATH lookup of
/// `cargo` printed (`cargo_lookup`, the output of `has_query(os, "cargo")`) when it
/// found one, else `~/.cargo/bin/cargo` when that file exists (a fresh rustup is not
/// in this process' PATH), else install rustup with the minimal profile.
pub fn ensure_toolchain(os: Os, cargo_lookup: &Option<String>, abs_exists: bool) -> (r: Toolchain)
    ensures
        located_cargo(opt_str(*cargo_lookup)) matches Some(p) ==> (r matches Toolchain::Pronto(c)
            && c@ == CaminhoV::Literal(seq![p])),
        located_cargo(opt_str(*cargo_lookup)) is None && abs_exists ==> (r matches Toolchain::Pronto(
            c,
        ) && c@ == cargo_abs(os)),
        located_cargo(opt_str(*cargo_lookup)) is None && !abs_exists && os == Os::Windows ==> (
        r matches Toolchain::Instalar(Rustup::Baixar { url, destino, falha, args }) && url@
            == "https://win.rustup.rs/x86_64"@ && destino@ == CaminhoV::SobHome(
            seq![".schematize"@, "updater"@, "rustup-init.exe"@],
        ) && falha@
            == "não consegui baixar o rustup-init.exe. Instale o Rust manualmente em https://rustup.rs"@
            && views(args@) == seq!["-y"@, "--profile"@, "minimal"@]),
        located_cargo(opt_str(*cargo_lookup)) is None && !abs_exists && os != Os::Windows ==> (
        r matches Toolchain::Instalar(Rustup::Script(i)) && i@ == (
            "sh"@,
            seq!["-c"@, "curl -fsSL https://sh.rustup.rs | sh -s -- -y --profile minimal"@],
        )),
{
    if let Some(c) = located(cargo_lookup) {
        return Toolchain::Pronto(c);
    }
    if abs_exists {
        return Toolchain::Pronto(cargo_abs_path(os));
    }
    if os == Os::Windows {
        let destino = strings(&[".schematize", "updater", "rustup-init.exe"]);
        assert(views(destino@) =~= seq![".schematize"@, "updater"@, "rustup-init.exe"@]);
        let args = strings(&["-y", "--profile", "minimal"]);
        assert(views(args@) =~= seq!["-y"@, "--profile"@, "minimal"@]);
        Toolchain::Instalar(
            Rustup::Baixar {
                url: "https://win.rustup.rs/x86_64".to_owned(),
                destino: Caminho::SobHome(destino),
                falha: "não consegui baixar o rustup-init.exe. Instale o Rust manualmente em https://rustup.rs".to_owned(),
                args,
            },
        )
    } else {
        let i = invocacao("sh", &["-c", "curl -fsSL https://sh.rustup.rs | sh -s -- -y --profile minimal"]);
        assert(i@.1 =~= seq!["-c"@, "curl -fsSL https://sh.rustup.rs | sh -s -- -y --profile minimal"@]);
        Toolchain::Instalar(Rustup::Script(i))
    }
}

/// Where cargo is once rustup ran: `~/.cargo/bin/cargo` when that file now exists,
/// else the path the PATH lookup of `cargo` printed, else an error asking to reopen
/// the terminal.
pub fn cargo_after_rustup(os: Os, abs_exists: bool, cargo_lookup: &Option<String>) -> (r: Result<Caminho, String>)
    ensures
        abs_exists ==> (r matches Ok(c) && c@ == cargo_abs(os)),
        !abs_exists ==> match located_cargo(opt_str(*cargo_lookup)) {
            Some(p) => r matches Ok(c) && c@ == CaminhoV::Literal(seq![p]),
            None => r matches Err(e) && e@
                == "rustup instalou mas `cargo` não apareceu. Reabra o terminal e rode de novo."@,
        },
{
    if abs_exists {
        return Ok(cargo_abs_path(os));
    }
    match located(cargo_lookup) {
        Some(c) => Ok(c),
        None => Err(
            "rustup instalou mas `cargo` não apareceu. Reabra o terminal e rode de novo.".to_owned(),
        ),
    }
}

// ---------------------------------------------------------------------------
// PATH set-up
// ---------------------------------------------------------------------------

/// The shell start-up files that get `~/.cargo/bin` on Unix, in order.
pub fn rc_files() -> (r: Vec<String>)
    ensures
        views(r@) == seq![".bashrc"@, ".profile"@, ".zshrc"@],
{
    let r = strings(&[".bashrc", ".profile", ".zshrc"]);
    assert(views(r@) =~= seq![".bashrc"@, ".profile"@, ".zshrc"@]);
    r
}

/// The lines appended to a start-up file.
pub open spec fn path_lines() -> Seq<char> {
    "\n# schematize-updater: ~/.cargo/bin no PATH\nexport PATH=\"$HOME/.cargo/bin:$PATH\"\n"@
}

/// The new content of a start-up file (`current` is empty when there is none):
/// `None` when it already mentions `.cargo/bin`, else the content with the export
/// appended.
pub open spec fn rc_update(current: Seq<char>) -> Option<Seq<char>> {
    if contains(current, ".cargo/bin"@) {
        None
    } else {
        Some(current + path_lines())
    }
}

/// The new content of a start-up file, or `None` to leave it as it is.
pub fn rc_atualizado(current: &str) -> (r: Option<String>)
    ensures
        opt_str(r) == rc_update(current@),
{
    if contains_str(current, ".cargo/bin") {
        None
    } else {
        let mut s = current.to_owned();
        s.append("\n# schematize-updater: ~/.cargo/bin no PATH\nexport PATH=\"$HOME/.cargo/bin:$PATH\"\n");
        Some(s)
    }
}

/// Setting up the PATH is idempotent: a start-up file updated once is never updated
/// again.
pub proof fn lemma_rc_update_idempotent(current: Seq<char>)
    ensures
        rc_update(current) matches Some(next) ==> rc_update(next) is None,
{
    if let Some(next) = rc_update(current) {
        reveal_strlit(
            "\n# schematize-updater: ~/.cargo/bin no PATH\nexport PATH=\"$HOME/.cargo/bin:$PATH\"\n",
        );
        reveal_strlit(".cargo/bin");
        let off: int = current.len() as int + 25;
        assert(next.subrange(off, off + ".cargo/bin"@.len()) =~= ".cargo/bin"@);
    }
}

/// How to read the user's PATH on Windows.
pub fn user_path_query() -> (r: Invocacao)
    ensures
        r@ == (
            "powershell"@,
            seq!["-NoProfile"@, "-Command"@, "[Environment]::GetEnvironmentVariable('Path','User')"@],
        ),
{
    let r = invocacao(
        "powershell",
        &["-NoProfile", "-Command", "[Environment]::GetEnvironmentVariable('Path','User')"],
    );
    assert(r@.1 =~= seq!["-NoProfile"@, "-Command"@, "[Environment]::GetEnvironmentVariable('Path','User')"@]);
    r
}

/// Whether the user's PATH on Windows still lacks `dir` (compared without case).
pub fn user_path_lacks(current: &str, dir: &str) -> (r: bool)
    ensures
        r == !contains(lowercase(current@), lowercase(dir@)),
{
    let c = to_lower(current);
    let d = to_lower(dir);
    !contains_str(c.as_str(), d.as_str())
}

/// The PowerShell script that appends `dir` to the user's PATH.
pub open spec fn path_append_script(dir: Seq<char>) -> Seq<char> {
    "[Environment]::SetEnvironmentVariable('Path', ([Environment]::GetEnvironmentVariable('Path','User') + ';"@
        + dir + "'), 'User')"@
}

/// How to append `dir` to the user's PATH on Windows (permanently).
pub fn user_path_append(dir: &str) -> (r: Invocacao)
    ensures
        r@ == ("powershell"@, seq!["-NoProfile"@, "-Command"@, path_append_script(dir@)]),
{
    let mut ps =
        "[Environment]::SetEnvironmentVariable('Path', ([Environment]::GetEnvironmentVariable('Path','User') + ';".to_owned();
    ps.append(dir);
    ps.append("'), 'User')");
    let mut args = strings(&["-NoProfile", "-Command"]);
    push_str(&mut args, ps.as_str());
    Invocacao { programa: "powershell".to_owned(), args }
}

// ---------------------------------------------------------------------------
// Launcher
// ---------------------------------------------------------------------------

/// Whether a desktop launcher is made: on Linux, once the GUI is installed.
pub fn wants_launcher(os: Os, gui_installed: bool) -> (r: bool)
    ensures
        r == (os == Os::Linux && gui_installed),
{
    os == Os::Linux && gui_installed
}

/// `~/.local/share/applications`.
pub fn applications_dir() -> (r: Caminho)
    ensures
        r@ == CaminhoV::SobHome(seq![".local"@, "share"@, "applications"@]),
{
    let p = strings(&[".local", "share", "applications"]);
    assert(views(p@) =~= seq![".local"@, "share"@, "applications"@]);
    Caminho::SobHome(p)
}

/// `~/.local/share/icons/hicolor`.
pub fn icons_dir() -> (r: Caminho)
    ensures
        r@ == CaminhoV::SobHome(seq![".local"@, "share"@, "icons"@, "hicolor"@]),
{
    let p = strings(&[".local", "share", "icons", "hicolor"]);
    assert(views(p@) =~= seq![".local"@, "share"@, "icons"@, "hicolor"@]);
    Caminho::SobHome(p)
}

/// The 256 px icon the CLI generates: `~/.local/share/icons/hicolor/256x256/apps/schematize.png`.
pub fn icon_png() -> (r: Caminho)
    ensures
        r@ == CaminhoV::SobHome(
            seq![".local"@, "share"@, "icons"@, "hicolor"@, "256x256"@, "apps"@, "schematize.png"@],
        ),
{
    let p = strings(&[".local", "share", "icons", "hicolor", "256x256", "apps", "schematize.png"]);
    assert(views(p@) =~= seq![
        ".local"@,
        "share"@,
        "icons"@,
        "hicolor"@,
        "256x256"@,
        "apps"@,
        "schematize.png"@,
    ]);
    Caminho::SobHome(p)
}

/// How to have the CLI (`cli`, the path of `~/.cargo/bin/schematize`) write its icon in
/// every size under `icons`.
pub fn icon_generation(cli: &str, icons: &str) -> (r: Invocacao)
    ensures
        r@ == (cli@, seq!["icon"@, "--hicolor"@, icons@]),
{
    let mut args = strings(&["icon", "--hicolor"]);
    push_str(&mut args, icons);
    assert(views(args@) =~= seq!["icon"@, "--hicolor"@, icons@]);
    Invocacao { programa: cli.to_owned(), args }
}

/// How to refresh the desktop database of `apps`.
pub fn desktop_database_refresh(apps: &str) -> (r: Invocacao)
    ensures
        r@ == ("update-desktop-database"@, seq![apps@]),
{
    let mut args: Vec<String> = Vec::new();
    push_str(&mut args, apps);
    assert(views(args@) =~= seq![apps@]);
    Invocacao { programa: "update-desktop-database".to_owned(), args }
}

/// How to refresh the GTK icon cache of `icons`.
pub fn icon_cache_refresh(icons: &str) -> (r: Invocacao)
    ensures
        r@ == ("gtk-update-icon-cache"@, seq!["-f"@, "-t"@, icons@]),
{
    let mut args = strings(&["-f", "-t"]);
    push_str(&mut args, icons);
    assert(views(args@) =~= seq!["-f"@, "-t"@, icons@]);
    Invocacao { programa: "gtk-update-icon-cache".to_owned(), args }
}

/// The `Icon=` of the launcher: the absolute path of the 256 px icon when it was
/// written (`png`), else the icon name `schematize`.
pub fn launcher_icon(png: Option<String>) -> (r: String)
    ensures
        r@ == match png {
            Some(p) => p@,
            None => "schematize"@,
        },
{
    match png {
        Some(p) => p,
        None => "schematize".to_owned(),
    }
}

/// The launcher file's content: `Exec=` the absolute path of the GUI (not whatever the
/// desktop's PATH finds) and the given `Icon=`.
pub open spec fn desktop_entry_spec(exec: Seq<char>, icon: Seq<char>) -> Seq<char> {
    "[Desktop Entry]\nType=Application\nName=schematize\nGenericName=Ecossistema schematize\nComment=Skills, overdev e mais — schematize\nExec="@
        + exec + "\nIcon="@ + icon
        + "\nTerminal=false\nCategories=Development;Utility;\nKeywords=schematize;skills;overdev;\nStartupWMClass=schematize-gui\n"@
}

/// The content of `schematize-gui.desktop`.
pub fn desktop_entry(exec: &str, icon: &str) -> (r: String)
    ensures
        r@ == desktop_entry_spec(exec@, icon@),
{
    let mut d =
        "[Desktop Entry]\nType=Application\nName=schematize\nGenericName=Ecossistema schematize\nComment=Skills, overdev e mais — schematize\nExec=".to_owned();
    d.append(exec);
    d.append("\nIcon=");
    d.append(icon);
    d.append(
        "\nTerminal=false\nCategories=Development;Utility;\nKeywords=schematize;skills;overdev;\nStartupWMClass=schematize-gui\n",
    );
    d
}

} // verus!
