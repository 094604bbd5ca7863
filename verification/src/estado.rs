//! The `status` report: versions (updater, installed app, latest published, Deployer),
//! platform, whether a precompiled binary exists, pin and install directory.

use vstd::prelude::*;
use crate::comando::push_str;
use crate::plataforma::{LinuxFam, Os};
use crate::texto::views;

verus! {

/// What the report is made of (each found beforehand by the caller).
pub struct Status {
    pub os: Os,
    pub familia: LinuxFam,
    pub arch: String,
    /// Whether a precompiled binary is published for this platform.
    pub tem_binario: bool,
    /// Version of the installed app (`None`: not installed).
    pub instalado: Option<String>,
    /// Latest published version (`None`: the network failed).
    pub publicada: Option<String>,
    /// When the Deployer is installed: its version (`None`: it did not answer) and its
    /// latest published version (`None`: the network failed).
    pub deployer: Option<(Option<String>, Option<String>)>,
    pub pin: Option<String>,
    /// The install directory, as displayed.
    pub dir: String,
}

/// What a [`Status`] holds.
pub struct StatusV {
    pub os: Os,
    pub familia: LinuxFam,
    pub arch: Seq<char>,
    pub tem_binario: bool,
    pub instalado: Option<Seq<char>>,
    pub publicada: Option<Seq<char>>,
    pub deployer: Option<(Option<Seq<char>>, Option<Seq<char>>)>,
    pub pin: Option<Seq<char>>,
    pub dir: Seq<char>,
}

pub open spec fn ov(o: Option<String>) -> Option<Seq<char>> {
    match o {
        Some(s) => Some(s@),
        None => None,
    }
}

impl View for Status {
    type V = StatusV;

    open spec fn view(&self) -> StatusV {
        StatusV {
            os: self.os,
            familia: self.familia,
            arch: self.arch@,
            tem_binario: self.tem_binario,
            instalado: ov(self.instalado),
            publicada: ov(self.publicada),
            deployer: match self.deployer {
                Some((i, u)) => Some((ov(i), ov(u))),
                None => None,
            },
            pin: ov(self.pin),
            dir: self.dir@,
        }
    }
}

/// The name a Linux family is shown by.
pub open spec fn family_name(f: LinuxFam) -> Seq<char> {
    match f {
        LinuxFam::Debian => "Debian"@,
        LinuxFam::Rpm => "Rpm"@,
        LinuxFam::Arch => "Arch"@,
        LinuxFam::Unknown => "Unknown"@,
    }
}

/// The name a Linux family is shown by.
pub fn familia_nome(f: LinuxFam) -> (r: &'static str)
    ensures
        r@ == family_name(f),
{
    match f {
        LinuxFam::Debian => "Debian",
        LinuxFam::Rpm => "Rpm",
        LinuxFam::Arch => "Arch",
        LinuxFam::Unknown => "Unknown",
    }
}

/// The system as shown: Linux with its family, macOS, Windows.
pub open spec fn os_text(os: Os, f: LinuxFam) -> Seq<char> {
    match os {
        Os::Linux => "Linux ("@ + family_name(f) + ")"@,
        Os::Mac => "macOS"@,
        Os::Windows => "Windows"@,
    }
}

/// A version shown with its `v`, or `absent` when there is none.
pub open spec fn version_or(o: Option<Seq<char>>, absent: Seq<char>) -> Seq<char> {
    match o {
        Some(v) => "v"@ + v,
        None => absent,
    }
}

pub open spec fn status_head(updater_version: Seq<char>, s: StatusV) -> Seq<Seq<char>> {
    seq![
        "schematize-updater : v"@ + updater_version,
        "plataforma         : "@ + os_text(s.os, s.familia) + " / "@ + s.arch,
        "binário pronto?    : "@ + if s.tem_binario {
            "sim (caminho rápido disponível)"@
        } else {
            "não (compila do fonte)"@
        },
        "app instalado      : "@ + version_or(s.instalado, "nenhum"@),
        "última publicada   : "@ + version_or(s.publicada, "? (rede)"@),
    ]
}

pub open spec fn status_deployer(s: StatusV) -> Seq<Seq<char>> {
    match s.deployer {
        Some((i, u)) => seq![
            "deployer instalado : "@ + version_or(i, "presente, mas não responde"@),
            "deployer publicado : "@ + version_or(u, "? (rede)"@),
        ],
        None => Seq::empty(),
    }
}

pub open spec fn status_pin(s: StatusV) -> Seq<Seq<char>> {
    match s.pin {
        Some(p) => seq!["versão fixada (pin): "@ + p],
        None => Seq::empty(),
    }
}

/// The lines of the report, in order: updater, platform, precompiled binary,
/// installed app, latest published; the two Deployer lines only when it is installed;
/// the pin only when there is one; the install directory.
pub open spec fn status_spec(updater_version: Seq<char>, s: StatusV) -> Seq<Seq<char>> {
    status_head(updater_version, s) + status_deployer(s) + status_pin(s) + seq![
        "dir de instalação  : "@ + s.dir,
    ]
}

fn line(label: &str, value: &str) -> (r: String)
    ensures
        r@ == label@ + value@,
{
    let mut r = label.to_owned();
    r.append(value);
    r
}

fn version_line(label: &str, o: &Option<String>, absent: &str) -> (r: String)
    ensures
        r@ == label@ + version_or(ov(*o), absent@),
{
    match o {
        Some(v) => {
            let mut r = label.to_owned();
            r.append("v");
            r.append(v.as_str());
            assert(r@ =~= label@ + ("v"@ + v@));
            r
        },
        None => line(label, absent),
    }
}

/// The lines `status` prints.
pub fn status_lines(updater_version: &str, s: &Status) -> (r: Vec<String>)
    ensures
        views(r@) == status_spec(updater_version@, s@),
{
    let mut r: Vec<String> = Vec::new();
    let first = line("schematize-updater : v", updater_version);
    push_str(&mut r, first.as_str());
    let mut plat = "plataforma         : ".to_owned();
    match s.os {
        Os::Linux => {
            plat.append("Linux (");
            plat.append(familia_nome(s.familia));
            plat.append(")");
        },
        Os::Mac => plat.append("macOS"),
        Os::Windows => plat.append("Windows"),
    }
    assert(plat@ =~= "plataforma         : "@ + os_text(s.os, s.familia));
    plat.append(" / ");
    plat.append(s.arch.as_str());
    push_str(&mut r, plat.as_str());
    let ready = line(
        "binário pronto?    : ",
        if s.tem_binario {
            "sim (caminho rápido disponível)"
        } else {
            "não (compila do fonte)"
        },
    );
    push_str(&mut r, ready.as_str());
    let app = version_line("app instalado      : ", &s.instalado, "nenhum");
    push_str(&mut r, app.as_str());
    let latest = version_line("última publicada   : ", &s.publicada, "? (rede)");
    push_str(&mut r, latest.as_str());
    let ghost sv = s@;
    assert(views(r@) =~= status_head(updater_version@, sv));
    match &s.deployer {
        Some((i, u)) => {
            let ghost before = views(r@);
            let a = version_line("deployer instalado : ", i, "presente, mas não responde");
            push_str(&mut r, a.as_str());
            let b = version_line("deployer publicado : ", u, "? (rede)");
            push_str(&mut r, b.as_str());
            assert(views(r@) =~= before + status_deployer(sv));
        },
        None => {
            assert(views(r@) =~= views(r@) + status_deployer(sv));
        },
    }
    assert(views(r@) =~= status_head(updater_version@, sv) + status_deployer(sv));
    match &s.pin {
        Some(p) => {
            let ghost before = views(r@);
            let l = line("versão fixada (pin): ", p.as_str());
            push_str(&mut r, l.as_str());
            assert(views(r@) =~= before + status_pin(sv));
        },
        None => {
            assert(views(r@) =~= views(r@) + status_pin(sv));
        },
    }
    let ghost before = views(r@);
    let d = line("dir de instalação  : ", s.dir.as_str());
    push_str(&mut r, d.as_str());
    assert(views(r@) =~= before + seq!["dir de instalação  : "@ + sv.dir]);
    r
}

} // verus!
