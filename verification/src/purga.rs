//! The purge of previous installations: copies of the house's binaries in every
//! directory where a version could ever have been installed, plus the launchers and
//! autostart entries of the house (`~/.local/share/applications` and
//! `~/.config/autostart` on Linux). The directory this installation writes to
//! (replaced there by rename), the running program and the user's data directories
//! are never touched.

use vstd::prelude::*;
use crate::comando::{push_str, strings};
use crate::plataforma::{child, suffix, with_suffix, Caminho, CaminhoV, Os};
use crate::texto::views;

verus! {

/// The house's binaries without suffix: four programs under the current name and the
/// interregno name each.
pub open spec fn base_names() -> Seq<Seq<char>> {
    seq![
        "overflow"@,
        "overflow-gui"@,
        "overflow-updater"@,
        "overflow-updater-gui"@,
        "schematize"@,
        "schematize-gui"@,
        "schematize-updater"@,
        "schematize-updater-gui"@,
    ]
}

/// The exact names of the house's binaries on `os`.
pub open spec fn house_names(os: Os) -> Seq<Seq<char>> {
    base_names().map_values(|b: Seq<char>| b + suffix(os))
}

/// The house's binaries by their exact names (with `.exe` on Windows), never a pattern.
pub fn nomes(os: Os) -> (r: Vec<String>)
    ensures
        views(r@) == house_names(os),
{
    let bases = [
        "overflow",
        "overflow-gui",
        "overflow-updater",
        "overflow-updater-gui",
        "schematize",
        "schematize-gui",
        "schematize-updater",
        "schematize-updater-gui",
    ];
    assert(bases@.map_values(|b: &str| b@) =~= base_names());
    let mut r: Vec<String> = Vec::new();
    let mut i: usize = 0;
    while i < 8
        invariant
            i <= 8,
            bases@.len() == 8,
            bases@.map_values(|b: &str| b@) == base_names(),
            views(r@) == house_names(os).subrange(0, i as int),
        decreases 8 - i,
    {
        let n = with_suffix(bases[i], os);
        assert(bases@.map_values(|b: &str| b@)[i as int] == bases@[i as int]@);
        push_str(&mut r, n.as_str());
        assert(house_names(os).subrange(0, i + 1) =~= house_names(os).subrange(0, i as int).push(
            n@,
        ));
        i = i + 1;
    }
    assert(house_names(os).subrange(0, 8) =~= house_names(os));
    r
}

/// Every directory where a version could have been installed: `~/.cargo/bin`,
/// `~/.local/bin`, `/usr/local/bin` and `/usr/bin`.
pub open spec fn install_places() -> Seq<CaminhoV> {
    seq![
        CaminhoV::SobHome(seq![".cargo"@, "bin"@]),
        CaminhoV::SobHome(seq![".local"@, "bin"@]),
        CaminhoV::Literal(seq!["/usr/local/bin"@]),
        CaminhoV::Literal(seq!["/usr/bin"@]),
    ]
}

pub open spec fn caminhos_view(v: Seq<Caminho>) -> Seq<CaminhoV> {
    v.map_values(|c: Caminho| c@)
}

fn place(root: Option<&str>, parts: &[&str]) -> (r: Caminho)
    ensures
        match root {
            None => r@ == CaminhoV::SobHome(parts@.map_values(|s: &str| s@)),
            Some(x) => r@ == CaminhoV::Literal(seq![x@]),
        },
{
    match root {
        None => {
            let mut p: Vec<String> = Vec::new();
            let mut i: usize = 0;
            while i < parts.len()
                invariant
                    i <= parts@.len(),
                    views(p@) == parts@.map_values(|s: &str| s@).subrange(0, i as int),
                decreases parts.len() - i,
            {
                push_str(&mut p, parts[i]);
                assert(parts@.map_values(|s: &str| s@).subrange(0, i + 1) =~= parts@.map_values(
                    |s: &str| s@,
                ).subrange(0, i as int).push(parts@[i as int]@));
                i = i + 1;
            }
            assert(parts@.map_values(|s: &str| s@).subrange(0, parts@.len() as int)
                =~= parts@.map_values(|s: &str| s@));
            Caminho::SobHome(p)
        },
        Some(x) => {
            let mut p: Vec<String> = Vec::new();
            push_str(&mut p, x);
            assert(views(p@) =~= seq![x@]);
            Caminho::Literal(p)
        },
    }
}

/// Every directory where some version could have been installed.
pub fn diretorios() -> (r: Vec<Caminho>)
    ensures
        caminhos_view(r@) == install_places(),
{
    let mut r: Vec<Caminho> = Vec::new();
    let a = place(None, &[".cargo", "bin"]);
    assert(a@ == CaminhoV::SobHome(seq![".cargo"@, "bin"@])) by {
        assert(seq![".cargo", "bin"].map_values(|s: &str| s@) =~= seq![".cargo"@, "bin"@]);
    }
    let b = place(None, &[".local", "bin"]);
    assert(b@ == CaminhoV::SobHome(seq![".local"@, "bin"@])) by {
        assert(seq![".local", "bin"].map_values(|s: &str| s@) =~= seq![".local"@, "bin"@]);
    }
    let c = place(Some("/usr/local/bin"), &[]);
    let d = place(Some("/usr/bin"), &[]);
    r.push(a);
    r.push(b);
    r.push(c);
    r.push(d);
    assert(caminhos_view(r@) =~= install_places());
    r
}

/// Whether directory `i` is the destination (flags missing for a directory read as
/// "not the destination").
pub open spec fn is_dest(flags: Seq<bool>, i: int) -> bool {
    0 <= i < flags.len() && flags[i]
}

/// The files the purge considers, directory by directory, name by name: every house
/// name in every directory that is not the destination.
pub open spec fn purge_targets(dirs: Seq<CaminhoV>, flags: Seq<bool>, names: Seq<Seq<char>>) -> Seq<
    CaminhoV,
>
    decreases dirs.len(),
{
    if dirs.len() == 0 {
        Seq::empty()
    } else {
        let i = dirs.len() - 1;
        purge_targets(dirs.drop_last(), flags, names) + if is_dest(flags, i) {
            Seq::empty()
        } else {
            names.map_values(|n: Seq<char>| child(dirs[i], n))
        }
    }
}

fn targets_in(dirs: &Vec<Caminho>, is_destination: &Vec<bool>, names: &Vec<String>) -> (r: Vec<Caminho>)
    ensures
        caminhos_view(r@) == purge_targets(caminhos_view(dirs@), is_destination@, views(names@)),
{
    let ghost ds = caminhos_view(dirs@);
    let ghost ns = views(names@);
    let mut r: Vec<Caminho> = Vec::new();
    let mut i: usize = 0;
    while i < dirs.len()
        invariant
            i <= dirs.len(),
            ds == caminhos_view(dirs@),
            ns == views(names@),
            caminhos_view(r@) == purge_targets(ds.subrange(0, i as int), is_destination@, ns),
        decreases dirs.len() - i,
    {
        let dest = i < is_destination.len() && is_destination[i];
        let ghost before = caminhos_view(r@);
        if !dest {
            let mut j: usize = 0;
            while j < names.len()
                invariant
                    i < dirs.len(),
                    j <= names.len(),
                    ds == caminhos_view(dirs@),
                    views(names@) == ns,
                    caminhos_view(r@) == before + ns.subrange(0, j as int).map_values(
                        |n: Seq<char>| child(ds[i as int], n),
                    ),
                decreases names.len() - j,
            {
                let t = dirs[i].join(names[j].as_str());
                let ghost prev = caminhos_view(r@);
                r.push(t);
                assert(ns[j as int] == names@[j as int]@);
                assert(caminhos_view(r@) =~= prev.push(t@));
                assert(ns.subrange(0, j + 1).map_values(|n: Seq<char>| child(ds[i as int], n))
                    =~= ns.subrange(0, j as int).map_values(|n: Seq<char>| child(ds[i as int], n)).push(
                    child(ds[i as int], ns[j as int]),
                ));
                j = j + 1;
            }
            assert(ns.subrange(0, ns.len() as int) =~= ns);
        } else {
            assert(caminhos_view(r@) =~= before + Seq::<CaminhoV>::empty());
        }
        assert(ds.subrange(0, i + 1).drop_last() =~= ds.subrange(0, i as int));
        i = i + 1;
    }
    assert(ds.subrange(0, dirs@.len() as int) =~= ds);
    r
}

/// The engine of the purge of binaries, with the directories as a parameter: the
/// files to remove if they exist, for directories `dirs` where `is_destination[i]`
/// tells whether `dirs[i]` is the directory the installation writes to (the caller
/// compares canonical paths). A target that is not a file, or is a file to keep, is
/// skipped by [`deve_remover`].
pub fn remove_em(dirs: &Vec<Caminho>, is_destination: &Vec<bool>, os: Os) -> (r: Vec<Caminho>)
    ensures
        caminhos_view(r@) == purge_targets(caminhos_view(dirs@), is_destination@, house_names(os)),
{
    let names = nomes(os);
    targets_in(dirs, is_destination, &names)
}

/// Where launchers and autostart entries of the house may be (XDG, Linux):
/// `~/.local/share/applications` and `~/.config/autostart`.
pub open spec fn entry_places() -> Seq<CaminhoV> {
    seq![
        CaminhoV::SobHome(seq![".local"@, "share"@, "applications"@]),
        CaminhoV::SobHome(seq![".config"@, "autostart"@]),
    ]
}

/// The launcher and autostart entries of the house: `<name>.desktop` for each of the
/// house's programs, under the current and the interregno name.
pub open spec fn entry_names() -> Seq<Seq<char>> {
    base_names().map_values(|b: Seq<char>| b + ".desktop"@)
}

/// The whole purge: the house's binaries in every install place but the destination,
/// then, on Linux, the house's launchers and autostart entries.
pub open spec fn purge_plan(flags: Seq<bool>, os: Os) -> Seq<CaminhoV> {
    purge_targets(install_places(), flags, house_names(os)) + if os == Os::Linux {
        purge_targets(entry_places(), Seq::empty(), entry_names())
    } else {
        Seq::empty()
    }
}

fn entry_nomes() -> (r: Vec<String>)
    ensures
        views(r@) == entry_names(),
{
    let bases = [
        "overflow",
        "overflow-gui",
        "overflow-updater",
        "overflow-updater-gui",
        "schematize",
        "schematize-gui",
        "schematize-updater",
        "schematize-updater-gui",
    ];
    assert(bases@.map_values(|b: &str| b@) =~= base_names());
    let mut r: Vec<String> = Vec::new();
    let mut i: usize = 0;
    while i < 8
        invariant
            i <= 8,
            bases@.len() == 8,
            bases@.map_values(|b: &str| b@) == base_names(),
            views(r@) == entry_names().subrange(0, i as int),
        decreases 8 - i,
    {
        let mut n = bases[i].to_owned();
        n.append(".desktop");
        assert(bases@.map_values(|b: &str| b@)[i as int] == bases@[i as int]@);
        push_str(&mut r, n.as_str());
        assert(entry_names().subrange(0, i + 1) =~= entry_names().subrange(0, i as int).push(n@));
        i = i + 1;
    }
    assert(entry_names().subrange(0, 8) =~= entry_names());
    r
}

fn entry_dirs() -> (r: Vec<Caminho>)
    ensures
        caminhos_view(r@) == entry_places(),
{
    let a = strings(&[".local", "share", "applications"]);
    assert(views(a@) =~= seq![".local"@, "share"@, "applications"@]);
    let b = strings(&[".config", "autostart"]);
    assert(views(b@) =~= seq![".config"@, "autostart"@]);
    let mut r: Vec<Caminho> = Vec::new();
    r.push(Caminho::SobHome(a));
    r.push(Caminho::SobHome(b));
    assert(caminhos_view(r@) =~= entry_places());
    r
}

/// What the purge removes, when it exists as a file and is not to be kept: the
/// house's binaries in every place where a version could have been installed except
/// the destination directory (`is_destination[i]` for the `i`-th of [`diretorios`]),
/// then, on Linux, the house's launchers and autostart entries.
pub fn remove_copias_fantasma(is_destination: &Vec<bool>, os: Os) -> (r: Vec<Caminho>)
    ensures
        caminhos_view(r@) == purge_plan(is_destination@, os),
{
    let dirs = diretorios();
    let mut r = remove_em(&dirs, is_destination, os);
    if os == Os::Linux {
        let none: Vec<bool> = Vec::new();
        let mut e = targets_in(&entry_dirs(), &none, &entry_nomes());
        assert(none@ =~= Seq::<bool>::empty());
        let ghost a = caminhos_view(r@);
        let ghost b = caminhos_view(e@);
        r.append(&mut e);
        assert(caminhos_view(r@) =~= a + b);
    } else {
        assert(caminhos_view(r@) =~= caminhos_view(r@) + Seq::<CaminhoV>::empty());
    }
    r
}

/// Whether a target is removed: only a file, and never one to keep (the running
/// updater, compared by canonical path).
pub fn deve_remover(is_file: bool, kept: bool) -> (r: bool)
    ensures
        r == (is_file && !kept),
{
    is_file && !kept
}

/// The destination is never swept: each target of the purge is a house name in a
/// directory that is not the destination.
pub proof fn lemma_purge_spares_destination(
    dirs: Seq<CaminhoV>,
    flags: Seq<bool>,
    names: Seq<Seq<char>>,
    t: int,
)
    requires
        0 <= t < purge_targets(dirs, flags, names).len(),
    ensures
        exists|i: int, j: int|
            0 <= i < dirs.len() && !is_dest(flags, i) && 0 <= j < names.len()
                && purge_targets(dirs, flags, names)[t] == child(dirs[i], names[j]),
    decreases dirs.len(),
{
    let i = dirs.len() - 1;
    let prev = purge_targets(dirs.drop_last(), flags, names);
    if t < prev.len() {
        lemma_purge_spares_destination(dirs.drop_last(), flags, names, t);
        let (a, b) = choose|a: int, b: int|
            0 <= a < dirs.drop_last().len() && !is_dest(flags, a) && 0 <= b < names.len()
                && prev[t] == child(dirs.drop_last()[a], names[b]);
        assert(dirs.drop_last()[a] == dirs[a]);
        assert(purge_targets(dirs, flags, names)[t] == child(dirs[a], names[b]));
    } else {
        let j = t - prev.len();
        assert(purge_targets(dirs, flags, names)[t] == child(dirs[i], names[j]));
    }
}

/// Every copy in a directory other than the destination is a target: each house name
/// in each such directory.
pub proof fn lemma_purge_covers_every_copy(
    dirs: Seq<CaminhoV>,
    flags: Seq<bool>,
    names: Seq<Seq<char>>,
    i: int,
    j: int,
)
    requires
        0 <= i < dirs.len(),
        !is_dest(flags, i),
        0 <= j < names.len(),
    ensures
        purge_targets(dirs, flags, names).contains(child(dirs[i], names[j])),
    decreases dirs.len(),
{
    let last = dirs.len() - 1;
    let prev = purge_targets(dirs.drop_last(), flags, names);
    if i < last {
        lemma_purge_covers_every_copy(dirs.drop_last(), flags, names, i, j);
        let k = choose|k: int| 0 <= k < prev.len() && prev[k] == child(dirs.drop_last()[i], names[j]);
        assert(dirs.drop_last()[i] == dirs[i]);
        assert(purge_targets(dirs, flags, names)[k] == child(dirs[i], names[j]));
    } else {
        assert(purge_targets(dirs, flags, names)[prev.len() + j] == child(dirs[i], names[j]));
    }
}

/// The purge reaches every binary the house ever installed: the CLI and the GUI of the
/// app and of the updater, under the current (`schematize…`) and the interregno
/// (`overflow…`) name, by its exact name on `os`, in every install place that is not
/// the destination (`~/.cargo/bin`, `~/.local/bin`, `/usr/local/bin`, `/usr/bin`).
/// These eight are the house's names, and no others.
pub proof fn lemma_purge_reaches_every_house_binary(flags: Seq<bool>, os: Os, i: int, base: Seq<char>)
    requires
        0 <= i < 4,
        !is_dest(flags, i),
        base == "schematize"@ || base == "schematize-gui"@ || base == "schematize-updater"@
            || base == "schematize-updater-gui"@ || base == "overflow"@ || base == "overflow-gui"@
            || base == "overflow-updater"@ || base == "overflow-updater-gui"@,
    ensures
        house_names(os).len() == 8,
        house_names(os).contains(base + suffix(os)),
        purge_plan(flags, os).contains(child(install_places()[i], base + suffix(os))),
        i == 0 ==> install_places()[i] == CaminhoV::SobHome(seq![".cargo"@, "bin"@]),
        i == 1 ==> install_places()[i] == CaminhoV::SobHome(seq![".local"@, "bin"@]),
        i == 2 ==> install_places()[i] == CaminhoV::Literal(seq!["/usr/local/bin"@]),
        i == 3 ==> install_places()[i] == CaminhoV::Literal(seq!["/usr/bin"@]),
        forall|k: int|
            0 <= k < 8 ==> {
                let n = #[trigger] house_names(os)[k];
                ||| n == "schematize"@ + suffix(os)
                ||| n == "schematize-gui"@ + suffix(os)
                ||| n == "schematize-updater"@ + suffix(os)
                ||| n == "schematize-updater-gui"@ + suffix(os)
                ||| n == "overflow"@ + suffix(os)
                ||| n == "overflow-gui"@ + suffix(os)
                ||| n == "overflow-updater"@ + suffix(os)
                ||| n == "overflow-updater-gui"@ + suffix(os)
            },
{
    let names = house_names(os);
    let j: int = if base == "overflow"@ {
        0
    } else if base == "overflow-gui"@ {
        1
    } else if base == "overflow-updater"@ {
        2
    } else if base == "overflow-updater-gui"@ {
        3
    } else if base == "schematize"@ {
        4
    } else if base == "schematize-gui"@ {
        5
    } else if base == "schematize-updater"@ {
        6
    } else {
        7
    };
    assert(names[j] == base + suffix(os));
    lemma_purge_covers_every_copy(install_places(), flags, names, i, j);
    let bins = purge_targets(install_places(), flags, names);
    let target = child(install_places()[i], base + suffix(os));
    let k = choose|k: int| 0 <= k < bins.len() && bins[k] == target;
    assert(purge_plan(flags, os)[k] == target);
}

/// Where the purge reaches: every target is either a house binary in one of the four
/// install places other than the destination, or, on Linux, a house launcher or
/// autostart entry. Under the home directory its first component is `.cargo`,
/// `.local` or `.config`, so no target lies in the user's data directories.
pub proof fn lemma_purge_plan_targets(flags: Seq<bool>, os: Os, k: int)
    requires
        0 <= k < purge_plan(flags, os).len(),
    ensures
        (exists|i: int, j: int|
            0 <= i < 4 && !is_dest(flags, i) && 0 <= j < 8 && purge_plan(flags, os)[k] == child(
                install_places()[i],
                house_names(os)[j],
            )) || (os == Os::Linux && exists|i: int, j: int|
            0 <= i < 2 && 0 <= j < 8 && purge_plan(flags, os)[k] == child(
                entry_places()[i],
                entry_names()[j],
            )),
        match purge_plan(flags, os)[k] {
            CaminhoV::SobHome(p) => p[0] == ".cargo"@ || p[0] == ".local"@ || p[0] == ".config"@,
            CaminhoV::Literal(p) => p[0] == "/usr/local/bin"@ || p[0] == "/usr/bin"@,
        },
{
    let bins = purge_targets(install_places(), flags, house_names(os));
    let t = purge_plan(flags, os)[k];
    if k < bins.len() {
        assert(t == bins[k]);
        lemma_purge_spares_destination(install_places(), flags, house_names(os), k);
        let (i, j) = choose|i: int, j: int|
            0 <= i < install_places().len() && !is_dest(flags, i) && 0 <= j < house_names(os).len()
                && bins[k] == child(install_places()[i], house_names(os)[j]);
        let n = house_names(os)[j];
        if i == 0 {
            assert(t == CaminhoV::SobHome(seq![".cargo"@, "bin"@].push(n)));
        } else if i == 1 {
            assert(t == CaminhoV::SobHome(seq![".local"@, "bin"@].push(n)));
        } else if i == 2 {
            assert(t == CaminhoV::Literal(seq!["/usr/local/bin"@].push(n)));
        } else {
            assert(t == CaminhoV::Literal(seq!["/usr/bin"@].push(n)));
        }
    } else {
        assert(os == Os::Linux);
        let es = purge_targets(entry_places(), Seq::empty(), entry_names());
        let k2 = k - bins.len();
        assert(t == es[k2]);
        lemma_purge_spares_destination(entry_places(), Seq::empty(), entry_names(), k2);
        let (i, j) = choose|i: int, j: int|
            0 <= i < entry_places().len() && !is_dest(Seq::empty(), i) && 0 <= j
                < entry_names().len() && es[k2] == child(entry_places()[i], entry_names()[j]);
        let n = entry_names()[j];
        if i == 0 {
            assert(t == CaminhoV::SobHome(seq![".local"@, "share"@, "applications"@].push(n)));
        } else {
            assert(t == CaminhoV::SobHome(seq![".config"@, "autostart"@].push(n)));
        }
    }
}

} // verus!
