//! The hybrid install: the decisions of installing or updating the app. The
//! precompiled binary is tried first (when the platform has one and it runs here), else
//! the app is built from source in persistent checkouts with a shared `target/`.
//! The caller performs each step; the route, the order, what is mandatory and the
//! commands are decided here.

use vstd::prelude::*;
use crate::comando::{push_str, strings, Invocacao};
use crate::plataforma::{
    bin_names, bin_names_interregno, build_src_dir, repo_name, suffix, updater_bin_name,
    updater_gui_bin, Caminho, CaminhoV, Os, APP_REPO, GUI_REPO, UPDATER_GUI_REPO, UPDATER_REPO,
};
use crate::texto::{str_eq, views};

verus! {

/// How the install proceeds.
#[derive(Clone, Copy, PartialEq, Eq, Debug, Structural)]
pub enum Rota {
    /// The installed version already is the target.
    NadaAFazer,
    /// Try the precompiled binary of the release first.
    Binario,
    /// Build from source.
    Fonte,
}

pub open spec fn route_for(force: bool, target: Seq<char>, installed: Option<Seq<char>>, has_assets: bool) -> Rota {
    if !force && installed == Some(target) {
        Rota::NadaAFazer
    } else if has_assets {
        Rota::Binario
    } else {
        Rota::Fonte
    }
}

pub open spec fn opt_seq(o: Option<String>) -> Option<Seq<char>> {
    match o {
        Some(s) => Some(s@),
        None => None,
    }
}

/// The route of an install or update: an error when the target version could not be
/// resolved; nothing to do when the installed version is the target and the install is
/// not forced; else the precompiled binary when this platform has assets, or source.
pub fn decide_rota(force: bool, target: &Option<String>, installed: &Option<String>, has_assets: bool) -> (r: Result<Rota, String>)
    ensures
        target is None ==> (r matches Err(e) && e@
            == "não consegui resolver a versão-alvo (rede/GitHub indisponível?)."@),
        target matches Some(t) ==> r == Ok::<Rota, String>(
            route_for(force, t@, opt_seq(*installed), has_assets),
        ),
{
    match target {
        None => Err("não consegui resolver a versão-alvo (rede/GitHub indisponível?).".to_owned()),
        Some(t) => {
            let same = match installed {
                Some(i) => str_eq(i.as_str(), t.as_str()),
                None => false,
            };
            if !force && same {
                Ok(Rota::NadaAFazer)
            } else if has_assets {
                Ok(Rota::Binario)
            } else {
                Ok(Rota::Fonte)
            }
        },
    }
}

/// A forced install always does the work, whatever is installed.
pub proof fn lemma_force_always_installs(target: Seq<char>, installed: Option<Seq<char>>, has_assets: bool)
    ensures
        route_for(true, target, installed, has_assets) != Rota::NadaAFazer,
{
}

/// An unforced install of the version already installed does nothing.
pub proof fn lemma_up_to_date_does_nothing(target: Seq<char>, has_assets: bool)
    ensures
        route_for(false, target, Some(target), has_assets) == Rota::NadaAFazer,
{
}

/// Without force, an install does nothing exactly when the installed version is the
/// target itself: any other installed version (older or newer, such as one above a
/// pinned older release) or none at all is replaced. When there is work, it goes by
/// the precompiled binary exactly when the platform has assets.
pub proof fn lemma_nothing_to_do_only_at_target(
    force: bool,
    target: Seq<char>,
    installed: Option<Seq<char>>,
    has_assets: bool,
)
    ensures
        (route_for(force, target, installed, has_assets) == Rota::NadaAFazer) <==> (!force
            && installed == Some(target)),
        route_for(force, target, installed, has_assets) != Rota::NadaAFazer ==> ((route_for(
            force,
            target,
            installed,
            has_assets,
        ) == Rota::Binario) <==> has_assets),
        route_for(force, target, installed, has_assets) != Rota::NadaAFazer ==> (route_for(
            force,
            target,
            installed,
            has_assets,
        ) == Rota::Binario || route_for(force, target, installed, has_assets) == Rota::Fonte),
{
}

/// What comes after the binary route: `None` when it installed, else the notice that
/// the install falls back to building from source.
pub fn apos_binario(target: &str, result: &Result<bool, String>) -> (r: Option<String>)
    ensures
        result matches Ok(true) ==> r is None,
        result matches Ok(false) ==> (r matches Some(m) && m@ == "→ sem binário compatível pra v"@
            + target@ + " — compilando do fonte…"@),
        result matches Err(e) ==> (r matches Some(m) && m@ == "→ via binário falhou ("@ + e@
            + ") — compilando do fonte…"@),
{
    match result {
        Ok(true) => None,
        Ok(false) => {
            let mut m = "→ sem binário compatível pra v".to_owned();
            m.append(target);
            m.append(" — compilando do fonte…");
            Some(m)
        },
        Err(e) => {
            let mut m = "→ via binário falhou (".to_owned();
            m.append(e.as_str());
            m.append(") — compilando do fonte…");
            Some(m)
        },
    }
}

// ---------------------------------------------------------------------------
// The precompiled binary
// ---------------------------------------------------------------------------

/// The address of an asset of the app's release `v<target>`.
pub open spec fn asset_url(target: Seq<char>, asset: Seq<char>) -> Seq<char> {
    "https://github.com/"@ + APP_REPO@ + "/releases/download/v"@ + target + "/"@ + asset
}

/// The address of `asset` in the app's release `v<target>`.
pub fn release_asset_url(target: &str, asset: &str) -> (r: String)
    ensures
        r@ == asset_url(target@, asset@),
{
    let mut u = "https://github.com/".to_owned();
    u.append(APP_REPO);
    u.append("/releases/download/v");
    u.append(target);
    u.append("/");
    u.append(asset);
    u
}

/// The download directory, emptied before each attempt: `~/.schematize/updater/dl`.
pub fn download_dir() -> (r: Caminho)
    ensures
        r@ == CaminhoV::SobHome(seq![".schematize"@, "updater"@, "dl"@]),
{
    let p = strings(&[".schematize", "updater", "dl"]);
    assert(views(p@) =~= seq![".schematize"@, "updater"@, "dl"@]);
    Caminho::SobHome(p)
}

/// The steps of the binary route.
#[derive(Clone, Copy, PartialEq, Eq, Debug, Structural)]
pub enum EtapaBinario {
    /// Download the CLI asset.
    BaixarCli,
    /// Run the downloaded CLI with `--version` (a binary for another libc or arch would
    /// brick the swap).
    TestarCli,
    /// Download the GUI asset.
    BaixarGui,
    /// Put the downloaded binaries in place (the GUI only when it was downloaded).
    Instalar { com_gui: bool },
    /// No usable binary: build from source.
    SemBinario,
}

/// The next step of the binary route after `step` succeeded (`ok`) or failed: the CLI
/// is mandatory and must run here; the GUI is optional.
pub open spec fn next_step(step: EtapaBinario, ok: bool) -> EtapaBinario {
    match step {
        EtapaBinario::BaixarCli => if ok {
            EtapaBinario::TestarCli
        } else {
            EtapaBinario::SemBinario
        },
        EtapaBinario::TestarCli => if ok {
            EtapaBinario::BaixarGui
        } else {
            EtapaBinario::SemBinario
        },
        EtapaBinario::BaixarGui => EtapaBinario::Instalar { com_gui: ok },
        other => other,
    }
}

/// The next step of the binary route.
pub fn proxima_etapa_binario(step: EtapaBinario, ok: bool) -> (r: EtapaBinario)
    ensures
        r == next_step(step, ok),
{
    match step {
        EtapaBinario::BaixarCli => if ok {
            EtapaBinario::TestarCli
        } else {
            EtapaBinario::SemBinario
        },
        EtapaBinario::TestarCli => if ok {
            EtapaBinario::BaixarGui
        } else {
            EtapaBinario::SemBinario
        },
        EtapaBinario::BaixarGui => EtapaBinario::Instalar { com_gui: ok },
        other => other,
    }
}

/// The binary route installs only when the CLI was downloaded and runs here, and it
/// installs the GUI only when that was downloaded too: starting from the download of
/// the CLI, three outcomes `ok1` (CLI downloaded), `ok2` (CLI runs), `ok3` (GUI
/// downloaded) lead to installing exactly when `ok1 && ok2`, with the GUI when `ok3`.
pub proof fn lemma_binary_route_requires_working_cli(ok1: bool, ok2: bool, ok3: bool)
    ensures
        ({
            let s3 = next_step(next_step(next_step(EtapaBinario::BaixarCli, ok1), ok2), ok3);
            &&& (s3 is Instalar <==> ok1 && ok2)
            &&& (s3 is Instalar ==> s3 == EtapaBinario::Instalar { com_gui: ok3 })
            &&& (!(ok1 && ok2) ==> s3 == EtapaBinario::SemBinario)
        }),
{
}

// ---------------------------------------------------------------------------
// Building from source
// ---------------------------------------------------------------------------

/// The four builds, in order.
#[derive(Clone, Copy, PartialEq, Eq, Debug, Structural)]
pub enum Papel {
    /// The CLI, from the app's repository.
    Cli,
    /// The GUI (Slint), whose git dependency on the CLI crate is moved to `main` first.
    Gui,
    /// The updater's own window: optional.
    UpdaterGui,
    /// This program, last: optional, so a failure leaves the updated app in place.
    Updater,
}

/// One build: the repository, the extra cargo arguments, the git dependency to move to
/// the head of `main` before building, and the binary it produces.
pub struct Build {
    pub papel: Papel,
    pub repo: &'static str,
    pub extra: Vec<String>,
    pub refresh_dep: Option<&'static str>,
    pub bin: String,
}

/// What a build is: role, repository, extra arguments, dependency refresh, binary.
pub open spec fn build_view(b: Build) -> (Papel, Seq<char>, Seq<Seq<char>>, Option<Seq<char>>, Seq<char>) {
    (
        b.papel,
        b.repo@,
        views(b.extra@),
        match b.refresh_dep {
            Some(d) => Some(d@),
            None => None,
        },
        b.bin@,
    )
}

pub open spec fn builds_view(v: Seq<Build>) -> Seq<(Papel, Seq<char>, Seq<Seq<char>>, Option<Seq<char>>, Seq<char>)> {
    v.map_values(|b: Build| build_view(b))
}

/// The cargo arguments that link the distribution's libsqlite3 when it is there.
pub open spec fn sqlite_features(sqlite: bool) -> Seq<Seq<char>> {
    if sqlite {
        seq!["--no-default-features"@, "--features"@, "sqlite-do-sistema"@]
    } else {
        Seq::empty()
    }
}

fn features(sqlite: bool) -> (r: Vec<String>)
    ensures
        views(r@) == sqlite_features(sqlite),
{
    if sqlite {
        let r = strings(&["--no-default-features", "--features", "sqlite-do-sistema"]);
        assert(views(r@) =~= sqlite_features(sqlite));
        r
    } else {
        let r: Vec<String> = Vec::new();
        assert(views(r@) =~= sqlite_features(sqlite));
        r
    }
}

/// The builds from source, in order: the CLI and the GUI (both with the system's
/// SQLite when `sqlite`; the GUI first moves its `schematize` dependency to `main`),
/// then the updater's window and the updater itself.
pub open spec fn build_plan(os: Os, sqlite: bool) -> Seq<(Papel, Seq<char>, Seq<Seq<char>>, Option<Seq<char>>, Seq<char>)> {
    seq![
        (Papel::Cli, APP_REPO@, sqlite_features(sqlite), None, "schematize"@ + suffix(os)),
        (
            Papel::Gui,
            GUI_REPO@,
            sqlite_features(sqlite),
            Some("schematize"@),
            "schematize-gui"@ + suffix(os),
        ),
        (
            Papel::UpdaterGui,
            UPDATER_GUI_REPO@,
            Seq::empty(),
            None,
            "schematize-updater-gui"@ + suffix(os),
        ),
        (Papel::Updater, UPDATER_REPO@, Seq::empty(), None, "schematize-updater"@ + suffix(os)),
    ]
}

/// The builds from source, in order.
pub fn plano_de_builds(os: Os, sqlite: bool) -> (r: Vec<Build>)
    ensures
        builds_view(r@) == build_plan(os, sqlite),
{
    let (cli, gui) = bin_names(os);
    let mut r: Vec<Build> = Vec::new();
    r.push(Build { papel: Papel::Cli, repo: APP_REPO, extra: features(sqlite), refresh_dep: None, bin: cli });
    r.push(
        Build {
            papel: Papel::Gui,
            repo: GUI_REPO,
            extra: features(sqlite),
            refresh_dep: Some("schematize"),
            bin: gui,
        },
    );
    let none: Vec<String> = Vec::new();
    assert(views(none@) =~= Seq::<Seq<char>>::empty());
    r.push(
        Build {
            papel: Papel::UpdaterGui,
            repo: UPDATER_GUI_REPO,
            extra: none,
            refresh_dep: None,
            bin: updater_gui_bin(os),
        },
    );
    let none2: Vec<String> = Vec::new();
    assert(views(none2@) =~= Seq::<Seq<char>>::empty());
    r.push(
        Build {
            papel: Papel::Updater,
            repo: UPDATER_REPO,
            extra: none2,
            refresh_dep: None,
            bin: updater_bin_name(os),
        },
    );
    assert(builds_view(r@) =~= build_plan(os, sqlite));
    r
}

/// The steps of building from source, in order.
#[derive(Clone, Copy, PartialEq, Eq, Debug, Structural)]
pub enum EtapaFonte {
    /// Make sure cargo is there.
    Toolchain,
    /// Install the build dependencies.
    Dependencias,
    /// Purge the stale copies (what resists is reported, never fatal).
    Purga,
    /// Run build `i` of [`plano_de_builds`].
    Build(usize),
    /// Remove the per-repository `target/` directories of before.
    Limpeza,
    /// Done.
    Pronto,
    /// Stopped on a failure.
    Falhou,
}

/// Whether build `i` of [`plano_de_builds`] is mandatory: the CLI and the GUI, first.
pub open spec fn mandatory_at(i: usize) -> bool {
    i < 2
}

/// The step after `step` succeeded (`ok`) or failed: the toolchain and the dependencies
/// must succeed before anything is purged or built; a failed mandatory build stops the
/// install, an optional one is only warned about; the old targets are removed last.
pub open spec fn next_source_step(step: EtapaFonte, ok: bool) -> EtapaFonte {
    match step {
        EtapaFonte::Toolchain => if ok {
            EtapaFonte::Dependencias
        } else {
            EtapaFonte::Falhou
        },
        EtapaFonte::Dependencias => if ok {
            EtapaFonte::Purga
        } else {
            EtapaFonte::Falhou
        },
        EtapaFonte::Purga => EtapaFonte::Build(0),
        EtapaFonte::Build(i) => if ok || !mandatory_at(i) {
            if i < 3 {
                EtapaFonte::Build((i + 1) as usize)
            } else {
                EtapaFonte::Limpeza
            }
        } else {
            EtapaFonte::Falhou
        },
        EtapaFonte::Limpeza => EtapaFonte::Pronto,
        other => other,
    }
}

/// The next step of building from source.
pub fn proxima_etapa_fonte(step: EtapaFonte, ok: bool) -> (r: EtapaFonte)
    ensures
        r == next_source_step(step, ok),
{
    match step {
        EtapaFonte::Toolchain => if ok {
            EtapaFonte::Dependencias
        } else {
            EtapaFonte::Falhou
        },
        EtapaFonte::Dependencias => if ok {
            EtapaFonte::Purga
        } else {
            EtapaFonte::Falhou
        },
        EtapaFonte::Purga => EtapaFonte::Build(0),
        EtapaFonte::Build(i) => if ok || i >= 2 {
            if i < 3 {
                EtapaFonte::Build(i + 1)
            } else {
                EtapaFonte::Limpeza
            }
        } else {
            EtapaFonte::Falhou
        },
        EtapaFonte::Limpeza => EtapaFonte::Pronto,
        other => other,
    }
}

/// Nothing is purged or built when the toolchain or the dependencies fail, and a
/// failure is final; optional builds never stop the install, mandatory ones do; the
/// builds of [`plano_de_builds`] that are mandatory are exactly the CLI and the GUI.
pub proof fn lemma_source_order(i: usize, ok: bool, os: Os, sqlite: bool)
    ensures
        next_source_step(EtapaFonte::Toolchain, false) == EtapaFonte::Falhou,
        next_source_step(EtapaFonte::Dependencias, false) == EtapaFonte::Falhou,
        next_source_step(EtapaFonte::Falhou, ok) == EtapaFonte::Falhou,
        i < 4 && !mandatory_at(i) ==> next_source_step(EtapaFonte::Build(i), ok) != EtapaFonte::Falhou,
        i < 4 && mandatory_at(i) ==> next_source_step(EtapaFonte::Build(i), false) == EtapaFonte::Falhou,
        i < 4 ==> (mandatory_at(i) <==> (build_plan(os, sqlite)[i as int].0 == Papel::Cli
            || build_plan(os, sqlite)[i as int].0 == Papel::Gui)),
{
}

/// Whether a failed build fails the install: the CLI and the GUI do; the updater's
/// window and the updater itself only warn.
pub fn obrigatorio(papel: Papel) -> (r: bool)
    ensures
        r == (papel == Papel::Cli || papel == Papel::Gui),
{
    match papel {
        Papel::Cli | Papel::Gui => true,
        _ => false,
    }
}

/// The warning printed when an optional build fails with `e` (`None` for a mandatory
/// one, whose error ends the install).
pub fn aviso_de_falha(papel: Papel, e: &str) -> (r: Option<String>)
    ensures
        (papel == Papel::Cli || papel == Papel::Gui) ==> r is None,
        papel == Papel::UpdaterGui ==> (r matches Some(m) && m@
            == "aviso: build da GUI do updater falhou (opcional, seguindo): "@ + e@),
        papel == Papel::Updater ==> (r matches Some(m) && m@ == "aviso: não consegui me atualizar ("@
            + e@ + ") — o app está atualizado; tento de novo no próximo update."@),
{
    match papel {
        Papel::Cli | Papel::Gui => None,
        Papel::UpdaterGui => {
            let mut m = "aviso: build da GUI do updater falhou (opcional, seguindo): ".to_owned();
            m.append(e);
            Some(m)
        },
        Papel::Updater => {
            let mut m = "aviso: não consegui me atualizar (".to_owned();
            m.append(e);
            m.append(") — o app está atualizado; tento de novo no próximo update.");
            Some(m)
        },
    }
}

/// The interregno binary removed from the install directory once a build put its
/// replacement there: the Overflow name of the CLI after the CLI, of the GUI after the
/// GUI.
pub fn interregno_apos(papel: Papel, os: Os) -> (r: Option<String>)
    ensures
        papel == Papel::Cli ==> (r matches Some(n) && n@ == "overflow"@ + suffix(os)),
        papel == Papel::Gui ==> (r matches Some(n) && n@ == "overflow-gui"@ + suffix(os)),
        (papel == Papel::UpdaterGui || papel == Papel::Updater) ==> r is None,
{
    let (i_cli, i_gui) = bin_names_interregno(os);
    match papel {
        Papel::Cli => Some(i_cli),
        Papel::Gui => Some(i_gui),
        _ => None,
    }
}

/// The processes ended once a build replaced their binary: after the GUI, any GUI
/// still open, under the current and the interregno name (a relaunch would otherwise
/// reuse the old version).
pub fn encerrar_apos(papel: Papel, os: Os) -> (r: Vec<String>)
    ensures
        papel == Papel::Gui ==> views(r@) == seq!["schematize-gui"@ + suffix(os), "overflow-gui"@ + suffix(os)],
        papel != Papel::Gui ==> r@.len() == 0,
{
    let mut r: Vec<String> = Vec::new();
    if papel == Papel::Gui {
        let (_, gui) = bin_names(os);
        let (_, i_gui) = bin_names_interregno(os);
        push_str(&mut r, gui.as_str());
        push_str(&mut r, i_gui.as_str());
        assert(views(r@) =~= seq!["schematize-gui"@ + suffix(os), "overflow-gui"@ + suffix(os)]);
    }
    r
}

/// The address of a repository on GitHub.
pub open spec fn repo_url(repo: Seq<char>) -> Seq<char> {
    "https://github.com/"@ + repo
}

/// The steps of bringing the persistent checkout of a repository to `main`.
#[derive(Clone, Copy, PartialEq, Eq, Debug, Structural)]
pub enum EtapaCheckout {
    /// Fetch `origin main` (its failure is tolerated: the reset decides).
    Buscar,
    /// Reset to `origin/main`.
    Resetar,
    /// Remove the corrupt checkout.
    Apagar,
    /// Clone afresh (its result is the result of the sync).
    Clonar,
    /// The checkout is at `main`.
    Pronto,
}

/// Where the sync starts: an existing checkout (`.git` is there) is updated, else the
/// repository is cloned.
pub fn inicio_checkout(has_git: bool) -> (r: EtapaCheckout)
    ensures
        r == if has_git {
            EtapaCheckout::Buscar
        } else {
            EtapaCheckout::Clonar
        },
{
    if has_git {
        EtapaCheckout::Buscar
    } else {
        EtapaCheckout::Clonar
    }
}

pub open spec fn next_checkout(step: EtapaCheckout, ok: bool) -> EtapaCheckout {
    match step {
        EtapaCheckout::Buscar => EtapaCheckout::Resetar,
        EtapaCheckout::Resetar => if ok {
            EtapaCheckout::Pronto
        } else {
            EtapaCheckout::Apagar
        },
        EtapaCheckout::Apagar => EtapaCheckout::Clonar,
        other => other,
    }
}

/// The step after `step` succeeded (`ok`) or failed: a failed reset means a corrupt
/// checkout, which is removed and cloned again.
pub fn proxima_etapa_checkout(step: EtapaCheckout, ok: bool) -> (r: EtapaCheckout)
    ensures
        r == next_checkout(step, ok),
{
    match step {
        EtapaCheckout::Buscar => EtapaCheckout::Resetar,
        EtapaCheckout::Resetar => if ok {
            EtapaCheckout::Pronto
        } else {
            EtapaCheckout::Apagar
        },
        EtapaCheckout::Apagar => EtapaCheckout::Clonar,
        other => other,
    }
}

/// How to bring an existing checkout `src` to `main`: a shallow fetch of `origin main`.
pub fn git_fetch(src: &str) -> (r: Invocacao)
    ensures
        r@ == ("git"@, seq!["-C"@, src@, "fetch"@, "--depth"@, "1"@, "origin"@, "main"@]),
{
    let mut args = strings(&["-C"]);
    push_str(&mut args, src);
    push_str(&mut args, "fetch");
    push_str(&mut args, "--depth");
    push_str(&mut args, "1");
    push_str(&mut args, "origin");
    push_str(&mut args, "main");
    assert(views(args@) =~= seq!["-C"@, src@, "fetch"@, "--depth"@, "1"@, "origin"@, "main"@]);
    Invocacao { programa: "git".to_owned(), args }
}

/// How to reset the checkout `src` to `origin/main` (a failure means a corrupt
/// checkout, which is removed and cloned again).
pub fn git_reset(src: &str) -> (r: Invocacao)
    ensures
        r@ == ("git"@, seq!["-C"@, src@, "reset"@, "--hard"@, "origin/main"@]),
{
    let mut args = strings(&["-C"]);
    push_str(&mut args, src);
    push_str(&mut args, "reset");
    push_str(&mut args, "--hard");
    push_str(&mut args, "origin/main");
    assert(views(args@) =~= seq!["-C"@, src@, "reset"@, "--hard"@, "origin/main"@]);
    Invocacao { programa: "git".to_owned(), args }
}

/// How to clone `repo` shallowly into `src`.
pub fn git_clone(repo: &str, src: &str) -> (r: Invocacao)
    ensures
        r@ == ("git"@, seq!["clone"@, "--depth"@, "1"@, repo_url(repo@), src@]),
{
    let mut url = "https://github.com/".to_owned();
    url.append(repo);
    let mut args = strings(&["clone", "--depth", "1"]);
    push_str(&mut args, url.as_str());
    push_str(&mut args, src);
    assert(views(args@) =~= seq!["clone"@, "--depth"@, "1"@, repo_url(repo@), src@]);
    Invocacao { programa: "git".to_owned(), args }
}

/// The cargo arguments that move the git dependency `dep` of `manifest` to the head of
/// its branch (the committed lock pins an old commit).
pub fn cargo_update_args(manifest: &str, dep: &str) -> (r: Vec<String>)
    ensures
        views(r@) == seq!["update"@, "--manifest-path"@, manifest@, "-p"@, dep@],
{
    let mut args = strings(&["update", "--manifest-path"]);
    push_str(&mut args, manifest);
    push_str(&mut args, "-p");
    push_str(&mut args, dep);
    assert(views(args@) =~= seq!["update"@, "--manifest-path"@, manifest@, "-p"@, dep@]);
    args
}

/// The cargo arguments of an incremental release build of `manifest`, followed by
/// `extra`.
pub fn cargo_build_args(manifest: &str, extra: &Vec<String>) -> (r: Vec<String>)
    ensures
        views(r@) == seq!["build"@, "--release"@, "--manifest-path"@, manifest@] + views(extra@),
{
    let mut args = strings(&["build", "--release", "--manifest-path"]);
    push_str(&mut args, manifest);
    let ghost head = views(args@);
    let mut i: usize = 0;
    while i < extra.len()
        invariant
            i <= extra.len(),
            head == seq!["build"@, "--release"@, "--manifest-path"@, manifest@],
            views(args@) == head + views(extra@).subrange(0, i as int),
        decreases extra.len() - i,
    {
        push_str(&mut args, extra[i].as_str());
        assert(views(extra@).subrange(0, i + 1) =~= views(extra@).subrange(0, i as int).push(
            extra@[i as int]@,
        ));
        i = i + 1;
    }
    assert(views(extra@).subrange(0, extra@.len() as int) =~= views(extra@));
    args
}

/// The variable every build gets so they share one `target/`.
pub fn target_env_name() -> (r: &'static str)
    ensures
        r@ == "CARGO_TARGET_DIR"@,
{
    "CARGO_TARGET_DIR"
}

/// The binary a build leaves in the shared target:
/// `~/.schematize/updater/build/target/release/<bin>`.
pub fn built_binary(bin: &str) -> (r: Caminho)
    ensures
        r@ == CaminhoV::SobHome(
            seq![".schematize"@, "updater"@, "build"@, "target"@, "release"@, bin@],
        ),
{
    let mut p = strings(&[".schematize", "updater", "build", "target", "release"]);
    push_str(&mut p, bin);
    assert(views(p@) =~= seq![".schematize"@, "updater"@, "build"@, "target"@, "release"@, bin@]);
    Caminho::SobHome(p)
}

/// The per-repository `target/` directories left from before the shared one, removed
/// after a successful build: those of the CLI, the GUI and the updater's window.
pub fn targets_antigos() -> (r: Vec<Caminho>)
    ensures
        r@.len() == 3,
        r@[0]@ == CaminhoV::SobHome(
            seq![".schematize"@, "updater"@, "build"@, repo_name(APP_REPO@), "target"@],
        ),
        r@[1]@ == CaminhoV::SobHome(
            seq![".schematize"@, "updater"@, "build"@, repo_name(GUI_REPO@), "target"@],
        ),
        r@[2]@ == CaminhoV::SobHome(
            seq![".schematize"@, "updater"@, "build"@, repo_name(UPDATER_GUI_REPO@), "target"@],
        ),
{
    let mut r: Vec<Caminho> = Vec::new();
    let a = build_src_dir(APP_REPO).join("target");
    assert(seq![".schematize"@, "updater"@, "build"@, repo_name(APP_REPO@)].push("target"@) =~= seq![
        ".schematize"@,
        "updater"@,
        "build"@,
        repo_name(APP_REPO@),
        "target"@,
    ]);
    let b = build_src_dir(GUI_REPO).join("target");
    assert(seq![".schematize"@, "updater"@, "build"@, repo_name(GUI_REPO@)].push("target"@) =~= seq![
        ".schematize"@,
        "updater"@,
        "build"@,
        repo_name(GUI_REPO@),
        "target"@,
    ]);
    let c = build_src_dir(UPDATER_GUI_REPO).join("target");
    assert(seq![".schematize"@, "updater"@, "build"@, repo_name(UPDATER_GUI_REPO@)].push("target"@)
        =~= seq![".schematize"@, "updater"@, "build"@, repo_name(UPDATER_GUI_REPO@), "target"@]);
    r.push(a);
    r.push(b);
    r.push(c);
    r
}

/// The name of the new file written beside a binary before it is renamed over it:
/// `<name>.novo` (`schematize.novo` when the destination has no usable name). Being in
/// the same directory keeps the rename on one file system.
pub fn nome_temporario(file_name: Option<&str>) -> (r: String)
    ensures
        r@ == match file_name {
            Some(n) => n@,
            None => "schematize"@,
        } + ".novo"@,
{
    let mut r = match file_name {
        Some(n) => n.to_owned(),
        None => "schematize".to_owned(),
    };
    r.append(".novo");
    r
}

/// The version reported after installing: the one the installed binary reports, else
/// the target.
pub fn versao_relatada(installed: Option<String>, target: &str) -> (r: String)
    ensures
        r@ == match installed {
            Some(v) => v@,
            None => target@,
        },
{
    match installed {
        Some(v) => v,
        None => target.to_owned(),
    }
}

/// The hint printed after installing, about the PATH of open terminals.
pub fn dica_de_path(os: Os) -> (r: &'static str)
    ensures
        os != Os::Windows ==> r@
            == "  Se o comando `schematize` não for achado, reabra o terminal (PATH) ou rode: source ~/.bashrc"@,
        os == Os::Windows ==> r@ == "  Reabra o terminal pra o PATH pegar o `schematize`."@,
{
    if os != Os::Windows {
        "  Se o comando `schematize` não for achado, reabra o terminal (PATH) ou rode: source ~/.bashrc"
    } else {
        "  Reabra o terminal pra o PATH pegar o `schematize`."
    }
}

} // verus!
