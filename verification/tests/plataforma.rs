use lib::comando::Invocacao;
use lib::plataforma::{
    app_bin, asset_names, bin_names, bin_names_interregno, build_src_dir, cargo_after_rustup,
    desktop_entry, ensure_build_deps, ensure_build_deps_linux, ensure_build_deps_mac,
    ensure_build_deps_windows, ensure_toolchain, exe_suffix, install_dir, launcher_icon,
    family_of_lowered, linux_family, os, pin_file, pkg_install, rc_atualizado, rc_files, run_words,
    shared_target_dir, state_dir, sudo, tem_sqlite_do_sistema, updater_bin_name,
    updater_gui_bin, user_path_append, user_path_lacks, wants_launcher, Caminho, LinuxFam, Os,
    Rustup, Sondagem, Toolchain,
};

fn parts(c: &Caminho) -> (bool, Vec<String>) {
    match c {
        Caminho::SobHome(p) => (true, p.clone()),
        Caminho::Literal(p) => (false, p.clone()),
    }
}

fn words(i: &Invocacao) -> Vec<String> {
    let mut v = vec![i.programa.clone()];
    v.extend(i.args.iter().cloned());
    v
}

#[test]
fn sistema_pelo_nome_do_alvo() {
    assert_eq!(os("linux"), Os::Linux);
    assert_eq!(os("macos"), Os::Mac);
    assert_eq!(os("windows"), Os::Windows);
    assert_eq!(os("freebsd"), Os::Linux);
}

#[test]
fn familia_linux_pelo_os_release() {
    assert_eq!(linux_family("NAME=\"Ubuntu\"\nID=ubuntu\n"), LinuxFam::Debian);
    assert_eq!(linux_family("ID=\"opensuse-tumbleweed\""), LinuxFam::Rpm);
    assert_eq!(linux_family("NAME=Fedora Linux"), LinuxFam::Rpm);
    assert_eq!(linux_family("ID=ARCH"), LinuxFam::Arch);
    assert_eq!(linux_family("ID=Manjaro"), LinuxFam::Arch);
    assert_eq!(linux_family(""), LinuxFam::Unknown);
    assert_eq!(linux_family("ID=gentoo"), LinuxFam::Unknown);
    assert_eq!(family_of_lowered("id=pop"), LinuxFam::Debian);
    assert_eq!(family_of_lowered("ID=ARCH"), LinuxFam::Unknown);
}

#[test]
fn sufixo_e_nomes_de_binarios() {
    assert_eq!(exe_suffix(Os::Windows), ".exe");
    assert_eq!(exe_suffix(Os::Linux), "");
    assert_eq!(bin_names(Os::Mac), ("schematize".to_string(), "schematize-gui".to_string()));
    assert_eq!(
        bin_names(Os::Windows),
        ("schematize.exe".to_string(), "schematize-gui.exe".to_string())
    );
    assert_eq!(bin_names_interregno(Os::Linux), ("overflow".to_string(), "overflow-gui".to_string()));
    assert_eq!(updater_gui_bin(Os::Windows), "schematize-updater-gui.exe");
    assert_eq!(updater_bin_name(Os::Linux), "schematize-updater");
}

#[test]
fn assets_por_plataforma() {
    assert_eq!(
        asset_names(Os::Linux, "x86_64"),
        Some(("schematize-linux-x86_64", "schematize-gui-linux-x86_64"))
    );
    assert_eq!(
        asset_names(Os::Mac, "aarch64"),
        Some(("schematize-macos-arm64", "schematize-gui-macos-arm64"))
    );
    assert_eq!(
        asset_names(Os::Windows, "x86_64"),
        Some(("schematize-windows-x86_64.exe", "schematize-gui-windows-x86_64.exe"))
    );
    assert_eq!(asset_names(Os::Linux, "aarch64"), None);
    assert_eq!(asset_names(Os::Windows, "aarch64"), None);
}

#[test]
fn lugares_sob_o_home() {
    assert_eq!(parts(&install_dir()), (true, vec![".cargo".into(), "bin".into()]));
    assert_eq!(parts(&state_dir()), (true, vec![".schematize".into(), "updater".into()]));
    assert_eq!(
        parts(&build_src_dir("schematizeme/schematize-cli")),
        (true, vec![".schematize".into(), "updater".into(), "build".into(), "schematize-cli".into()])
    );
    assert_eq!(
        parts(&build_src_dir("semorg")),
        (true, vec![".schematize".into(), "updater".into(), "build".into(), "semorg".into()])
    );
    assert_eq!(
        parts(&shared_target_dir()),
        (true, vec![".schematize".into(), "updater".into(), "build".into(), "target".into()])
    );
    assert_eq!(
        parts(&pin_file()),
        (true, vec![".schematize".into(), "updater".into(), "pin".into()])
    );
}

#[test]
fn binario_do_app_instalado_ou_pelo_path() {
    assert_eq!(
        parts(&app_bin(Os::Linux, false, true)),
        (true, vec![".cargo".into(), "bin".into(), "schematize".into()])
    );
    assert_eq!(parts(&app_bin(Os::Windows, true, false)), (false, vec!["schematize-gui.exe".into()]));
}

#[test]
fn sudo_so_quando_preciso() {
    assert_eq!(sudo(Some("0".into()), true), "");
    assert_eq!(sudo(Some("1000".into()), true), "sudo");
    assert_eq!(sudo(Some("1000".into()), false), "");
    assert_eq!(sudo(None, true), "sudo");
    assert!(tem_sqlite_do_sistema(Some(String::new())));
    assert!(!tem_sqlite_do_sistema(None));
}

#[test]
fn comando_por_palavras() {
    assert_eq!(run_words(&vec![]).err(), Some("comando vazio".to_string()));
    let i = run_words(&vec!["apt-get".into(), "update".into()]).unwrap();
    assert_eq!(words(&i), vec!["apt-get", "update"]);
    let i = pkg_install("sudo", &["dnf", "install"]).unwrap();
    assert_eq!(words(&i), vec!["sudo", "dnf", "install"]);
    let i = pkg_install("", &["pacman", "-S"]).unwrap();
    assert_eq!(words(&i), vec!["pacman", "-S"]);
    assert!(pkg_install("", &[]).is_err());
}

#[test]
fn dependencias_por_familia() {
    let p = ensure_build_deps_linux(LinuxFam::Debian, false, "sudo");
    assert_eq!(p.passos.len(), 3);
    assert_eq!(words(&p.passos[0].cmd), vec!["sudo", "apt-get", "update", "-qq"]);
    assert!(!p.passos[0].obrigatorio && p.passos[1].obrigatorio && !p.passos[2].obrigatorio);
    assert_eq!(p.passos[1].cmd.args.len(), 17);
    assert!(p.erro.is_none());
    let p = ensure_build_deps_linux(LinuxFam::Rpm, true, "");
    assert_eq!(p.passos[0].cmd.programa, "zypper");
    let p = ensure_build_deps_linux(LinuxFam::Rpm, false, "");
    assert_eq!(p.passos[0].cmd.programa, "dnf");
    assert_eq!(p.passos[1].cmd.args.last().unwrap(), "dejavu-sans-fonts");
    let p = ensure_build_deps_linux(LinuxFam::Arch, false, "");
    assert_eq!(p.passos.len(), 1);
    assert_eq!(p.passos[0].cmd.args.last().unwrap(), "noto-fonts-cjk");
    let p = ensure_build_deps_linux(LinuxFam::Unknown, false, "sudo");
    assert!(p.passos.is_empty());
    assert!(p.erro.unwrap().starts_with("distro Linux não reconhecida"));
}

#[test]
fn dependencias_mac_e_windows() {
    let p = ensure_build_deps_mac(Some("/Library/Developer/CommandLineTools".into()));
    assert!(p.passos.is_empty() && p.erro.is_none() && p.aviso.is_none());
    let p = ensure_build_deps_mac(None);
    assert_eq!(words(&p.passos[0].cmd), vec!["xcode-select", "--install"]);
    assert!(p.erro.is_some());
    let p = ensure_build_deps_windows(false, true, false);
    assert!(p.passos.is_empty() && p.erro.is_none());
    let p = ensure_build_deps_windows(false, false, true);
    assert_eq!(p.passos[0].cmd.programa, "winget");
    assert!(p.erro.unwrap().starts_with("instalei o MSVC"));
    let p = ensure_build_deps_windows(false, false, false);
    assert!(p.passos.is_empty());
    assert!(p.erro.unwrap().starts_with("no Windows a compilação"));
    let s = Sondagem {
        familia: LinuxFam::Arch,
        tem_zypper: false,
        prefixo_sudo: "sudo".into(),
        saida_xcode: None,
        tem_link: false,
        tem_cl: false,
        tem_winget: false,
    };
    assert_eq!(ensure_build_deps(Os::Linux, &s).passos[0].cmd.programa, "sudo");
    assert!(ensure_build_deps(Os::Mac, &s).erro.is_some());
}

#[test]
fn toolchain_decide_de_onde_vem_o_cargo() {
    match ensure_toolchain(Os::Linux, &Some("/home/u/.cargo/bin/cargo".into()), true) {
        Toolchain::Pronto(c) => assert_eq!(parts(&c), (false, vec!["/home/u/.cargo/bin/cargo".into()])),
        _ => panic!("cargo no PATH basta"),
    }
    match ensure_toolchain(
        Os::Windows,
        &Some("C:\\Users\\u\\.cargo\\bin\\cargo.exe\r\nC:\\other\\cargo.exe".into()),
        false,
    ) {
        Toolchain::Pronto(c) => {
            assert_eq!(parts(&c), (false, vec!["C:\\Users\\u\\.cargo\\bin\\cargo.exe".into()]))
        }
        _ => panic!("a primeira linha do `where`"),
    }
    match ensure_toolchain(Os::Windows, &Some(String::new()), true) {
        Toolchain::Pronto(c) => {
            assert_eq!(parts(&c), (true, vec![".cargo".into(), "bin".into(), "cargo.exe".into()]))
        }
        _ => panic!("o cargo absoluto basta"),
    }
    match ensure_toolchain(Os::Linux, &None, false) {
        Toolchain::Instalar(Rustup::Script(i)) => assert_eq!(i.programa, "sh"),
        _ => panic!("instala pelo script"),
    }
    match ensure_toolchain(Os::Windows, &None, false) {
        Toolchain::Instalar(Rustup::Baixar { url, args, .. }) => {
            assert_eq!(url, "https://win.rustup.rs/x86_64");
            assert_eq!(args, vec!["-y", "--profile", "minimal"]);
        }
        _ => panic!("baixa o rustup-init"),
    }
    assert!(cargo_after_rustup(Os::Linux, false, &None).is_err());
    match cargo_after_rustup(Os::Linux, false, &Some("/opt/cargo".into())) {
        Ok(c) => assert_eq!(parts(&c), (false, vec!["/opt/cargo".into()])),
        Err(_) => panic!(),
    }
    match cargo_after_rustup(Os::Linux, true, &None) {
        Ok(c) => assert_eq!(parts(&c), (true, vec![".cargo".into(), "bin".into(), "cargo".into()])),
        Err(_) => panic!(),
    }
}

#[test]
fn path_no_rc_e_idempotente() {
    assert_eq!(rc_files(), vec![".bashrc", ".profile", ".zshrc"]);
    let novo = rc_atualizado("alias x=y\n").unwrap();
    assert!(novo.starts_with("alias x=y\n"));
    assert!(novo.ends_with("export PATH=\"$HOME/.cargo/bin:$PATH\"\n"));
    assert_eq!(rc_atualizado(&novo), None);
    assert_eq!(rc_atualizado("export PATH=~/.cargo/bin:$PATH"), None);
    assert!(rc_atualizado("").is_some());
}

#[test]
fn path_do_windows() {
    assert!(!user_path_lacks("C:\\Users\\U\\.CARGO\\BIN;C:\\x", "C:\\Users\\u\\.cargo\\bin"));
    assert!(user_path_lacks("C:\\x", "C:\\Users\\u\\.cargo\\bin"));
    let i = user_path_append("D:\\b");
    assert_eq!(
        i.args[2],
        "[Environment]::SetEnvironmentVariable('Path', ([Environment]::GetEnvironmentVariable('Path','User') + ';D:\\b'), 'User')"
    );
}

#[test]
fn lancador_com_exec_absoluto() {
    assert!(wants_launcher(Os::Linux, true));
    assert!(!wants_launcher(Os::Mac, true));
    assert!(!wants_launcher(Os::Linux, false));
    assert_eq!(launcher_icon(None), "schematize");
    assert_eq!(launcher_icon(Some("/i.png".into())), "/i.png");
    let d = desktop_entry("/home/u/.cargo/bin/schematize-gui", "schematize");
    assert!(d.starts_with("[Desktop Entry]\nType=Application\n"));
    assert!(d.contains("\nExec=/home/u/.cargo/bin/schematize-gui\nIcon=schematize\n"));
    assert!(d.ends_with("StartupWMClass=schematize-gui\n"));
    assert!(d.contains("\nKeywords=schematize;skills;overdev;\n"));
}
