use lib::cli::{interpretar_comando, Comando};
use lib::instalacao::{
    apos_binario, aviso_de_falha, built_binary, cargo_build_args, cargo_update_args, decide_rota,
    dica_de_path, encerrar_apos, git_clone, git_fetch, git_reset, interregno_apos,
    nome_temporario, obrigatorio, inicio_checkout, proxima_etapa_checkout, EtapaCheckout, proxima_etapa_fonte, EtapaFonte, plano_de_builds, proxima_etapa_binario, release_asset_url,
    targets_antigos, versao_relatada, EtapaBinario, Papel, Rota,
};
use lib::plataforma::{Caminho, Os};

#[test]
fn rota_da_instalacao() {
    let t = Some("0.60.0".to_string());
    assert_eq!(
        decide_rota(false, &None, &None, true).unwrap_err(),
        "não consegui resolver a versão-alvo (rede/GitHub indisponível?)."
    );
    assert_eq!(decide_rota(false, &t, &t, true).unwrap(), Rota::NadaAFazer);
    assert_eq!(decide_rota(true, &t, &t, true).unwrap(), Rota::Binario);
    assert_eq!(decide_rota(false, &t, &Some("0.59.0".into()), false).unwrap(), Rota::Fonte);
    assert_eq!(decide_rota(false, &t, &None, true).unwrap(), Rota::Binario);
}

#[test]
fn depois_do_binario() {
    assert_eq!(apos_binario("1.0", &Ok(true)), None);
    assert_eq!(
        apos_binario("1.0", &Ok(false)).unwrap(),
        "→ sem binário compatível pra v1.0 — compilando do fonte…"
    );
    assert_eq!(
        apos_binario("1.0", &Err("disco".into())).unwrap(),
        "→ via binário falhou (disco) — compilando do fonte…"
    );
}

#[test]
fn etapas_do_binario() {
    assert_eq!(proxima_etapa_binario(EtapaBinario::BaixarCli, false), EtapaBinario::SemBinario);
    assert_eq!(proxima_etapa_binario(EtapaBinario::BaixarCli, true), EtapaBinario::TestarCli);
    assert_eq!(proxima_etapa_binario(EtapaBinario::TestarCli, false), EtapaBinario::SemBinario);
    assert_eq!(proxima_etapa_binario(EtapaBinario::TestarCli, true), EtapaBinario::BaixarGui);
    assert_eq!(proxima_etapa_binario(EtapaBinario::BaixarGui, false), EtapaBinario::Instalar { com_gui: false });
    assert_eq!(proxima_etapa_binario(EtapaBinario::BaixarGui, true), EtapaBinario::Instalar { com_gui: true });
    assert_eq!(
        release_asset_url("0.57.0", "schematize-linux-x86_64"),
        "https://github.com/schematizeme/schematize-cli/releases/download/v0.57.0/schematize-linux-x86_64"
    );
}

#[test]
fn plano_de_builds_na_ordem() {
    let p = plano_de_builds(Os::Linux, true);
    assert_eq!(p.len(), 4);
    assert_eq!(p[0].repo, "schematizeme/schematize-cli");
    assert_eq!(p[0].extra, vec!["--no-default-features", "--features", "sqlite-do-sistema"]);
    assert_eq!(p[1].refresh_dep, Some("schematize"));
    assert_eq!(p[1].bin, "schematize-gui");
    assert_eq!(p[2].repo, "schematizeme/schematize-updater-gui");
    assert!(p[2].extra.is_empty());
    assert_eq!(p[3].papel, Papel::Updater);
    assert_eq!(p[3].bin, "schematize-updater");
    let p = plano_de_builds(Os::Windows, false);
    assert!(p[0].extra.is_empty());
    assert_eq!(p[0].bin, "schematize.exe");
    assert!(obrigatorio(Papel::Cli) && obrigatorio(Papel::Gui));
    assert!(!obrigatorio(Papel::UpdaterGui) && !obrigatorio(Papel::Updater));
}

#[test]
fn depois_de_cada_build() {
    assert_eq!(aviso_de_falha(Papel::Cli, "x"), None);
    assert_eq!(
        aviso_de_falha(Papel::UpdaterGui, "x").unwrap(),
        "aviso: build da GUI do updater falhou (opcional, seguindo): x"
    );
    assert_eq!(
        aviso_de_falha(Papel::Updater, "x").unwrap(),
        "aviso: não consegui me atualizar (x) — o app está atualizado; tento de novo no próximo update."
    );
    assert_eq!(interregno_apos(Papel::Cli, Os::Linux), Some("overflow".into()));
    assert_eq!(interregno_apos(Papel::Gui, Os::Windows), Some("overflow-gui.exe".into()));
    assert_eq!(interregno_apos(Papel::Updater, Os::Linux), None);
    assert_eq!(encerrar_apos(Papel::Gui, Os::Linux), vec!["schematize-gui", "overflow-gui"]);
    assert!(encerrar_apos(Papel::Cli, Os::Linux).is_empty());
}

#[test]
fn comandos_de_git_e_cargo() {
    assert_eq!(git_fetch("/s").args, vec!["-C", "/s", "fetch", "--depth", "1", "origin", "main"]);
    assert_eq!(git_reset("/s").args, vec!["-C", "/s", "reset", "--hard", "origin/main"]);
    assert_eq!(
        git_clone("o/r", "/s").args,
        vec!["clone", "--depth", "1", "https://github.com/o/r", "/s"]
    );
    assert_eq!(
        cargo_update_args("/s/Cargo.toml", "schematize"),
        vec!["update", "--manifest-path", "/s/Cargo.toml", "-p", "schematize"]
    );
    assert_eq!(
        cargo_build_args("/m", &vec!["--features".into(), "a".into()]),
        vec!["build", "--release", "--manifest-path", "/m", "--features", "a"]
    );
    match built_binary("schematize") {
        Caminho::SobHome(p) => assert_eq!(p.join("/"), ".schematize/updater/build/target/release/schematize"),
        _ => panic!(),
    }
    let t = targets_antigos();
    assert_eq!(t.len(), 3);
    match &t[1] {
        Caminho::SobHome(p) => assert_eq!(p.join("/"), ".schematize/updater/build/schematize_gui_slint/target"),
        _ => panic!(),
    }
}

#[test]
fn temporario_e_relatorio() {
    assert_eq!(nome_temporario(Some("schematize")), "schematize.novo");
    assert_eq!(nome_temporario(None), "schematize.novo");
    assert_eq!(versao_relatada(Some("0.61.0".into()), "0.60.0"), "0.61.0");
    assert_eq!(versao_relatada(None, "0.60.0"), "0.60.0");
    assert!(dica_de_path(Os::Linux).contains("source ~/.bashrc"));
    assert!(dica_de_path(Os::Windows).contains("Reabra o terminal"));
}

fn args(v: &[&str]) -> Vec<String> {
    v.iter().map(|s| s.to_string()).collect()
}

#[test]
fn linha_de_comando() {
    assert!(matches!(interpretar_comando(&args(&[])), Comando::Ajuda));
    assert!(matches!(interpretar_comando(&args(&["-h"])), Comando::Ajuda));
    assert!(matches!(interpretar_comando(&args(&["-V"])), Comando::Versao));
    assert!(matches!(interpretar_comando(&args(&["install"])), Comando::Instalar { force: false }));
    assert!(matches!(
        interpretar_comando(&args(&["upgrade", "x", "--force"])),
        Comando::Instalar { force: true }
    ));
    assert!(matches!(interpretar_comando(&args(&["status"])), Comando::Status));
    assert!(matches!(interpretar_comando(&args(&["launch"])), Comando::Lancar));
    match interpretar_comando(&args(&["pin", "v0.57.0"])) {
        Comando::Fixar(v) => assert_eq!(v, "0.57.0"),
        _ => panic!(),
    }
    match interpretar_comando(&args(&["pin", "latest"])) {
        Comando::Desafixar(m) => assert_eq!(m, "pin removido — seguindo a última publicada."),
        _ => panic!(),
    }
    match interpretar_comando(&args(&["pin"])) {
        Comando::Erro(e) => assert!(e.starts_with("uso: schematize-updater pin")),
        _ => panic!(),
    }
    match interpretar_comando(&args(&["pin", "main"])) {
        Comando::Erro(e) => assert!(e.contains("pin latest")),
        _ => panic!(),
    }
    match interpretar_comando(&args(&["unpin"])) {
        Comando::Desafixar(m) => assert_eq!(m, "pin removido — seguindo latest."),
        _ => panic!(),
    }
    match interpretar_comando(&args(&["xyz"])) {
        Comando::Erro(e) => {
            assert_eq!(e, "subcomando desconhecido: `xyz` (veja `schematize-updater help`).")
        }
        _ => panic!(),
    }
}

#[test]
fn etapas_do_checkout() {
    assert_eq!(inicio_checkout(true), EtapaCheckout::Buscar);
    assert_eq!(inicio_checkout(false), EtapaCheckout::Clonar);
    assert_eq!(proxima_etapa_checkout(EtapaCheckout::Buscar, false), EtapaCheckout::Resetar);
    assert_eq!(proxima_etapa_checkout(EtapaCheckout::Resetar, true), EtapaCheckout::Pronto);
    assert_eq!(proxima_etapa_checkout(EtapaCheckout::Resetar, false), EtapaCheckout::Apagar);
    assert_eq!(proxima_etapa_checkout(EtapaCheckout::Apagar, false), EtapaCheckout::Clonar);
}

#[test]
fn ordem_do_build_do_fonte() {
    assert_eq!(proxima_etapa_fonte(EtapaFonte::Toolchain, false), EtapaFonte::Falhou);
    assert_eq!(proxima_etapa_fonte(EtapaFonte::Toolchain, true), EtapaFonte::Dependencias);
    assert_eq!(proxima_etapa_fonte(EtapaFonte::Dependencias, false), EtapaFonte::Falhou);
    assert_eq!(proxima_etapa_fonte(EtapaFonte::Dependencias, true), EtapaFonte::Purga);
    assert_eq!(proxima_etapa_fonte(EtapaFonte::Purga, false), EtapaFonte::Build(0));
    assert_eq!(proxima_etapa_fonte(EtapaFonte::Build(0), false), EtapaFonte::Falhou);
    assert_eq!(proxima_etapa_fonte(EtapaFonte::Build(1), true), EtapaFonte::Build(2));
    assert_eq!(proxima_etapa_fonte(EtapaFonte::Build(2), false), EtapaFonte::Build(3));
    assert_eq!(proxima_etapa_fonte(EtapaFonte::Build(3), false), EtapaFonte::Limpeza);
    assert_eq!(proxima_etapa_fonte(EtapaFonte::Limpeza, true), EtapaFonte::Pronto);
    assert_eq!(proxima_etapa_fonte(EtapaFonte::Falhou, true), EtapaFonte::Falhou);
}
