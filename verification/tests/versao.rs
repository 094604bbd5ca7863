use lib::versao::{
    installed_app_version, installed_version_of, interpretar_pin, latest_app_version,
    latest_version_of, parse_cargo_version, read_pin, semver_lt, target_version,
    cargo_toml_url, cargo_toml_url_of, is_unpin_lowered,
};

#[test]
fn parse_version_do_cargo() {
    let toml = "[package]\nname = \"schematize\"\nversion = \"0.34.1\"\nedition = \"2021\"\n";
    assert_eq!(parse_cargo_version(toml).as_deref(), Some("0.34.1"));
}

#[test]
fn semver_compara() {
    assert!(semver_lt("0.33.2", "0.34.0"));
    assert!(semver_lt("0.34.0", "0.34.1"));
    assert!(!semver_lt("0.34.1", "0.34.1"));
    assert!(!semver_lt("1.0.0", "0.34.1"));
}

#[test]
fn latest_desafixa_em_vez_de_virar_versao() {
    assert_eq!(interpretar_pin("latest").unwrap(), None);
    assert_eq!(interpretar_pin("LATEST").unwrap(), None);
    assert_eq!(interpretar_pin("  latest  ").unwrap(), None);
    for x in ["", "none", "nenhum", "-"] {
        assert_eq!(interpretar_pin(x).unwrap(), None, "{x:?} devia desafixar");
    }
}

#[test]
fn versao_passa_com_ou_sem_o_v_da_tag() {
    assert_eq!(interpretar_pin("0.57.0").unwrap(), Some("0.57.0".into()));
    assert_eq!(interpretar_pin("v0.57.0").unwrap(), Some("0.57.0".into()), "o `v` da tag");
}

#[test]
fn lixo_e_recusado_com_mensagem_acionavel() {
    for x in ["abacaxi", "main", "HEAD", "--force"] {
        let e = interpretar_pin(x).unwrap_err();
        assert!(e.contains("0.57.0"), "a mensagem tem de dar o formato: {e}");
        assert!(e.contains("pin latest"), "e a saída: {e}");
    }
}

#[test]
fn pin_recusado_tem_a_mensagem_exata() {
    assert_eq!(
        interpretar_pin("  main ").unwrap_err(),
        "`main` não parece uma versão. Use algo como `0.57.0`, ou `pin latest` para voltar a seguir a última publicada"
    );
    // a lone `v` is not a version either
    assert!(interpretar_pin("v").is_err());
    assert!(interpretar_pin("vv1").is_err());
}

#[test]
fn pin_maiusculas_e_misturas_desafixam() {
    assert_eq!(interpretar_pin("None").unwrap(), None);
    assert_eq!(interpretar_pin("NeNhUm").unwrap(), None);
    assert_eq!(interpretar_pin("\tLatest\n").unwrap(), None);
}

#[test]
fn pin_gravado_e_lido_de_volta_igual() {
    for x in ["  v1.2.3  ", "0.57.0", "\t7\n"] {
        let v = interpretar_pin(x).unwrap().unwrap();
        assert_eq!(read_pin(Some(v.clone())), Some(v));
    }
}

#[test]
fn pin_gravado_e_interpretado_de_novo_igual() {
    for x in ["v0.57.0", " 1.2.3-rc1 ", "9", "v1.0-ÉTÉ", "2.0-İΣ"] {
        let v = interpretar_pin(x).unwrap().unwrap();
        assert_eq!(interpretar_pin(&v).unwrap(), Some(v.clone()));
    }
}

#[test]
fn palavras_que_desafixam_ja_em_minusculas() {
    assert!(is_unpin_lowered("latest"));
    assert!(is_unpin_lowered("-"));
    assert!(!is_unpin_lowered("LATEST"));
    assert!(!is_unpin_lowered("0.57.0"));
}

#[test]
fn read_pin_vazio_e_ausente() {
    assert_eq!(read_pin(None), None);
    assert_eq!(read_pin(Some("   \n".to_string())), None);
    assert_eq!(read_pin(Some(" 0.60.1\n".to_string())), Some("0.60.1".to_string()));
}

#[test]
fn alvo_e_o_pin_quando_ha() {
    assert_eq!(
        target_version(Some("0.50.0".into()), Some("0.60.0".into())),
        Some("0.50.0".to_string())
    );
    assert_eq!(target_version(None, Some("0.60.0".into())), Some("0.60.0".to_string()));
    assert_eq!(target_version(None, None), None);
}

#[test]
fn cargo_toml_pega_o_primeiro_version_valido() {
    let toml = "[package]\r\nname = \"x\"\r\nversions = 3\r\n  version   =   \"\"1.2.3\"\" \r\n[dependencies]\nversion = \"9\"\n";
    assert_eq!(parse_cargo_version(toml).as_deref(), Some("1.2.3"));
    assert_eq!(parse_cargo_version("version = \"abc\"\nversion = \"2.0\""), Some("2.0".into()));
    assert_eq!(parse_cargo_version("version.workspace = true\n"), None);
    assert_eq!(parse_cargo_version(""), None);
    assert_eq!(parse_cargo_version("version = \"\""), None);
}

#[test]
fn ultima_versao_vem_do_corpo_baixado() {
    assert_eq!(latest_app_version(None), None);
    assert_eq!(
        latest_app_version(Some("[package]\nversion = \"0.62.0\"\n".into())),
        Some("0.62.0".to_string())
    );
    assert_eq!(latest_version_of(Some("nada".into())), None);
    assert_eq!(
        cargo_toml_url(),
        "https://raw.githubusercontent.com/schematizeme/schematize-cli/main/Cargo.toml"
    );
    assert_eq!(
        cargo_toml_url_of("org/repo"),
        "https://raw.githubusercontent.com/org/repo/main/Cargo.toml"
    );
}

#[test]
fn versao_instalada_e_a_ultima_palavra_com_digito() {
    assert_eq!(installed_app_version(Some("overflow 0.45.0".into())), Some("0.45.0".into()));
    assert_eq!(installed_version_of(Some("schematize 0.44.1\n".into())), Some("0.44.1".into()));
    assert_eq!(installed_version_of(Some("schematize dev".into())), None);
    assert_eq!(installed_version_of(Some("   ".into())), None);
    assert_eq!(installed_version_of(None), None);
    assert_eq!(installed_version_of(Some("7".into())), Some("7".into()));
}

#[test]
fn semver_numerico_por_segmento_e_sufixos_ignorados() {
    assert!(semver_lt("0.9.0", "0.10.0"));
    assert!(!semver_lt("0.10.0", "0.9.0"));
    assert!(!semver_lt("1.0", "1.0.0"));
    assert!(!semver_lt("1.0.0", "1.0"));
    assert!(!semver_lt("1.0.0-beta", "1.0.0"));
    assert!(semver_lt("1.0.0+abc", "1.0.1"));
    assert!(semver_lt("", "0.0.1"));
    assert!(!semver_lt("abc", "0"));
    // a segment too large for 64 bits is dropped
    assert!(semver_lt("1.99999999999999999999999.2", "1.3"));
}

#[test]
fn semver_ordem_estrita() {
    let vs = ["0.1", "0.1.1", "0.2", "1.0.0", "1.0.0-rc1", "2"];
    for a in vs {
        assert!(!semver_lt(a, a));
        for b in vs {
            assert!(!(semver_lt(a, b) && semver_lt(b, a)));
            for c in vs {
                if semver_lt(a, b) && semver_lt(b, c) {
                    assert!(semver_lt(a, c));
                }
            }
        }
    }
}
