use lib::estado::{familia_nome, status_lines, Status};
use lib::plataforma::{LinuxFam, Os};

fn base() -> Status {
    Status {
        os: Os::Linux,
        familia: LinuxFam::Debian,
        arch: "x86_64".into(),
        tem_binario: true,
        instalado: Some("0.60.0".into()),
        publicada: None,
        deployer: None,
        pin: None,
        dir: "/home/u/.cargo/bin".into(),
    }
}

#[test]
fn relatorio_de_status() {
    let l = status_lines("1.2.3", &base());
    assert_eq!(
        l,
        vec![
            "schematize-updater : v1.2.3",
            "plataforma         : Linux (Debian) / x86_64",
            "binário pronto?    : sim (caminho rápido disponível)",
            "app instalado      : v0.60.0",
            "última publicada   : ? (rede)",
            "dir de instalação  : /home/u/.cargo/bin",
        ]
    );
}

#[test]
fn relatorio_com_deployer_e_pin() {
    let mut s = base();
    s.os = Os::Mac;
    s.tem_binario = false;
    s.instalado = None;
    s.publicada = Some("0.61.0".into());
    s.deployer = Some((None, Some("2.0.0".into())));
    s.pin = Some("0.59.0".into());
    let l = status_lines("1.2.3", &s);
    assert_eq!(
        l,
        vec![
            "schematize-updater : v1.2.3",
            "plataforma         : macOS / x86_64",
            "binário pronto?    : não (compila do fonte)",
            "app instalado      : nenhum",
            "última publicada   : v0.61.0",
            "deployer instalado : presente, mas não responde",
            "deployer publicado : v2.0.0",
            "versão fixada (pin): 0.59.0",
            "dir de instalação  : /home/u/.cargo/bin",
        ]
    );
    assert_eq!(familia_nome(LinuxFam::Unknown), "Unknown");
    assert_eq!(familia_nome(LinuxFam::Rpm), "Rpm");
}
