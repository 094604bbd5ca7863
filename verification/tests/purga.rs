use lib::plataforma::{Caminho, Os};
use lib::purga::{deve_remover, diretorios, nomes, remove_copias_fantasma, remove_em};

fn render(c: &Caminho, home: &str) -> String {
    match c {
        Caminho::SobHome(p) => {
            let mut s = home.to_string();
            for x in p {
                s.push('/');
                s.push_str(x);
            }
            s
        }
        Caminho::Literal(p) => p.join("/"),
    }
}

#[test]
fn so_nomes_exatos_da_casa() {
    let n = nomes(Os::Linux);
    assert_eq!(n.len(), 8, "4 binários x 2 nomes");
    assert_eq!(n.iter().filter(|x| x.starts_with("overflow")).count(), 4);
    assert_eq!(n.iter().filter(|x| x.starts_with("schematize")).count(), 4);
    assert!(n.iter().all(|x| !x.contains('*') && !x.contains('?')));
}

#[test]
fn cobre_os_quatro_lugares_possiveis() {
    let d: Vec<String> = diretorios().iter().map(|p| render(p, "/home/u")).collect();
    assert!(d.iter().any(|p| p.ends_with(".cargo/bin")));
    assert!(d.iter().any(|p| p.ends_with(".local/bin")));
    assert!(d.iter().any(|p| p == "/usr/local/bin"));
    assert!(d.iter().any(|p| p == "/usr/bin"));
}

#[test]
fn nomes_no_windows_levam_exe() {
    let n = nomes(Os::Windows);
    assert_eq!(n[0], "overflow.exe");
    assert_eq!(n[7], "schematize-updater-gui.exe");
}

#[test]
fn varre_a_fantasma_e_poupa_o_destino_no_plano() {
    let dirs = vec![
        Caminho::Literal(vec!["/tmp/destino".to_string()]),
        Caminho::Literal(vec!["/tmp/fantasma".to_string()]),
    ];
    let alvos: Vec<String> = remove_em(&dirs, &vec![true, false], Os::Linux)
        .iter()
        .map(|c| render(c, "/h"))
        .collect();
    assert_eq!(alvos.len(), 8);
    assert!(alvos.iter().all(|a| a.starts_with("/tmp/fantasma/")));
    assert!(alvos.contains(&"/tmp/fantasma/schematize".to_string()));
}

#[test]
fn copias_fantasma_fora_do_destino() {
    let alvos: Vec<String> = remove_copias_fantasma(&vec![true, false, false, false], Os::Linux)
        .iter()
        .map(|c| render(c, "/home/u"))
        .collect();
    assert_eq!(alvos.len(), 24 + 16);
    assert!(alvos.iter().all(|a| !a.starts_with("/home/u/.cargo/bin")));
    assert!(alvos.contains(&"/usr/bin/overflow-gui".to_string()));
    assert!(alvos.contains(&"/home/u/.local/bin/schematize-updater".to_string()));
    // launchers and autostart entries go too
    assert!(alvos.contains(&"/home/u/.local/share/applications/schematize-gui.desktop".to_string()));
    assert!(alvos.contains(&"/home/u/.config/autostart/schematize.desktop".to_string()));
    assert!(alvos.contains(&"/home/u/.config/autostart/overflow.desktop".to_string()));
    // nothing in the user's data directories
    assert!(alvos.iter().all(|a| !a.starts_with("/home/u/.schematize") && !a.starts_with("/home/u/.overflow")));
    // flags missing for a directory read as "not the destination"
    assert_eq!(remove_copias_fantasma(&vec![], Os::Linux).len(), 32 + 16);
    // launchers and autostart entries are the Linux (XDG) ones
    assert_eq!(remove_copias_fantasma(&vec![], Os::Mac).len(), 32);
}

#[test]
fn so_remove_arquivo_que_nao_e_mantido() {
    assert!(deve_remover(true, false));
    assert!(!deve_remover(true, true));
    assert!(!deve_remover(false, false));
}
