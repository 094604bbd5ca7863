use lib::comando::{
    download, get_text, has, has_query, http_status_ok, kill_stale_gui, make_executable, url_ok,
    Invocacao,
};
use lib::plataforma::Os;

fn words(i: &Invocacao) -> Vec<String> {
    let mut v = vec![i.programa.clone()];
    v.extend(i.args.iter().cloned());
    v
}

#[test]
fn consulta_ao_path() {
    assert_eq!(words(&has_query(Os::Linux, "git")), vec!["sh", "-c", "command -v git"]);
    assert_eq!(words(&has_query(Os::Windows, "git")), vec!["where", "git"]);
    assert!(has(Some("/usr/bin/git".into())));
    assert!(!has(Some(String::new())));
    assert!(!has(None));
}

#[test]
fn leitura_de_url() {
    assert_eq!(
        words(&get_text("https://x/y", Os::Linux, false, false)),
        vec!["curl", "-fsSL", "-m", "20", "-H", "User-Agent: schematize-updater", "https://x/y"]
    );
    assert_eq!(get_text("u", Os::Windows, true, true).programa, "curl.exe");
    assert_eq!(get_text("u", Os::Windows, false, true).programa, "curl");
    let ps = get_text("https://x", Os::Windows, false, false);
    assert_eq!(ps.programa, "powershell");
    assert_eq!(
        ps.args[2],
        "[Net.ServicePointManager]::SecurityProtocol=[Net.SecurityProtocolType]::Tls12; (Invoke-WebRequest -UseBasicParsing -TimeoutSec 20 -Uri 'https://x').Content"
    );
}

#[test]
fn download_de_asset() {
    assert_eq!(
        words(&download("https://a", "/tmp/b", Os::Mac, false, false)),
        vec!["curl", "-fSL", "-o", "/tmp/b", "https://a"]
    );
    let ps = download("https://a", "C:\\b", Os::Windows, false, false);
    assert_eq!(
        ps.args[2],
        "[Net.ServicePointManager]::SecurityProtocol=[Net.SecurityProtocolType]::Tls12; Invoke-WebRequest -UseBasicParsing -Uri 'https://a' -OutFile 'C:\\b'"
    );
}

#[test]
fn url_responde_200() {
    let i = url_ok("https://a", Os::Linux, false);
    assert_eq!(i.args[3], "/dev/null");
    assert_eq!(url_ok("https://a", Os::Windows, true).args[3], "NUL");
    let g = url_ok("https://a", Os::Windows, false);
    assert_eq!(g.programa, "powershell");
    assert_eq!(
        g.args[2],
        "[Net.ServicePointManager]::SecurityProtocol=[Net.SecurityProtocolType]::Tls12; (Invoke-WebRequest -UseBasicParsing -Method Get -TimeoutSec 15 -Uri 'https://a').StatusCode"
    );
    assert!(http_status_ok(Some(" 200\n".into())));
    assert!(!http_status_ok(Some("404".into())));
    assert!(!http_status_ok(None));
}

#[test]
fn encerra_gui_pelo_nome_exato() {
    assert_eq!(words(&kill_stale_gui(Os::Linux, "schematize-gui")), vec!["pkill", "-x", "schematize-gui"]);
    assert_eq!(
        words(&kill_stale_gui(Os::Windows, "schematize-gui")),
        vec!["taskkill", "/F", "/IM", "schematize-gui.exe"]
    );
    assert!(make_executable(Os::Windows, "a").is_none());
    assert_eq!(words(&make_executable(Os::Linux, "/a").unwrap()), vec!["chmod", "+x", "/a"]);
}
