//! The external commands the updater runs (curl or PowerShell for the network, `sh`
//! or `where` to probe the PATH, `pkill`/`taskkill`, `chmod`), as plain invocations:
//! a program and its arguments. Running them is the caller's part; choosing them, and
//! reading what they print, is decided here.

use vstd::prelude::*;
use crate::plataforma::Os;
use crate::texto::{chars_of, str_eq, strip_range, trim, views, str_views, Cut};

verus! {

/// A program and its arguments.
pub struct Invocacao {
    pub programa: String,
    pub args: Vec<String>,
}

impl View for Invocacao {
    type V = (Seq<char>, Seq<Seq<char>>);

    open spec fn view(&self) -> (Seq<char>, Seq<Seq<char>>) {
        (self.programa@, views(self.args@))
    }
}

/// The given words as owned strings.
pub fn strings(ws: &[&str]) -> (r: Vec<String>)
    ensures
        views(r@) == str_views(ws@),
{
    let mut r: Vec<String> = Vec::new();
    let mut i: usize = 0;
    while i < ws.len()
        invariant
            i <= ws@.len(),
            views(r@) == str_views(ws@.subrange(0, i as int)),
        decreases ws.len() - i,
    {
        let ghost before = r@;
        r.push(ws[i].to_owned());
        assert(views(r@) =~= views(before).push(ws@[i as int]@));
        assert(str_views(ws@.subrange(0, i + 1)) =~= str_views(ws@.subrange(0, i as int)).push(
            ws@[i as int]@,
        ));
        i = i + 1;
    }
    assert(ws@.subrange(0, ws@.len() as int) =~= ws@);
    r
}

/// Appends `s` to `v`.
pub fn push_str(v: &mut Vec<String>, s: &str)
    ensures
        views(final(v)@) == views(old(v)@).push(s@),
{
    let ghost before = v@;
    v.push(s.to_owned());
    assert(views(v@) =~= views(before).push(s@));
}

/// The invocation of `programa` with `args`.
pub fn invocacao(programa: &str, args: &[&str]) -> (r: Invocacao)
    ensures
        r@ == (programa@, str_views(args@)),
{
    Invocacao { programa: programa.to_owned(), args: strings(args) }
}

/// A captured output (already trimmed by the capture) that is present and not empty.
pub open spec fn non_empty_output(out: Option<Seq<char>>) -> bool {
    match out {
        Some(s) => s.len() > 0,
        None => false,
    }
}

pub open spec fn out_view(o: Option<String>) -> Option<Seq<char>> {
    match o {
        Some(s) => Some(s@),
        None => None,
    }
}

/// How to ask whether `cmd` is on the PATH: `where cmd` on Windows, `command -v cmd`
/// through `sh` elsewhere.
pub fn has_query(os: Os, cmd: &str) -> (r: Invocacao)
    ensures
        os == Os::Windows ==> r@ == ("where"@, seq![cmd@]),
        os != Os::Windows ==> r@ == ("sh"@, seq!["-c"@, "command -v "@ + cmd@]),
{
    if os == Os::Windows {
        let mut args: Vec<String> = Vec::new();
        push_str(&mut args, cmd);
        assert(views(args@) =~= seq![cmd@]);
        Invocacao { programa: "where".to_owned(), args }
    } else {
        let mut line = "command -v ".to_owned();
        line.append(cmd);
        let mut args: Vec<String> = Vec::new();
        push_str(&mut args, "-c");
        push_str(&mut args, line.as_str());
        assert(views(args@) =~= seq!["-c"@, "command -v "@ + cmd@]);
        Invocacao { programa: "sh".to_owned(), args }
    }
}

/// Whether a command is on the PATH, given what [`has_query`] printed (`None` when it
/// failed): only a non-empty answer counts.
pub fn has(output: Option<String>) -> (r: bool)
    ensures
        r == non_empty_output(out_view(output)),
{
    match output {
        Some(s) => s.as_str().unicode_len() > 0,
        None => false,
    }
}

/// The arguments curl gets to read a URL as text: silent, failing on HTTP errors,
/// following redirects, 20 s timeout, with the updater's User-Agent.
pub open spec fn curl_text_args(url: Seq<char>) -> Seq<Seq<char>> {
    seq!["-fsSL"@, "-m"@, "20"@, "-H"@, "User-Agent: schematize-updater"@, url]
}

/// The PowerShell script that reads a URL as text where there is no curl.
pub open spec fn ps_text_script(url: Seq<char>) -> Seq<char> {
    "[Net.ServicePointManager]::SecurityProtocol=[Net.SecurityProtocolType]::Tls12; (Invoke-WebRequest -UseBasicParsing -TimeoutSec 20 -Uri '"@
        + url + "').Content"@
}

/// The HTTP client to run: `curl` except on Windows, where `curl.exe` or `curl` is
/// taken when present, and otherwise PowerShell.
pub open spec fn http_client(os: Os, has_curl_exe: bool, has_curl: bool) -> Option<Seq<char>> {
    if os != Os::Windows {
        Some("curl"@)
    } else if has_curl_exe {
        Some("curl.exe"@)
    } else if has_curl {
        Some("curl"@)
    } else {
        None
    }
}

fn curl_name(os: Os, has_curl_exe: bool, has_curl: bool) -> (r: Option<&'static str>)
    ensures
        match r {
            Some(n) => http_client(os, has_curl_exe, has_curl) == Some(n@),
            None => http_client(os, has_curl_exe, has_curl) is None,
        },
{
    if os != Os::Windows {
        Some("curl")
    } else if has_curl_exe {
        Some("curl.exe")
    } else if has_curl {
        Some("curl")
    } else {
        None
    }
}

/// How to read the body of `url` as text (its output is the body; a failure, network or
/// HTTP >= 400, is a failed run).
pub fn get_text(url: &str, os: Os, has_curl_exe: bool, has_curl: bool) -> (r: Invocacao)
    ensures
        match http_client(os, has_curl_exe, has_curl) {
            Some(c) => r@ == (c, curl_text_args(url@)),
            None => r@ == ("powershell"@, seq!["-NoProfile"@, "-Command"@, ps_text_script(url@)]),
        },
{
    match curl_name(os, has_curl_exe, has_curl) {
        Some(c) => {
            let mut args = strings(&["-fsSL", "-m", "20", "-H", "User-Agent: schematize-updater"]);
            push_str(&mut args, url);
            Invocacao { programa: c.to_owned(), args }
        },
        None => {
            let mut ps =
                "[Net.ServicePointManager]::SecurityProtocol=[Net.SecurityProtocolType]::Tls12; (Invoke-WebRequest -UseBasicParsing -TimeoutSec 20 -Uri '".to_owned();
            ps.append(url);
            ps.append("').Content");
            let mut args = strings(&["-NoProfile", "-Command"]);
            push_str(&mut args, ps.as_str());
            Invocacao { programa: "powershell".to_owned(), args }
        },
    }
}

/// The PowerShell script that downloads `url` to `dest` where there is no curl.
pub open spec fn ps_download_script(url: Seq<char>, dest: Seq<char>) -> Seq<char> {
    "[Net.ServicePointManager]::SecurityProtocol=[Net.SecurityProtocolType]::Tls12; Invoke-WebRequest -UseBasicParsing -Uri '"@
        + url + "' -OutFile '"@ + dest + "'"@
}

/// How to download `url` into the file `dest`. The download succeeded when the run
/// succeeds and `dest` is then a file.
pub fn download(url: &str, dest: &str, os: Os, has_curl_exe: bool, has_curl: bool) -> (r: Invocacao)
    ensures
        match http_client(os, has_curl_exe, has_curl) {
            Some(c) => r@ == (c, seq!["-fSL"@, "-o"@, dest@, url@]),
            None => r@ == (
                "powershell"@,
                seq!["-NoProfile"@, "-Command"@, ps_download_script(url@, dest@)],
            ),
        },
{
    match curl_name(os, has_curl_exe, has_curl) {
        Some(c) => {
            let mut args = strings(&["-fSL", "-o"]);
            push_str(&mut args, dest);
            push_str(&mut args, url);
            Invocacao { programa: c.to_owned(), args }
        },
        None => {
            let mut ps =
                "[Net.ServicePointManager]::SecurityProtocol=[Net.SecurityProtocolType]::Tls12; Invoke-WebRequest -UseBasicParsing -Uri '".to_owned();
            ps.append(url);
            ps.append("' -OutFile '");
            ps.append(dest);
            ps.append("'");
            let mut args = strings(&["-NoProfile", "-Command"]);
            push_str(&mut args, ps.as_str());
            Invocacao { programa: "powershell".to_owned(), args }
        },
    }
}

/// The PowerShell script of a small GET of `url` that prints its status code (a status
/// of 400 or more, or a network failure, makes the run fail).
pub open spec fn ps_status_script(url: Seq<char>) -> Seq<char> {
    "[Net.ServicePointManager]::SecurityProtocol=[Net.SecurityProtocolType]::Tls12; (Invoke-WebRequest -UseBasicParsing -Method Get -TimeoutSec 15 -Uri '"@
        + url + "').StatusCode"@
}

/// How to ask whether `url` answers 200: a HEAD request through curl that prints only
/// the status code (to `/dev/null`, or `NUL` with Windows' `curl.exe`); on a Windows
/// without `curl.exe`, a small GET through PowerShell that prints the status code.
/// The answer is read by [`http_status_ok`].
pub fn url_ok(url: &str, os: Os, has_curl_exe: bool) -> (r: Invocacao)
    ensures
        os != Os::Windows ==> r@ == (
            "curl"@,
            seq!["-fsSL"@, "-I"@, "-o"@, "/dev/null"@, "-w"@, "%{http_code}"@, "-m"@, "15"@, url@],
        ),
        os == Os::Windows && has_curl_exe ==> r@ == (
            "curl.exe"@,
            seq!["-fsSL"@, "-I"@, "-o"@, "NUL"@, "-w"@, "%{http_code}"@, "-m"@, "15"@, url@],
        ),
        os == Os::Windows && !has_curl_exe ==> r@ == (
            "powershell"@,
            seq!["-NoProfile"@, "-Command"@, ps_status_script(url@)],
        ),
{
    if os != Os::Windows {
        let mut args = strings(&["-fsSL", "-I", "-o", "/dev/null", "-w", "%{http_code}", "-m", "15"]);
        push_str(&mut args, url);
        Invocacao { programa: "curl".to_owned(), args }
    } else if has_curl_exe {
        let mut args = strings(&["-fsSL", "-I", "-o", "NUL", "-w", "%{http_code}", "-m", "15"]);
        push_str(&mut args, url);
        Invocacao { programa: "curl.exe".to_owned(), args }
    } else {
        let mut ps =
            "[Net.ServicePointManager]::SecurityProtocol=[Net.SecurityProtocolType]::Tls12; (Invoke-WebRequest -UseBasicParsing -Method Get -TimeoutSec 15 -Uri '".to_owned();
        ps.append(url);
        ps.append("').StatusCode");
        let mut args = strings(&["-NoProfile", "-Command"]);
        push_str(&mut args, ps.as_str());
        Invocacao { programa: "powershell".to_owned(), args }
    }
}

/// Whether the status printed by [`url_ok`]'s probe (`None` when it failed) is 200.
pub fn http_status_ok(output: Option<String>) -> (r: bool)
    ensures
        r == match output {
            Some(s) => trim(s@) == "200"@,
            None => false,
        },
{
    match output {
        Some(s) => {
            let v = chars_of(s.as_str());
            let (a, b) = strip_range(&v, 0, v.len(), Cut::Space);
            assert(v@.subrange(0, v@.len() as int) =~= v@);
            let t = s.as_str().substring_char(a, b);
            str_eq(t, "200")
        },
        None => false,
    }
}

/// How to end the processes of a replaced GUI, by the exact name of its binary:
/// `taskkill /F /IM name.exe` on Windows, `pkill -x name` elsewhere (exact process
/// name, so neither the updater nor the CLI match).
pub fn kill_stale_gui(os: Os, gui_name: &str) -> (r: Invocacao)
    ensures
        os == Os::Windows ==> r@ == ("taskkill"@, seq!["/F"@, "/IM"@, gui_name@ + ".exe"@]),
        os != Os::Windows ==> r@ == ("pkill"@, seq!["-x"@, gui_name@]),
{
    if os == Os::Windows {
        let mut image = gui_name.to_owned();
        image.append(".exe");
        let mut args = strings(&["/F", "/IM"]);
        push_str(&mut args, image.as_str());
        Invocacao { programa: "taskkill".to_owned(), args }
    } else {
        let mut args = strings(&["-x"]);
        push_str(&mut args, gui_name);
        Invocacao { programa: "pkill".to_owned(), args }
    }
}

/// How to mark a file executable: nothing on Windows, `chmod +x path` elsewhere.
pub fn make_executable(os: Os, path: &str) -> (r: Option<Invocacao>)
    ensures
        os == Os::Windows ==> r is None,
        os != Os::Windows ==> (r matches Some(i) && i@ == ("chmod"@, seq!["+x"@, path@])),
{
    if os == Os::Windows {
        None
    } else {
        let mut args = strings(&["+x"]);
        push_str(&mut args, path);
        Some(Invocacao { programa: "chmod".to_owned(), args })
    }
}

} // verus!
