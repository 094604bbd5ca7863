//! The command line: what the arguments after the program name ask for.

use vstd::prelude::*;
use crate::texto::{str_eq, views};
use crate::versao::{interpretar_pin, pin_meaning};

verus! {

/// A command of the updater.
pub enum Comando {
    /// Print the help.
    Ajuda,
    /// Print the updater's own version.
    Versao,
    /// Install or update the app (`force` reinstalls even at the target version).
    Instalar { force: bool },
    /// Print versions, platform and pin.
    Status,
    /// Launch the installed GUI.
    Lancar,
    /// Pin this version of the app.
    Fixar(String),
    /// Remove the pin, then print this message.
    Desafixar(String),
    /// Fail with this message.
    Erro(String),
}

/// What a [`Comando`] says.
pub enum ComandoV {
    Ajuda,
    Versao,
    Instalar(bool),
    Status,
    Lancar,
    Fixar(Seq<char>),
    Desafixar(Seq<char>),
    Erro(Seq<char>),
}

impl View for Comando {
    type V = ComandoV;

    open spec fn view(&self) -> ComandoV {
        match self {
            Comando::Ajuda => ComandoV::Ajuda,
            Comando::Versao => ComandoV::Versao,
            Comando::Instalar { force } => ComandoV::Instalar(*force),
            Comando::Status => ComandoV::Status,
            Comando::Lancar => ComandoV::Lancar,
            Comando::Fixar(v) => ComandoV::Fixar(v@),
            Comando::Desafixar(m) => ComandoV::Desafixar(m@),
            Comando::Erro(e) => ComandoV::Erro(e@),
        }
    }
}

/// The meaning of `pin <entry>` and of `pin` alone.
pub open spec fn pin_command(rest: Seq<Seq<char>>) -> ComandoV {
    if rest.len() > 0 {
        match pin_meaning(rest[0]) {
            Ok(Some(v)) => ComandoV::Fixar(v),
            Ok(None) => ComandoV::Desafixar("pin removido — seguindo a última publicada."@),
            Err(e) => ComandoV::Erro(e),
        }
    } else {
        ComandoV::Erro("uso: schematize-updater pin <versão>  (ou `pin latest` p/ desafixar)"@)
    }
}

/// The command the arguments ask for: the first argument names it (none is `help`),
/// the rest are its parameters (`--force` anywhere among them forces an install).
pub open spec fn command_meaning(args: Seq<Seq<char>>) -> ComandoV {
    let cmd = if args.len() > 0 {
        args[0]
    } else {
        ""@
    };
    let rest = if args.len() > 0 {
        args.drop_first()
    } else {
        args
    };
    let force = rest.contains("--force"@);
    if cmd == ""@ || cmd == "help"@ || cmd == "-h"@ || cmd == "--help"@ {
        ComandoV::Ajuda
    } else if cmd == "version"@ || cmd == "--version"@ || cmd == "-V"@ {
        ComandoV::Versao
    } else if cmd == "install"@ || cmd == "update"@ || cmd == "upgrade"@ {
        ComandoV::Instalar(force)
    } else if cmd == "status"@ {
        ComandoV::Status
    } else if cmd == "run"@ || cmd == "launch"@ {
        ComandoV::Lancar
    } else if cmd == "pin"@ {
        pin_command(rest)
    } else if cmd == "unpin"@ {
        ComandoV::Desafixar("pin removido — seguindo latest."@)
    } else {
        ComandoV::Erro(
            "subcomando desconhecido: `"@ + cmd + "` (veja `schematize-updater help`)."@,
        )
    }
}

/// `install`, `update` and `upgrade` all install or update the app to the target
/// version, forced exactly when `--force` is among the arguments that follow.
pub proof fn lemma_install_words_install(args: Seq<Seq<char>>)
    requires
        args.len() > 0,
        args[0] == "install"@ || args[0] == "update"@ || args[0] == "upgrade"@,
    ensures
        command_meaning(args) == ComandoV::Instalar(args.drop_first().contains("--force"@)),
{
    reveal_strlit("");
    reveal_strlit("help");
    reveal_strlit("-h");
    reveal_strlit("--help");
    reveal_strlit("version");
    reveal_strlit("--version");
    reveal_strlit("-V");
    reveal_strlit("install");
    reveal_strlit("update");
    reveal_strlit("upgrade");
    let c = args[0];
    assert(c.len() >= 6 && (c[0] == 'i' || c[0] == 'u'));
    assert(c != ""@ && c != "help"@ && c != "-h"@ && c != "--help"@ && c != "version"@
        && c != "--version"@ && c != "-V"@) by {
        assert(""@.len() == 0);
        assert("help"@[0] == 'h' && "-h"@[0] == '-' && "--help"@[0] == '-');
        assert("version"@[0] == 'v' && "--version"@[0] == '-' && "-V"@[0] == '-');
    }
}

/// What each word of the command line asks for: no word, `help`, `-h` or `--help` prints
/// the help; `version`, `--version` or `-V` the updater's version; `status` the status;
/// `run` or `launch` launches the app; `unpin` removes the pin; `pin` pins what follows
/// it as `pin` reads it; any other word is refused, naming the word.
pub proof fn lemma_command_words(args: Seq<Seq<char>>)
    ensures
        args.len() == 0 ==> command_meaning(args) == ComandoV::Ajuda,
        args.len() > 0 && (args[0] == "help"@ || args[0] == "-h"@ || args[0] == "--help"@)
            ==> command_meaning(args) == ComandoV::Ajuda,
        args.len() > 0 && (args[0] == "version"@ || args[0] == "--version"@ || args[0] == "-V"@)
            ==> command_meaning(args) == ComandoV::Versao,
        args.len() > 0 && args[0] == "status"@ ==> command_meaning(args) == ComandoV::Status,
        args.len() > 0 && (args[0] == "run"@ || args[0] == "launch"@) ==> command_meaning(args)
            == ComandoV::Lancar,
        args.len() > 0 && args[0] == "unpin"@ ==> command_meaning(args) == ComandoV::Desafixar(
            "pin removido — seguindo latest."@,
        ),
        args.len() > 1 && args[0] == "pin"@ ==> command_meaning(args) == match pin_meaning(args[1]) {
            Ok(Some(v)) => ComandoV::Fixar(v),
            Ok(None) => ComandoV::Desafixar("pin removido — seguindo a última publicada."@),
            Err(e) => ComandoV::Erro(e),
        },
        args.len() > 0 && args[0] != "pin"@ ==> (command_meaning(args) matches ComandoV::Erro(e)
            ==> e == "subcomando desconhecido: `"@ + args[0] + "` (veja `schematize-updater help`)."@),
{
    reveal_strlit("");
    reveal_strlit("help");
    reveal_strlit("-h");
    reveal_strlit("--help");
    reveal_strlit("version");
    reveal_strlit("--version");
    reveal_strlit("-V");
    reveal_strlit("install");
    reveal_strlit("update");
    reveal_strlit("upgrade");
    reveal_strlit("status");
    reveal_strlit("run");
    reveal_strlit("launch");
    reveal_strlit("pin");
    reveal_strlit("unpin");
    assert(""@.len() == 0);
    assert("help"@[0] == 'h' && "-h"@[0] == '-' && "-h"@[1] == 'h' && "--help"@[0] == '-');
    assert("version"@[0] == 'v' && "--version"@[0] == '-' && "-V"@[0] == '-' && "-V"@[1] == 'V');
    assert("install"@[0] == 'i' && "update"@[0] == 'u' && "upgrade"@[0] == 'u');
    assert("status"@[0] == 's' && "run"@[0] == 'r' && "launch"@[0] == 'l');
    assert("pin"@[0] == 'p' && "unpin"@[0] == 'u');
    if args.len() > 0 {
        let c = args[0];
        if c == "version"@ || c == "--version"@ || c == "-V"@ {
            assert(c.len() == 7 || c.len() == 9 || (c.len() == 2 && c[1] == 'V'));
            assert(c != "-h"@ && c != "help"@ && c != "--help"@ && c != ""@);
        }
        if c == "unpin"@ {
            assert(c.len() == 5 && c[0] == 'u');
            assert(c != "install"@ && c != "update"@ && c != "upgrade"@ && c != "pin"@);
            assert(c != "status"@ && c != "run"@ && c != "launch"@);
        }
    }
}

fn any_force(args: &Vec<String>) -> (r: bool)
    ensures
        args.len() > 0 ==> r == views(args@).drop_first().contains("--force"@),
{
    let ghost rest = views(args@).drop_first();
    let mut i: usize = 1;
    while i < args.len()
        invariant
            1 <= i,
            i <= args.len() || args.len() == 0,
            rest == views(args@).drop_first(),
            forall|j: int| 1 <= j < i && j < args.len() ==> args@[j]@ != "--force"@,
        decreases args.len() - i,
    {
        if str_eq(args[i].as_str(), "--force") {
            assert(rest[i - 1] == args@[i as int]@);
            return true;
        }
        i = i + 1;
    }
    proof {
        if args.len() > 0 {
            assert forall|k: int| 0 <= k < rest.len() implies rest[k] != "--force"@ by {
                assert(rest[k] == args@[k + 1]@);
            }
        }
    }
    false
}

fn is_one_of(cmd: &str, a: &str, b: &str, c: &str, d: &str) -> (r: bool)
    ensures
        r == (cmd@ == a@ || cmd@ == b@ || cmd@ == c@ || cmd@ == d@),
{
    str_eq(cmd, a) || str_eq(cmd, b) || str_eq(cmd, c) || str_eq(cmd, d)
}

/// The command that the arguments after the program name ask for.
pub fn interpretar_comando(args: &Vec<String>) -> (r: Comando)
    ensures
        r@ == command_meaning(views(args@)),
{
    let force = any_force(args);
    let cmd: &str = if args.len() > 0 {
        args[0].as_str()
    } else {
        ""
    };
    assert(args.len() > 0 ==> views(args@)[0] == args@[0]@);
    assert(args.len() > 0 ==> views(args@).drop_first() =~= views(args@).subrange(1, args@.len() as int));
    if is_one_of(cmd, "", "help", "-h", "--help") {
        Comando::Ajuda
    } else if is_one_of(cmd, "version", "--version", "-V", "-V") {
        Comando::Versao
    } else if is_one_of(cmd, "install", "update", "upgrade", "upgrade") {
        assert(args.len() > 0);
        Comando::Instalar { force }
    } else if str_eq(cmd, "status") {
        Comando::Status
    } else if is_one_of(cmd, "run", "launch", "launch", "launch") {
        Comando::Lancar
    } else if str_eq(cmd, "pin") {
        if args.len() > 1 {
            assert(views(args@).drop_first()[0] == args@[1]@);
            match interpretar_pin(args[1].as_str()) {
                Ok(Some(v)) => Comando::Fixar(v),
                Ok(None) => Comando::Desafixar("pin removido — seguindo a última publicada.".to_owned()),
                Err(e) => Comando::Erro(e),
            }
        } else {
            Comando::Erro("uso: schematize-updater pin <versão>  (ou `pin latest` p/ desafixar)".to_owned())
        }
    } else if str_eq(cmd, "unpin") {
        Comando::Desafixar("pin removido — seguindo latest.".to_owned())
    } else {
        let mut m = "subcomando desconhecido: `".to_owned();
        m.append(cmd);
        m.append("` (veja `schematize-updater help`).");
        Comando::Erro(m)
    }
}

} // verus!
