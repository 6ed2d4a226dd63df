//! The language server the extension registers for the dialect: the
//! interpreter itself, started in its language server mode.
use vstd::prelude::*;
use crate::command::texts_of;

verus! {

/// The Nushell language server.
pub struct NushellLanguageServer;

/// What the host needs to start a language server.
#[derive(Clone, Debug)]
pub struct LanguageServerSpec {
    pub id: String,
    pub name: String,
    pub binary: String,
    pub args: Vec<String>,
}

pub ghost struct LanguageServerModel {
    pub id: Seq<char>,
    pub name: Seq<char>,
    pub binary: Seq<char>,
    pub args: Seq<Seq<char>>,
}

impl View for LanguageServerSpec {
    type V = LanguageServerModel;

    open spec fn view(&self) -> LanguageServerModel {
        LanguageServerModel {
            id: self.id@,
            name: self.name@,
            binary: self.binary@,
            args: texts_of(self.args@),
        }
    }
}

/// The registration of the Nushell language server: `nu --lsp`, under the
/// id and name `nushell`.
pub open spec fn nushell_server() -> LanguageServerModel {
    LanguageServerModel {
        id: "nushell"@,
        name: "nushell"@,
        binary: "nu"@,
        args: seq!["--lsp"@],
    }
}

impl NushellLanguageServer {
    pub fn new() -> (r: Self)
        ensures
            r == (NushellLanguageServer),
    {
        NushellLanguageServer
    }

    /// What the host is asked to register for the language server.
    pub fn register() -> (r: LanguageServerSpec)
        ensures
            r@ == nushell_server(),
    {
        let mut args: Vec<String> = Vec::new();
        args.push("--lsp".to_owned());
        let r = LanguageServerSpec {
            id: "nushell".to_owned(),
            name: "nushell".to_owned(),
            binary: "nu".to_owned(),
            args,
        };
        assert(r@.args =~= seq!["--lsp"@]);
        r
    }
}

impl Default for NushellLanguageServer {
    fn default() -> (r: Self)
        ensures
            r == (NushellLanguageServer),
    {
        Self::new()
    }
}

} // verus!
