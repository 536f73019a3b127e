//! The proxy's configuration and the command line that yields it.

use crate::text::{parse_port, port_of_text, same_text};
use vstd::prelude::*;
use vstd::string::*;

verus! {

/// What one running proxy is configured with. It is made once at startup and
/// only read afterwards.
#[derive(Debug)]
pub struct Conf {
    /// The local port to listen on.
    pub local_port: u16,
    /// The upstream host.
    pub remote_url: String,
    /// The upstream port.
    pub remote_port: u16,
    /// Path of the certificate bundle; when present the listener terminates TLS.
    pub https_crt: Option<String>,
    /// Path of the file that holds the bundle's passphrase.
    pub https_crt_pass_file: Option<String>,
    /// Whether the upstream is reached over TLS even from a plain listener.
    pub to_https: bool,
}

/// The mathematical value of a [`Conf`].
pub struct ConfView {
    pub local_port: u16,
    pub remote_url: Seq<char>,
    pub remote_port: u16,
    pub https_crt: Option<Seq<char>>,
    pub https_crt_pass_file: Option<Seq<char>>,
    pub to_https: bool,
}

impl ConfView {
    /// A passphrase file is only ever named together with a certificate.
    pub open spec fn wf(self) -> bool {
        self.https_crt is None ==> self.https_crt_pass_file is None
    }

    /// Whether the local listener terminates TLS.
    pub open spec fn listens_tls(self) -> bool {
        self.https_crt is Some
    }
}

/// The text of an optional path.
pub open spec fn path_view(path: Option<String>) -> Option<Seq<char>> {
    match path {
        Some(p) => Some(p@),
        None => None,
    }
}

impl View for Conf {
    type V = ConfView;

    open spec fn view(&self) -> ConfView {
        ConfView {
            local_port: self.local_port,
            remote_url: self.remote_url@,
            remote_port: self.remote_port,
            https_crt: path_view(self.https_crt),
            https_crt_pass_file: path_view(self.https_crt_pass_file),
            to_https: self.to_https,
        }
    }
}

impl Clone for Conf {
    fn clone(&self) -> (copy: Conf)
        ensures
            copy == *self,
    {
        Conf {
            local_port: self.local_port,
            remote_url: self.remote_url.clone(),
            remote_port: self.remote_port,
            https_crt: self.https_crt.clone(),
            https_crt_pass_file: self.https_crt_pass_file.clone(),
            to_https: self.to_https,
        }
    }
}

/// The texts of a list of arguments.
pub open spec fn texts(args: Seq<String>) -> Seq<Seq<char>> {
    Seq::new(args.len(), |i: int| args[i]@)
}

/// What the options from position `at` on make of `conf`. `--cert` and
/// `--pass-file` take the argument that follows them, `--to-https` stands
/// alone, a later option overrides an earlier one, and nothing else is
/// accepted.
pub open spec fn options_outcome(args: Seq<Seq<char>>, at: int, conf: ConfView) -> Result<
    ConfView,
    Seq<char>,
>
    decreases args.len() - at,
{
    if at < 0 || at >= args.len() {
        Ok(conf)
    } else if args[at] == "--cert"@ {
        if at + 1 >= args.len() {
            Err("Missing value for parameter --cert"@)
        } else {
            options_outcome(args, at + 2, ConfView { https_crt: Some(args[at + 1]), ..conf })
        }
    } else if args[at] == "--pass-file"@ {
        if at + 1 >= args.len() {
            Err("Missing value for parameter --pass-file"@)
        } else {
            options_outcome(
                args,
                at + 2,
                ConfView { https_crt_pass_file: Some(args[at + 1]), ..conf },
            )
        }
    } else if args[at] == "--to-https"@ {
        options_outcome(args, at + 1, ConfView { to_https: true, ..conf })
    } else {
        Err("\nInvalid parameter: "@ + args[at])
    }
}

/// The configuration that the mandatory arguments give before any option is
/// read, or the error of the first of them that is wrong. `args[0]` is the
/// program's name.
pub open spec fn mandatory_outcome(args: Seq<Seq<char>>) -> Result<ConfView, Seq<char>> {
    if args.len() < 4 {
        Err("Missing mandatory parameters"@)
    } else {
        match (port_of_text(args[1]), port_of_text(args[3])) {
            (None, _) => Err("Error while parsing local_port argument"@),
            (Some(_), None) => Err("Error while parsing remote_port argument"@),
            (Some(local_port), Some(remote_port)) => Ok(
                ConfView {
                    local_port,
                    remote_url: args[2],
                    remote_port,
                    https_crt: None,
                    https_crt_pass_file: None,
                    to_https: false,
                },
            ),
        }
    }
}

/// What a command line yields: a well-formed configuration or the message of
/// the first error met, reading from left to right.
pub open spec fn cli_outcome(args: Seq<Seq<char>>) -> Result<ConfView, Seq<char>> {
    match mandatory_outcome(args) {
        Err(message) => Err(message),
        Ok(start) => match options_outcome(args, 4, start) {
            Err(message) => Err(message),
            Ok(conf) => if conf.wf() {
                Ok(conf)
            } else {
                Err("Parameter --pass-file requires --cert"@)
            },
        },
    }
}

/// The mathematical value of what [`get_cli_params`] returns.
pub open spec fn outcome_view(res: Result<Conf, String>) -> Result<ConfView, Seq<char>> {
    match res {
        Ok(conf) => Ok(conf@),
        Err(message) => Err(message@),
    }
}

/// Reads the configuration from the command line, given with the program's
/// name in front:
/// `<local_port> <remote_host> <remote_port> [--cert <path> --pass-file <path>] [--to-https]`.
pub fn get_cli_params(args: &Vec<String>) -> (res: Result<Conf, String>)
    ensures
        outcome_view(res) == cli_outcome(texts(args@)),
        res matches Ok(conf) ==> conf@.wf(),
{
    let ghost all = texts(args@);
    if args.len() < 4 {
        return Err("Missing mandatory parameters".to_owned());
    }
    assert(all[1] == args@[1]@ && all[2] == args@[2]@ && all[3] == args@[3]@);
    let local_port: u16 = match parse_port(args[1].as_str()) {
        Some(port) => port,
        None => {
            return Err("Error while parsing local_port argument".to_owned());
        },
    };
    let remote_port: u16 = match parse_port(args[3].as_str()) {
        Some(port) => port,
        None => {
            return Err("Error while parsing remote_port argument".to_owned());
        },
    };
    let mut conf = Conf {
        local_port,
        remote_url: args[2].clone(),
        remote_port,
        https_crt: None,
        https_crt_pass_file: None,
        to_https: false,
    };
    let ghost start = conf@;
    assert(mandatory_outcome(all) == Ok::<ConfView, Seq<char>>(start));
    let mut i: usize = 4;
    while i < args.len()
        invariant
            4 <= i <= args.len(),
            all == texts(args@),
            mandatory_outcome(all) == Ok::<ConfView, Seq<char>>(start),
            options_outcome(all, i as int, conf@) == options_outcome(all, 4, start),
        decreases args.len() - i,
    {
        let arg: &str = args[i].as_str();
        assert(all[i as int] == arg@);
        if same_text(arg, "--cert") {
            if i + 1 >= args.len() {
                return Err("Missing value for parameter --cert".to_owned());
            }
            assert(all[i + 1] == args@[i + 1]@);
            conf.https_crt = Some(args[i + 1].clone());
            i = i + 2;
        } else if same_text(arg, "--pass-file") {
            if i + 1 >= args.len() {
                return Err("Missing value for parameter --pass-file".to_owned());
            }
            assert(all[i + 1] == args@[i + 1]@);
            conf.https_crt_pass_file = Some(args[i + 1].clone());
            i = i + 2;
        } else if same_text(arg, "--to-https") {
            conf.to_https = true;
            i = i + 1;
        } else {
            return Err("\nInvalid parameter: ".to_owned().concat(arg));
        }
    }
    if conf.https_crt.is_none() && conf.https_crt_pass_file.is_some() {
        return Err("Parameter --pass-file requires --cert".to_owned());
    }
    Ok(conf)
}

/// What the operator is told when `--to-https` changes nothing.
pub open spec fn to_https_warning_text() -> Seq<char> {
    "\nWarning: --to-https parameter is useless when the server is listening on https"@
}

/// The warning that a configuration calls for, if it calls for one:
/// `--to-https` changes nothing behind a listener that terminates TLS, which
/// reaches the upstream over TLS anyway.
pub fn to_https_warning(conf: &Conf) -> (warning: Option<&'static str>)
    ensures
        warning is Some <==> conf@.to_https && conf@.listens_tls(),
        warning matches Some(text) ==> text@ == to_https_warning_text(),
{
    if conf.to_https && conf.https_crt.is_some() {
        Some("\nWarning: --to-https parameter is useless when the server is listening on https")
    } else {
        None
    }
}

} // verus!
