//! Settings shared by the daemon and the client, with their default values.
//!
//! Reading, merging and writing configuration files is unverified I/O and
//! lives outside this crate; the shell hands the values in and out as plain
//! strings.  What is verified here is the computation: the documented default
//! for every option, the random secret, and the path and failure decisions of
//! the configuration sweep.

use std::collections::HashMap;

use vstd::prelude::*;

use rand::RngExt;

use crate::error::{Error, ErrorView};

verus! {

/// Settings used by both the client and the daemon.
pub struct Shared {
    pub secret: String,
    pub pueue_directory: String,
    pub use_unix_socket: bool,
    pub unix_socket_path: String,
    pub url: String,
    pub port: String,
    pub tls_enabled: bool,
    pub client_certificate: String,
}

/// Settings used by the client only.
pub struct Client {
    pub read_local_logs: bool,
    pub show_confirmation_questions: bool,
    pub max_status_lines: Option<usize>,
}

/// Settings used by the daemon only.
pub struct Daemon {
    pub default_parallel_tasks: usize,
    pub pause_on_failure: bool,
    pub callback: Option<String>,
    pub groups: HashMap<String, usize>,
}

/// The whole configuration.
pub struct Settings {
    pub shared: Shared,
    pub client: Client,
    pub daemon: Daemon,
}

/// The characters a generated secret is drawn from.
pub open spec fn secret_charset() -> Seq<char> {
    "ABCDEFGHIJKLMNOPQRSTUVWXYZabcdefghijklmnopqrstuvwxyz0123456789)(*&^%$#@!~"@
}

/// Relies on rand's `RngExt::random_range` over `0..bound`: the drawn value
/// lies within the range, which is non-empty by the precondition.
#[verifier::external_body]
fn random_index(bound: usize) -> (r: usize)
    requires
        bound > 0,
    ensures
        r < bound,
{
    let mut rng = rand::rng();
    rng.random_range(0..bound)
}

/// Generates a fresh 20-character secret drawn from [`secret_charset`].
pub fn gen_random_secret() -> (r: String)
    ensures
        r@.len() == 20,
        forall|i: int| 0 <= i < r@.len() ==> secret_charset().contains(#[trigger] r@[i]),
{
    let charset = "ABCDEFGHIJKLMNOPQRSTUVWXYZabcdefghijklmnopqrstuvwxyz0123456789)(*&^%$#@!~";
    proof {
        reveal_strlit("ABCDEFGHIJKLMNOPQRSTUVWXYZabcdefghijklmnopqrstuvwxyz0123456789)(*&^%$#@!~");
    }
    let n = charset.unicode_len();
    let mut secret = String::new();
    let mut i: usize = 0;
    while i < 20
        invariant
            i <= 20,
            secret@.len() == i,
            charset@ == secret_charset(),
            n == charset@.len(),
            n > 0,
            forall|k: int| 0 <= k < i ==> secret_charset().contains(#[trigger] secret@[k]),
        decreases 20 - i,
    {
        let idx = random_index(n);
        let piece = charset.substring_char(idx, idx + 1);
        secret.append(piece);
        proof {
            assert(secret@[i as int] == secret_charset()[idx as int]);
        }
        i = i + 1;
    }
    secret
}

impl Settings {
    /// The documented default for every option, around a freshly generated
    /// secret and the platform's pueue directory and socket path.
    pub fn with_defaults(secret: String, pueue_directory: String, unix_socket_path: String) -> (s:
        Settings)
        ensures
            s.shared.secret@ == secret@,
            s.shared.pueue_directory@ == pueue_directory@,
            s.shared.use_unix_socket == false,
            s.shared.unix_socket_path@ == unix_socket_path@,
            s.shared.url@ == "localhost"@,
            s.shared.port@ == "6924"@,
            s.shared.tls_enabled == true,
            s.shared.client_certificate@ == pueue_directory@ + "/client.cert"@,
            s.client.read_local_logs == true,
            s.client.show_confirmation_questions == false,
            s.client.max_status_lines matches None,
            s.daemon.default_parallel_tasks == 1,
            s.daemon.pause_on_failure == false,
            s.daemon.callback matches None,
            s.daemon.groups@ == Map::<String, usize>::empty(),
    {
        let client_certificate = pueue_directory.clone().concat("/client.cert");
        Settings {
            shared: Shared {
                secret,
                pueue_directory,
                use_unix_socket: false,
                unix_socket_path,
                url: String::from_str("localhost"),
                port: String::from_str("6924"),
                tls_enabled: true,
                client_certificate,
            },
            client: Client {
                read_local_logs: true,
                show_confirmation_questions: false,
                max_status_lines: None,
            },
            daemon: Daemon {
                default_parallel_tasks: 1,
                pause_on_failure: false,
                callback: None,
                groups: HashMap::new(),
            },
        }
    }
}

/// The configuration file inside one configuration directory.
pub fn config_file_path(directory: &String) -> (p: String)
    ensures
        p@ == directory@ + "/pueue.yml"@,
{
    directory.clone().concat("/pueue.yml")
}

/// Whether the sweep over the configuration directories must fail: a
/// configuration was required and none of the directories held one.
pub fn require_config_check(require_config: bool, config_found: bool) -> (r: Result<(), Error>)
    ensures
        (r matches Err(e) ==> e@ == ErrorView::NotFound(
            "Couldn't find a configuration file. Did you start the daemon yet?"@,
        )),
        (r matches Ok(_) <==> !(require_config && !config_found)),
{
    if require_config && !config_found {
        Err(
            Error::NotFound(
                String::from_str("Couldn't find a configuration file. Did you start the daemon yet?"),
            ),
        )
    } else {
        Ok(())
    }
}

/// The failure reported when an explicitly requested configuration file is
/// absent, naming the path.
pub fn missing_config_error(path: &String) -> (e: Error)
    ensures
        e@ == ErrorView::NotFound("Couldn't find config at path \""@ + path@ + "\""@),
{
    Error::NotFound(
        String::from_str("Couldn't find config at path \"").concat(path.as_str()).concat("\""),
    )
}

/// Where the configuration is saved: the explicit target when one is given,
/// else `pueue.yml` inside the default configuration directory.
pub fn resolve_config_path(to_file: Option<String>, default_config_dir: String) -> (p: String)
    ensures
        (match to_file {
            Some(f) => p@ == f@,
            None => p@ == default_config_dir@ + "/pueue.yml"@,
        }),
{
    match to_file {
        Some(f) => f,
        None => default_config_dir.concat("/pueue.yml"),
    }
}

} // verus!
