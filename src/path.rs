use vstd::prelude::*;

use crate::config::{ClientEntryView, Config, ConfigView};

verus! {

/// The directory under the base directory that holds one directory per client.
pub const CLIENTS_DIR: &'static str = "clients";

/// The path that the platform's path joining gives for `segment` pushed onto
/// `base`.
pub uninterp spec fn joined_path(base: Seq<char>, segment: Seq<char>) -> Seq<char>;

/// Relies on `std::path::Path::join`: the joined path is determined by the two
/// components, and joining UTF-8 components gives UTF-8, so the lossy
/// conversion back to text changes nothing.
#[verifier::external_body]
fn join_path(base: &str, segment: &str) -> (r: String)
    ensures
        r@ == joined_path(base@, segment@),
{
    std::path::Path::new(base).join(segment).to_string_lossy().into_owned()
}

/// The log file of a client: `basedir / clients / id / log_path`.
pub open spec fn log_path_of(basedir: Seq<char>, entry: ClientEntryView) -> Seq<char> {
    joined_path(joined_path(joined_path(basedir, CLIENTS_DIR@), entry.id), entry.log_path)
}

impl ConfigView {
    /// The log file of the client registered under `client_id`.
    pub open spec fn log_path(self, client_id: Seq<char>) -> Seq<char> {
        log_path_of(self.basedir, self.clients[client_id])
    }
}

/// A client identifier that the registry does not hold.
#[derive(Debug, Clone, Copy, PartialEq, Eq)]
pub struct ClientNotFound;

/// The log file of the client registered under `client_id`. Nothing on disk
/// is read: the path follows from the configuration alone.
pub fn resolve(config: &Config, client_id: &String) -> (r: Result<String, ClientNotFound>)
    ensures
        match r {
            Ok(path) => config@.clients.contains_key(client_id@) && path@ == config@.log_path(
                client_id@,
            ),
            Err(_) => !config@.clients.contains_key(client_id@),
        },
{
    match config.get(client_id) {
        Some(entry) => {
            let clients_dir = join_path(config.basedir(), CLIENTS_DIR);
            let client_dir = join_path(clients_dir.as_str(), entry.id.as_str());
            Ok(join_path(client_dir.as_str(), entry.log_path.as_str()))
        },
        None => Err(ClientNotFound),
    }
}

} // verus!
