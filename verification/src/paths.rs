//! The check of the standard directories at startup.

use vstd::prelude::*;

verus! {

/// A standard directory of the operating system or of the application.
#[derive(Clone, Copy, Debug, PartialEq, Eq, Structural)]
pub enum BaseDirectory {
    Audio,
    Cache,
    Config,
    Data,
    LocalData,
    Document,
    Download,
    Picture,
    Public,
    Video,
    Resource,
    Temp,
    AppConfig,
    AppData,
    AppLocalData,
    AppCache,
    AppLog,
    Desktop,
    Executable,
    Font,
    Home,
    Runtime,
    Template,
}

/// The directories that are checked at startup, in the order of the check.
pub open spec fn checked_directories() -> Seq<BaseDirectory> {
    seq![
        BaseDirectory::Audio,
        BaseDirectory::Cache,
        BaseDirectory::Config,
        BaseDirectory::Data,
        BaseDirectory::LocalData,
        BaseDirectory::Document,
        BaseDirectory::Download,
        BaseDirectory::Picture,
        BaseDirectory::Public,
        BaseDirectory::Video,
        BaseDirectory::Resource,
        BaseDirectory::Temp,
        BaseDirectory::AppConfig,
        BaseDirectory::AppData,
        BaseDirectory::AppLocalData,
        BaseDirectory::AppCache,
        BaseDirectory::AppLog,
        BaseDirectory::Desktop,
        BaseDirectory::Executable,
        BaseDirectory::Font,
        BaseDirectory::Home,
        BaseDirectory::Runtime,
        BaseDirectory::Template,
    ]
}

/// Whether a probe found the directory: it resolved to a path, and that
/// path exists. `None` stands for a directory that did not resolve.
pub open spec fn accessible(probed: Option<bool>) -> bool {
    probed == Some(true)
}

/// Whether `found` is what the check says of `dir` for some answer that
/// `probe` can give on it.
pub open spec fn probe_gives<F: Fn(BaseDirectory) -> Option<bool>>(
    probe: F,
    dir: BaseDirectory,
    found: bool,
) -> bool {
    exists|probed: Option<bool>| #[trigger]
        call_ensures(probe, (dir,), probed) && found == accessible(probed)
}

/// Returns the directories that are checked at startup, in order.
pub fn directories_to_check() -> (dirs: Vec<BaseDirectory>)
    ensures
        dirs@ == checked_directories(),
{
    let dirs = vec![
        BaseDirectory::Audio,
        BaseDirectory::Cache,
        BaseDirectory::Config,
        BaseDirectory::Data,
        BaseDirectory::LocalData,
        BaseDirectory::Document,
        BaseDirectory::Download,
        BaseDirectory::Picture,
        BaseDirectory::Public,
        BaseDirectory::Video,
        BaseDirectory::Resource,
        BaseDirectory::Temp,
        BaseDirectory::AppConfig,
        BaseDirectory::AppData,
        BaseDirectory::AppLocalData,
        BaseDirectory::AppCache,
        BaseDirectory::AppLog,
        BaseDirectory::Desktop,
        BaseDirectory::Executable,
        BaseDirectory::Font,
        BaseDirectory::Home,
        BaseDirectory::Runtime,
        BaseDirectory::Template,
    ];
    assert(dirs@ =~= checked_directories());
    dirs
}

/// Says whether a probe found its directory.
pub fn path_accessible(probed: Option<bool>) -> (found: bool)
    ensures
        found == accessible(probed),
{
    match probed {
        Some(exists) => exists,
        None => false,
    }
}

/// Probes every standard directory, in order, and says of each whether it
/// was found. `probe` resolves one directory and looks whether it exists.
pub fn check_all_tauri_paths<F: Fn(BaseDirectory) -> Option<bool>>(probe: F) -> (checks: Vec<bool>)
    requires
        forall|dir: BaseDirectory| call_requires(probe, (dir,)),
    ensures
        checks@.len() == checked_directories().len(),
        forall|i: int|
            0 <= i < checks@.len() ==> probe_gives(probe, checked_directories()[i], #[trigger] checks@[i]),
{
    let dirs = directories_to_check();
    let mut checks: Vec<bool> = Vec::new();
    let mut i: usize = 0;
    while i < dirs.len()
        invariant
            i <= dirs.len(),
            dirs@ == checked_directories(),
            checks@.len() == i,
            forall|dir: BaseDirectory| call_requires(probe, (dir,)),
            forall|k: int|
                0 <= k < i ==> probe_gives(probe, checked_directories()[k], #[trigger] checks@[k]),
        decreases dirs.len() - i,
    {
        let probed = probe(dirs[i]);
        let found = path_accessible(probed);
        assert(probe_gives(probe, checked_directories()[i as int], found)) by {
            assert(call_ensures(probe, (dirs@[i as int],), probed));
        }
        checks.push(found);
        i += 1;
    }
    checks
}

} // verus!
