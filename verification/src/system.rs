//! The command surface: the fixed table of operations that the front-end can
//! invoke across the native/web boundary, and its single entry,
//! `get_app_info`.

use vstd::prelude::*;

verus! {

/// The product's constant name, as `get_app_info` reports it.
pub open spec fn app_name() -> Seq<char> {
    "NYOWORKS"@
}

/// The package version declared for this build; `get_app_info` reports it
/// verbatim, and nothing can override it at run time.
pub open spec fn app_version() -> Seq<char> {
    "0.1.0"@
}

/// The name under which the front-end invokes [`get_app_info`].
pub open spec fn get_app_info_name() -> Seq<char> {
    "get_app_info"@
}

/// Static build metadata returned to the front-end: exactly a name and a
/// version, nothing else.
pub struct AppInfo {
    pub name: String,
    pub version: String,
}

impl AppInfo {
    /// What every `AppInfo` handed out by the command surface holds: the
    /// constant product name and the build's declared version.
    pub open spec fn wf(self) -> bool {
        &&& self.name@ == app_name()
        &&& self.version@ == app_version()
    }
}

/// Returns the build metadata. Deterministic, side-effect free, and without
/// an error path: every call yields the same name and version.
pub fn get_app_info() -> (r: AppInfo)
    ensures
        r.wf(),
{
    AppInfo { name: "NYOWORKS".to_owned(), version: "0.1.0".to_owned() }
}

/// `get_app_info` is pure: any two values it can return agree field by
/// field, so repeated calls in one process are indistinguishable.
pub proof fn lemma_get_app_info_deterministic(a: AppInfo, b: AppInfo)
    requires
        a.wf(),
        b.wf(),
    ensures
        a.name@ == b.name@,
        a.version@ == b.version@,
{
}

/// The command names the surface exposes, in table order: one entry.
pub fn command_names() -> (r: Vec<String>)
    ensures
        r@.len() == 1,
        r@[0]@ == get_app_info_name(),
{
    let mut names: Vec<String> = Vec::new();
    names.push("get_app_info".to_owned());
    names
}

/// Dispatches one front-end invocation by command name: the one known name
/// reaches its handler, every other name is rejected.
pub fn dispatch_command(name: &str) -> (r: Option<AppInfo>)
    ensures
        name@ == get_app_info_name() ==> (r matches Some(info) && info.wf()),
        name@ != get_app_info_name() ==> r is None,
{
    let requested: String = name.to_owned();
    let known: String = "get_app_info".to_owned();
    if requested == known {
        Some(get_app_info())
    } else {
        None
    }
}

} // verus!
