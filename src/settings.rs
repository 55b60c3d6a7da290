use vstd::prelude::*;

verus! {

/// The file that holds the application's settings.
pub const SETTINGS_STORE: &'static str = "opencode.settings.dat";

/// The directory of the application inside the user's data directory.
pub const APP_DIR_NAME: &'static str = "ai.opencode.desktop";

/// The settings key of the configured remote server URL.
pub const DEFAULT_SERVER_URL_KEY: &'static str = "defaultServerUrl";

/// The settings key of the display configuration on Linux.
pub const LINUX_DISPLAY_CONFIG_KEY: &'static str = "linuxDisplayConfig";

/// `name` inside the directory `base`, with `/` as separator: `name` alone when
/// `base` is empty, no second separator when `base` already ends in one.
pub open spec fn join_of(base: Seq<char>, name: Seq<char>) -> Seq<char> {
    if base.len() == 0 {
        name
    } else if base.last() == '/' {
        base + name
    } else {
        base + seq!['/'] + name
    }
}

/// Where the settings file lies under the user's data directory `data_dir`.
pub open spec fn settings_path_of(data_dir: Seq<char>) -> Seq<char> {
    join_of(join_of(data_dir, APP_DIR_NAME@), SETTINGS_STORE@)
}

/// `name` inside the directory `base`.
pub fn join(base: &str, name: &str) -> (r: String)
    ensures
        r@ == join_of(base@, name@),
{
    let n: usize = base.unicode_len();
    if n == 0 {
        return String::from_str(name);
    }
    let mut r = String::from_str(base);
    if base.get_char(n - 1) != '/' {
        proof { reveal_strlit("/"); }
        r.append("/");
    }
    r.append(name);
    r
}

/// Where the settings file lies under the user's data directory `data_dir`.
pub fn settings_path_in(data_dir: &str) -> (r: String)
    ensures
        r@ == settings_path_of(data_dir@),
{
    let dir = join(data_dir, APP_DIR_NAME);
    join(dir.as_str(), SETTINGS_STORE)
}

/// Relies on `dirs::data_dir`: the user's data directory, as the operating
/// system and the environment give it; `None` when it cannot be found.
#[verifier::external_body]
fn user_data_dir() -> (r: Option<String>) {
    dirs::data_dir().map(|p| p.to_string_lossy().into_owned())
}

/// Where the settings file lies: under the user's data directory, when there is one.
pub fn path() -> (r: Option<String>)
    ensures
        match r {
            Some(p) => exists|d: Seq<char>| p@ == settings_path_of(d),
            None => true,
        },
{
    match user_data_dir() {
        Some(d) => Some(settings_path_in(d.as_str())),
        None => None,
    }
}

} // verus!
