use crate::resolver::{Endpoint, EndpointModel, Outcome, OutcomeModel};
use crate::text::{escape_quoted, escaped, push_decimal, decimal};
use vstd::prelude::*;

verus! {

/// The script that tells the user interface the backend is ready.
pub open spec fn ready_script_of() -> Seq<char> {
    "window.__OPENCODE__.serverReady = true;"@
}

/// The script that hands the user interface the remote server's `url`.
pub open spec fn server_url_script_of(url: Seq<char>) -> Seq<char> {
    "window.__OPENCODE__.serverUrl = \""@ + escaped(url) + "\";"@
}

/// The scripts to run in the user interface once `o` is known, in order.
pub open spec fn scripts_for(o: OutcomeModel) -> Seq<Seq<char>> {
    match o {
        OutcomeModel::Ready(EndpointModel::Remote(url)) => seq![
            ready_script_of(),
            server_url_script_of(url),
        ],
        OutcomeModel::Ready(EndpointModel::Local(_)) => seq![ready_script_of()],
        OutcomeModel::Failed(_) => Seq::empty(),
    }
}

/// The script that hands the user interface the remote server's `url`, quoted
/// with its backslashes and double quotes escaped.
pub fn server_url_script(url: &str) -> (r: String)
    ensures
        r@ == server_url_script_of(url@),
{
    let mut r = String::from_str("window.__OPENCODE__.serverUrl = \"");
    let e = escape_quoted(url);
    r.append(e.as_str());
    r.append("\";");
    r
}

/// The scripts to run in the user interface once the outcome is known: the
/// ready flag when a backend is ready, then the server's address when it is
/// remote; nothing on failure.
pub fn scripts_after(o: &Outcome) -> (r: Vec<String>)
    ensures
        r@.len() == scripts_for(o@).len(),
        forall|i: int| 0 <= i < r@.len() ==> #[trigger] r@[i]@ == scripts_for(o@)[i],
{
    let mut r: Vec<String> = Vec::new();
    match o {
        Outcome::Ready(endpoint) => {
            r.push(String::from_str("window.__OPENCODE__.serverReady = true;"));
            match endpoint {
                Endpoint::Remote { url } => {
                    r.push(server_url_script(url.as_str()));
                },
                Endpoint::Local { .. } => {},
            }
        },
        Outcome::Failed(_) => {},
    }
    r
}

/// The script that sets up the user interface's globals before the backend is known.
pub open spec fn init_script_of(updater_enabled: bool, port: u32) -> Seq<char> {
    "window.__OPENCODE__ ??= {};\nwindow.__OPENCODE__.updaterEnabled = "@
        + (if updater_enabled { "true"@ } else { "false"@ })
        + ";\nwindow.__OPENCODE__.port = "@ + decimal(port as nat) + ";\n"@
}

/// The script that sets up the user interface's globals: whether updates are
/// enabled and the local port.
pub fn init_script(updater_enabled: bool, port: u32) -> (r: String)
    ensures
        r@ == init_script_of(updater_enabled, port),
{
    let mut r = String::from_str(
        "window.__OPENCODE__ ??= {};\nwindow.__OPENCODE__.updaterEnabled = ",
    );
    if updater_enabled {
        r.append("true");
    } else {
        r.append("false");
    }
    r.append(";\nwindow.__OPENCODE__.port = ");
    push_decimal(&mut r, port);
    r.append(";\n");
    r
}

/// The question put to the user when the configured server at `url` is unhealthy.
pub open spec fn retry_prompt_of(url: Seq<char>) -> Seq<char> {
    "Could not connect to configured server:\n"@ + url
        + "\n\nWould you like to retry or start a local server instead?"@
}

/// The question put to the user when the configured server at `url` is unhealthy.
pub fn retry_prompt(url: &str) -> (r: String)
    ensures
        r@ == retry_prompt_of(url@),
{
    let mut r = String::from_str("Could not connect to configured server:\n");
    r.append(url);
    r.append("\n\nWould you like to retry or start a local server instead?");
    r
}

} // verus!
