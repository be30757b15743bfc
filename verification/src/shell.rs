//! The HTML that is wrapped around a streamed page.
//!
//! A page goes out as a head that loads the site's script and WASM module,
//! then what the renderer produces, then a fixed tail. In development the
//! head also carries a script that reloads the page when the watcher says
//! so.

use crate::config::LeptosOptions;
use crate::text::decimal;
use crate::text::to_decimal;
use vstd::prelude::*;
use vstd::string::StringExecFns;

verus! {

/// The head up to the path of the script that is preloaded.
pub const HEAD_OPEN: &'static str =
    "<!DOCTYPE html>\n                    <html lang=\"en\">\n                        <head>\n                            <meta charset=\"utf-8\"/>\n                            <meta name=\"viewport\" content=\"width=device-width, initial-scale=1\"/>\n                            <link rel=\"modulepreload\" href=\"/";

/// From the script that is preloaded to the path of the WASM module.
pub const HEAD_PRELOAD: &'static str =
    ".js\">\n                            <link rel=\"preload\" href=\"/";

/// From the WASM module that is preloaded to the path of the script that
/// is imported.
pub const HEAD_IMPORT: &'static str =
    ".wasm\" as=\"fetch\" type=\"application/wasm\" crossorigin=\"\">\n                            <script type=\"module\">import init, { hydrate } from '/";

/// From the script that is imported to the path of the WASM module that
/// is started.
pub const HEAD_INIT: &'static str = ".js'; init('/";

/// From the WASM module that is started to the live-reload script.
pub const HEAD_HYDRATE: &'static str =
    ".wasm').then(hydrate);</script>\n                            ";

/// What follows the live-reload script.
pub const HEAD_CLOSE: &'static str = "\n                            ";

/// The live-reload script up to the address of the watcher.
pub const RELOAD_OPEN: &'static str =
    "\n                        <script crossorigin=\"\">(function () {\n                            var ws = new WebSocket('ws://";

/// The live-reload script from the port of the watcher on.
pub const RELOAD_CLOSE: &'static str =
    "/live_reload');\n                            ws.onmessage = (ev) => {\n                                let msg = JSON.parse(ev.data);\n                                if (msg.all) window.location.reload();\n                                if (msg.css) {\n                                    const link = document.querySelector(\"link#leptos\");\n                                    if (link) {\n                                        let href = link.getAttribute('href').split('?')[0];\n                                        let newHref = href + '?version=' + new Date().getMilliseconds();\n                                        link.setAttribute('href', newHref);\n                                    } else {\n                                        console.warn(\"Could not find link#leptos\");\n                                    }\n                                };\n                            };\n                            ws.onclose = () => console.warn('Live-reload stopped. Manual reload necessary.');\n                        })()\n                        </script>\n                        ";

/// The end of every page.
pub const TAIL: &'static str = "</body></html>";

/// What closes the head and opens the body, behind the tags that the page
/// itself contributes to the head.
pub const BODY_OPEN: &'static str = "</head><body>";

/// The origin against which the path of a request is resolved.
pub const ORIGIN: &'static str = "http://leptos.dev";

/// What the bundler appends to the name of a WASM file.
pub const WASM_SUFFIX: &'static str = "_bg";

/// The name of the WASM file. Where the environment did not name the
/// output, the bundler's default is assumed, which appends `_bg`.
pub open spec fn wasm_name(output_name: Seq<char>, named_by_env: bool) -> Seq<char> {
    if named_by_env {
        output_name
    } else {
        output_name + WASM_SUFFIX@
    }
}

/// The live-reload script for a watcher at `site_ip` and `port`; nothing
/// unless the site is being watched.
pub open spec fn reload_script(site_ip: Seq<char>, port: nat, watched: bool) -> Seq<char> {
    if watched {
        RELOAD_OPEN@ + site_ip + ":"@ + decimal(port) + RELOAD_CLOSE@
    } else {
        Seq::empty()
    }
}

/// The head of a page whose files lie under `pkg`, with the script
/// `output`, the WASM module `wasm` and the live-reload script `reload`.
pub open spec fn head_of(pkg: Seq<char>, output: Seq<char>, wasm: Seq<char>, reload: Seq<char>) -> Seq<
    char,
> {
    HEAD_OPEN@ + pkg + "/"@ + output + HEAD_PRELOAD@ + pkg + "/"@ + wasm + HEAD_IMPORT@ + pkg + "/"@
        + output + HEAD_INIT@ + pkg + "/"@ + wasm + HEAD_HYDRATE@ + reload + HEAD_CLOSE@
}

/// The head of the pages of a site with the given settings.
pub open spec fn shell_head(options: LeptosOptions, named_by_env: bool, watched: bool) -> Seq<char> {
    head_of(
        options.site_pkg_dir@,
        options.output_name@,
        wasm_name(options.output_name@, named_by_env),
        reload_script(options.site_address.ip@, options.reload_port as nat, watched),
    )
}

/// The name of the WASM file of a site. `named_by_env` says whether the
/// environment names the output.
pub fn wasm_output_name(output_name: &str, named_by_env: bool) -> (r: String)
    ensures
        r@ == wasm_name(output_name@, named_by_env),
{
    let mut name = String::from_str(output_name);
    if !named_by_env {
        name.append(WASM_SUFFIX);
    }
    name
}

/// The live-reload script of a site. `watched` says whether the site is
/// being watched.
pub fn leptos_autoreload(site_ip: &str, reload_port: u32, watched: bool) -> (r: String)
    ensures
        r@ == reload_script(site_ip@, reload_port as nat, watched),
{
    if watched {
        let mut script = String::from_str(RELOAD_OPEN);
        script.append(site_ip);
        script.append(":");
        let port = to_decimal(reload_port);
        script.append(port.as_str());
        script.append(RELOAD_CLOSE);
        script
    } else {
        String::new()
    }
}

/// The head of the pages of a site. `named_by_env` says whether the
/// environment names the output, `watched` whether the site is being
/// watched.
pub fn html_shell_head(options: &LeptosOptions, named_by_env: bool, watched: bool) -> (r: String)
    ensures
        r@ == shell_head(*options, named_by_env, watched),
{
    let pkg = options.site_pkg_dir.as_str();
    let output = options.output_name.as_str();
    let wasm_name = wasm_output_name(output, named_by_env);
    let wasm = wasm_name.as_str();
    let reload = leptos_autoreload(options.site_address.ip.as_str(), options.reload_port, watched);
    let mut head = String::from_str(HEAD_OPEN);
    head.append(pkg);
    head.append("/");
    head.append(output);
    head.append(HEAD_PRELOAD);
    head.append(pkg);
    head.append("/");
    head.append(wasm);
    head.append(HEAD_IMPORT);
    head.append(pkg);
    head.append("/");
    head.append(output);
    head.append(HEAD_INIT);
    head.append(pkg);
    head.append("/");
    head.append(wasm);
    head.append(HEAD_HYDRATE);
    head.append(reload.as_str());
    head.append(HEAD_CLOSE);
    head
}

/// The tail of every page.
pub fn html_shell_tail() -> (r: String)
    ensures
        r@ == TAIL@,
{
    String::from_str(TAIL)
}

/// What the renderer puts in front of the page's body: the tags that the
/// page contributes to the head, then the end of the head and the start of
/// the body.
pub fn body_prefix(meta_tags: &str) -> (r: String)
    ensures
        r@ == meta_tags@ + BODY_OPEN@,
{
    let mut prefix = String::from_str(meta_tags);
    prefix.append(BODY_OPEN);
    prefix
}

/// The full address of a request for routing, given its path and query.
pub fn full_path(path_and_query: &str) -> (r: String)
    ensures
        r@ == ORIGIN@ + path_and_query@,
{
    let mut full = String::from_str(ORIGIN);
    full.append(path_and_query);
    full
}

} // verus!
