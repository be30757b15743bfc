use leptos_axum::config::LeptosOptions;
use leptos_axum::config::SiteAddress;
use leptos_axum::shell::body_prefix;
use leptos_axum::shell::full_path;
use leptos_axum::shell::html_shell_head;
use leptos_axum::shell::html_shell_tail;
use leptos_axum::shell::leptos_autoreload;
use leptos_axum::shell::wasm_output_name;
use leptos_axum::text::same_text;
use leptos_axum::text::to_decimal;

fn expected_autoreload(site_ip: &str, reload_port: u32) -> String {
    format!(
        r#"
                        <script crossorigin="">(function () {{
                            var ws = new WebSocket('ws://{site_ip}:{reload_port}/live_reload');
                            ws.onmessage = (ev) => {{
                                let msg = JSON.parse(ev.data);
                                if (msg.all) window.location.reload();
                                if (msg.css) {{
                                    const link = document.querySelector("link#leptos");
                                    if (link) {{
                                        let href = link.getAttribute('href').split('?')[0];
                                        let newHref = href + '?version=' + new Date().getMilliseconds();
                                        link.setAttribute('href', newHref);
                                    }} else {{
                                        console.warn("Could not find link#leptos");
                                    }}
                                }};
                            }};
                            ws.onclose = () => console.warn('Live-reload stopped. Manual reload necessary.');
                        }})()
                        </script>
                        "#
    )
}

fn expected_head(
    pkg_path: &str,
    output_name: &str,
    wasm_output_name: &str,
    leptos_autoreload: &str,
) -> String {
    format!(
        r#"<!DOCTYPE html>
                    <html lang="en">
                        <head>
                            <meta charset="utf-8"/>
                            <meta name="viewport" content="width=device-width, initial-scale=1"/>
                            <link rel="modulepreload" href="/{pkg_path}/{output_name}.js">
                            <link rel="preload" href="/{pkg_path}/{wasm_output_name}.wasm" as="fetch" type="application/wasm" crossorigin="">
                            <script type="module">import init, {{ hydrate }} from '/{pkg_path}/{output_name}.js'; init('/{pkg_path}/{wasm_output_name}.wasm').then(hydrate);</script>
                            {leptos_autoreload}
                            "#
    )
}

fn options() -> LeptosOptions {
    let mut options = LeptosOptions::with_defaults("todo_app".to_string());
    options.site_pkg_dir = "static/pkg".to_string();
    options.site_address = SiteAddress { ip: "0.0.0.0".to_string(), port: 8080 };
    options.reload_port = 4001;
    options
}

#[test]
fn numbers_are_written_in_decimal() {
    assert_eq!(to_decimal(0), "0");
    assert_eq!(to_decimal(7), "7");
    assert_eq!(to_decimal(10), "10");
    assert_eq!(to_decimal(3001), "3001");
    assert_eq!(to_decimal(1234567890), "1234567890");
    assert_eq!(to_decimal(u32::MAX), "4294967295");
    for n in [9u32, 99, 100, 101, 65535, 65536, 4000000000] {
        assert_eq!(to_decimal(n), n.to_string());
    }
}

#[test]
fn texts_are_the_same_when_their_characters_are() {
    assert!(same_text("", ""));
    assert!(same_text("dev", "dev"));
    assert!(!same_text("dev", "Dev"));
    assert!(!same_text("dev", "deve"));
    assert!(same_text("\u{e9}", "\u{e9}"));
}

#[test]
fn wasm_name_gets_the_bundler_suffix_unless_the_environment_names_it() {
    assert_eq!(wasm_output_name("todo_app", false), "todo_app_bg");
    assert_eq!(wasm_output_name("todo_app", true), "todo_app");
    assert_eq!(wasm_output_name("", false), "_bg");
}

#[test]
fn no_autoreload_script_unless_watched() {
    assert_eq!(leptos_autoreload("127.0.0.1", 3001, false), "");
}

#[test]
fn autoreload_script_connects_to_the_watcher() {
    let script = leptos_autoreload("127.0.0.1", 3001, true);
    assert_eq!(script, expected_autoreload("127.0.0.1", 3001));
    assert!(script.contains("new WebSocket('ws://127.0.0.1:3001/live_reload')"));
    let script = leptos_autoreload("::1", 65535, true);
    assert_eq!(script, expected_autoreload("::1", 65535));
}

#[test]
fn head_loads_script_and_module() {
    let head = html_shell_head(&options(), false, false);
    assert_eq!(head, expected_head("static/pkg", "todo_app", "todo_app_bg", ""));
    assert!(head.starts_with("<!DOCTYPE html>"));
    assert!(head.contains("<link rel=\"modulepreload\" href=\"/static/pkg/todo_app.js\">"));
    assert!(head.contains("href=\"/static/pkg/todo_app_bg.wasm\""));
    assert!(head.contains(
        "import init, { hydrate } from '/static/pkg/todo_app.js'; init('/static/pkg/todo_app_bg.wasm').then(hydrate);"
    ));
    assert!(!head.contains("live_reload"));
}

#[test]
fn head_with_output_named_by_the_environment() {
    let head = html_shell_head(&options(), true, false);
    assert_eq!(head, expected_head("static/pkg", "todo_app", "todo_app", ""));
}

#[test]
fn head_of_a_watched_site_carries_the_autoreload_script() {
    let head = html_shell_head(&options(), false, true);
    let script = expected_autoreload("0.0.0.0", 4001);
    assert_eq!(head, expected_head("static/pkg", "todo_app", "todo_app_bg", &script));
    assert!(head.contains("ws://0.0.0.0:4001/live_reload"));
    let head = html_shell_head(&options(), true, true);
    assert_eq!(head, expected_head("static/pkg", "todo_app", "todo_app", &script));
}

#[test]
fn head_with_default_settings() {
    let options = LeptosOptions::with_defaults("app".to_string());
    let head = html_shell_head(&options, false, true);
    let script = expected_autoreload("127.0.0.1", 3001);
    assert_eq!(head, expected_head("pkg", "app", "app_bg", &script));
}

#[test]
fn tail_closes_body_and_document() {
    assert_eq!(html_shell_tail(), "</body></html>");
}

#[test]
fn body_prefix_closes_the_head() {
    assert_eq!(body_prefix("<title>Todos</title>"), "<title>Todos</title></head><body>");
    assert_eq!(body_prefix(""), "</head><body>");
}

#[test]
fn full_path_is_resolved_against_a_fixed_origin() {
    assert_eq!(full_path("/todos?filter=open"), "http://leptos.dev/todos?filter=open");
    assert_eq!(full_path("/"), "http://leptos.dev/");
    assert_eq!(full_path(""), "http://leptos.dev");
}
