use leptos_axum::config::EnvVars;
use leptos_axum::config::LeptosConfigError;
use leptos_axum::config::SiteAddress;
use leptos_axum::config::VarError;
use leptos_axum::manifest::get_configuration;
use leptos_axum::manifest::Loaded;
use leptos_axum::manifest::Source;
use leptos_axum::manifest::count_byte;
use leptos_axum::manifest::leptos_section;
use leptos_axum::manifest::replace;
use leptos_axum::manifest::section_from;
use leptos_axum::manifest::word_at;

/// The section as the regular expression and the replacements of the
/// standard library give it.
fn by_the_book(text: &str) -> Option<String> {
    let re = regex::Regex::new(r#"(?m)^\[package.metadata.leptos\]"#).unwrap();
    let start = re.find(text)?.start();
    let newlines = text[..start].matches('\n').count();
    let input = "\n".repeat(newlines) + &text[start..];
    Some(input.replace("[package.metadata.leptos]", "[leptos_options]").replace('-', "_"))
}

fn section(text: &str) -> Option<String> {
    match leptos_section(text) {
        Ok(toml) => Some(String::from_utf8(toml).unwrap()),
        Err(LeptosConfigError::ConfigSectionNotFound) => None,
        Err(other) => panic!("{other:?}"),
    }
}

#[test]
fn section_is_moved_down_and_renamed() {
    let manifest = "[package]\nname = \"todo-app\"\n\n[package.metadata.leptos]\noutput-name = \"todo-app\"\nsite-root = \"target/site\"\n";
    assert_eq!(
        section(manifest).unwrap(),
        "\n\n\n[leptos_options]\noutput_name = \"todo_app\"\nsite_root = \"target/site\"\n"
    );
}

#[test]
fn section_at_the_very_start() {
    assert_eq!(
        section("[package.metadata.leptos]\nreload-port = 3001").unwrap(),
        "[leptos_options]\nreload_port = 3001"
    );
    assert_eq!(section("[package.metadata.leptos]").unwrap(), "[leptos_options]");
}

#[test]
fn manifest_without_the_section() {
    assert!(matches!(
        leptos_section("[package]\nname = \"x\"\n"),
        Err(LeptosConfigError::ConfigSectionNotFound)
    ));
    assert!(section("").is_none());
    assert!(section(" [package.metadata.leptos]").is_none());
    assert!(section("# [package.metadata.leptos]\n").is_none());
    assert!(section("[package.metadata.leptos").is_none());
    assert!(section("[package\nmetadata.leptos]").is_none());
    assert!(section("[package.metadata\nleptos]").is_none());
    assert!(section("[Package.metadata.leptos]").is_none());
}

#[test]
fn any_character_may_stand_for_a_dot_of_the_heading() {
    for manifest in [
        "a\n[package-metadata-leptos]\nk-1 = 1\n",
        "a\n[packageXmetadataYleptos]\nk = 1\n",
        "a\n[package\u{e9}metadata\u{20ac}leptos]\nk = \"\u{1f600}-\"\n",
        "a\n[package\u{1f600}metadata.leptos]\nk = 1\n",
        "a\r\n[package\rmetadata\tleptos]\r\nk = 1\r\n",
    ] {
        assert!(section(manifest).is_some(), "{manifest}");
        assert_eq!(section(manifest), by_the_book(manifest), "{manifest}");
    }
}

#[test]
fn the_first_heading_counts() {
    let manifest = "x = 1\n[package.metadata.leptos]\na-b = 1\n[package.metadata.leptos]\nc-d = 2\n";
    assert_eq!(
        section(manifest).unwrap(),
        "\n[leptos_options]\na_b = 1\n[leptos_options]\nc_d = 2\n"
    );
    let manifest = "x = \"[package.metadata.leptos]\"\n\n[package.metadata.leptos]\ny = 1";
    assert_eq!(section(manifest).unwrap(), "\n\n[leptos_options]\ny = 1");
}

#[test]
fn agrees_with_the_regular_expression_and_the_standard_library() {
    let manifests = [
        "",
        "\n",
        "[package.metadata.leptos]",
        "\n[package.metadata.leptos]",
        "\n\n\n[package.metadata.leptos]\n-\n--\n",
        "x[package.metadata.leptos]\n[package.metadata.leptos]x-y",
        "[package.metadata.leptos][package.metadata.leptos]-[package.metadata.leptos",
        "\u{e9}\n\u{20ac}\n[package.metadata.leptos]\n\u{1f600}-\u{e9} = \"[package-metadata-leptos]\"",
        "[package.metadata.leptos\n[package.metadata.leptos]",
        "[package.metadata.leptos]\n[package.metadata.leptos]\n",
        "[[package.metadata.leptos]]",
        "a\n[package.metadata.leptos] # settings\nbind-addr = \"127.0.0.1:3000\"\n[other-table]\n",
        "[package\u{e9}metadata.leptos]",
        "\n[package.metadata.lepto]\n[package..metadata.leptos]\n[package.metadata.leptos]",
    ];
    for manifest in manifests {
        assert_eq!(section(manifest), by_the_book(manifest), "{manifest:?}");
    }
}

#[test]
fn counts_bytes() {
    assert_eq!(count_byte(b"a\nb\n\nc", b'\n'), 3);
    assert_eq!(count_byte(b"a\n", b'\n'), 1);
    assert_eq!(count_byte(b"a", b'\n'), 0);
    assert_eq!(count_byte(b"", b'\n'), 0);
    assert_eq!(count_byte(b"aaa", b'a'), 3);
}

#[test]
fn finds_a_word_at_a_place() {
    assert!(word_at(b"hello world", 6, b"world"));
    assert!(word_at(b"hello world", 0, b"hello"));
    assert!(!word_at(b"hello world", 7, b"world"));
    assert!(!word_at(b"hello world", 5, b"world"));
    assert!(word_at(b"hello", 5, b""));
    assert!(word_at(b"hello", 2, b""));
    assert!(!word_at(b"hello", 5, b"o"));
    assert!(!word_at(b"hello", 6, b""));
    assert!(!word_at(b"hello", usize::MAX, b"lo"));
}

#[test]
fn replaces_from_left_to_right() {
    assert_eq!(replace(b"a-b--c", b"-", b"_"), b"a_b__c".to_vec());
    assert_eq!(replace(b"aaa", b"aa", b"b"), b"ba".to_vec());
    assert_eq!(replace(b"aaaa", b"aa", b"b"), b"bb".to_vec());
    assert_eq!(replace(b"abc", b"abcd", b"x"), b"abc".to_vec());
    assert_eq!(replace(b"abc", b"", b"x"), b"abc".to_vec());
    assert_eq!(replace(b"abc", b"b", b""), b"ac".to_vec());
    assert_eq!(replace(b"", b"a", b"b"), b"".to_vec());
    assert_eq!(replace(b"abab", b"ab", b"abab"), b"abababab".to_vec());
    for (text, from, to) in [("a-b-c", "-", "_"), ("xxyxx", "xx", "y"), ("abc", "c", "cc")] {
        assert_eq!(
            replace(text.as_bytes(), from.as_bytes(), to.as_bytes()),
            text.replace(from, to).into_bytes()
        );
    }
}

#[test]
fn section_from_a_given_start() {
    assert_eq!(
        section_from(b"a\nb\n[package.metadata.leptos]\nk-v = 1", 4),
        b"\n\n[leptos_options]\nk_v = 1".to_vec()
    );
    assert_eq!(section_from(b"a-b", 3), b"".to_vec());
    assert_eq!(section_from(b"a\n-", 2), b"\n_".to_vec());
    assert_eq!(section_from(b"a-b", 0), b"a_b".to_vec());
}

#[test]
fn manifest_that_could_not_be_read() {
    assert!(matches!(
        get_configuration(Source::Manifest(None)),
        Err(LeptosConfigError::ConfigNotFound)
    ));
}

#[test]
fn manifest_gives_its_section() {
    let text = "[package]\n[package.metadata.leptos]\nsite-root = \"x\"".to_string();
    match get_configuration(Source::Manifest(Some(text))) {
        Ok(Loaded::Section(toml)) => {
            assert_eq!(toml, b"\n[leptos_options]\nsite_root = \"x\"".to_vec())
        }
        other => panic!("{other:?}"),
    }
    assert!(matches!(
        get_configuration(Source::Manifest(Some("[package]".to_string()))),
        Err(LeptosConfigError::ConfigSectionNotFound)
    ));
}

#[test]
fn environment_gives_the_settings() {
    let absent = || Err(VarError::NotPresent("environment variable not found".to_string()));
    let vars = EnvVars {
        output_name: Ok("shop".to_string()),
        site_root: absent(),
        site_pkg_dir: absent(),
        site_addr: absent(),
        reload_port: Ok("5001".to_string()),
    };
    let address = Ok(SiteAddress { ip: "127.0.0.1".to_string(), port: 3000 });
    match get_configuration(Source::Environment(vars, address)) {
        Ok(Loaded::Settings(conf)) => {
            assert_eq!(conf.leptos_options.output_name, "shop");
            assert_eq!(conf.leptos_options.site_root, "target/site");
            assert_eq!(conf.leptos_options.reload_port, 5001);
            assert_eq!(conf.clone().leptos_options.site_address.port, 3000);
        }
        other => panic!("{other:?}"),
    }
    let vars = EnvVars {
        output_name: absent(),
        site_root: absent(),
        site_pkg_dir: absent(),
        site_addr: absent(),
        reload_port: absent(),
    };
    let address = Ok(SiteAddress { ip: "127.0.0.1".to_string(), port: 3000 });
    match get_configuration(Source::Environment(vars, address)) {
        Err(LeptosConfigError::EnvVarError(why)) => {
            assert_eq!(why, "LEPTOS_OUTPUT_NAME: environment variable not found")
        }
        other => panic!("{other:?}"),
    }
}

/// How many bytes the character takes whose first byte is `lead`.
fn width(lead: u8) -> usize {
    if lead < 0x80 {
        1
    } else if lead < 0xe0 {
        2
    } else if lead < 0xf0 {
        3
    } else {
        4
    }
}

fn stands_at(text: &[u8], at: usize, word: &[u8]) -> bool {
    at + word.len() <= text.len() && &text[at..at + word.len()] == word
}

fn char_at(text: &[u8], at: usize) -> bool {
    at < text.len() && text[at] != b'\n' && at + width(text[at]) <= text.len()
}

/// Whether a line of `text` starts at `at` with the heading, any character
/// standing for each of its dots.
fn heading_at(text: &[u8], at: usize) -> bool {
    if !(at == 0 || (at <= text.len() && text[at - 1] == b'\n')) {
        return false;
    }
    if !stands_at(text, at, b"[package") || !char_at(text, at + 8) {
        return false;
    }
    let second = at + 8 + width(text[at + 8]);
    if !stands_at(text, second, b"metadata") || !char_at(text, second + 8) {
        return false;
    }
    stands_at(text, second + 8 + width(text[second + 8]), b"leptos]")
}

#[test]
fn the_heading_is_found_where_a_line_starts_with_it() {
    let pieces = [
        "[package", ".", "metadata", "leptos]", "\n", "\n", "\u{e9}", "\u{20ac}", "\u{1f600}", "x",
        "-", "\r", " ", "[package.metadata.leptos]", "[package.metadata.leptos]\n", "]", "[",
    ];
    let re = regex::Regex::new(r#"(?m)^\[package.metadata.leptos\]"#).unwrap();
    let mut state: u64 = 0x2545f4914f6cdd1d;
    let mut found = 0;
    for _ in 0..1500 {
        let mut text = String::new();
        state = state.wrapping_mul(6364136223846793005).wrapping_add(1442695040888963407);
        let len = (state >> 60) as usize;
        for _ in 0..len {
            state = state.wrapping_mul(6364136223846793005).wrapping_add(1442695040888963407);
            text.push_str(pieces[((state >> 33) as usize) % pieces.len()]);
        }
        let bytes = text.as_bytes();
        let first = (0..=bytes.len()).find(|at| heading_at(bytes, *at));
        assert_eq!(re.find(&text).map(|m| m.start()), first, "{text:?}");
        assert_eq!(section(&text), by_the_book(&text), "{text:?}");
        assert_eq!(section(&text).is_some(), first.is_some(), "{text:?}");
        if let Some(start) = first {
            found += 1;
            assert_eq!(section(&text).unwrap().into_bytes(), section_from(bytes, start));
        }
    }
    assert!(found > 50);
}
