//! The part of a package manifest that holds the settings of a site.
//!
//! The settings stand in the manifest under the heading
//! `[package.metadata.leptos]`. What is handed to the TOML reader is that
//! section under the heading `[leptos_options]`, moved down by as many empty
//! lines as stand above it in the manifest, so that a complaint of the
//! reader names the right line, and with every dash turned into an
//! underscore, so that keys can be written either way.

use crate::config::reload_port_reading;
use crate::config::settings_from;
use crate::config::ConfFile;
use crate::config::ConfigErrorView;
use crate::config::EnvVars;
use crate::config::LeptosConfigError;
use crate::config::LeptosOptions;
use crate::config::OptionsView;
use crate::config::SiteAddress;
use vstd::prelude::*;
use vstd::slice::slice_subrange;
use vstd::string::StringSliceAdditionalSpecFns;
use vstd::utf8::encode_utf8;

verus! {

/// The byte that ends a line.
pub const NEWLINE: u8 = 10;

/// The byte `-`.
pub const DASH: u8 = 45;

/// The byte `_`.
pub const UNDERSCORE: u8 = 95;

/// The heading of the section in the manifest.
pub const MANIFEST_HEADING: &'static str = "[package.metadata.leptos]";

/// The heading of the section as the settings are read from it.
pub const SETTINGS_HEADING: &'static str = "[leptos_options]";

/// How many bytes the character takes whose first byte is `lead`, in UTF-8.
pub open spec fn char_width(lead: u8) -> int {
    if lead < 0x80 {
        1
    } else if lead < 0xe0 {
        2
    } else if lead < 0xf0 {
        3
    } else {
        4
    }
}

/// Whether `word` stands in `text` at `at`.
pub open spec fn stands_at(text: Seq<u8>, at: int, word: Seq<u8>) -> bool {
    &&& 0 <= at
    &&& at + word.len() <= text.len()
    &&& text.subrange(at, at + word.len()) == word
}

/// Whether a character other than the end of a line stands in `text` at
/// `at`.
pub open spec fn char_at(text: Seq<u8>, at: int) -> bool {
    &&& 0 <= at < text.len()
    &&& text[at] != NEWLINE
    &&& at + char_width(text[at]) <= text.len()
}

/// Whether a line of `text` starts at `at` with the heading of the
/// section. Where the heading has its two dots, any character may stand.
pub open spec fn heading_at(text: Seq<u8>, at: int) -> bool {
    &&& 0 <= at
    &&& at == 0 || (at <= text.len() && text[at - 1] == NEWLINE)
    &&& stands_at(text, at, "[package".spec_bytes())
    &&& char_at(text, at + 8)
    &&& stands_at(text, at + 8 + char_width(text[at + 8]), "metadata".spec_bytes())
    &&& char_at(text, at + 16 + char_width(text[at + 8]))
    &&& stands_at(
        text,
        at + 16 + char_width(text[at + 8]) + char_width(text[at + 16 + char_width(text[at + 8])]),
        "leptos]".spec_bytes(),
    )
}

/// Whether `found` is the place of the first heading of the section in
/// `text`, or says rightly that there is none.
pub open spec fn is_first_heading(text: Seq<u8>, found: Option<usize>) -> bool {
    match found {
        Some(at) => heading_at(text, at as int) && forall|before: int|
            0 <= before < at ==> !heading_at(text, before),
        None => forall|at: int| !heading_at(text, at),
    }
}

/// Calls `regex::Regex::find` with the pattern
/// `(?m)^\[package.metadata.leptos\]` and takes the byte offset at which
/// the match starts. The pattern matches at the start of a line, and each
/// of its two dots matches any one character but the end of a line; `find`
/// gives the leftmost match.
#[verifier::external_body]
fn find_heading(text: &str) -> (r: Option<usize>)
    ensures
        is_first_heading(text.spec_bytes(), r),
{
    regex::Regex::new(r#"(?m)^\[package.metadata.leptos\]"#).unwrap().find(text).map(
        |found| found.start(),
    )
}

/// How often `byte` occurs in `text`.
pub open spec fn count_of(text: Seq<u8>, byte: u8) -> nat
    decreases text.len(),
{
    if text.len() == 0 {
        0
    } else {
        count_of(text.drop_last(), byte) + if text.last() == byte {
            1nat
        } else {
            0nat
        }
    }
}

/// `text` with every occurrence of `from` replaced by `to`, from left to
/// right; an occurrence that overlaps one already replaced does not count.
pub open spec fn replaced(text: Seq<u8>, from: Seq<u8>, to: Seq<u8>) -> Seq<u8>
    decreases text.len(),
{
    if from.len() == 0 || text.len() < from.len() {
        text
    } else if text.subrange(0, from.len() as int) == from {
        to + replaced(text.skip(from.len() as int), from, to)
    } else {
        seq![text[0]] + replaced(text.skip(1), from, to)
    }
}

/// What is handed to the TOML reader for a manifest `text` whose section
/// starts at `start`.
pub open spec fn section_text(text: Seq<u8>, start: int) -> Seq<u8> {
    replaced(
        replaced(
            Seq::new(count_of(text.take(start), NEWLINE), |i: int| NEWLINE) + text.skip(start),
            MANIFEST_HEADING.spec_bytes(),
            SETTINGS_HEADING.spec_bytes(),
        ),
        seq![DASH],
        seq![UNDERSCORE],
    )
}

/// How often `byte` occurs in `text`.
pub fn count_byte(text: &[u8], byte: u8) -> (r: usize)
    ensures
        r == count_of(text@, byte),
        r <= text@.len(),
{
    let n = text.len();
    let mut count: usize = 0;
    let mut i: usize = 0;
    while i < n
        invariant
            i <= n,
            n == text@.len(),
            count <= i,
            count == count_of(text@.take(i as int), byte),
        decreases n - i,
    {
        proof {
            assert(text@.take(i + 1).drop_last() =~= text@.take(i as int));
        }
        if text[i] == byte {
            count = count + 1;
        }
        i = i + 1;
    }
    proof {
        assert(text@.take(n as int) =~= text@);
    }
    count
}

/// Whether `word` stands in `text` at `at`.
pub fn word_at(text: &[u8], at: usize, word: &[u8]) -> (r: bool)
    ensures
        r == stands_at(text@, at as int, word@),
{
    let m = word.len();
    if at > text.len() || text.len() - at < m {
        return false;
    }
    let mut j: usize = 0;
    while j < m
        invariant
            j <= m,
            m == word@.len(),
            at + m <= text@.len(),
            text@.len() <= usize::MAX,
            forall|k: int| 0 <= k < j ==> text@[at + k] == word@[k],
        decreases m - j,
    {
        if text[at + j] != word[j] {
            proof {
                assert(text@.subrange(at as int, at + m)[j as int] != word@[j as int]);
            }
            return false;
        }
        j = j + 1;
    }
    proof {
        assert(text@.subrange(at as int, at + m) =~= word@);
    }
    true
}

/// `text` with every occurrence of `from` replaced by `to`.
pub fn replace(text: &[u8], from: &[u8], to: &[u8]) -> (r: Vec<u8>)
    ensures
        r@ == replaced(text@, from@, to@),
{
    let n = text.len();
    let m = from.len();
    let mut out: Vec<u8> = Vec::new();
    let mut i: usize = 0;
    if m == 0 {
        return vstd::slice::slice_to_vec(text);
    }
    proof {
        assert(text@.skip(0) =~= text@);
        assert(out@ + replaced(text@, from@, to@) =~= replaced(text@, from@, to@));
    }
    while i < n
        invariant
            i <= n,
            n == text@.len(),
            m == from@.len(),
            m > 0,
            out@ + replaced(text@.skip(i as int), from@, to@) == replaced(text@, from@, to@),
        decreases n - i,
    {
        let ghost rest = text@.skip(i as int);
        if word_at(text, i, from) {
            proof {
                assert(rest.subrange(0, m as int) =~= text@.subrange(i as int, i + m));
                assert(rest.skip(m as int) =~= text@.skip(i + m));
                assert((out@ + to@) + replaced(text@.skip(i + m), from@, to@) =~= out@ + (to@
                    + replaced(text@.skip(i + m), from@, to@)));
            }
            let mut copy = vstd::slice::slice_to_vec(to);
            out.append(&mut copy);
            i = i + m;
        } else {
            proof {
                if rest.len() >= m {
                    assert(rest.subrange(0, m as int) =~= text@.subrange(i as int, i + m));
                    assert(rest.skip(1) =~= text@.skip(i + 1));
                    assert(out@.push(text@[i as int]) + replaced(text@.skip(i + 1), from@, to@)
                        =~= out@ + (seq![rest[0]] + replaced(rest.skip(1), from@, to@)));
                } else {
                    lemma_too_short_is_kept(rest, from@, to@);
                    lemma_too_short_is_kept(rest.skip(1), from@, to@);
                    assert(rest.skip(1) =~= text@.skip(i + 1));
                    assert(out@.push(text@[i as int]) + rest.skip(1) =~= out@ + rest);
                }
            }
            out.push(text[i]);
            i = i + 1;
        }
    }
    proof {
        assert(text@.skip(n as int) =~= Seq::<u8>::empty());
        assert(out@ + Seq::<u8>::empty() =~= out@);
    }
    out
}

/// A text that is shorter than what is looked for stays as it is.
pub proof fn lemma_too_short_is_kept(text: Seq<u8>, from: Seq<u8>, to: Seq<u8>)
    requires
        text.len() < from.len(),
    ensures
        replaced(text, from, to) == text,
{
}

/// What is handed to the TOML reader for the manifest `text`: its section
/// of settings from the first heading on, or the failure that the manifest
/// has no such section.
pub fn leptos_section(text: &str) -> (r: Result<Vec<u8>, LeptosConfigError>)
    ensures
        match r {
            Ok(toml) => exists|start: usize|
                is_first_heading(text.spec_bytes(), Some(start)) && toml@ == section_text(
                    text.spec_bytes(),
                    start as int,
                ),
            Err(e) => e is ConfigSectionNotFound && is_first_heading(text.spec_bytes(), None),
        },
{
    match find_heading(text) {
        Some(start) => Ok(section_from(text.as_bytes(), start)),
        None => Err(LeptosConfigError::ConfigSectionNotFound),
    }
}

/// What is handed to the TOML reader for a manifest `text` whose section
/// starts at `start`.
pub fn section_from(text: &[u8], start: usize) -> (r: Vec<u8>)
    requires
        start <= text@.len(),
    ensures
        r@ == section_text(text@, start as int),
{
    let newlines = count_byte(slice_subrange(text, 0, start), NEWLINE);
    proof {
        assert(text@.subrange(0, start as int) =~= text@.take(start as int));
    }
    let mut moved: Vec<u8> = Vec::new();
    let mut i: usize = 0;
    while i < newlines
        invariant
            i <= newlines,
            moved@ == Seq::new(i as nat, |k: int| NEWLINE),
        decreases newlines - i,
    {
        moved.push(NEWLINE);
        i = i + 1;
        proof {
            assert(moved@ =~= Seq::new(i as nat, |k: int| NEWLINE));
        }
    }
    let mut rest = vstd::slice::slice_to_vec(slice_subrange(text, start, text.len()));
    proof {
        assert(text@.subrange(start as int, text@.len() as int) =~= text@.skip(start as int));
    }
    moved.append(&mut rest);
    let renamed = replace(
        moved.as_slice(),
        MANIFEST_HEADING.as_bytes(),
        SETTINGS_HEADING.as_bytes(),
    );
    let mut dash: Vec<u8> = Vec::new();
    dash.push(DASH);
    let mut underscore: Vec<u8> = Vec::new();
    underscore.push(UNDERSCORE);
    proof {
        assert(dash@ =~= seq![DASH]);
        assert(underscore@ =~= seq![UNDERSCORE]);
    }
    replace(renamed.as_slice(), dash.as_slice(), underscore.as_slice())
}

/// Where the settings of a site are to come from.
#[derive(Debug)]
pub enum Source {
    /// From a manifest. This is what reading the file gave: its text, or
    /// nothing where it could not be read.
    Manifest(Option<String>),
    /// From the environment. This is what was found there, and what the
    /// text of the address was read as.
    Environment(EnvVars, Result<SiteAddress, String>),
}

/// How far the settings are loaded.
#[derive(Debug)]
pub enum Loaded {
    /// The section of the manifest, still to be read as TOML.
    Section(Vec<u8>),
    /// The settings.
    Settings(ConfFile),
}

/// Loaded settings as mathematics.
pub enum LoadedView {
    Section(Seq<u8>),
    Settings(OptionsView),
}

/// What loading gave, as mathematics.
pub open spec fn loaded_of(result: Result<Loaded, LeptosConfigError>) -> Result<
    LoadedView,
    ConfigErrorView,
> {
    match result {
        Ok(Loaded::Section(toml)) => Ok(LoadedView::Section(toml@)),
        Ok(Loaded::Settings(conf)) => Ok(LoadedView::Settings(conf.leptos_options@)),
        Err(e) => Err(e@),
    }
}

/// Loads the settings of a site as far as that can be done without reading
/// TOML. From a manifest that could not be read nothing is loaded; from one
/// that could, its section of settings is taken; from the environment the
/// settings themselves are.
pub fn get_configuration(source: Source) -> (r: Result<Loaded, LeptosConfigError>)
    ensures
        match source {
            Source::Manifest(None) => loaded_of(r) == Err::<LoadedView, ConfigErrorView>(
                ConfigErrorView::ConfigNotFound,
            ),
            Source::Manifest(Some(text)) => match loaded_of(r) {
                Ok(LoadedView::Section(toml)) => exists|start: usize|
                    is_first_heading(encode_utf8(text@), Some(start)) && toml == section_text(
                        encode_utf8(text@),
                        start as int,
                    ),
                Ok(LoadedView::Settings(_)) => false,
                Err(e) => e is ConfigSectionNotFound && is_first_heading(encode_utf8(text@), None),
            },
            Source::Environment(vars, site_address) => match settings_from(
                vars,
                site_address,
                reload_port_reading(vars.reload_port),
            ) {
                Ok(settings) => loaded_of(r) == Ok::<LoadedView, ConfigErrorView>(
                    LoadedView::Settings(settings),
                ),
                Err(e) => loaded_of(r) == Err::<LoadedView, ConfigErrorView>(e),
            },
        },
{
    match source {
        Source::Manifest(None) => Err(LeptosConfigError::ConfigNotFound),
        Source::Manifest(Some(text)) => match leptos_section(text.as_str()) {
            Ok(toml) => Ok(Loaded::Section(toml)),
            Err(e) => Err(e),
        },
        Source::Environment(vars, site_address) => match LeptosOptions::try_from_env(
            vars,
            site_address,
        ) {
            Ok(leptos_options) => Ok(Loaded::Settings(ConfFile { leptos_options })),
            Err(e) => Err(e),
        },
    }
}

} // verus!
