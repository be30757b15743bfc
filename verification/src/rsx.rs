//! What the template macro decides about its input before the template
//! itself is parsed.
//!
//! The macro is called as `view! { cx, <div>...</div> }` or, with a class
//! that every element of the template is to carry, as
//! `view! { cx, class = value, <div>...</div> }`.

use crate::text::same_text;
use vstd::prelude::*;

verus! {

/// How a template is compiled: for the browser, or for rendering on the
/// server.
#[derive(Debug, Clone, Copy, PartialEq, Eq, Structural)]
pub enum Mode {
    Client,
    Ssr,
}

impl Mode {
    /// The mode for a build with the given features: `Client` where it is
    /// built to hydrate, to render in the browser or for the web, and `Ssr`
    /// otherwise.
    pub fn select(hydrate: bool, csr: bool, web: bool) -> (r: Mode)
        ensures
            r == if hydrate || csr || web {
                Mode::Client
            } else {
                Mode::Ssr
            },
    {
        if hydrate || csr || web {
            Mode::Client
        } else {
            Mode::Ssr
        }
    }
}

/// A token of the macro's input, as far as the macro looks at it.
#[derive(Debug)]
pub enum Token {
    /// An identifier.
    Ident(String),
    /// A single punctuation character.
    Punct(char),
    /// A literal or a bracketed group.
    Other,
}

/// The arguments that stand in front of a template.
#[derive(Debug)]
pub struct ViewArgs {
    /// The name of the scope.
    pub cx: String,
    /// The place of the token that is the value of the global class, where
    /// one is given.
    pub global_class: Option<usize>,
    /// The place of the first token of the template.
    pub template: usize,
}

/// Whether the input starts with the name of a scope and a comma.
pub open spec fn has_scope(tokens: Seq<Token>) -> bool {
    &&& tokens.len() >= 2
    &&& tokens[0] is Ident
    &&& tokens[1] == Token::Punct(',')
}

/// Whether the scope is followed by `class = value,`.
pub open spec fn has_global_class(tokens: Seq<Token>) -> bool {
    &&& tokens.len() >= 6
    &&& tokens[2] matches Token::Ident(word)
    &&& word@ == "class"@
    &&& tokens[3] == Token::Punct('=')
    &&& tokens[5] == Token::Punct(',')
}

/// Whether `token` is the punctuation character `c`.
fn is_punct(token: &Token, c: char) -> (r: bool)
    ensures
        r == (*token == Token::Punct(c)),
{
    match token {
        Token::Punct(p) => *p == c,
        _ => false,
    }
}

/// Whether `token` is the identifier `word`.
fn is_ident(token: &Token, word: &str) -> (r: bool)
    ensures
        r == (*token matches Token::Ident(w) && w@ == word@),
{
    match token {
        Token::Ident(w) => same_text(w.as_str(), word),
        _ => false,
    }
}

/// The arguments in front of a template that starts with the name of a
/// scope and a comma: the scope, the place of the global class, and the
/// place at which the template starts.
pub open spec fn args_of(tokens: Seq<Token>, args: ViewArgs) -> bool {
    &&& tokens[0] matches Token::Ident(cx)
    &&& args.cx@ == cx@
    &&& args.global_class == (if has_global_class(tokens) {
        Some(4usize)
    } else {
        None
    })
    &&& args.template == (if has_global_class(tokens) {
        6usize
    } else {
        2usize
    })
}

/// Whether the input starts with the name of a scope and a comma.
pub fn starts_with_scope(tokens: &Vec<Token>) -> (r: bool)
    ensures
        r == has_scope(tokens@),
{
    if tokens.len() < 2 {
        return false;
    }
    match &tokens[0] {
        Token::Ident(_) => is_punct(&tokens[1], ','),
        _ => false,
    }
}

/// Reads the arguments in front of a template: the scope, and the global
/// class if one is given. The input must start with the name of a scope
/// and a comma. Where `class = value,` follows, the template starts behind
/// it; where anything else follows, that is the template already, and no
/// token of it is left out.
pub fn view(tokens: &Vec<Token>) -> (r: ViewArgs)
    requires
        has_scope(tokens@),
    ensures
        args_of(tokens@, r),
{
    let cx = match &tokens[0] {
        Token::Ident(cx) => cx.clone(),
        _ => vstd::pervasive::unreached(),
    };
    if tokens.len() >= 6 && is_ident(&tokens[2], "class") && is_punct(&tokens[3], '=') && is_punct(
        &tokens[5],
        ',',
    ) {
        ViewArgs { cx, global_class: Some(4), template: 6 }
    } else {
        ViewArgs { cx, global_class: None, template: 2 }
    }
}

/// Reads the arguments in front of a template as [`view`] does, if the
/// input starts with the name of a scope and a comma; there are none
/// otherwise.
pub fn try_view(tokens: &Vec<Token>) -> (r: Option<ViewArgs>)
    ensures
        r is Some <==> has_scope(tokens@),
        r matches Some(args) ==> args_of(tokens@, args),
{
    if starts_with_scope(tokens) {
        Some(view(tokens))
    } else {
        None
    }
}

/// Whether a tag with this name is a component and not an HTML element:
/// the names of components start with an upper-case ASCII letter.
pub fn is_component_node(name: &str) -> (r: bool)
    ensures
        r == (name@.len() > 0 && 'A' <= name@[0] <= 'Z'),
{
    if name.is_empty() {
        return false;
    }
    let first = name.get_char(0);
    'A' <= first && first <= 'Z'
}

} // verus!
