//! Settings attached to a declaration: the macro's name and how the trailing
//! arguments are packaged.
use vstd::prelude::*;

use crate::text::text_eq;

verus! {

/// How the trailing arguments of a call are packaged.
#[derive(Clone, Copy, Debug, PartialEq, Eq, Structural)]
pub enum ContainerKind {
    /// A literal fixed-size list: `[a, b]`.
    Array,
    /// A growable list: `vec![a, b]`.
    Vector,
    /// A borrowed view of a fixed-size list: `&[a, b]`.
    SliceRef,
}

/// Why no macro could be generated.
#[derive(Clone, Copy, Debug, PartialEq, Eq, Structural)]
pub enum VarargError {
    /// The declaration has no parameters.
    NoParameters,
    /// The declaration's only parameter is a `self` receiver.
    OnlyReceiver,
    /// A setting does not have the shape `key = value`, separated by commas.
    ConfigSyntax,
    /// A setting names a key other than `name` or `type`.
    ConfigKey,
    /// The `type` setting holds a value other than `array`, `vec` or `slice`.
    ConfigValue,
}

/// One token of the settings list.
#[derive(Clone, Debug)]
pub enum AttrToken {
    Ident(String),
    Punct(char),
    Literal(String),
    Group,
}

/// The resolved settings.
#[derive(Clone, Debug)]
pub struct VarargConfig {
    pub macro_name: String,
    pub kind: ContainerKind,
}

pub open spec fn is_ident(t: AttrToken) -> bool {
    t is Ident
}

pub open spec fn ident_text(t: AttrToken) -> Seq<char> {
    match t {
        AttrToken::Ident(s) => s@,
        _ => Seq::empty(),
    }
}

pub open spec fn is_punct(t: AttrToken, c: char) -> bool {
    match t {
        AttrToken::Punct(p) => p == c,
        _ => false,
    }
}

/// The container kind that a `type` value names, if any.
pub open spec fn kind_named(v: Seq<char>) -> Option<ContainerKind> {
    if v == "array"@ {
        Some(ContainerKind::Array)
    } else if v == "vec"@ {
        Some(ContainerKind::Vector)
    } else if v == "slice"@ {
        Some(ContainerKind::SliceRef)
    } else {
        None
    }
}

/// The error in the setting that starts at token `i`, if it has one.
///
/// A setting is a key (`name` or `type`), `=`, an identifier and, unless it
/// is the last one, a comma.
pub open spec fn entry_error(toks: Seq<AttrToken>, i: int) -> Option<VarargError> {
    let key = ident_text(toks[i]);
    if !is_ident(toks[i]) {
        Some(VarargError::ConfigSyntax)
    } else if key != "name"@ && key != "type"@ {
        Some(VarargError::ConfigKey)
    } else if !(i + 1 < toks.len() && is_punct(toks[i + 1], '=')) {
        Some(VarargError::ConfigSyntax)
    } else if !(i + 2 < toks.len() && is_ident(toks[i + 2])) {
        Some(VarargError::ConfigSyntax)
    } else if key == "type"@ && kind_named(ident_text(toks[i + 2])) is None {
        Some(VarargError::ConfigValue)
    } else if i + 3 < toks.len() && !is_punct(toks[i + 3], ',') {
        Some(VarargError::ConfigSyntax)
    } else {
        None
    }
}

/// The settings from token `i` on, applied left to right over `name` and
/// `kind`; a later setting of a key replaces an earlier one.
pub open spec fn resolve_from(
    toks: Seq<AttrToken>,
    i: int,
    name: Seq<char>,
    kind: ContainerKind,
) -> Result<(Seq<char>, ContainerKind), VarargError>
    decreases toks.len() + 4 - i,
{
    if i < 0 || i >= toks.len() {
        Ok((name, kind))
    } else {
        match entry_error(toks, i) {
            Some(e) => Err(e),
            None => {
                let value = ident_text(toks[i + 2]);
                if ident_text(toks[i]) == "name"@ {
                    resolve_from(toks, i + 4, value, kind)
                } else {
                    resolve_from(toks, i + 4, name, kind_named(value)->Some_0)
                }
            },
        }
    }
}

/// The settings `toks` resolved for a function named `fn_name`: by default
/// the macro takes the function's name and packages into an array.
pub open spec fn resolve(toks: Seq<AttrToken>, fn_name: Seq<char>) -> Result<
    (Seq<char>, ContainerKind),
    VarargError,
> {
    resolve_from(toks, 0, fn_name, ContainerKind::Array)
}

/// With no settings the macro takes the function's own name and packages
/// the trailing arguments into an array.
pub proof fn lemma_default_settings(fn_name: Seq<char>)
    ensures
        resolve(Seq::empty(), fn_name) == Ok::<_, VarargError>((fn_name, ContainerKind::Array)),
{
}

/// When `name` is set twice, the later value is the macro's name.
pub proof fn lemma_last_name_wins(k1: String, a: String, k2: String, b: String, fn_name: Seq<char>)
    requires
        k1@ == "name"@,
        k2@ == "name"@,
    ensures
        resolve(
            seq![
                AttrToken::Ident(k1),
                AttrToken::Punct('='),
                AttrToken::Ident(a),
                AttrToken::Punct(','),
                AttrToken::Ident(k2),
                AttrToken::Punct('='),
                AttrToken::Ident(b),
            ],
            fn_name,
        ) == Ok::<_, VarargError>((b@, ContainerKind::Array)),
{
    let toks = seq![
        AttrToken::Ident(k1),
        AttrToken::Punct('='),
        AttrToken::Ident(a),
        AttrToken::Punct(','),
        AttrToken::Ident(k2),
        AttrToken::Punct('='),
        AttrToken::Ident(b),
    ];
    reveal_strlit("name");
    reveal_strlit("type");
    assert("name"@[0] != "type"@[0]);
    assert(entry_error(toks, 0) is None);
    assert(entry_error(toks, 4) is None);
    assert(resolve_from(toks, 8, b@, ContainerKind::Array) == Ok::<_, VarargError>(
        (b@, ContainerKind::Array),
    ));
    assert(resolve_from(toks, 4, a@, ContainerKind::Array) == resolve_from(
        toks,
        8,
        b@,
        ContainerKind::Array,
    ));
}

/// What stands before the `[...]` list of trailing arguments.
pub open spec fn wrapper_prefix(kind: ContainerKind) -> Seq<char> {
    match kind {
        ContainerKind::Array => Seq::empty(),
        ContainerKind::Vector => "vec!"@,
        ContainerKind::SliceRef => "&"@,
    }
}

/// Container adapter: the text placed before the bracketed trailing arguments.
pub fn container_prefix(kind: ContainerKind) -> (r: String)
    ensures
        r@ == wrapper_prefix(kind),
{
    match kind {
        ContainerKind::Array => String::new(),
        ContainerKind::Vector => String::from_str("vec!"),
        ContainerKind::SliceRef => String::from_str("&"),
    }
}

fn parse_kind(v: &str) -> (r: Option<ContainerKind>)
    ensures
        r == kind_named(v@),
{
    if text_eq(v, "array") {
        Some(ContainerKind::Array)
    } else if text_eq(v, "vec") {
        Some(ContainerKind::Vector)
    } else if text_eq(v, "slice") {
        Some(ContainerKind::SliceRef)
    } else {
        None
    }
}

/// Resolves the settings list `attrs` for a function named `default_name`.
pub fn attrs_parse(attrs: &Vec<AttrToken>, default_name: &String) -> (r: Result<
    VarargConfig,
    VarargError,
>)
    ensures
        match r {
            Ok(c) => resolve(attrs@, default_name@) == Ok::<_, VarargError>((c.macro_name@, c.kind)),
            Err(e) => resolve(attrs@, default_name@) == Err::<(Seq<char>, ContainerKind), _>(e),
        },
{
    let len = attrs.len();
    let mut name = default_name.clone();
    let mut kind = ContainerKind::Array;
    let mut i: usize = 0;
    while i < len
        invariant
            len == attrs@.len(),
            i <= len,
            resolve(attrs@, default_name@) == resolve_from(attrs@, i as int, name@, kind),
        decreases len - i,
    {
        let ghost toks = attrs@;
        proof {
            reveal_strlit("name");
            reveal_strlit("type");
            assert("name"@[0] != "type"@[0]);
        }
        let key_is_name = match &attrs[i] {
            AttrToken::Ident(k) => {
                if text_eq(k.as_str(), "name") {
                    true
                } else if text_eq(k.as_str(), "type") {
                    false
                } else {
                    return Err(VarargError::ConfigKey);
                }
            },
            _ => {
                return Err(VarargError::ConfigSyntax);
            },
        };
        if len - i < 2 {
            return Err(VarargError::ConfigSyntax);
        }
        match &attrs[i + 1] {
            AttrToken::Punct(c) => {
                if *c != '=' {
                    return Err(VarargError::ConfigSyntax);
                }
            },
            _ => {
                return Err(VarargError::ConfigSyntax);
            },
        }
        if len - i < 3 {
            return Err(VarargError::ConfigSyntax);
        }
        let ghost old_name = name@;
        let ghost old_kind = kind;
        match &attrs[i + 2] {
            AttrToken::Ident(v) => {
                if key_is_name {
                    name = v.clone();
                } else {
                    match parse_kind(v.as_str()) {
                        Some(k) => {
                            kind = k;
                        },
                        None => {
                            return Err(VarargError::ConfigValue);
                        },
                    }
                }
            },
            _ => {
                return Err(VarargError::ConfigSyntax);
            },
        }
        if len - i > 3 {
            match &attrs[i + 3] {
                AttrToken::Punct(c) => {
                    if *c != ',' {
                        return Err(VarargError::ConfigSyntax);
                    }
                },
                _ => {
                    return Err(VarargError::ConfigSyntax);
                },
            }
        }
        let next: usize = if len - i <= 4 {
            len
        } else {
            i + 4
        };
        proof {
            // The setting at `i` is complete; the next one starts four tokens
            // on, and past the end nothing is left to apply.
            assert(entry_error(toks, i as int) is None);
            assert(resolve_from(toks, i as int, old_name, old_kind) == resolve_from(
                toks,
                i as int + 4,
                name@,
                kind,
            ));
            assert(resolve_from(toks, i as int + 4, name@, kind) == resolve_from(
                toks,
                next as int,
                name@,
                kind,
            ));
        }
        i = next;
    }
    Ok(VarargConfig { macro_name: name, kind })
}

} // verus!
