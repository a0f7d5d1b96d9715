//! Companion call macros for functions whose last parameter takes a sequence.
//!
//! The library analyses a function declaration and an optional list of
//! `key = value` settings and produces the expansion rules of a macro that
//! lets callers pass the trailing elements as a flat argument list.
use vstd::prelude::*;

pub mod config;
pub mod signature;
pub mod template;
pub mod text;

use crate::config::{attrs_parse, resolve, AttrToken, ContainerKind, VarargError};
use crate::signature::{split_error, split_params, Param};
use crate::template::{
    empty_form_pattern, placeholders, repeat_matcher, trailing_form_pattern, ExpansionTemplate,
};

verus! {

/// Builds the macro for the function `fn_name` with parameters `params`,
/// under the settings `attrs`.
///
/// The parameters are checked first; the settings only once the parameters
/// are found fit.
pub fn vararg(attrs: &Vec<AttrToken>, fn_name: &String, params: Vec<Param>) -> (r: Result<
    ExpansionTemplate,
    VarargError,
>)
    ensures
        match r {
            Ok(t) => {
                &&& split_error(params@) is None
                &&& resolve(attrs@, fn_name@) == Ok::<_, VarargError>((t.macro_name@, t.kind))
                &&& t.fn_name@ == fn_name@
                &&& t.n_fixed == params@.len() - 1
            },
            Err(e) => match split_error(params@) {
                Some(s) => e == s,
                None => resolve(attrs@, fn_name@) == Err::<(Seq<char>, ContainerKind), _>(e),
            },
        },
{
    let ghost all = params@;
    let (prefix, _tail) = match split_params(params) {
        Ok(parts) => parts,
        Err(e) => {
            return Err(e);
        },
    };
    let config = match attrs_parse(attrs, fn_name) {
        Ok(c) => c,
        Err(e) => {
            return Err(e);
        },
    };
    assert(prefix@.len() == all.len() - 1);
    Ok(ExpansionTemplate {
        fn_name: fn_name.clone(),
        macro_name: config.macro_name,
        n_fixed: prefix.len(),
        kind: config.kind,
    })
}

/// A declaration whose only parameter is the trailing one gets a macro whose
/// first rule has no placeholder at all and whose second rule starts directly
/// with the repetition, with no separator before it.
pub proof fn lemma_single_parameter(params: Seq<Param>)
    requires
        params.len() == 1,
        !params[0].is_receiver,
    ensures
        split_error(params) is None,
        placeholders((params.len() - 1) as nat).len() == 0,
        empty_form_pattern((params.len() - 1) as nat) == Seq::<char>::empty(),
        trailing_form_pattern((params.len() - 1) as nat) == repeat_matcher(),
{
    assert(template::placeholder_matchers(0) =~= Seq::<Seq<char>>::empty());
}

} // verus!
