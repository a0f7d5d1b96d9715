//! The generated macro: its two expansion rules as text, and what a call of
//! it expands to.
use vstd::prelude::*;

use crate::config::{container_prefix, wrapper_prefix, ContainerKind};
use crate::text::{decimal, decimal_text, join, join_text, views};

verus! {

/// The separator between arguments.
pub open spec fn comma() -> Seq<char> {
    ", "@
}

/// The trailing elements packaged as the container `kind`.
pub open spec fn wrapped(kind: ContainerKind, tail: Seq<Seq<char>>) -> Seq<char> {
    wrapper_prefix(kind) + "["@ + join(tail, comma()) + "]"@
}

/// A call of `f` with the `fixed` arguments followed by the `tail` elements
/// packaged as the container `kind`.
pub open spec fn call(f: Seq<char>, fixed: Seq<Seq<char>>, kind: ContainerKind, tail: Seq<Seq<char>>) -> Seq<
    char,
> {
    f + "("@ + join(fixed.push(wrapped(kind, tail)), comma()) + ")"@
}

/// The name under which a rule binds the fixed argument at position `i`.
pub open spec fn placeholder(i: nat) -> Seq<char> {
    "$arg"@ + decimal(i)
}

/// The placeholders of the first `n` positions, in order.
pub open spec fn placeholders(n: nat) -> Seq<Seq<char>> {
    Seq::new(n, |i: int| placeholder(i as nat))
}

/// The matchers of the first `n` positions, each taking one expression.
pub open spec fn placeholder_matchers(n: nat) -> Seq<Seq<char>> {
    Seq::new(n, |i: int| placeholder(i as nat) + ":expr"@)
}

/// The matcher of one or more trailing expressions.
pub open spec fn repeat_matcher() -> Seq<char> {
    "$($lasts:expr),+"@
}

/// Where the trailing expressions are put back.
pub open spec fn repeat_use() -> Seq<char> {
    "$($lasts),*"@
}

/// The pattern of the rule for calls with no trailing argument.
pub open spec fn empty_form_pattern(n: nat) -> Seq<char> {
    join(placeholder_matchers(n), comma())
}

/// The pattern of the rule for calls with trailing arguments; with no fixed
/// parameter no separator comes before the repetition.
pub open spec fn trailing_form_pattern(n: nat) -> Seq<char> {
    if n == 0 {
        repeat_matcher()
    } else {
        empty_form_pattern(n) + comma() + repeat_matcher()
    }
}

/// The text of the generated macro: two rules, for calls without and with
/// trailing arguments.
pub open spec fn rules_text(macro_name: Seq<char>, f: Seq<char>, n: nat, kind: ContainerKind) -> Seq<
    char,
> {
    "macro_rules! "@ + macro_name + " {\n    ("@ + empty_form_pattern(n) + ") => {"@ + call(
        f,
        placeholders(n),
        kind,
        Seq::empty(),
    ) + "};\n    ("@ + trailing_form_pattern(n) + ") => {"@ + call(
        f,
        placeholders(n),
        kind,
        seq![repeat_use()],
    ) + "};\n}\n"@
}

/// What a call of the generated macro with the argument expressions `args`
/// expands to: the first rule takes exactly `n` arguments, the second `n` and
/// at least one more; a call with fewer matches neither.
pub open spec fn expansion(f: Seq<char>, n: nat, kind: ContainerKind, args: Seq<Seq<char>>) -> Option<
    Seq<char>,
> {
    if args.len() < n {
        None
    } else if args.len() == n {
        Some(call(f, args, kind, Seq::empty()))
    } else {
        Some(call(f, args.take(n as int), kind, args.skip(n as int)))
    }
}

/// A call of the macro with the fixed arguments alone expands to a call of
/// the function with those arguments, in order, and an empty container.
pub proof fn lemma_no_trailing_arguments(
    f: Seq<char>,
    n: nat,
    kind: ContainerKind,
    fixed: Seq<Seq<char>>,
)
    requires
        fixed.len() == n,
    ensures
        expansion(f, n, kind, fixed) == Some(call(f, fixed, kind, Seq::empty())),
        call(f, fixed, kind, Seq::empty()) == f + "("@ + join(
            fixed.push(wrapper_prefix(kind) + "[]"@),
            comma(),
        ) + ")"@,
{
    reveal_strlit("[");
    reveal_strlit("]");
    reveal_strlit("[]");
    assert(wrapper_prefix(kind) + "["@ + Seq::<char>::empty() + "]"@ =~= wrapper_prefix(kind)
        + "[]"@);
}

/// A call of the macro with the fixed arguments and at least one more
/// expands to a call of the function with the fixed arguments, in order, and
/// a container that holds exactly the further arguments, in call order.
pub proof fn lemma_trailing_arguments(
    f: Seq<char>,
    n: nat,
    kind: ContainerKind,
    fixed: Seq<Seq<char>>,
    tail: Seq<Seq<char>>,
)
    requires
        fixed.len() == n,
        tail.len() >= 1,
    ensures
        expansion(f, n, kind, fixed + tail) == Some(call(f, fixed, kind, tail)),
{
    assert((fixed + tail).take(n as int) =~= fixed);
    assert((fixed + tail).skip(n as int) =~= tail);
}

/// The macro generated for one declaration.
#[derive(Clone, Debug)]
pub struct ExpansionTemplate {
    /// The function that the macro calls.
    pub fn_name: String,
    /// The name of the macro.
    pub macro_name: String,
    /// How many parameters precede the trailing one.
    pub n_fixed: usize,
    /// How the trailing arguments are packaged.
    pub kind: ContainerKind,
}

impl ExpansionTemplate {
    pub open spec fn expands(&self, args: Seq<Seq<char>>) -> Option<Seq<char>> {
        expansion(self.fn_name@, self.n_fixed as nat, self.kind, args)
    }

    /// The `macro_rules!` text of the macro.
    pub fn render(&self) -> (r: String)
        ensures
            r@ == rules_text(self.macro_name@, self.fn_name@, self.n_fixed as nat, self.kind),
    {
        let n = self.n_fixed;
        let uses = placeholder_list(n, false);
        let matchers = placeholder_list(n, true);
        let empty_pattern = join_text(&matchers, ", ");
        let mut trailing_pattern = empty_pattern.clone();
        if n > 0 {
            trailing_pattern.append(", ");
        }
        trailing_pattern.append("$($lasts:expr),+");
        let mut repeat: Vec<String> = Vec::new();
        repeat.push(String::from_str("$($lasts),*"));
        let empty_body = call_text(&self.fn_name, &uses, self.kind, &Vec::new());
        let trailing_body = call_text(&self.fn_name, &uses, self.kind, &repeat);
        proof {
            assert(views(matchers@) =~= placeholder_matchers(n as nat));
            assert(views(uses@) =~= placeholders(n as nat));
            assert(views(repeat@) =~= seq![repeat_use()]);
            assert(views(Seq::<String>::empty()) =~= Seq::<Seq<char>>::empty());
            if n == 0 {
                assert(placeholder_matchers(0) =~= Seq::<Seq<char>>::empty());
                assert(trailing_pattern@ =~= repeat_matcher());
            } else {
                assert(trailing_pattern@ =~= empty_form_pattern(n as nat) + comma()
                    + repeat_matcher());
            }
        }
        let mut s = String::from_str("macro_rules! ");
        s.append(self.macro_name.as_str());
        s.append(" {\n    (");
        s.append(empty_pattern.as_str());
        s.append(") => {");
        s.append(empty_body.as_str());
        s.append("};\n    (");
        s.append(trailing_pattern.as_str());
        s.append(") => {");
        s.append(trailing_body.as_str());
        s.append("};\n}\n");
        s
    }

    /// What a call of the macro with the argument expressions `args` expands
    /// to, or `None` where neither rule matches.
    pub fn expand(&self, args: &Vec<String>) -> (r: Option<String>)
        ensures
            match r {
                Some(s) => self.expands(views(args@)) == Some(s@),
                None => self.expands(views(args@)) is None,
            },
    {
        let n = self.n_fixed;
        if args.len() < n {
            return None;
        }
        let mut fixed: Vec<String> = Vec::new();
        let mut tail: Vec<String> = Vec::new();
        let mut i: usize = 0;
        while i < args.len()
            invariant
                n <= args@.len(),
                i <= args@.len(),
                i <= n ==> fixed@ =~= args@.take(i as int) && tail@.len() == 0,
                i > n ==> fixed@ =~= args@.take(n as int) && tail@ =~= args@.subrange(
                    n as int,
                    i as int,
                ),
            decreases args@.len() - i,
        {
            if i < n {
                fixed.push(args[i].clone());
            } else {
                tail.push(args[i].clone());
            }
            i = i + 1;
        }
        proof {
            if n == args@.len() {
                assert(args@.take(n as int) =~= args@);
                assert(tail@ =~= Seq::<String>::empty());
            } else {
                assert(args@.skip(n as int) =~= args@.subrange(n as int, args@.len() as int));
            }
            assert(views(fixed@) =~= views(args@).take(n as int));
            assert(views(tail@) =~= views(args@).skip(n as int));
            assert(views(Seq::<String>::empty()) =~= Seq::<Seq<char>>::empty());
        }
        Some(call_text(&self.fn_name, &fixed, self.kind, &tail))
    }
}

/// The placeholders of the first `n` positions, with the `:expr` matcher
/// where `matcher` holds.
fn placeholder_list(n: usize, matcher: bool) -> (r: Vec<String>)
    ensures
        matcher ==> views(r@) =~= placeholder_matchers(n as nat),
        !matcher ==> views(r@) =~= placeholders(n as nat),
{
    let mut v: Vec<String> = Vec::new();
    let mut i: usize = 0;
    while i < n
        invariant
            i <= n,
            v@.len() == i,
            forall|j: int|
                0 <= j < i ==> #[trigger] v@[j]@ == (if matcher {
                    placeholder(j as nat) + ":expr"@
                } else {
                    placeholder(j as nat)
                }),
        decreases n - i,
    {
        let mut p = String::from_str("$arg");
        p.append(decimal_text(i).as_str());
        if matcher {
            p.append(":expr");
        }
        v.push(p);
        i = i + 1;
    }
    v
}

/// The text of a call of `fn_name` with the `fixed` arguments followed by
/// the `tail` elements packaged as the container `kind`.
pub fn call_text(fn_name: &String, fixed: &Vec<String>, kind: ContainerKind, tail: &Vec<String>) -> (r:
    String)
    ensures
        r@ == call(fn_name@, views(fixed@), kind, views(tail@)),
{
    let mut w = container_prefix(kind);
    w.append("[");
    w.append(join_text(tail, ", ").as_str());
    w.append("]");
    let mut items: Vec<String> = Vec::new();
    let mut i: usize = 0;
    while i < fixed.len()
        invariant
            i <= fixed@.len(),
            items@ =~= fixed@.take(i as int),
        decreases fixed@.len() - i,
    {
        items.push(fixed[i].clone());
        i = i + 1;
    }
    let ghost before = items@;
    items.push(w);
    proof {
        assert(before =~= fixed@);
        assert(views(items@) =~= views(fixed@).push(wrapped(kind, views(tail@))));
    }
    let mut s = fn_name.clone();
    s.append("(");
    s.append(join_text(&items, ", ").as_str());
    s.append(")");
    s
}

} // verus!
