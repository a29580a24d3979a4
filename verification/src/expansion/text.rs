//! Pieces of source text: joining, generic parameter lists, pipeline expressions.
use vstd::prelude::*;
use vstd::string::StringExecFns;
use crate::expansion::declaration::GenericParam;
use crate::expansion::declaration::GenericParamView;
use crate::expansion::declaration::ParamKind;
use crate::expansion::declaration::params;
use crate::expansion::declaration::texts;

verus! {

/// The views of a sequence of string slices.
pub open spec fn slices(parts: Seq<&str>) -> Seq<Seq<char>> {
    parts.map_values(|s: &str| s@)
}

/// The parts written one after the other.
pub open spec fn joined(parts: Seq<Seq<char>>) -> Seq<char>
    decreases parts.len(),
{
    if parts.len() == 0 {
        Seq::empty()
    } else {
        joined(parts.drop_last()) + parts.last()
    }
}

/// Writes the parts one after the other.
pub fn join(parts: &Vec<&str>) -> (text: String)
    ensures
        text@ == joined(slices(parts@)),
{
    let ghost all = slices(parts@);
    let mut text = String::new();
    let mut i: usize = 0;
    while i < parts.len()
        invariant
            i <= parts.len(),
            all == slices(parts@),
            text@ == joined(all.take(i as int)),
        decreases parts.len() - i,
    {
        proof {
            assert(all.take(i + 1).drop_last() == all.take(i as int));
            assert(all.take(i + 1).last() == parts@[i as int]@);
        }
        text.append(parts[i]);
        i += 1;
    }
    proof {
        assert(all.take(i as int) == all);
    }
    text
}

/// How `param` is written where it is declared.
pub open spec fn param_declaration(param: GenericParamView) -> Seq<char> {
    match param.kind {
        ParamKind::Const => "const "@ + param.name + ": "@ + param.bounds,
        _ => if param.bounds.len() == 0 {
            param.name
        } else {
            param.name + ": "@ + param.bounds
        },
    }
}

/// How `param` is written where it is used.
pub open spec fn param_use(param: GenericParamView) -> Seq<char> {
    param.name
}

/// How a parameter list writes one parameter.
#[derive(Clone, Copy, PartialEq, Eq, Structural, Debug)]
pub enum Mention {
    /// With its bounds, as after `impl`.
    Declared,
    /// By its name alone, as after the type's name.
    Used,
}

/// How `param` is written in a list of the given kind.
pub open spec fn param_text(param: GenericParamView, mention: Mention) -> Seq<char> {
    match mention {
        Mention::Declared => param_declaration(param),
        Mention::Used => param_use(param),
    }
}

/// The parameters of `generics` that are lifetimes (or, with `lifetimes` false,
/// those that are not), each followed by a comma.
pub open spec fn param_run(generics: Seq<GenericParamView>, mention: Mention, lifetimes: bool) -> Seq<
    char,
>
    decreases generics.len(),
{
    if generics.len() == 0 {
        Seq::empty()
    } else {
        let before = param_run(generics.drop_last(), mention, lifetimes);
        if (generics.last().kind == ParamKind::Lifetime) == lifetimes {
            before + param_text(generics.last(), mention) + ", "@
        } else {
            before
        }
    }
}

/// The parameter list of `generics` between angle brackets, lifetimes first;
/// nothing where there is no parameter.
pub open spec fn param_list(generics: Seq<GenericParamView>, mention: Mention) -> Seq<char> {
    if generics.len() == 0 {
        Seq::empty()
    } else {
        "<"@ + param_run(generics, mention, true) + param_run(generics, mention, false) + ">"@
    }
}

/// Appends to `text` how `param` is written in a list of the given kind.
pub fn push_param(text: &mut String, param: &GenericParam, mention: Mention)
    ensures
        final(text)@ == old(text)@ + param_text(param@, mention),
{
    match mention {
        Mention::Used => {
            text.append(param.name.as_str());
        },
        Mention::Declared => {
            match param.kind {
                ParamKind::Const => {
                    text.append("const ");
                    text.append(param.name.as_str());
                    text.append(": ");
                    text.append(param.bounds.as_str());
                    assert(text@ =~= old(text)@ + ("const "@ + param.name@ + ": "@
                        + param.bounds@));
                },
                _ => {
                    text.append(param.name.as_str());
                    if param.bounds.as_str().unicode_len() != 0 {
                        text.append(": ");
                        text.append(param.bounds.as_str());
                        assert(text@ =~= old(text)@ + (param.name@ + ": "@ + param.bounds@));
                    }
                },
            }
        },
    }
}

/// Appends to `text` one run of the parameter list.
pub fn push_param_run(
    text: &mut String,
    generics: &Vec<GenericParam>,
    mention: Mention,
    lifetimes: bool,
)
    ensures
        final(text)@ == old(text)@ + param_run(params(generics@), mention, lifetimes),
{
    let ghost all = params(generics@);
    let mut i: usize = 0;
    assert(text@ =~= old(text)@ + param_run(all.take(0), mention, lifetimes));
    while i < generics.len()
        invariant
            i <= generics.len(),
            all == params(generics@),
            text@ == old(text)@ + param_run(all.take(i as int), mention, lifetimes),
        decreases generics.len() - i,
    {
        let param = &generics[i];
        let ghost before = param_run(all.take(i as int), mention, lifetimes);
        proof {
            assert(all.take(i + 1).drop_last() == all.take(i as int));
            assert(all.take(i + 1).last() == param@);
        }
        let is_lifetime = match param.kind {
            ParamKind::Lifetime => true,
            _ => false,
        };
        if is_lifetime == lifetimes {
            push_param(text, param, mention);
            text.append(", ");
            assert(text@ =~= old(text)@ + (before + param_text(param@, mention) + ", "@));
        }
        i += 1;
    }
    proof {
        assert(all.take(i as int) == all);
    }
}

/// Writes the parameter list of `generics`.
pub fn write_param_list(generics: &Vec<GenericParam>, mention: Mention) -> (text: String)
    ensures
        text@ == param_list(params(generics@), mention),
{
    let mut text = String::new();
    if generics.len() > 0 {
        text.append("<");
        push_param_run(&mut text, generics, mention, true);
        push_param_run(&mut text, generics, mention, false);
        text.append(">");
        assert(text@ =~= "<"@ + param_run(params(generics@), mention, true) + param_run(
            params(generics@),
            mention,
            false,
        ) + ">"@);
    }
    text
}

/// The steps as one expression: nothing is `()`, and each further step is
/// paired to the right of what stands before it, so that it runs after it.
pub open spec fn chain(steps: Seq<Seq<char>>) -> Seq<char>
    decreases steps.len(),
{
    if steps.len() == 0 {
        "()"@
    } else {
        "("@ + chain(steps.drop_last()) + ", "@ + steps.last() + ")"@
    }
}

/// `count` opening brackets.
pub open spec fn openings(count: nat) -> Seq<char>
    decreases count,
{
    if count == 0 {
        Seq::empty()
    } else {
        "("@ + openings((count - 1) as nat)
    }
}

/// Writes the steps as one expression.
pub fn write_chain(steps: &Vec<String>) -> (text: String)
    ensures
        text@ == chain(texts(steps@)),
{
    let ghost all = texts(steps@);
    let mut text = String::new();
    let mut opened: usize = 0;
    while opened < steps.len()
        invariant
            opened <= steps.len(),
            text@ == openings(opened as nat),
        decreases steps.len() - opened,
    {
        text.append("(");
        opened += 1;
        proof {
            lemma_openings_push((opened - 1) as nat);
        }
    }
    text.append("()");
    let mut i: usize = 0;
    assert(text@ =~= openings((steps.len() - 0) as nat) + chain(all.take(0)));
    while i < steps.len()
        invariant
            i <= steps.len(),
            all == texts(steps@),
            text@ == openings((steps.len() - i) as nat) + chain(all.take(i as int)),
        decreases steps.len() - i,
    {
        let ghost rest = openings((steps.len() - i - 1) as nat);
        let ghost inner = chain(all.take(i as int));
        proof {
            assert(all.take(i + 1).drop_last() == all.take(i as int));
            assert(all.take(i + 1).last() == steps@[i as int]@);
            assert(openings((steps.len() - i) as nat) == "("@ + rest);
            lemma_openings_push((steps.len() - i - 1) as nat);
        }
        text.append(", ");
        text.append(steps[i].as_str());
        text.append(")");
        assert(text@ =~= rest + ("("@ + inner + ", "@ + steps@[i as int]@ + ")"@));
        i += 1;
    }
    proof {
        assert(all.take(i as int) == all);
        assert(text@ =~= chain(all));
    }
    text
}

/// One more opening bracket may be written on either side.
pub proof fn lemma_openings_push(count: nat)
    ensures
        openings(count + 1) == openings(count) + "("@,
        openings(count + 1) == "("@ + openings(count),
    decreases count,
{
    if count == 0 {
        assert(openings(1) =~= "("@ + openings(0));
        assert(openings(0) + "("@ =~= "("@ + openings(0));
    } else {
        lemma_openings_push((count - 1) as nat);
        assert("("@ + (openings((count - 1) as nat) + "("@) =~= ("("@ + openings(
            (count - 1) as nat,
        )) + "("@);
    }
}

} // verus!
