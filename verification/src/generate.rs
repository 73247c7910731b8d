//! The generator itself: kind check, three-way split of the generics, and
//! synthesis of the fragment's token row.

use vstd::prelude::*;
use crate::decl::{DeclKind, GenericParam, GenerationError, GeneratedFragment, TypeDeclaration};

verus! {

/// The views of a row of tokens.
pub open spec fn token_views(ts: Seq<String>) -> Seq<Seq<char>> {
    ts.map_values(|t: String| t@)
}

/// The tokens a parameter contributes to an implementation's own generic
/// scope: its name, then its bounds verbatim if it has any. Defaults are
/// dropped — they may not appear there. A const parameter keeps its leading
/// keyword and its type.
pub open spec fn spec_param_impl_tokens(p: GenericParam) -> Seq<Seq<char>> {
    match p {
        GenericParam::Lifetime { name, bounds } => (
            if bounds@.len() == 0 {
                seq![name@]
            } else {
                seq![name@, ":"@, bounds@]
            }
        ),
        GenericParam::Type { name, bounds, default_ty } => (
            if bounds@.len() == 0 {
                seq![name@]
            } else {
                seq![name@, ":"@, bounds@]
            }
        ),
        GenericParam::Const { name, ty, default_val } => seq!["const"@, name@, ":"@, ty@],
    }
}

/// The bare name by which a parameter is referred to when the subject type
/// is applied.
pub open spec fn spec_param_name(p: GenericParam) -> Seq<char> {
    match p {
        GenericParam::Lifetime { name, bounds } => name@,
        GenericParam::Type { name, bounds, default_ty } => name@,
        GenericParam::Const { name, ty, default_val } => name@,
    }
}

/// Comma-separated concatenation of per-parameter token rows, in order.
pub open spec fn spec_comma_join(parts: Seq<Seq<Seq<char>>>) -> Seq<Seq<char>>
    decreases parts.len(),
{
    if parts.len() == 0 {
        Seq::empty()
    } else if parts.len() == 1 {
        parts[0]
    } else {
        spec_comma_join(parts.drop_last()) + seq![","@] + parts.last()
    }
}

/// View (a) of the generics: the parameter-list form that opens the
/// generated implementations' own generic scope.
pub open spec fn spec_impl_generics(params: Seq<GenericParam>) -> Seq<Seq<char>> {
    if params.len() == 0 {
        Seq::empty()
    } else {
        seq!["<"@] + spec_comma_join(params.map_values(|p: GenericParam| spec_param_impl_tokens(p)))
            + seq![">"@]
    }
}

/// View (b) of the generics: the argument-list form that applies the subject
/// type, listing every parameter's bare name in declaration order.
pub open spec fn spec_ty_generics(params: Seq<GenericParam>) -> Seq<Seq<char>> {
    if params.len() == 0 {
        Seq::empty()
    } else {
        seq!["<"@] + spec_comma_join(params.map_values(|p: GenericParam| seq![spec_param_name(p)]))
            + seq![">"@]
    }
}

/// View (c) of the generics: the trailing constraint clause, verbatim; it
/// contributes no token when the declaration has none.
pub open spec fn spec_where_tokens(wc: Seq<char>) -> Seq<Seq<char>> {
    if wc.len() == 0 {
        Seq::<Seq<char>>::empty()
    } else {
        seq![wc]
    }
}

/// The first implementation of the fragment: the equality capability, whose
/// one operation compares the variant discriminant of each operand and
/// ignores every field value.
pub open spec fn spec_eq_impl_tokens(name: Seq<char>, params: Seq<GenericParam>, wc: Seq<char>) -> Seq<Seq<char>> {
    let ig = spec_impl_generics(params);
    let tg = spec_ty_generics(params);
    seq!["impl"@] + ig + seq!["PartialEq"@, "for"@, name] + tg + spec_where_tokens(wc)
        + seq!["{"@, "fn"@, "eq"@, "("@, "&"@, "self"@, ","@, "other"@, ":"@, "&"@, name] + tg
        + seq![
            ")"@,
            "->"@,
            "bool"@,
            "{"@,
            "::std::mem::discriminant"@,
            "("@,
            "self"@,
            ")"@,
            "=="@,
            "::std::mem::discriminant"@,
            "("@,
            "other"@,
            ")"@,
            "}"@,
            "}"@,
        ]
}

/// The second implementation of the fragment: the empty marker that asserts
/// the equality is an equivalence relation, carrying no logic of its own.
pub open spec fn spec_marker_impl_tokens(name: Seq<char>, params: Seq<GenericParam>, wc: Seq<char>) -> Seq<Seq<char>> {
    let ig = spec_impl_generics(params);
    let tg = spec_ty_generics(params);
    seq!["impl"@] + ig + seq!["Eq"@, "for"@, name] + tg + spec_where_tokens(wc)
        + seq!["{"@, "}"@]
}

/// The whole fragment: both capability implementations, applied to the
/// subject type with its generics re-attached exactly as declared.
pub open spec fn spec_fragment_tokens(name: Seq<char>, params: Seq<GenericParam>, wc: Seq<char>) -> Seq<Seq<char>> {
    spec_eq_impl_tokens(name, params, wc) + spec_marker_impl_tokens(name, params, wc)
}

/// Pushes one fixed token.
fn push_token(out: &mut Vec<String>, t: &str)
    ensures
        token_views(final(out)@) == token_views(old(out)@).push(t@),
{
    out.push(String::from_str(t));
    proof {
        assert(token_views(out@) =~= token_views(old(out)@).push(t@));
    }
}

/// Pushes a copy of one carried-over token.
fn push_string(out: &mut Vec<String>, s: &String)
    ensures
        token_views(final(out)@) == token_views(old(out)@).push(s@),
{
    out.push(s.clone());
    proof {
        assert(token_views(out@) =~= token_views(old(out)@).push(s@));
    }
}

/// Moves a row of tokens onto the end of another.
fn append_tokens(out: &mut Vec<String>, extra: &mut Vec<String>)
    ensures
        token_views(final(out)@) == token_views(old(out)@) + token_views(old(extra)@),
{
    out.append(extra);
    proof {
        assert(token_views(out@) =~= token_views(old(out)@) + token_views(old(extra)@));
    }
}

/// Pushes the constraint clause, verbatim, if the declaration has one.
fn push_where(out: &mut Vec<String>, wc: &String)
    ensures
        token_views(final(out)@) == token_views(old(out)@) + spec_where_tokens(wc@),
{
    if !wc.as_str().is_empty() {
        out.push(wc.clone());
    }
    proof {
        assert(token_views(out@) =~= token_views(old(out)@) + spec_where_tokens(wc@));
    }
}

/// Pushes one parameter's contribution to the parameter-list form.
fn push_param_impl_tokens(out: &mut Vec<String>, p: &GenericParam)
    ensures
        token_views(final(out)@) == token_views(old(out)@) + spec_param_impl_tokens(*p),
{
    match p {
        GenericParam::Lifetime { name, bounds } => {
            push_string(out, name);
            if !bounds.as_str().is_empty() {
                push_token(out, ":");
                push_string(out, bounds);
            }
        },
        GenericParam::Type { name, bounds, default_ty } => {
            push_string(out, name);
            if !bounds.as_str().is_empty() {
                push_token(out, ":");
                push_string(out, bounds);
            }
        },
        GenericParam::Const { name, ty, default_val } => {
            push_token(out, "const");
            push_string(out, name);
            push_token(out, ":");
            push_string(out, ty);
        },
    }
    proof {
        assert(token_views(out@) =~= token_views(old(out)@) + spec_param_impl_tokens(*p));
    }
}

/// Pushes one parameter's bare name.
fn push_param_name(out: &mut Vec<String>, p: &GenericParam)
    ensures
        token_views(final(out)@) == token_views(old(out)@).push(spec_param_name(*p)),
{
    match p {
        GenericParam::Lifetime { name, bounds } => {
            push_string(out, name);
        },
        GenericParam::Type { name, bounds, default_ty } => {
            push_string(out, name);
        },
        GenericParam::Const { name, ty, default_val } => {
            push_string(out, name);
        },
    }
}

/// How one more part extends a comma-separated concatenation.
proof fn lemma_comma_join_take_step(parts: Seq<Seq<Seq<char>>>, i: int)
    requires
        0 <= i < parts.len(),
    ensures
        spec_comma_join(parts.take(i + 1)) == (
            if i == 0 {
                parts[0]
            } else {
                spec_comma_join(parts.take(i)) + seq![","@] + parts[i]
            }
        ),
{
    let t = parts.take(i + 1);
    if i == 0 {
        assert(t.len() == 1);
        assert(t[0] == parts[0]);
    } else {
        assert(t.drop_last() =~= parts.take(i));
        assert(t.last() == parts[i]);
    }
}

/// Appends the comma-separated parameter-list form of every parameter.
fn push_impl_param_list(out: &mut Vec<String>, params: &Vec<GenericParam>)
    ensures
        token_views(final(out)@) == token_views(old(out)@) + spec_comma_join(
            params@.map_values(|p: GenericParam| spec_param_impl_tokens(p)),
        ),
{
    let ghost parts = params@.map_values(|p: GenericParam| spec_param_impl_tokens(p));
    let mut i: usize = 0;
    while i < params.len()
        invariant
            i <= params@.len(),
            parts == params@.map_values(|p: GenericParam| spec_param_impl_tokens(p)),
            token_views(out@) == token_views(old(out)@) + spec_comma_join(parts.take(i as int)),
        decreases params@.len() - i,
    {
        if i > 0 {
            push_token(out, ",");
        }
        push_param_impl_tokens(out, &params[i]);
        proof {
            lemma_comma_join_take_step(parts, i as int);
            assert(token_views(out@) =~= token_views(old(out)@) + spec_comma_join(
                parts.take(i + 1),
            ));
        }
        i += 1;
    }
    proof {
        assert(parts.take(parts.len() as int) =~= parts);
    }
}

/// Appends the comma-separated argument-list form of every parameter.
fn push_ty_param_list(out: &mut Vec<String>, params: &Vec<GenericParam>)
    ensures
        token_views(final(out)@) == token_views(old(out)@) + spec_comma_join(
            params@.map_values(|p: GenericParam| seq![spec_param_name(p)]),
        ),
{
    let ghost parts = params@.map_values(|p: GenericParam| seq![spec_param_name(p)]);
    let mut i: usize = 0;
    while i < params.len()
        invariant
            i <= params@.len(),
            parts == params@.map_values(|p: GenericParam| seq![spec_param_name(p)]),
            token_views(out@) == token_views(old(out)@) + spec_comma_join(parts.take(i as int)),
        decreases params@.len() - i,
    {
        if i > 0 {
            push_token(out, ",");
        }
        push_param_name(out, &params[i]);
        proof {
            lemma_comma_join_take_step(parts, i as int);
            assert(token_views(out@) =~= token_views(old(out)@) + spec_comma_join(
                parts.take(i + 1),
            ));
        }
        i += 1;
    }
    proof {
        assert(parts.take(parts.len() as int) =~= parts);
    }
}

/// Builds view (a) of the generics: the parameter-list form, bounds kept
/// verbatim, defaults dropped, empty when the subject type has no
/// parameters.
pub fn impl_generics_tokens(params: &Vec<GenericParam>) -> (out: Vec<String>)
    ensures
        token_views(out@) == spec_impl_generics(params@),
{
    let mut out: Vec<String> = Vec::new();
    if params.len() == 0 {
        proof {
            assert(token_views(out@) =~= spec_impl_generics(params@));
        }
        return out;
    }
    push_token(&mut out, "<");
    push_impl_param_list(&mut out, params);
    push_token(&mut out, ">");
    proof {
        assert(token_views(out@) =~= spec_impl_generics(params@));
    }
    out
}

/// Builds view (b) of the generics: the argument-list form, every
/// parameter's bare name in declaration order, empty when the subject type
/// has no parameters.
pub fn ty_generics_tokens(params: &Vec<GenericParam>) -> (out: Vec<String>)
    ensures
        token_views(out@) == spec_ty_generics(params@),
{
    let mut out: Vec<String> = Vec::new();
    if params.len() == 0 {
        proof {
            assert(token_views(out@) =~= spec_ty_generics(params@));
        }
        return out;
    }
    push_token(&mut out, "<");
    push_ty_param_list(&mut out, params);
    push_token(&mut out, ">");
    proof {
        assert(token_views(out@) =~= spec_ty_generics(params@));
    }
    out
}

/// Appends the equality implementation's token row.
#[verifier::rlimit(60)]
fn push_eq_impl(out: &mut Vec<String>, decl: &TypeDeclaration)
    ensures
        token_views(final(out)@) == token_views(old(out)@) + spec_eq_impl_tokens(
            decl.name@,
            decl.params@,
            decl.where_clause@,
        ),
{
    push_token(out, "impl");
    let mut ig = impl_generics_tokens(&decl.params);
    append_tokens(out, &mut ig);
    push_token(out, "PartialEq");
    push_token(out, "for");
    push_string(out, &decl.name);
    let mut tg = ty_generics_tokens(&decl.params);
    append_tokens(out, &mut tg);
    push_where(out, &decl.where_clause);
    push_token(out, "{");
    push_token(out, "fn");
    push_token(out, "eq");
    push_token(out, "(");
    push_token(out, "&");
    push_token(out, "self");
    push_token(out, ",");
    push_token(out, "other");
    push_token(out, ":");
    push_token(out, "&");
    push_string(out, &decl.name);
    let mut tg2 = ty_generics_tokens(&decl.params);
    append_tokens(out, &mut tg2);
    push_token(out, ")");
    push_token(out, "->");
    push_token(out, "bool");
    push_token(out, "{");
    push_token(out, "::std::mem::discriminant");
    push_token(out, "(");
    push_token(out, "self");
    push_token(out, ")");
    push_token(out, "==");
    push_token(out, "::std::mem::discriminant");
    push_token(out, "(");
    push_token(out, "other");
    push_token(out, ")");
    push_token(out, "}");
    push_token(out, "}");
    proof {
        assert(token_views(out@) =~= token_views(old(out)@) + spec_eq_impl_tokens(
            decl.name@,
            decl.params@,
            decl.where_clause@,
        ));
    }
}

/// Appends the marker implementation's token row.
fn push_marker_impl(out: &mut Vec<String>, decl: &TypeDeclaration)
    ensures
        token_views(final(out)@) == token_views(old(out)@) + spec_marker_impl_tokens(
            decl.name@,
            decl.params@,
            decl.where_clause@,
        ),
{
    push_token(out, "impl");
    let mut ig = impl_generics_tokens(&decl.params);
    append_tokens(out, &mut ig);
    push_token(out, "Eq");
    push_token(out, "for");
    push_string(out, &decl.name);
    let mut tg = ty_generics_tokens(&decl.params);
    append_tokens(out, &mut tg);
    push_where(out, &decl.where_clause);
    push_token(out, "{");
    push_token(out, "}");
    proof {
        assert(token_views(out@) =~= token_views(old(out)@) + spec_marker_impl_tokens(
            decl.name@,
            decl.params@,
            decl.where_clause@,
        ));
    }
}

/// The generator: validates that the declaration is a tagged union, splits
/// its generics into the three views, and synthesizes the fragment.
///
/// Succeeds exactly on tagged unions, whatever their variants hold; every
/// other declaration is rejected with the one error kind, and no fragment is
/// produced for it.
pub fn generate(decl: &TypeDeclaration) -> (r: Result<GeneratedFragment, GenerationError>)
    ensures
        r is Ok <==> decl.kind is TaggedUnion,
        r matches Ok(f) ==> {
            &&& token_views(f.impl_generics@) == spec_impl_generics(decl.params@)
            &&& token_views(f.ty_generics@) == spec_ty_generics(decl.params@)
            &&& f.where_clause@ == decl.where_clause@
            &&& token_views(f.tokens@) == spec_fragment_tokens(
                decl.name@,
                decl.params@,
                decl.where_clause@,
            )
        },
        r matches Err(e) ==> e == GenerationError::UnsupportedKind,
{
    match decl.kind {
        DeclKind::TaggedUnion => {},
        _ => {
            return Err(GenerationError::UnsupportedKind);
        },
    }
    let impl_generics = impl_generics_tokens(&decl.params);
    let ty_generics = ty_generics_tokens(&decl.params);
    let where_clause = decl.where_clause.clone();
    let mut tokens: Vec<String> = Vec::new();
    push_eq_impl(&mut tokens, decl);
    push_marker_impl(&mut tokens, decl);
    proof {
        assert(token_views(tokens@) =~= spec_fragment_tokens(
            decl.name@,
            decl.params@,
            decl.where_clause@,
        ));
    }
    Ok(GeneratedFragment { impl_generics, ty_generics, where_clause, tokens })
}

/// A comma-separated concatenation of single-token parts: part tokens stand
/// at the even positions, in order, and a comma at every odd position.
proof fn lemma_comma_join_singleton_shape(parts: Seq<Seq<Seq<char>>>)
    requires
        parts.len() > 0,
        forall|i: int| 0 <= i < parts.len() ==> (#[trigger] parts[i]).len() == 1,
    ensures
        spec_comma_join(parts).len() == 2 * parts.len() - 1,
        forall|j: int|
            0 <= j < spec_comma_join(parts).len() ==> #[trigger] spec_comma_join(parts)[j] == (
            if j % 2 == 0 {
                parts[j / 2][0]
            } else {
                ","@
            }),
    decreases parts.len(),
{
    if parts.len() == 1 {
    } else {
        lemma_comma_join_singleton_shape(parts.drop_last());
    }
}

/// Generics preservation, argument-list side: when the subject type has
/// parameters, the argument-list form the fragment applies the type to is
/// exactly an opening bracket, the bare name of every declared parameter in
/// declaration order with a comma between neighbours, and a closing
/// bracket — no parameter is added, dropped or reordered.
pub proof fn lemma_ty_generics_preserve_params(params: Seq<GenericParam>)
    requires
        params.len() > 0,
    ensures
        spec_ty_generics(params).len() == 2 * params.len() + 1,
        spec_ty_generics(params)[0] == "<"@,
        spec_ty_generics(params)[spec_ty_generics(params).len() - 1] == ">"@,
        forall|i: int|
            0 <= i < params.len() ==> spec_ty_generics(params)[2 * i + 1] == spec_param_name(
                #[trigger] params[i],
            ),
        forall|j: int|
            0 <= j < params.len() - 1 ==> #[trigger] spec_ty_generics(params)[2 * j + 2] == ","@,
{
    let parts = params.map_values(|p: GenericParam| seq![spec_param_name(p)]);
    assert(forall|i: int| 0 <= i < parts.len() ==> (#[trigger] parts[i]).len() == 1);
    lemma_comma_join_singleton_shape(parts);
    let join = spec_comma_join(parts);
    let tg = spec_ty_generics(params);
    assert forall|i: int| 0 <= i < params.len() implies tg[2 * i + 1] == spec_param_name(
        #[trigger] params[i],
    ) by {
        assert(tg[2 * i + 1] == join[2 * i]);
        assert(join[2 * i] == parts[i][0]);
    }
    assert forall|j: int| 0 <= j < params.len() - 1 implies #[trigger] tg[2 * j + 2] == ","@ by {
        assert(tg[2 * j + 2] == join[2 * j + 1]);
    }
}

/// A comma-separated concatenation holds each of its parts contiguously.
proof fn lemma_comma_join_contains_part(parts: Seq<Seq<Seq<char>>>, i: int)
    requires
        0 <= i < parts.len(),
    ensures
        exists|j: int, k: int|
            0 <= j <= k <= spec_comma_join(parts).len() && #[trigger] spec_comma_join(
                parts,
            ).subrange(j, k) == parts[i],
    decreases parts.len(),
{
    let join = spec_comma_join(parts);
    let n = parts[i].len() as int;
    if i == parts.len() - 1 {
        let j = join.len() - n;
        assert(join.subrange(j, join.len() as int) =~= parts[i]);
    } else {
        lemma_comma_join_contains_part(parts.drop_last(), i);
        let jdl = spec_comma_join(parts.drop_last());
        let (j, k) = choose|j: int, k: int|
            0 <= j <= k <= jdl.len() && #[trigger] jdl.subrange(j, k) == parts.drop_last()[i];
        assert(join.subrange(j, k) =~= jdl.subrange(j, k));
        assert(join.subrange(j, k) == parts[i]);
    }
}

/// Generics preservation, parameter-list side: each declared parameter's
/// contribution — its name followed by its bounds text verbatim — stands
/// contiguously inside the parameter-list form that opens the generated
/// implementations' own generic scope.
pub proof fn lemma_impl_generics_keep_bounds(params: Seq<GenericParam>, i: int)
    requires
        0 <= i < params.len(),
    ensures
        exists|j: int, k: int|
            0 <= j <= k <= spec_impl_generics(params).len() && #[trigger] spec_impl_generics(
                params,
            ).subrange(j, k) == spec_param_impl_tokens(params[i]),
{
    let parts = params.map_values(|p: GenericParam| spec_param_impl_tokens(p));
    lemma_comma_join_contains_part(parts, i);
    let join = spec_comma_join(parts);
    let ig = spec_impl_generics(params);
    let (j, k) = choose|j: int, k: int|
        0 <= j <= k <= join.len() && #[trigger] join.subrange(j, k) == parts[i];
    assert(ig.subrange(j + 1, k + 1) =~= join.subrange(j, k));
    assert(ig.subrange(j + 1, k + 1) == spec_param_impl_tokens(params[i]));
}

} // verus!
