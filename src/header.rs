use vstd::prelude::*;
use vstd::string::StringExecFns;

verus! {

/// Alias under which the synthesized block refers to this crate.
pub const CRATE_ALIAS: &'static str = "__mocktopus_crate__";

/// Alias under which the synthesized block refers to the standard library.
pub const STD_ALIAS: &'static str = "__mocktopus_std__";

/// Binding of the argument tuple handed back by a `Continue` outcome.
pub const ARGS_TO_CONTINUE: &'static str = "__mocktopus_args_to_continue__";

/// Binding of the substitute value of a `Return` outcome.
pub const ARGS_TO_RETURN: &'static str = "__mocktopus_args_to_return__";

/// Binding of the payload of a panic raised by a replacement.
pub const UNWIND_DATA: &'static str = "__mocktopus_unwind_data__";

/// A generic parameter of a function, tagged by kind.
pub enum GenericParam {
    Type(String),
    Lifetime(String),
    Const(String),
}

/// One parameter of a function: the receiver, a parameter bound to a plain
/// name, or one bound by a destructuring pattern (kept as its source text).
pub enum FnArg {
    Receiver,
    Named(String),
    Pattern(String),
}

/// The parts of a parsed function signature that the synthesizer reads.
pub struct FnSignature {
    pub ident: String,
    pub generics: Vec<GenericParam>,
    pub inputs: Vec<FnArg>,
}

/// The declaring context of a function; a trait impl carries the trait path.
pub enum FnHeaderBuilder {
    StaticFn,
    StructImpl,
    TraitDefault,
    TraitImpl(String),
}

/// Why no interception block can be synthesized.
pub enum HeaderError {
    /// A parameter is bound by a pattern; holds that parameter's text.
    InvalidFnArg(String),
}

// ---------------------------------------------------------------- model

/// Text contributed by one generic parameter to the explicit generic list.
pub open spec fn generic_param_text(p: GenericParam) -> Seq<char> {
    match p {
        GenericParam::Type(name) => name@ + ","@,
        _ => Seq::empty(),
    }
}

/// The explicit generic-argument list: every type parameter, in order, each
/// followed by a comma; lifetime and const parameters are left out.
pub open spec fn generics_text(ps: Seq<GenericParam>) -> Seq<char>
    decreases ps.len(),
{
    if ps.len() == 0 {
        Seq::empty()
    } else {
        generics_text(ps.drop_last()) + generic_param_text(ps.last())
    }
}

/// The path prefix that the declaring context puts before the identifier.
pub open spec fn context_prefix(b: FnHeaderBuilder) -> Seq<char> {
    match b {
        FnHeaderBuilder::StaticFn => Seq::empty(),
        FnHeaderBuilder::StructImpl => "Self::"@,
        FnHeaderBuilder::TraitDefault => "Self::"@,
        FnHeaderBuilder::TraitImpl(path) => "<Self as "@ + path@ + ">::"@,
    }
}

/// The qualified, generically instantiated name of the function.
pub open spec fn full_fn_name(b: FnHeaderBuilder, ident: Seq<char>, ps: Seq<GenericParam>) -> Seq<char> {
    context_prefix(b) + ident + "::<"@ + generics_text(ps) + ">"@
}

/// The binding name of one parameter, if it has one.
pub open spec fn arg_name(a: FnArg) -> Option<Seq<char>> {
    match a {
        FnArg::Receiver => Some("self"@),
        FnArg::Named(n) => Some(n@),
        FnArg::Pattern(_) => None,
    }
}

/// The binding names of all parameters, or `None` if one has none.
pub open spec fn arg_names(args: Seq<FnArg>) -> Option<Seq<Seq<char>>>
    decreases args.len(),
{
    if args.len() == 0 {
        Some(Seq::empty())
    } else {
        match arg_names(args.drop_last()) {
            Some(ns) => match arg_name(args.last()) {
                Some(n) => Some(ns.push(n)),
                None => None,
            },
            None => None,
        }
    }
}

/// The text of the first parameter that has no binding name.
pub open spec fn first_invalid_arg(args: Seq<FnArg>) -> Seq<char>
    decreases args.len(),
{
    if args.len() == 0 {
        Seq::empty()
    } else if arg_names(args.drop_last()).is_none() {
        first_invalid_arg(args.drop_last())
    } else {
        match args.last() {
            FnArg::Pattern(t) => t@,
            _ => Seq::empty(),
        }
    }
}

/// Concatenation over the names of `pre + name + post`.
pub open spec fn per_name(names: Seq<Seq<char>>, pre: Seq<char>, post: Seq<char>) -> Seq<char>
    decreases names.len(),
{
    if names.len() == 0 {
        Seq::empty()
    } else {
        per_name(names.drop_last(), pre, post) + pre + names.last() + post
    }
}

/// Decimal digits of a natural number.
pub open spec fn decimal(n: nat) -> Seq<char>
    decreases n,
{
    if n < 10 {
        seq![(('0' as nat) + n) as char]
    } else {
        decimal(n / 10) + seq![(('0' as nat) + n % 10) as char]
    }
}

/// Statements that move tuple element `i` back into the binding `names[i]`,
/// for each `i` below the length of `names`.
pub open spec fn swap_lines(names: Seq<Seq<char>>) -> Seq<char>
    decreases names.len(),
{
    if names.len() == 0 {
        Seq::empty()
    } else {
        swap_lines(names.drop_last()) + STD_ALIAS@ + "::mem::swap(&mut *(&"@ + names.last()
            + " as *const _ as *mut _), &mut "@ + ARGS_TO_CONTINUE@ + "."@
            + decimal((names.len() - 1) as nat) + ");\n"@
    }
}

/// The expression that copies every argument into one tuple.
pub open spec fn extract_text(names: Seq<Seq<char>>) -> Seq<char> {
    if names.len() == 0 {
        "()"@
    } else {
        "("@ + per_name(names, STD_ALIAS@ + "::mem::transmute_copy(&"@, "), "@) + ")"@
    }
}

/// The block that hands every tuple element back to its binding and then
/// forgets the emptied tuple.
pub open spec fn restore_text(names: Seq<Seq<char>>) -> Seq<char> {
    if names.len() == 0 {
        "()\n"@
    } else {
        "{\n"@ + swap_lines(names) + STD_ALIAS@ + "::mem::forget("@ + ARGS_TO_CONTINUE@
            + ");\n"@ + "}\n"@
    }
}

/// Statements that forget every original argument binding.
pub open spec fn forget_text(names: Seq<Seq<char>>) -> Seq<char> {
    per_name(names, STD_ALIAS@ + "::mem::forget("@, ");\n"@)
}

/// The whole interception block for a function with the given qualified name
/// and argument binding names.
pub open spec fn header_text(full_name: Seq<char>, names: Seq<Seq<char>>) -> Seq<char> {
    "unsafe {\n"@
    + "use ::mocktopus as "@ + CRATE_ALIAS@ + ";\n"@
    + "use ::std as "@ + STD_ALIAS@ + ";\n"@
    + "#[allow(clippy::forget_copy, clippy::forget_ref, clippy::forget_non_drop)]\n"@
    + "match "@ + STD_ALIAS@ + "::panic::catch_unwind("@ + STD_ALIAS@
    + "::panic::AssertUnwindSafe(|| "@ + CRATE_ALIAS@ + "::mocking::Mockable::call_mock(&"@
    + full_name + ", "@ + extract_text(names) + "))) {\n"@
    + "Ok("@ + CRATE_ALIAS@ + "::mocking::MockResult::Continue(mut "@ + ARGS_TO_CONTINUE@
    + ")) => "@ + restore_text(names) + ",\n"@
    + "Ok("@ + CRATE_ALIAS@ + "::mocking::MockResult::Return("@ + ARGS_TO_RETURN@ + ")) => {\n"@
    + forget_text(names)
    + "let returned = "@ + STD_ALIAS@ + "::mem::transmute_copy(&"@ + ARGS_TO_RETURN@ + ");\n"@
    + STD_ALIAS@ + "::mem::forget("@ + ARGS_TO_RETURN@ + ");\n"@
    + "return returned;\n"@ + "},\n"@
    + "Err("@ + UNWIND_DATA@ + ") => {\n"@
    + forget_text(names)
    + STD_ALIAS@ + "::panic::resume_unwind("@ + UNWIND_DATA@ + ");\n"@ + "},\n"@
    + "}\n"@ + "}"@
}

/// What `build` produces for a declaring context and a signature.
pub open spec fn build_result(b: FnHeaderBuilder, ident: Seq<char>, ps: Seq<GenericParam>, args: Seq<FnArg>) -> Result<Seq<char>, Seq<char>> {
    match arg_names(args) {
        Some(names) => Ok(header_text(full_fn_name(b, ident, ps), names)),
        None => Err(first_invalid_arg(args)),
    }
}

/// The views of a list of strings.
pub open spec fn views(v: Seq<String>) -> Seq<Seq<char>> {
    v.map_values(|s: String| s@)
}

// ---------------------------------------------------------------- proofs

proof fn lemma_subrange_step<T>(s: Seq<T>, i: int)
    requires
        0 <= i < s.len(),
    ensures
        s.subrange(0, i + 1).drop_last() =~= s.subrange(0, i),
        s.subrange(0, i + 1).last() == s[i],
        s.subrange(0, i + 1).len() == i + 1,
{
}

proof fn lemma_views_step(v: Seq<String>, i: int)
    requires
        0 <= i < v.len(),
    ensures
        views(v).subrange(0, i + 1).drop_last() =~= views(v).subrange(0, i),
        views(v).subrange(0, i + 1).last() == v[i]@,
        views(v).subrange(0, i + 1).len() == i + 1,
{
}

proof fn lemma_invalid_prefix(args: Seq<FnArg>, i: int)
    requires
        0 <= i < args.len(),
        arg_names(args.subrange(0, i)).is_some(),
        args[i] is Pattern,
    ensures
        arg_names(args).is_none(),
        first_invalid_arg(args) == args[i]->Pattern_0@,
    decreases args.len(),
{
    if args.len() == i + 1 {
        assert(args.drop_last() =~= args.subrange(0, i));
    } else {
        let d = args.drop_last();
        assert(d.subrange(0, i) =~= args.subrange(0, i));
        lemma_invalid_prefix(d, i);
    }
}

// ---------------------------------------------------------------- writers

/// Relies on `usize`'s `Display` impl, which writes the decimal digits.
#[verifier::external_body]
fn decimal_text(n: usize) -> (r: String)
    ensures
        r@ == decimal(n as nat),
{
    n.to_string()
}

/// Appends the explicit generic-argument list of `ps`.
pub fn write_fn_generics(out: &mut String, ps: &Vec<GenericParam>)
    ensures
        final(out)@ == old(out)@ + generics_text(ps@),
{
    let ghost s0 = out@;
    let mut i: usize = 0;
    while i < ps.len()
        invariant
            i <= ps.len(),
            out@ == s0 + generics_text(ps@.subrange(0, i as int)),
        decreases ps.len() - i,
    {
        proof { lemma_subrange_step(ps@, i as int); }
        match &ps[i] {
            GenericParam::Type(name) => {
                out.append(name.as_str());
                out.append(",");
            },
            _ => {},
        }
        assert(out@ =~= s0 + generics_text(ps@.subrange(0, i + 1)));
        i = i + 1;
    }
    assert(ps@.subrange(0, ps.len() as int) =~= ps@);
}

/// Appends the qualified, generically instantiated name of `sig`'s function.
pub fn write_full_fn_name(out: &mut String, b: &FnHeaderBuilder, sig: &FnSignature)
    ensures
        final(out)@ == old(out)@ + full_fn_name(*b, sig.ident@, sig.generics@),
{
    let ghost s0 = out@;
    match b {
        FnHeaderBuilder::StaticFn => {},
        FnHeaderBuilder::StructImpl => out.append("Self::"),
        FnHeaderBuilder::TraitDefault => out.append("Self::"),
        FnHeaderBuilder::TraitImpl(path) => {
            out.append("<Self as ");
            out.append(path.as_str());
            out.append(">::");
        },
    }
    assert(out@ =~= s0 + context_prefix(*b));
    out.append(sig.ident.as_str());
    out.append("::<");
    write_fn_generics(out, &sig.generics);
    out.append(">");
    assert(out@ =~= s0 + full_fn_name(*b, sig.ident@, sig.generics@));
}

/// The binding name of every parameter, the receiver named `self`; an error
/// naming the first parameter bound by a pattern.
pub fn fn_arg_names(inputs: &Vec<FnArg>) -> (r: Result<Vec<String>, HeaderError>)
    ensures
        match r {
            Ok(v) => arg_names(inputs@) == Some(views(v@)),
            Err(HeaderError::InvalidFnArg(t)) => arg_names(inputs@).is_none()
                && t@ == first_invalid_arg(inputs@),
        },
{
    let mut names: Vec<String> = Vec::new();
    let mut i: usize = 0;
    while i < inputs.len()
        invariant
            i <= inputs.len(),
            names@.len() == i,
            arg_names(inputs@.subrange(0, i as int)) == Some(views(names@)),
        decreases inputs.len() - i,
    {
        proof { lemma_subrange_step(inputs@, i as int); }
        let ghost before = names@;
        match &inputs[i] {
            FnArg::Receiver => names.push(String::from_str("self")),
            FnArg::Named(n) => names.push(n.clone()),
            FnArg::Pattern(t) => {
                proof { lemma_invalid_prefix(inputs@, i as int); }
                return Err(HeaderError::InvalidFnArg(t.clone()));
            },
        }
        assert(views(names@) =~= views(before).push(names@[i as int]@));
        i = i + 1;
    }
    assert(inputs@.subrange(0, inputs.len() as int) =~= inputs@);
    Ok(names)
}

/// Appends `pre + name + post` for every name, in order.
fn write_per_name(out: &mut String, names: &Vec<String>, pre: &str, post: &str)
    ensures
        final(out)@ == old(out)@ + per_name(views(names@), pre@, post@),
{
    let ghost s0 = out@;
    let mut i: usize = 0;
    while i < names.len()
        invariant
            i <= names.len(),
            out@ == s0 + per_name(views(names@).subrange(0, i as int), pre@, post@),
        decreases names.len() - i,
    {
        proof { lemma_views_step(names@, i as int); }
        out.append(pre);
        out.append(names[i].as_str());
        out.append(post);
        assert(out@ =~= s0 + per_name(views(names@).subrange(0, i + 1), pre@, post@));
        i = i + 1;
    }
    assert(views(names@).subrange(0, names.len() as int) =~= views(names@));
}

/// Appends the expression that copies every argument into one tuple.
pub fn write_extract_args(out: &mut String, names: &Vec<String>)
    ensures
        final(out)@ == old(out)@ + extract_text(views(names@)),
{
    let ghost s0 = out@;
    if names.len() == 0 {
        out.append("()");
        return;
    }
    let mut pre = String::from_str(STD_ALIAS);
    pre.append("::mem::transmute_copy(&");
    out.append("(");
    write_per_name(out, names, pre.as_str(), "), ");
    out.append(")");
    assert(out@ =~= s0 + extract_text(views(names@)));
}

/// Appends the block that moves every element of the continued tuple back
/// into its argument binding and then forgets the tuple.
pub fn write_restore_args(out: &mut String, names: &Vec<String>)
    ensures
        final(out)@ == old(out)@ + restore_text(views(names@)),
{
    let ghost s0 = out@;
    if names.len() == 0 {
        out.append("()\n");
        return;
    }
    out.append("{\n");
    let ghost s1 = out@;
    let mut i: usize = 0;
    while i < names.len()
        invariant
            i <= names.len(),
            out@ == s1 + swap_lines(views(names@).subrange(0, i as int)),
        decreases names.len() - i,
    {
        proof { lemma_views_step(names@, i as int); }
        let index = decimal_text(i);
        out.append(STD_ALIAS);
        out.append("::mem::swap(&mut *(&");
        out.append(names[i].as_str());
        out.append(" as *const _ as *mut _), &mut ");
        out.append(ARGS_TO_CONTINUE);
        out.append(".");
        out.append(index.as_str());
        out.append(");\n");
        assert(out@ =~= s1 + swap_lines(views(names@).subrange(0, i + 1)));
        i = i + 1;
    }
    assert(views(names@).subrange(0, names.len() as int) =~= views(names@));
    out.append(STD_ALIAS);
    out.append("::mem::forget(");
    out.append(ARGS_TO_CONTINUE);
    out.append(");\n");
    out.append("}\n");
    assert(out@ =~= s0 + restore_text(views(names@)));
}

/// Appends a statement that forgets each argument binding.
pub fn write_forget_args(out: &mut String, names: &Vec<String>)
    ensures
        final(out)@ == old(out)@ + forget_text(views(names@)),
{
    let mut pre = String::from_str(STD_ALIAS);
    pre.append("::mem::forget(");
    write_per_name(out, names, pre.as_str(), ");\n");
}

impl FnHeaderBuilder {
    /// The interception block to place first in the body of the function
    /// with signature `sig`, declared in the context `self`; fails when a
    /// parameter is bound by a pattern.
    pub fn build(&self, sig: &FnSignature) -> (r: Result<String, HeaderError>)
        ensures
            match r {
                Ok(text) => build_result(*self, sig.ident@, sig.generics@, sig.inputs@)
                    == Ok::<Seq<char>, Seq<char>>(text@),
                Err(HeaderError::InvalidFnArg(t)) => build_result(
                    *self,
                    sig.ident@,
                    sig.generics@,
                    sig.inputs@,
                ) == Err::<Seq<char>, Seq<char>>(t@),
            },
    {
        let names = match fn_arg_names(&sig.inputs) {
            Ok(names) => names,
            Err(e) => return Err(e),
        };
        let mut full_name = String::new();
        write_full_fn_name(&mut full_name, self, sig);
        let mut out = String::from_str("unsafe {\n");
        out.append("use ::mocktopus as ");
        out.append(CRATE_ALIAS);
        out.append(";\n");
        out.append("use ::std as ");
        out.append(STD_ALIAS);
        out.append(";\n");
        out.append("#[allow(clippy::forget_copy, clippy::forget_ref, clippy::forget_non_drop)]\n");
        out.append("match ");
        out.append(STD_ALIAS);
        out.append("::panic::catch_unwind(");
        out.append(STD_ALIAS);
        out.append("::panic::AssertUnwindSafe(|| ");
        out.append(CRATE_ALIAS);
        out.append("::mocking::Mockable::call_mock(&");
        out.append(full_name.as_str());
        out.append(", ");
        write_extract_args(&mut out, &names);
        out.append("))) {\n");
        out.append("Ok(");
        out.append(CRATE_ALIAS);
        out.append("::mocking::MockResult::Continue(mut ");
        out.append(ARGS_TO_CONTINUE);
        out.append(")) => ");
        write_restore_args(&mut out, &names);
        out.append(",\n");
        out.append("Ok(");
        out.append(CRATE_ALIAS);
        out.append("::mocking::MockResult::Return(");
        out.append(ARGS_TO_RETURN);
        out.append(")) => {\n");
        write_forget_args(&mut out, &names);
        out.append("let returned = ");
        out.append(STD_ALIAS);
        out.append("::mem::transmute_copy(&");
        out.append(ARGS_TO_RETURN);
        out.append(");\n");
        out.append(STD_ALIAS);
        out.append("::mem::forget(");
        out.append(ARGS_TO_RETURN);
        out.append(");\n");
        out.append("return returned;\n");
        out.append("},\n");
        out.append("Err(");
        out.append(UNWIND_DATA);
        out.append(") => {\n");
        write_forget_args(&mut out, &names);
        out.append(STD_ALIAS);
        out.append("::panic::resume_unwind(");
        out.append(UNWIND_DATA);
        out.append(");\n");
        out.append("},\n");
        out.append("}\n");
        out.append("}");
        Ok(out)
    }
}

} // verus!
