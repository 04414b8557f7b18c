//! The format generator: derives, from a user-written predicate function,
//! the source text of a conforming format type.
//!
//! The generator reads only the function's signature shape and source
//! tokens.  A well-formed format function declares `bool` as its return
//! type, takes exactly one parameter, bound by a plain identifier or the
//! ignore pattern, and has no generic parameters.  Every violation is
//! collected, so a malformed definition reports all its problems at once; a
//! valid definition expands to a zero-sized type implementing
//! [`crate::custom_format::CustomFormat`], whose predicate body is the
//! original function's body and whose name is the original identifier, plus
//! a constant bound to that identifier and a textual description rendering
//! `"format: <name>"`.

use vstd::prelude::*;
use vstd::string::StringExecFns;

verus! {

/// How a parameter of a format function is bound.
pub enum ParamPattern {
    /// A plain identifier, e.g. `input: &str`.
    Named,
    /// The ignore pattern, `_: &str`.
    Ignored,
    /// Any other pattern, e.g. a destructuring.
    Other,
    /// A `self` receiver.
    Receiver,
}

/// One parameter of a format function: how it binds, and its source tokens.
pub struct Param {
    pub pattern: ParamPattern,
    /// The parameter's tokens, e.g. `input : & str`.
    pub tokens: String,
}

/// The declared return type of a format function, or the default `()`.
pub enum ReturnSpec {
    Default,
    /// The tokens of the declared type.
    Declared(String),
}

/// What the generator reads of a user-written format function.
pub struct FormatFn {
    /// The tokens of the visibility, e.g. `pub`; empty for a private item.
    pub vis: String,
    /// The function's identifier, which becomes the format's name.
    pub name: String,
    pub params: Vec<Param>,
    pub ret: ReturnSpec,
    /// Whether the function declares generic parameters.
    pub has_generics: bool,
    /// The tokens of the function's body, braces included.
    pub body: String,
}

/// The function declares `bool` as its return type.
pub open spec fn return_type_ok(f: FormatFn) -> bool {
    f.ret matches ReturnSpec::Declared(t) && t@ == "bool"@
}

/// The function takes exactly one parameter.
pub open spec fn arity_ok(f: FormatFn) -> bool {
    f.params@.len() == 1
}

/// The function's first parameter is bound by a plain identifier or the
/// ignore pattern.
pub open spec fn first_param_ok(f: FormatFn) -> bool {
    f.params@.len() >= 1 && (f.params@[0].pattern is Named || f.params@[0].pattern is Ignored)
}

/// The function declares no generic parameters.
pub open spec fn generics_ok(f: FormatFn) -> bool {
    !f.has_generics
}

/// The signature has the required shape; generation succeeds exactly then.
pub open spec fn signature_ok(f: FormatFn) -> bool {
    return_type_ok(f) && arity_ok(f) && first_param_ok(f) && generics_ok(f)
}

/// The diagnostics a format function earns, in reporting order: return
/// type, then arity, then parameter pattern, then generic parameters.
pub open spec fn expected_diagnostics(f: FormatFn) -> Seq<Seq<char>> {
    (if return_type_ok(f) {
        Seq::<Seq<char>>::empty()
    } else {
        seq!["Must return bool"@]
    }) + (if arity_ok(f) {
        Seq::<Seq<char>>::empty()
    } else {
        seq!["Must accept only a &str agrument"@]
    }) + (if first_param_ok(f) {
        Seq::<Seq<char>>::empty()
    } else {
        seq!["Must accept only a &str argument"@]
    }) + (if generics_ok(f) {
        Seq::<Seq<char>>::empty()
    } else {
        seq!["Must not have generic parameters"@]
    })
}

/// The message strings in `msgs` are exactly the expected ones, in order.
pub open spec fn msgs_match(msgs: Seq<String>, expected: Seq<Seq<char>>) -> bool {
    &&& msgs.len() == expected.len()
    &&& forall|i: int| 0 <= i < msgs.len() ==> (#[trigger] msgs[i])@ == expected[i]
}

/// Collects every signature violation of `f`, in reporting order.
pub fn signature_errors(f: &FormatFn) -> (msgs: Vec<String>)
    ensures
        msgs_match(msgs@, expected_diagnostics(*f)),
        msgs@.len() == 0 <==> signature_ok(*f),
{
    let mut msgs: Vec<String> = Vec::new();
    let ret_ok: bool = match &f.ret {
        ReturnSpec::Declared(t) => *t == "bool".to_owned(),
        ReturnSpec::Default => false,
    };
    if !ret_ok {
        msgs.push("Must return bool".to_owned());
    }
    if f.params.len() != 1 {
        msgs.push("Must accept only a &str agrument".to_owned());
    }
    let param_ok: bool = if f.params.len() >= 1 {
        match f.params[0].pattern {
            ParamPattern::Named => true,
            ParamPattern::Ignored => true,
            _ => false,
        }
    } else {
        false
    };
    if !param_ok {
        msgs.push("Must accept only a &str argument".to_owned());
    }
    if f.has_generics {
        msgs.push("Must not have generic parameters".to_owned());
    }
    msgs
}

/// A function with two parameters fails generation — by [`expand`]'s
/// contract no output text is produced — and the collected violations name
/// the arity problem.
pub proof fn lemma_two_parameters_fail(f: FormatFn)
    requires
        f.params@.len() == 2,
    ensures
        !signature_ok(f),
        expected_diagnostics(f).contains("Must accept only a &str agrument"@),
{
    let pre = if return_type_ok(f) {
        Seq::<Seq<char>>::empty()
    } else {
        seq!["Must return bool"@]
    };
    assert(expected_diagnostics(f)[pre.len() as int] == "Must accept only a &str agrument"@);
}

/// A function returning a type other than `bool` (or declaring no return
/// type) fails generation — no output text is produced — and the collected
/// violations name the return-type problem.
pub proof fn lemma_wrong_return_type_fails(f: FormatFn)
    requires
        f.ret matches ReturnSpec::Declared(t) ==> t@ != "bool"@,
    ensures
        !signature_ok(f),
        expected_diagnostics(f).contains("Must return bool"@),
{
    assert(expected_diagnostics(f)[0] == "Must return bool"@);
}

/// A function violating both constraints at once fails generation with one
/// diagnostic list carrying both problems, not just the first found.
pub proof fn lemma_both_problems_reported(f: FormatFn)
    requires
        f.params@.len() == 2,
        f.ret matches ReturnSpec::Declared(t) ==> t@ != "bool"@,
    ensures
        !signature_ok(f),
        expected_diagnostics(f).contains("Must return bool"@),
        expected_diagnostics(f).contains("Must accept only a &str agrument"@),
{
    assert(expected_diagnostics(f)[0] == "Must return bool"@);
    assert(expected_diagnostics(f)[1] == "Must accept only a &str agrument"@);
}

/// A function declaring generic parameters fails generation — no output
/// text is produced — and the collected violations say so.
pub proof fn lemma_generic_parameters_fail(f: FormatFn)
    requires
        f.has_generics,
    ensures
        !signature_ok(f),
        expected_diagnostics(f).contains("Must not have generic parameters"@),
{
    let last = expected_diagnostics(f).len() - 1;
    assert(expected_diagnostics(f)[last] == "Must not have generic parameters"@);
}

/// The name of the generated type: the function's identifier with a fixed
/// suffix appended.
pub open spec fn type_name_chars(name: Seq<char>) -> Seq<char> {
    name + "_t"@
}

/// The visibility tokens as they stand before an item: followed by a space,
/// or nothing for a private item.
pub open spec fn vis_prefix(vis: Seq<char>) -> Seq<char> {
    if vis.len() == 0 {
        vis
    } else {
        vis + " "@
    }
}

/// The source text generated for a well-formed format function: a
/// zero-sized type named after the function, an implementation of the
/// format capability whose name is the function's identifier and whose
/// predicate body is the function's body verbatim, a constant binding the
/// original identifier to an instance of the new type, and a textual
/// description rendering `"format: <name>"`.
pub open spec fn expansion_chars(f: FormatFn) -> Seq<char>
    recommends
        signature_ok(f),
{
    "#[allow(non_camel_case_types)]\n#[derive(Clone)]\n"@ + vis_prefix(f.vis@) + "struct "@
        + type_name_chars(f.name@) + ";\n\n"@
        + "impl ::jsonschema_custom_validation::CustomFormat for "@ + type_name_chars(f.name@)
        + " {\n    fn name(&self) -> &'static str {\n        \""@ + f.name@
        + "\"\n    }\n    fn is_valid(&self, "@ + f.params@[0].tokens@ + ") -> bool "@ + f.body@
        + "\n}\n\n#[allow(non_upper_case_globals)]\nconst "@ + f.name@ + ": "@ + type_name_chars(
        f.name@,
    ) + " = "@ + type_name_chars(f.name@) + " {};\n\n"@
        + "impl ToString for "@ + type_name_chars(f.name@)
        + " {\n    fn to_string(&self) -> String {\n        \"format: "@ + f.name@
        + "\".to_owned()\n    }\n}\n"@
}

/// Expands a format function, or fails with every signature violation
/// collected; it fails exactly on malformed signatures, and produces no
/// output text then.
pub fn expand(f: &FormatFn) -> (r: Result<String, Vec<String>>)
    ensures
        r is Ok <==> signature_ok(*f),
        r matches Ok(code) ==> code@ == expansion_chars(*f),
        r matches Err(msgs) ==> msgs_match(msgs@, expected_diagnostics(*f)) && msgs@.len() > 0,
{
    let msgs = signature_errors(f);
    if msgs.len() > 0 {
        return Err(msgs);
    }
    let mut tname = f.name.clone();
    tname.append("_t");
    let mut out = String::new();
    out.append("#[allow(non_camel_case_types)]\n#[derive(Clone)]\n");
    if !f.vis.as_str().is_empty() {
        out.append(f.vis.as_str());
        out.append(" ");
    }
    out.append("struct ");
    out.append(tname.as_str());
    out.append(";\n\n");
    out.append("impl ::jsonschema_custom_validation::CustomFormat for ");
    out.append(tname.as_str());
    out.append(" {\n    fn name(&self) -> &'static str {\n        \"");
    out.append(f.name.as_str());
    out.append("\"\n    }\n    fn is_valid(&self, ");
    out.append(f.params[0].tokens.as_str());
    out.append(") -> bool ");
    out.append(f.body.as_str());
    out.append("\n}\n\n#[allow(non_upper_case_globals)]\nconst ");
    out.append(f.name.as_str());
    out.append(": ");
    out.append(tname.as_str());
    out.append(" = ");
    out.append(tname.as_str());
    out.append(" {};\n\n");
    out.append("impl ToString for ");
    out.append(tname.as_str());
    out.append(" {\n    fn to_string(&self) -> String {\n        \"format: ");
    out.append(f.name.as_str());
    out.append("\".to_owned()\n    }\n}\n");
    proof {
        assert(out@ =~= expansion_chars(*f));
    }
    Ok(out)
}

} // verus!
