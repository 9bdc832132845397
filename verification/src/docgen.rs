//! Generated documentation fragments.
//!
//! A processed definition module gets documentation appended to its own:
//! either a note that it declares no interface functions, or a count line
//! followed by one cross-reference line per declared function. A generated
//! forwarding function gets a fixed note that its body is supplied
//! elsewhere. Each fragment is one documentation line.

use vstd::prelude::*;

use crate::names::{dec_string, spec_dec};
use vstd::string::StringExecFns;

verus! {

/// The cross-reference line for one interface function.
pub open spec fn spec_fn_doc_line(m: Seq<char>, f: Seq<char>) -> Seq<char> {
    "- [`"@ + f + "`]("@ + m + "::"@ + f + ")"@
}

/// The count line heading the list of interface functions.
pub open spec fn spec_count_hint(n: nat) -> Seq<char> {
    "This module contains "@ + spec_dec(n) + " API function"@ + (if n == 1 {
        Seq::<char>::empty()
    } else {
        "s"@
    }) + " to be implemented:"@
}

/// The documentation lines appended to a processed definition module: a
/// fixed note when it declares nothing, else the count line and one
/// cross-reference line per declared function, in declaration order.
pub open spec fn spec_mod_extra_docs(m: Seq<char>, fns: Seq<Seq<char>>) -> Seq<Seq<char>> {
    if fns.len() == 0 {
        seq![""@, "This module does not contain any API functions to be implemented."@]
    } else {
        seq![""@, spec_count_hint(fns.len() as nat)] + fns.map_values(
            |f: Seq<char>| spec_fn_doc_line(m, f),
        )
    }
}

/// The documentation lines appended to each generated forwarding function.
pub open spec fn spec_fn_extra_docs() -> Seq<Seq<char>> {
    seq![""@, "This function is an API function and **should be implemented somewhere**."@]
}

/// Build the cross-reference line for one interface function.
fn fn_doc_line(mod_name: &str, fn_name: &str) -> (r: String)
    ensures
        r@ == spec_fn_doc_line(mod_name@, fn_name@),
{
    let mut r = "- [`".to_owned();
    r.append(fn_name);
    r.append("`](");
    r.append(mod_name);
    r.append("::");
    r.append(fn_name);
    r.append(")");
    proof {
        assert(r@ =~= spec_fn_doc_line(mod_name@, fn_name@));
    }
    r
}

/// Get the extra documentation lines for a processed definition module.
pub fn get_api_mod_def_extra_doc_comments(mod_name: &str, fn_names: &Vec<String>) -> (r: Vec<
    String,
>)
    ensures
        r.deep_view() == spec_mod_extra_docs(mod_name@, fn_names.deep_view()),
{
    let ghost fv = fn_names.deep_view();
    let mut r: Vec<String> = Vec::new();
    if fn_names.len() == 0 {
        r.push("".to_owned());
        r.push("This module does not contain any API functions to be implemented.".to_owned());
        proof {
            assert(r.deep_view() =~~= spec_mod_extra_docs(mod_name@, fv));
        }
        return r;
    }
    r.push("".to_owned());
    let mut hint = "This module contains ".to_owned();
    let count = dec_string(fn_names.len());
    hint.append(count.as_str());
    hint.append(" API function");
    if fn_names.len() != 1 {
        hint.append("s");
    }
    hint.append(" to be implemented:");
    proof {
        assert(hint@ =~= spec_count_hint(fv.len() as nat));
    }
    r.push(hint);
    let mut k: usize = 0;
    while k < fn_names.len()
        invariant
            k <= fn_names@.len(),
            fv == fn_names.deep_view(),
            fv.len() == fn_names@.len(),
            r.deep_view().len() == 2 + k,
            r.deep_view()[0] == ""@,
            r.deep_view()[1] == spec_count_hint(fv.len() as nat),
            forall|j: int|
                0 <= j < k ==> r.deep_view()[2 + j] == spec_fn_doc_line(mod_name@, fv[j]),
        decreases fn_names@.len() - k,
    {
        let line = fn_doc_line(mod_name, fn_names[k].as_str());
        r.push(line);
        k += 1;
    }
    proof {
        assert(r.deep_view() =~~= spec_mod_extra_docs(mod_name@, fv));
    }
    r
}

/// Get the extra documentation lines for a generated forwarding function.
pub fn get_api_fn_def_extra_doc_comments() -> (r: Vec<String>)
    ensures
        r.deep_view() == spec_fn_extra_docs(),
{
    let mut r: Vec<String> = Vec::new();
    r.push("".to_owned());
    r.push("This function is an API function and **should be implemented somewhere**.".to_owned());
    proof {
        assert(r.deep_view() =~~= spec_fn_extra_docs());
    }
    r
}

} // verus!
