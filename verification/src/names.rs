//! Deterministic name derivation.
//!
//! Two identifiers are derived here. The interface-type name is a pure
//! function of a module's name, so the definition side and the
//! implementation side reconstruct the same identifier without shared
//! state. The reuse alias is a pure function of an import path; its
//! reserved prefix keeps it from colliding with user identifiers, and the
//! prefix distinguishes absolute from relative paths so that the two spell
//! different aliases even when their segment lists coincide.

use vstd::prelude::*;

use crate::ast::ImplPath;
use vstd::string::{StrSliceExecFns, StringExecFns};

verus! {

/// The Unicode uppercase mapping of one character, as the standard library
/// computes it: one or more characters, a function of the character alone.
pub uninterp spec fn upper_chars_of(c: char) -> Seq<char>;

/// Relies on char::to_uppercase: yields the uppercase mapping of the
/// character as one or more characters, depending on nothing but the
/// character itself.
#[verifier::external_body]
fn char_upper(c: char) -> (r: String)
    ensures
        r@ == upper_chars_of(c),
        r@.len() >= 1,
{
    c.to_uppercase().collect::<String>()
}

/// A string with its first character uppercased; empty stays empty.
pub open spec fn spec_capitalized(s: Seq<char>) -> Seq<char> {
    if s.len() == 0 {
        s
    } else {
        upper_chars_of(s[0]) + s.skip(1)
    }
}

/// Capitalize the first letter of a string.
pub fn capitalize_first_letter(s: &str) -> (r: String)
    ensures
        r@ == spec_capitalized(s@),
{
    let n = s.unicode_len();
    if n == 0 {
        let r = String::new();
        proof {
            assert(r@ =~= s@);
        }
        r
    } else {
        let first = s.get_char(0);
        let mut r = char_upper(first);
        let rest = s.substring_char(1, n);
        r.append(rest);
        proof {
            assert(s@.subrange(1, s@.len() as int) =~= s@.skip(1));
        }
        r
    }
}

/// The derived interface-type identifier for a module name: a fixed prefix,
/// the capitalized module name, and a fixed suffix. The same textual
/// convention is applied on the definition side (from the parsed module's
/// name) and on the implementation side (from the target path's last
/// segment), which is what lets the two agree without shared state.
pub open spec fn spec_api_trait_name(name: Seq<char>) -> Seq<char> {
    "Axvisor"@ + spec_capitalized(name) + "ApiTrait"@
}

/// Get the name of the interface type for an interface module.
pub fn get_api_trait_name(module_name: &str) -> (r: String)
    ensures
        r@ == spec_api_trait_name(module_name@),
{
    let mut r = "Axvisor".to_owned();
    let cap = capitalize_first_letter(module_name);
    r.append(cap.as_str());
    r.append("ApiTrait");
    proof {
        assert(r@ =~= spec_api_trait_name(module_name@));
    }
    r
}

/// The tail of a reuse alias: each path segment, preceded by an underscore.
pub open spec fn spec_reuse_suffix(segs: Seq<Seq<char>>, i: int) -> Seq<char>
    decreases segs.len() - i,
{
    if i < 0 || i >= segs.len() {
        Seq::empty()
    } else {
        "_"@ + segs[i] + spec_reuse_suffix(segs, i + 1)
    }
}

/// The collision-free local alias under which an implementation module
/// re-imports its target: a reserved marker prefix chosen by whether the
/// path is absolute, then every segment joined by underscores.
pub open spec fn spec_reuse_alias(absolute: bool, segs: Seq<Seq<char>>) -> Seq<char> {
    (if absolute {
        "__axvisor_api_implementee_abs"@
    } else {
        "__axvisor_api_implementee_rel"@
    }) + spec_reuse_suffix(segs, 0)
}

/// Derive the alias under which the implementing module re-imports the
/// module it implements, so that the generated registration block can name
/// the target's interface type without clashing with user imports.
pub fn get_implementee_reuse_ident(implementee: &ImplPath) -> (r: String)
    ensures
        r@ == spec_reuse_alias(implementee.absolute, implementee.segments.deep_view()),
{
    let ghost segs = implementee.segments.deep_view();
    let mut r = if implementee.absolute {
        "__axvisor_api_implementee_abs".to_owned()
    } else {
        "__axvisor_api_implementee_rel".to_owned()
    };
    let mut i: usize = 0;
    while i < implementee.segments.len()
        invariant
            i <= implementee.segments.len(),
            segs == implementee.segments.deep_view(),
            segs.len() == implementee.segments@.len(),
            r@ + spec_reuse_suffix(segs, i as int) == spec_reuse_alias(
                implementee.absolute,
                segs,
            ),
        decreases implementee.segments.len() - i,
    {
        let ghost r0 = r@;
        r.append("_");
        r.append(implementee.segments[i].as_str());
        proof {
            assert(implementee.segments@[i as int]@ == segs[i as int]);
            assert(r@ =~= r0 + "_"@ + segs[i as int]);
            assert(r@ + spec_reuse_suffix(segs, i as int + 1) =~= r0 + spec_reuse_suffix(
                segs,
                i as int,
            ));
        }
        i += 1;
    }
    proof {
        assert(r@ + spec_reuse_suffix(segs, i as int) =~= r@);
    }
    r
}

/// Distinct alias for absolute and relative paths: however the segment
/// lists read, an absolute path and a relative one never share a reuse
/// alias, because the marker prefixes differ; and the alias is a pure
/// function of the path, so the same path always yields the same alias.
pub proof fn lemma_reuse_alias_distinguishes(segs: Seq<Seq<char>>)
    ensures
        spec_reuse_alias(true, segs) != spec_reuse_alias(false, segs),
{
    reveal_strlit("__axvisor_api_implementee_abs");
    reveal_strlit("__axvisor_api_implementee_rel");
    let pa = "__axvisor_api_implementee_abs"@;
    let pr = "__axvisor_api_implementee_rel"@;
    let s = spec_reuse_suffix(segs, 0);
    assert(pa.len() == 29);
    assert(pr.len() == 29);
    assert((pa + s)[26] == 'a');
    assert((pr + s)[26] == 'r');
}

/// One decimal digit as a character.
pub open spec fn spec_digit(d: nat) -> char {
    if d == 0 {
        '0'
    } else if d == 1 {
        '1'
    } else if d == 2 {
        '2'
    } else if d == 3 {
        '3'
    } else if d == 4 {
        '4'
    } else if d == 5 {
        '5'
    } else if d == 6 {
        '6'
    } else if d == 7 {
        '7'
    } else if d == 8 {
        '8'
    } else {
        '9'
    }
}

/// The decimal spelling of a number, most significant digit first.
pub open spec fn spec_dec(n: nat) -> Seq<char>
    decreases n,
{
    if n < 10 {
        seq![spec_digit(n)]
    } else {
        spec_dec(n / 10) + seq![spec_digit(n % 10)]
    }
}

fn digit_str(d: usize) -> (r: &'static str)
    requires
        d < 10,
    ensures
        r@ == seq![spec_digit(d as nat)],
{
    let r: &'static str = if d == 0 {
        "0"
    } else if d == 1 {
        "1"
    } else if d == 2 {
        "2"
    } else if d == 3 {
        "3"
    } else if d == 4 {
        "4"
    } else if d == 5 {
        "5"
    } else if d == 6 {
        "6"
    } else if d == 7 {
        "7"
    } else if d == 8 {
        "8"
    } else {
        "9"
    };
    proof {
        reveal_strlit("0");
        reveal_strlit("1");
        reveal_strlit("2");
        reveal_strlit("3");
        reveal_strlit("4");
        reveal_strlit("5");
        reveal_strlit("6");
        reveal_strlit("7");
        reveal_strlit("8");
        reveal_strlit("9");
        assert(r@ =~= seq![spec_digit(d as nat)]);
    }
    r
}

/// Render a number in decimal.
pub fn dec_string(n: usize) -> (r: String)
    ensures
        r@ == spec_dec(n as nat),
    decreases n,
{
    if n < 10 {
        digit_str(n).to_owned()
    } else {
        let mut r = dec_string(n / 10);
        r.append(digit_str(n % 10));
        proof {
            assert(r@ =~= spec_dec(n as nat));
        }
        r
    }
}

} // verus!
