//! Tests of the parser, the name derivation, the two generators, and the
//! token emission.

use axvisor_api::ast::{ApiModItem, ImplPath};
use axvisor_api::entry::{api_mod, api_mod_impl};
use axvisor_api::emit::{def_output_tokens, impl_error_tokens, impl_output_tokens};
use axvisor_api::gen_def::{GenError, SupportPath, process_api_mod_def};
use axvisor_api::gen_impl::{ImplGenError, process_api_mod_impl};
use axvisor_api::names::{capitalize_first_letter, dec_string, get_api_trait_name,
    get_implementee_reuse_ident};
use axvisor_api::parse::{parse_api_mod, parse_api_mod_impl, parse_impl_path};
use axvisor_api::tokens::{Delim, Tok};

fn id(s: &str) -> Tok {
    Tok::Ident(s.to_string())
}

fn punct(c: char) -> Tok {
    Tok::Punct(c)
}

/// Tokens of a public module `memory` declaring two interface functions,
/// `alloc_frame() -> Option<PhysAddr>` and `dealloc_frame(addr: PhysAddr)`,
/// with the linkage marker as its own token kind.
fn memory_module_tokens() -> Vec<Tok> {
    vec![
        Tok::KwPub,
        Tok::KwMod,
        id("memory"),
        Tok::Open(Delim::Brace),
        Tok::KwLinkage,
        Tok::KwFn,
        id("alloc_frame"),
        Tok::Open(Delim::Paren),
        Tok::Close(Delim::Paren),
        Tok::Arrow,
        id("Option"),
        punct('<'),
        id("PhysAddr"),
        punct('>'),
        punct(';'),
        Tok::KwLinkage,
        Tok::KwFn,
        id("dealloc_frame"),
        Tok::Open(Delim::Paren),
        id("addr"),
        punct(':'),
        id("PhysAddr"),
        Tok::Close(Delim::Paren),
        punct(';'),
        Tok::Close(Delim::Brace),
    ]
}

#[test]
fn parse_memory_module() {
    let toks = memory_module_tokens();
    let m = parse_api_mod(&toks).unwrap();
    assert_eq!(m.name, "memory");
    assert_eq!(m.items.len(), 2);
    match &m.items[0] {
        ApiModItem::ApiFn(f) => {
            assert_eq!(f.sig.name, "alloc_frame");
            assert_eq!(f.sig.params, Vec::<Tok>::new());
            assert_eq!(
                f.sig.ret,
                vec![Tok::Arrow, id("Option"), punct('<'), id("PhysAddr"), punct('>')]
            );
        },
        ApiModItem::Regular(_) => panic!("expected an interface function"),
    }
    match &m.items[1] {
        ApiModItem::ApiFn(f) => {
            assert_eq!(f.sig.name, "dealloc_frame");
            assert_eq!(f.sig.params, vec![id("addr"), punct(':'), id("PhysAddr")]);
            assert_eq!(f.sig.ret, Vec::<Tok>::new());
        },
        ApiModItem::Regular(_) => panic!("expected an interface function"),
    }
}

#[test]
fn classify_regular_function() {
    // A plain function (no linkage marker) stays a regular item.
    let toks = vec![
        Tok::KwMod,
        id("m"),
        Tok::Open(Delim::Brace),
        Tok::KwFn,
        id("helper"),
        Tok::Open(Delim::Paren),
        Tok::Close(Delim::Paren),
        Tok::Open(Delim::Brace),
        Tok::Close(Delim::Brace),
        Tok::Close(Delim::Brace),
    ];
    let m = parse_api_mod(&toks).unwrap();
    assert_eq!(m.items.len(), 1);
    assert!(matches!(&m.items[0], ApiModItem::Regular(run) if run.len() == 6));
}

#[test]
fn parse_unclosed_module_fails() {
    let toks = vec![Tok::KwMod, id("m"), Tok::Open(Delim::Brace)];
    match parse_api_mod(&toks) {
        Ok(_) => panic!("expected a parse failure"),
        Err(e) => assert_eq!(e.pos, 3),
    }
}

#[test]
fn parse_trailing_tokens_fail() {
    let toks = vec![
        Tok::KwMod,
        id("m"),
        Tok::Open(Delim::Brace),
        Tok::Close(Delim::Brace),
        punct(';'),
    ];
    assert!(parse_api_mod(&toks).is_err());
}

// The interface-type name is a pure function of the module name: equal
// names give equal identifiers across independent derivations, and the
// implementation side reconstructs the definition side's identifier from
// the path's last segment alone.
#[test]
fn trait_name_deterministic() {
    assert_eq!(get_api_trait_name("memory"), "AxvisorMemoryApiTrait");
    assert_eq!(get_api_trait_name("memory"), get_api_trait_name("memory"));
    assert_eq!(get_api_trait_name("vmm"), "AxvisorVmmApiTrait");

    let toks = memory_module_tokens();
    let m = parse_api_mod(&toks).unwrap();
    let g = process_api_mod_def(&m, &SupportPath::Itself).unwrap();
    let td = g.trait_def.as_ref().unwrap();

    let path = ImplPath { absolute: false, segments: vec!["crate_apis".to_string(), "memory".to_string()] };
    let empty_impl_mod = vec![Tok::KwMod, id("memory_impl"), Tok::Open(Delim::Brace), Tok::Close(Delim::Brace)];
    let im = parse_api_mod_impl(&empty_impl_mod).unwrap();
    let gi = process_api_mod_impl(&path, &im, &SupportPath::Itself).unwrap();
    assert_eq!(gi.trait_name, td.name);
}

#[test]
fn capitalize_edge_cases() {
    assert_eq!(capitalize_first_letter(""), "");
    assert_eq!(capitalize_first_letter("memory"), "Memory");
    assert_eq!(capitalize_first_letter("Memory"), "Memory");
    assert_eq!(capitalize_first_letter("m"), "M");
}

#[test]
fn dec_string_values() {
    assert_eq!(dec_string(0), "0");
    assert_eq!(dec_string(7), "7");
    assert_eq!(dec_string(10), "10");
    assert_eq!(dec_string(12345), "12345");
}

// The reuse alias distinguishes absolute from relative paths with equal
// segment lists, and is stable.
#[test]
fn reuse_alias_distinguishes() {
    let rel = ImplPath { absolute: false, segments: vec!["a".to_string(), "b".to_string()] };
    let abs = ImplPath { absolute: true, segments: vec!["a".to_string(), "b".to_string()] };
    assert_eq!(get_implementee_reuse_ident(&rel), "__axvisor_api_implementee_rel_a_b");
    assert_eq!(get_implementee_reuse_ident(&abs), "__axvisor_api_implementee_abs_a_b");
    assert_ne!(get_implementee_reuse_ident(&rel), get_implementee_reuse_ident(&abs));
    assert_eq!(get_implementee_reuse_ident(&rel), get_implementee_reuse_ident(&rel));
}

// The generated interface type has exactly one abstract method per
// declaration, in declaration order, with the declared signatures; the
// forwarding functions carry signatures byte-identical to the declared
// ones.
#[test]
fn generated_trait_and_forwarders() {
    let toks = memory_module_tokens();
    let m = parse_api_mod(&toks).unwrap();
    let g = process_api_mod_def(&m, &SupportPath::Named("axvisor_api".to_string())).unwrap();

    assert_eq!(g.name, "memory");
    assert_eq!(g.regular_items.len(), 0);
    assert_eq!(g.forwarders.len(), 2);
    let td = g.trait_def.as_ref().unwrap();
    assert_eq!(td.name, "AxvisorMemoryApiTrait");
    assert_eq!(td.methods.len(), 2);
    for (k, name) in ["alloc_frame", "dealloc_frame"].iter().enumerate() {
        let decl = match &m.items[k] {
            ApiModItem::ApiFn(f) => f,
            ApiModItem::Regular(_) => panic!("expected an interface function"),
        };
        assert_eq!(&g.forwarders[k].sig.name, name);
        assert_eq!(g.forwarders[k].sig.name, decl.sig.name);
        assert_eq!(g.forwarders[k].sig.generics, decl.sig.generics);
        assert_eq!(g.forwarders[k].sig.params, decl.sig.params);
        assert_eq!(g.forwarders[k].sig.ret, decl.sig.ret);
        assert_eq!(td.methods[k].sig.name, decl.sig.name);
        assert_eq!(td.methods[k].sig.params, decl.sig.params);
        assert_eq!(td.methods[k].sig.ret, decl.sig.ret);
    }
    assert_eq!(g.forwarders[0].args, Vec::<Vec<Tok>>::new());
    assert_eq!(g.forwarders[1].args, vec![vec![id("addr")]]);
    assert_eq!(
        g.extra_docs,
        vec![
            "".to_string(),
            "This module contains 2 API functions to be implemented:".to_string(),
            "- [`alloc_frame`](memory::alloc_frame)".to_string(),
            "- [`dealloc_frame`](memory::dealloc_frame)".to_string(),
        ]
    );
}

// A declaration with a receiver parameter aborts generation for the
// module: never silently dropped, never a silent success.
#[test]
fn receiver_parameter_aborts() {
    for recv in [
        vec![Tok::KwSelfValue],
        vec![punct('&'), Tok::KwSelfValue],
        vec![punct('&'), Tok::Lifetime("a".to_string()), Tok::KwMut, Tok::KwSelfValue],
        vec![Tok::KwMut, Tok::KwSelfValue],
        vec![Tok::KwSelfValue, punct(':'), id("Box"), punct('<'), id("Self"), punct('>')],
    ] {
        let mut toks = vec![
            Tok::KwMod,
            id("m"),
            Tok::Open(Delim::Brace),
            Tok::KwLinkage,
            Tok::KwFn,
            id("bad"),
            Tok::Open(Delim::Paren),
        ];
        toks.extend(recv);
        toks.push(Tok::Close(Delim::Paren));
        toks.push(punct(';'));
        toks.push(Tok::Close(Delim::Brace));
        let m = parse_api_mod(&toks).unwrap();
        match process_api_mod_def(&m, &SupportPath::Itself) {
            Ok(_) => panic!("expected a receiver-parameter failure"),
            Err(e) => assert_eq!(e, GenError::ReceiverParam("bad".to_string())),
        }
    }
}

#[test]
fn ordinary_parameter_is_not_receiver() {
    let toks = vec![
        Tok::KwMod,
        id("m"),
        Tok::Open(Delim::Brace),
        Tok::KwLinkage,
        Tok::KwFn,
        id("ok"),
        Tok::Open(Delim::Paren),
        id("selfless"),
        punct(':'),
        id("u32"),
        Tok::Close(Delim::Paren),
        punct(';'),
        Tok::Close(Delim::Brace),
    ];
    let m = parse_api_mod(&toks).unwrap();
    assert!(process_api_mod_def(&m, &SupportPath::Itself).is_ok());
}

// A definition module with zero declarations generates byte-for-byte the
// same regular items, with only the fixed documentation note added.
#[test]
fn empty_module_passthrough() {
    let run = vec![id("const"), id("A"), punct(':'), id("u32"), punct('='),
        Tok::Literal("1".to_string()), punct(';')];
    let mut toks = vec![Tok::KwPub, Tok::KwMod, id("empty"), Tok::Open(Delim::Brace)];
    toks.extend(run.clone());
    toks.push(Tok::Close(Delim::Brace));
    let m = parse_api_mod(&toks).unwrap();
    let g = process_api_mod_def(&m, &SupportPath::Itself).unwrap();
    assert!(g.trait_def.is_none());
    assert_eq!(g.forwarders.len(), 0);
    assert_eq!(g.regular_items, vec![run.clone()]);
    assert_eq!(
        g.extra_docs,
        vec![
            "".to_string(),
            "This module does not contain any API functions to be implemented.".to_string(),
        ]
    );

    let out = def_output_tokens(&g);
    let mut expected: Vec<Tok> = vec![
        punct('#'),
        Tok::Open(Delim::Bracket),
        id("doc"),
        punct('='),
        Tok::LitStr("".to_string()),
        Tok::Close(Delim::Bracket),
        punct('#'),
        Tok::Open(Delim::Bracket),
        id("doc"),
        punct('='),
        Tok::LitStr(
            "This module does not contain any API functions to be implemented.".to_string(),
        ),
        Tok::Close(Delim::Bracket),
        Tok::KwPub,
        Tok::KwMod,
        id("empty"),
        Tok::Open(Delim::Brace),
    ];
    expected.extend(run);
    expected.push(Tok::Close(Delim::Brace));
    assert_eq!(out, expected);
}

// An implementation path with zero segments yields an embedded error
// marker, not a panic.
#[test]
fn empty_implementee_path() {
    let path = ImplPath { absolute: false, segments: Vec::new() };
    let impl_mod = vec![Tok::KwMod, id("m"), Tok::Open(Delim::Brace), Tok::Close(Delim::Brace)];
    let im = parse_api_mod_impl(&impl_mod).unwrap();
    match process_api_mod_impl(&path, &im, &SupportPath::Itself) {
        Ok(_) => panic!("expected an empty-path failure"),
        Err(e) => assert_eq!(e, ImplGenError::EmptyPath),
    }

    let marker = impl_error_tokens();
    assert_eq!(
        marker,
        vec![
            id("compile_error"),
            punct('!'),
            Tok::Open(Delim::Paren),
            Tok::LitStr("Invalid implementee path".to_string()),
            Tok::Close(Delim::Paren),
        ]
    );
}

#[test]
fn impl_path_parsing() {
    let p = parse_impl_path(&vec![id("a"), Tok::PathSep, id("b")]).unwrap();
    assert!(!p.absolute);
    assert_eq!(p.segments, vec!["a".to_string(), "b".to_string()]);

    let p = parse_impl_path(&vec![Tok::PathSep, id("a"), Tok::PathSep, id("b")]).unwrap();
    assert!(p.absolute);
    assert_eq!(p.segments, vec!["a".to_string(), "b".to_string()]);

    assert!(parse_impl_path(&Vec::new()).is_err());
    assert!(parse_impl_path(&vec![id("a"), Tok::PathSep]).is_err());
}

#[test]
fn impl_module_generation() {
    // A module implementing `alloc_frame() -> Option<PhysAddr>` with body `None`.
    let toks = vec![
        Tok::KwMod,
        id("memory_impl"),
        Tok::Open(Delim::Brace),
        Tok::KwLinkage,
        Tok::KwFn,
        id("alloc_frame"),
        Tok::Open(Delim::Paren),
        Tok::Close(Delim::Paren),
        Tok::Arrow,
        id("Option"),
        punct('<'),
        id("PhysAddr"),
        punct('>'),
        Tok::Open(Delim::Brace),
        id("None"),
        Tok::Close(Delim::Brace),
        Tok::Close(Delim::Brace),
    ];
    let im = parse_api_mod_impl(&toks).unwrap();
    assert_eq!(im.name, "memory_impl");
    let path = ImplPath { absolute: false, segments: vec!["memory".to_string()] };
    let g = process_api_mod_impl(&path, &im, &SupportPath::Named("axvisor_api".to_string()))
        .unwrap();
    assert_eq!(g.trait_name, "AxvisorMemoryApiTrait");
    assert_eq!(g.reuse_alias, "__axvisor_api_implementee_rel_memory");
    assert_eq!(g.methods.len(), 1);
    assert_eq!(g.methods[0].sig.name, "alloc_frame");
    assert_eq!(g.methods[0].body, vec![id("None")]);
    let out = impl_output_tokens(&g);
    // The output re-imports the target under the reuse alias before the
    // module itself.
    assert_eq!(out[7], id("use"));
    assert_eq!(out[8], id("memory"));
    assert_eq!(out[9], id("as"));
    assert_eq!(out[10], id("__axvisor_api_implementee_rel_memory"));
}

#[test]
fn api_mod_rejects_arguments() {
    let toks = vec![Tok::KwMod, id("m"), Tok::Open(Delim::Brace), Tok::Close(Delim::Brace)];
    let out = api_mod(&vec![id("arg")], &toks, &SupportPath::Itself);
    assert_eq!(
        out,
        vec![
            id("compile_error"),
            punct('!'),
            Tok::Open(Delim::Paren),
            Tok::LitStr("`api_mod` attribute does not accept any arguments".to_string()),
            Tok::Close(Delim::Paren),
        ]
    );
}

#[test]
fn api_mod_reports_syntax_errors() {
    let toks = vec![Tok::KwMod, id("m"), Tok::Open(Delim::Brace)];
    let out = api_mod(&Vec::new(), &toks, &SupportPath::Itself);
    assert_eq!(
        out,
        vec![
            id("compile_error"),
            punct('!'),
            Tok::Open(Delim::Paren),
            Tok::LitStr("invalid interface module: syntax error at token 3".to_string()),
            Tok::Close(Delim::Paren),
        ]
    );
}

#[test]
fn api_mod_end_to_end() {
    let toks = memory_module_tokens();
    let out = api_mod(&Vec::new(), &toks, &SupportPath::Named("axvisor_api".to_string()));
    // The output is one module carrying the generated pieces: it opens as
    // the input did and mentions the derived interface type.
    assert!(out.iter().any(|t| *t == id("AxvisorMemoryApiTrait")));
    assert!(out.iter().any(|t| *t == id("call_interface")));
    assert!(out.iter().any(|t| *t == id("def_interface")));
    assert!(out.iter().any(|t| *t == id("axvisor_api")));
    assert_eq!(out.iter().filter(|t| **t == id("alloc_frame")).count(), 3);
}

#[test]
fn api_mod_impl_end_to_end() {
    let attr = vec![id("memory")];
    let toks = vec![
        Tok::KwMod,
        id("memory_impl"),
        Tok::Open(Delim::Brace),
        Tok::KwLinkage,
        Tok::KwFn,
        id("alloc_frame"),
        Tok::Open(Delim::Paren),
        Tok::Close(Delim::Paren),
        Tok::Open(Delim::Brace),
        id("None"),
        Tok::Close(Delim::Brace),
        Tok::Close(Delim::Brace),
    ];
    let out = api_mod_impl(&attr, &toks, &SupportPath::Itself);
    assert!(out.iter().any(|t| *t == id("AxvisorMemoryApiTrait")));
    assert!(out.iter().any(|t| *t == id("impl_interface")));
    assert!(out.iter().any(|t| *t == id("__Impl")));
}

#[test]
fn attributes_carried_to_generated_items() {
    // #[inline] on the declaration must reappear on the forwarder and the
    // abstract method.
    let toks = vec![
        Tok::KwMod,
        id("m"),
        Tok::Open(Delim::Brace),
        punct('#'),
        Tok::Open(Delim::Bracket),
        id("inline"),
        Tok::Close(Delim::Bracket),
        Tok::KwLinkage,
        Tok::KwFn,
        id("f"),
        Tok::Open(Delim::Paren),
        Tok::Close(Delim::Paren),
        punct(';'),
        Tok::Close(Delim::Brace),
    ];
    let m = parse_api_mod(&toks).unwrap();
    let g = process_api_mod_def(&m, &SupportPath::Itself).unwrap();
    assert_eq!(g.forwarders[0].attrs.len(), 1);
    assert_eq!(g.forwarders[0].attrs[0].content, vec![id("inline")]);
    let td = g.trait_def.as_ref().unwrap();
    assert_eq!(td.methods[0].attrs[0].content, vec![id("inline")]);
}

#[test]
fn parse_generic_signature() {
    // A declaration with generics, a trait bound carrying parentheses, and
    // a where clause after the return type.
    let toks = vec![
        Tok::KwMod,
        id("m"),
        Tok::Open(Delim::Brace),
        Tok::KwLinkage,
        Tok::KwFn,
        id("convert"),
        punct('<'),
        id("T"),
        punct(':'),
        id("Into"),
        punct('<'),
        id("u32"),
        punct('>'),
        punct('>'),
        Tok::Open(Delim::Paren),
        id("value"),
        punct(':'),
        id("T"),
        Tok::Close(Delim::Paren),
        Tok::Arrow,
        id("u32"),
        id("where"),
        id("T"),
        punct(':'),
        id("Copy"),
        punct(';'),
        Tok::Close(Delim::Brace),
    ];
    let m = parse_api_mod(&toks).unwrap();
    let f = match &m.items[0] {
        ApiModItem::ApiFn(f) => f,
        ApiModItem::Regular(_) => panic!("expected an interface function"),
    };
    assert_eq!(f.sig.name, "convert");
    assert_eq!(
        f.sig.generics,
        vec![
            punct('<'),
            id("T"),
            punct(':'),
            id("Into"),
            punct('<'),
            id("u32"),
            punct('>'),
            punct('>'),
        ]
    );
    assert_eq!(f.sig.params, vec![id("value"), punct(':'), id("T")]);
    assert_eq!(
        f.sig.ret,
        vec![Tok::Arrow, id("u32"), id("where"), id("T"), punct(':'), id("Copy")]
    );
    let g = process_api_mod_def(&m, &SupportPath::Itself).unwrap();
    assert_eq!(g.forwarders[0].args, vec![vec![id("value")]]);
}

#[test]
fn parse_mixed_items_keep_order() {
    // Regular items around and between declarations stay regular items, in
    // their original order.
    let toks = vec![
        Tok::KwMod,
        id("m"),
        Tok::Open(Delim::Brace),
        id("use"),
        id("other"),
        Tok::PathSep,
        id("Thing"),
        punct(';'),
        Tok::KwLinkage,
        Tok::KwFn,
        id("f"),
        Tok::Open(Delim::Paren),
        Tok::Close(Delim::Paren),
        punct(';'),
        id("impl"),
        id("Thing"),
        Tok::Open(Delim::Brace),
        Tok::KwFn,
        id("m"),
        Tok::Open(Delim::Paren),
        punct('&'),
        Tok::KwSelfValue,
        Tok::Close(Delim::Paren),
        Tok::Open(Delim::Brace),
        Tok::Close(Delim::Brace),
        Tok::Close(Delim::Brace),
        Tok::Close(Delim::Brace),
    ];
    let m = parse_api_mod(&toks).unwrap();
    assert_eq!(m.items.len(), 3);
    assert!(matches!(&m.items[0], ApiModItem::Regular(run) if run.len() == 5));
    assert!(matches!(&m.items[1], ApiModItem::ApiFn(f) if f.sig.name == "f"));
    assert!(matches!(&m.items[2], ApiModItem::Regular(run) if run.len() == 12));
    // A receiver inside a regular item is no authoring error.
    assert!(process_api_mod_def(&m, &SupportPath::Itself).is_ok());
}

#[test]
fn joint_pound_begins_attribute() {
    let toks = vec![
        Tok::KwMod,
        id("m"),
        Tok::Open(Delim::Brace),
        Tok::PunctJoint('#'),
        Tok::Open(Delim::Bracket),
        id("cold"),
        Tok::Close(Delim::Bracket),
        Tok::KwLinkage,
        Tok::KwFn,
        id("f"),
        Tok::Open(Delim::Paren),
        Tok::Close(Delim::Paren),
        punct(';'),
        Tok::Close(Delim::Brace),
    ];
    let m = parse_api_mod(&toks).unwrap();
    assert!(matches!(&m.items[0], ApiModItem::ApiFn(f) if f.attrs.len() == 1));
}

#[test]
fn missing_support_library_marker() {
    let toks = memory_module_tokens();
    let out = api_mod(&Vec::new(), &toks, &SupportPath::Missing);
    assert!(out.iter().any(|t| *t == id("compile_error")));
    assert!(out.iter().any(
        |t| *t == Tok::LitStr("`axvisor_api` crate not found".to_string())
    ));
}

