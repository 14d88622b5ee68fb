use drop_linear_type::body::{
    enclosing_mir, BasicBlock, Body, BodyOwnerKind, LocalDecl, Place, Span, Terminator,
    TerminatorKind,
};
use drop_linear_type::marker::MarkerId;
use drop_linear_type::scan::{DestructionSite, Finding};
use drop_linear_type::types::{Shape, TypeEntry, TypeTable};

const MARKER: MarkerId = MarkerId { krate: 7, index: 42 };

const UNIT: usize = 0;
const PLAIN: usize = 1;
const GUARD: usize = 2;
const WRAPPER: usize = 3;

fn types() -> TypeTable {
    TypeTable {
        entries: vec![
            TypeEntry { implements: vec![], shape: Shape::Composite { variants: vec![vec![]] } },
            TypeEntry { implements: vec![], shape: Shape::Leaf },
            TypeEntry {
                implements: vec![MARKER],
                shape: Shape::Composite { variants: vec![vec![PLAIN]] },
            },
            TypeEntry { implements: vec![], shape: Shape::Composite { variants: vec![vec![GUARD]] } },
        ],
    }
}

fn span(lo: u32) -> Span {
    Span { lo, hi: lo + 1, ctxt: 0 }
}

fn block(kind: TerminatorKind, at: u32) -> BasicBlock {
    BasicBlock { is_cleanup: false, terminator: Some(Terminator { kind, span: span(at) }) }
}

fn cleanup(kind: TerminatorKind, at: u32) -> BasicBlock {
    BasicBlock { is_cleanup: true, terminator: Some(Terminator { kind, span: span(at) }) }
}

fn drop_local(local: usize) -> TerminatorKind {
    TerminatorKind::Drop { place: Place { local, projection: vec![] } }
}

fn drop_through(local: usize, projection: Vec<usize>) -> TerminatorKind {
    TerminatorKind::Drop { place: Place { local, projection } }
}

/// The return place, three variables and a temporary.
fn locals() -> Vec<LocalDecl> {
    vec![
        LocalDecl { ty: UNIT, span: span(10), named: false },
        LocalDecl { ty: GUARD, span: span(20), named: true },
        LocalDecl { ty: PLAIN, span: span(30), named: true },
        LocalDecl { ty: WRAPPER, span: span(40), named: true },
        LocalDecl { ty: GUARD, span: span(50), named: false },
    ]
}

#[test]
fn empty_body_has_no_findings() {
    let body = Body { basic_blocks: vec![], local_decls: vec![] };
    assert!(body.has_drops_declared());
    assert!(!body.drops_on_ordinary_path());
    assert_eq!(body.scan(&types(), Some(MARKER)), vec![]);
}

#[test]
fn body_without_drops_has_no_findings() {
    let body = Body {
        basic_blocks: vec![
            block(TerminatorKind::Call, 100),
            block(TerminatorKind::Branch, 110),
            block(TerminatorKind::Goto, 120),
            block(TerminatorKind::Return, 130),
            cleanup(TerminatorKind::UnwindResume, 140),
            block(TerminatorKind::Unreachable, 150),
            BasicBlock { is_cleanup: false, terminator: None },
        ],
        local_decls: locals(),
    };
    assert!(!body.drops_on_ordinary_path());
    assert_eq!(body.scan(&types(), Some(MARKER)), vec![]);
}

#[test]
fn drop_of_an_unmarked_type_is_not_a_finding() {
    let body = Body {
        basic_blocks: vec![block(drop_local(2), 100), block(TerminatorKind::Return, 110)],
        local_decls: locals(),
    };
    assert!(body.drops_on_ordinary_path());
    assert_eq!(body.scan(&types(), Some(MARKER)), vec![]);
}

#[test]
fn drop_of_a_marked_local_is_found_with_its_declaration() {
    let body = Body {
        basic_blocks: vec![
            block(TerminatorKind::Call, 100),
            block(drop_local(1), 110),
            block(TerminatorKind::Return, 120),
        ],
        local_decls: locals(),
    };
    assert_eq!(
        body.scan(&types(), Some(MARKER)),
        vec![Finding {
            block: 1,
            site: DestructionSite::Resolved { declaration: span(20), position: span(110) },
            ty: GUARD,
        }]
    );
}

#[test]
fn drop_in_a_cleanup_block_is_passed_over() {
    let body = Body {
        basic_blocks: vec![
            block(TerminatorKind::Call, 100),
            block(TerminatorKind::Return, 110),
            cleanup(drop_local(1), 120),
            cleanup(TerminatorKind::UnwindResume, 130),
        ],
        local_decls: locals(),
    };
    assert!(!body.drops_on_ordinary_path());
    assert_eq!(body.scan(&types(), Some(MARKER)), vec![]);
}

#[test]
fn findings_come_in_the_order_of_the_blocks() {
    let body = Body {
        basic_blocks: vec![
            block(drop_local(3), 100),
            cleanup(drop_local(1), 110),
            block(drop_local(2), 120),
            block(drop_local(1), 130),
            block(drop_through(2, vec![PLAIN, GUARD]), 140),
            block(TerminatorKind::Return, 150),
        ],
        local_decls: locals(),
    };
    assert_eq!(
        body.scan(&types(), Some(MARKER)),
        vec![
            Finding {
                block: 0,
                site: DestructionSite::Resolved { declaration: span(40), position: span(100) },
                ty: WRAPPER,
            },
            Finding {
                block: 3,
                site: DestructionSite::Resolved { declaration: span(20), position: span(130) },
                ty: GUARD,
            },
            Finding {
                block: 4,
                site: DestructionSite::Unresolved { position: span(140) },
                ty: GUARD,
            },
        ]
    );
}

#[test]
fn scanning_twice_gives_the_same_findings() {
    let body = Body {
        basic_blocks: vec![
            block(drop_local(3), 100),
            block(drop_through(1, vec![PLAIN]), 110),
            block(drop_local(1), 120),
            cleanup(drop_local(1), 130),
        ],
        local_decls: locals(),
    };
    let table = types();
    let first = body.scan(&table, Some(MARKER));
    let second = body.scan(&table, Some(MARKER));
    assert_eq!(first.len(), 2);
    assert_eq!(first, second);
}

#[test]
fn absent_marker_gives_no_findings() {
    let body = Body {
        basic_blocks: vec![block(drop_local(1), 100), block(drop_local(3), 110)],
        local_decls: locals(),
    };
    assert!(body.drops_on_ordinary_path());
    assert_eq!(body.scan(&types(), None), vec![]);
}

#[test]
fn another_marker_gives_no_findings() {
    let body = Body {
        basic_blocks: vec![block(drop_local(1), 100), block(drop_local(3), 110)],
        local_decls: locals(),
    };
    assert_eq!(body.scan(&types(), Some(MarkerId { krate: 7, index: 41 })), vec![]);
}

#[test]
fn scan_block_judges_one_block() {
    let body = Body {
        basic_blocks: vec![
            block(drop_local(1), 100),
            cleanup(drop_local(1), 110),
            block(TerminatorKind::Return, 120),
        ],
        local_decls: locals(),
    };
    let table = types();
    assert_eq!(
        body.scan_block(&table, Some(MARKER), 0),
        Some(Finding {
            block: 0,
            site: DestructionSite::Resolved { declaration: span(20), position: span(100) },
            ty: GUARD,
        })
    );
    assert_eq!(body.scan_block(&table, Some(MARKER), 1), None);
    assert_eq!(body.scan_block(&table, Some(MARKER), 2), None);
    assert_eq!(body.scan_block(&table, None, 0), None);
}

#[test]
fn type_of_a_place_is_that_of_its_last_step() {
    let body = Body { basic_blocks: vec![], local_decls: locals() };
    assert_eq!(body.place_type(&Place { local: 1, projection: vec![] }), GUARD);
    assert_eq!(body.place_type(&Place { local: 3, projection: vec![GUARD] }), GUARD);
    assert_eq!(body.place_type(&Place { local: 3, projection: vec![GUARD, PLAIN] }), PLAIN);
}

#[test]
fn only_a_named_variable_resolves_to_a_declaration() {
    let body = Body { basic_blocks: vec![], local_decls: locals() };
    assert_eq!(
        body.resolve_site(&Place { local: 3, projection: vec![] }, span(100)),
        DestructionSite::Resolved { declaration: span(40), position: span(100) }
    );
    assert_eq!(
        body.resolve_site(&Place { local: 3, projection: vec![GUARD] }, span(100)),
        DestructionSite::Unresolved { position: span(100) }
    );
    assert_eq!(
        body.resolve_site(&Place { local: 4, projection: vec![] }, span(100)),
        DestructionSite::Unresolved { position: span(100) }
    );
    assert_eq!(
        body.resolve_site(&Place { local: 0, projection: vec![] }, span(100)),
        DestructionSite::Unresolved { position: span(100) }
    );
    assert_eq!(
        body.resolve_site(&Place { local: 5, projection: vec![] }, span(100)),
        DestructionSite::Unresolved { position: span(100) }
    );
    assert_eq!(Place { local: 3, projection: vec![] }.as_local(), Some(3));
    assert_eq!(Place { local: 3, projection: vec![GUARD] }.as_local(), None);
}

#[test]
fn drop_of_a_marked_temporary_is_found_without_a_declaration() {
    let body = Body {
        basic_blocks: vec![
            block(TerminatorKind::Call, 100),
            block(drop_local(4), 110),
            block(TerminatorKind::Return, 120),
        ],
        local_decls: locals(),
    };
    assert!(body.has_drops_declared());
    assert_eq!(
        body.scan(&types(), Some(MARKER)),
        vec![Finding {
            block: 1,
            site: DestructionSite::Unresolved { position: span(110) },
            ty: GUARD,
        }]
    );
}

#[test]
fn spans_of_one_range_from_different_expansions_differ() {
    let written = Span { lo: 110, hi: 111, ctxt: 0 };
    let expanded = Span { lo: 110, hi: 111, ctxt: 3 };
    assert_ne!(written, expanded);
    let body = Body {
        basic_blocks: vec![BasicBlock {
            is_cleanup: false,
            terminator: Some(Terminator { kind: drop_local(1), span: expanded }),
        }],
        local_decls: locals(),
    };
    assert_eq!(
        body.scan(&types(), Some(MARKER)),
        vec![Finding {
            block: 0,
            site: DestructionSite::Resolved { declaration: span(20), position: expanded },
            ty: GUARD,
        }]
    );
}

#[test]
fn live_drop_of_an_undeclared_local_is_recognised() {
    let undeclared = Body {
        basic_blocks: vec![block(drop_local(5), 100)],
        local_decls: locals(),
    };
    assert!(!undeclared.has_drops_declared());
    let in_cleanup = Body {
        basic_blocks: vec![cleanup(drop_local(5), 100), block(drop_local(3), 110)],
        local_decls: locals(),
    };
    assert!(in_cleanup.has_drops_declared());
}

#[test]
fn functions_closures_and_constants_have_a_body_to_analyse() {
    let body = Body { basic_blocks: vec![block(TerminatorKind::Return, 100)], local_decls: locals() };
    assert!(enclosing_mir(BodyOwnerKind::Fn, &body).is_some());
    assert!(enclosing_mir(BodyOwnerKind::Closure, &body).is_some());
    assert!(enclosing_mir(BodyOwnerKind::Const, &body).is_some());
    assert!(enclosing_mir(BodyOwnerKind::Static, &body).is_none());
    assert!(enclosing_mir(BodyOwnerKind::GlobalAsm, &body).is_none());
    assert!(std::ptr::eq(enclosing_mir(BodyOwnerKind::Fn, &body).unwrap(), &body));
    assert!(std::ptr::eq(enclosing_mir(BodyOwnerKind::Const, &body).unwrap(), &body));
    assert!(BodyOwnerKind::Fn.is_analysed());
    assert!(BodyOwnerKind::Closure.is_analysed());
    assert!(BodyOwnerKind::Const.is_analysed());
    assert!(!BodyOwnerKind::Static.is_analysed());
    assert!(!BodyOwnerKind::GlobalAsm.is_analysed());
    assert!(BodyOwnerKind::Fn.is_fn_or_closure());
    assert!(BodyOwnerKind::Closure.is_fn_or_closure());
    assert!(!BodyOwnerKind::Const.is_fn_or_closure());
    assert!(!BodyOwnerKind::Static.is_fn_or_closure());
    assert!(!BodyOwnerKind::GlobalAsm.is_fn_or_closure());
}
