use dibuilder::debug_info::{
    DIFlags, DINode, DebugInfoBuilder, DwarfEmissionKind, DwarfSourceLanguage, MetadataValue,
};
use dibuilder::lifecycle::BuilderState;

fn compile_unit(b: &mut DebugInfoBuilder, file: MetadataValue) -> MetadataValue {
    b.create_compile_unit(
        DwarfSourceLanguage::Rust,
        file,
        "inkwell test",
        false,
        "",
        0,
        "",
        DwarfEmissionKind::LineTablesOnly,
        0,
        false,
        false,
    )
}

#[test]
fn test_debug_line_tables() {
    let mut dibuilder = DebugInfoBuilder::new(1, true);
    let file = dibuilder.create_file("filename", "directory");
    let cu = dibuilder.create_compile_unit(
        DwarfSourceLanguage::Rust,
        file,
        "inkwell test",
        false,
        "",
        0,
        "",
        DwarfEmissionKind::LineTablesOnly,
        0,
        false,
        false,
    );
    let func_ty = dibuilder.create_subroutine_type(file, &[], DIFlags::Zero);
    let func = dibuilder.create_function(
        cu,
        "function",
        "_Z8functioni",
        file,
        3,
        func_ty,
        false,
        true,
        3,
        DIFlags::Public,
        false,
    );
    let debug_loc = dibuilder.create_debug_location(3, 1, func, None);

    match dibuilder.node(func) {
        DINode::Function { scope, name, linkage_name, file: f, line_no, ty, is_definition, scope_line, flags, .. } => {
            assert_eq!(*scope, cu);
            assert_eq!(name, "function");
            assert_eq!(linkage_name, "_Z8functioni");
            assert_eq!(*f, file);
            assert_eq!(*line_no, 3);
            assert_eq!(*ty, func_ty);
            assert!(*is_definition);
            assert_eq!(*scope_line, 3);
            assert_eq!(*flags, DIFlags::Public);
        }
        _ => panic!("not a function node"),
    }
    match dibuilder.node(debug_loc) {
        DINode::DebugLocation { line, column, scope, inlined_at } => {
            assert_eq!((*line, *column), (3, 1));
            assert_eq!(*scope, func);
            assert_eq!(*inlined_at, None);
        }
        _ => panic!("not a location node"),
    }

    dibuilder.finish();
    assert_eq!(dibuilder.state(), BuilderState::Finalized);
    assert!(!dibuilder.dispose());
}

#[test]
fn file_node_keeps_its_strings() {
    let mut b = DebugInfoBuilder::new(9, false);
    let file = b.create_file("main.rs", "/src");
    assert_eq!(file.context(), 9);
    assert_eq!(file.index(), 0);
    match b.node(file) {
        DINode::File { filename, directory } => {
            assert_eq!(filename, "main.rs");
            assert_eq!(directory, "/src");
        }
        _ => panic!("not a file node"),
    }
}

#[test]
fn compile_unit_handle_is_fresh_and_allows_finish() {
    let mut b = DebugInfoBuilder::new(2, false);
    assert_eq!(b.compile_unit(), None);
    let file = b.create_file("a.c", "/tmp");
    let cu = compile_unit(&mut b, file);
    assert_ne!(cu, file);
    assert_eq!(b.compile_unit(), Some(cu));
    match b.node(cu) {
        DINode::CompileUnit { lang, file: f, producer, kind, .. } => {
            assert_eq!(*lang, DwarfSourceLanguage::Rust);
            assert_eq!(*f, file);
            assert_eq!(producer, "inkwell test");
            assert_eq!(*kind, DwarfEmissionKind::LineTablesOnly);
        }
        _ => panic!("not a compile unit"),
    }
    assert_eq!(b.state(), BuilderState::Building);
    b.finish();
    b.finish();
    assert_eq!(b.state(), BuilderState::Finalized);
    assert_eq!(b.node_count(), 2);
}

#[test]
fn subroutine_types_of_any_arity_serve_as_function_types() {
    let mut b = DebugInfoBuilder::new(3, false);
    let file = b.create_file("f.rs", ".");
    let cu = compile_unit(&mut b, file);
    let t0 = b.create_subroutine_type(file, &[], DIFlags::Zero);
    let t1 = b.create_subroutine_type(file, &[t0], DIFlags::Zero);
    let t3 = b.create_subroutine_type(file, &[t0, t1, t0], DIFlags::Prototyped);
    match b.node(t3) {
        DINode::SubroutineType { file: f, parameter_types, flags } => {
            assert_eq!(*f, file);
            assert_eq!(parameter_types, &vec![t0, t1, t0]);
            assert_eq!(*flags, DIFlags::Prototyped);
        }
        _ => panic!("not a subroutine type"),
    }
    let mut funcs = Vec::new();
    for (i, ty) in [t0, t1, t3].iter().enumerate() {
        let f = b.create_function(cu, "f", "f", file, i as u32, *ty, false, true, 1, DIFlags::Zero, false);
        funcs.push(f);
    }
    assert_ne!(funcs[0], funcs[1]);
    assert_ne!(funcs[1], funcs[2]);
    assert_eq!(b.node_count(), 8);
}

#[test]
fn locations_with_and_without_inlining_are_distinct() {
    let mut b = DebugInfoBuilder::new(4, true);
    let file = b.create_file("g.rs", ".");
    let cu = compile_unit(&mut b, file);
    let ty = b.create_subroutine_type(file, &[], DIFlags::Zero);
    let f = b.create_function(cu, "g", "g", file, 1, ty, true, false, 1, DIFlags::Private, true);
    let outer = b.create_debug_location(10, 5, f, None);
    let inner = b.create_debug_location(2, 7, f, Some(outer));
    assert_ne!(outer, inner);
    match b.node(inner) {
        DINode::DebugLocation { line, column, scope, inlined_at } => {
            assert_eq!((*line, *column), (2, 7));
            assert_eq!(*scope, f);
            assert_eq!(*inlined_at, Some(outer));
        }
        _ => panic!("not a location node"),
    }
}

#[test]
fn module_node_nests_under_its_parent() {
    let mut b = DebugInfoBuilder::new(5, false);
    let file = b.create_file("m.rs", ".");
    let cu = compile_unit(&mut b, file);
    let m = b.create_module(cu, "core", "-DX", "/inc", "/sysroot");
    match b.node(m) {
        DINode::Module { parent_scope, name, config_macros, include_path, isysroot } => {
            assert_eq!(*parent_scope, cu);
            assert_eq!(name, "core");
            assert_eq!(config_macros, "-DX");
            assert_eq!(include_path, "/inc");
            assert_eq!(isysroot, "/sysroot");
        }
        _ => panic!("not a module node"),
    }
}

#[test]
fn teardown_flushes_only_when_not_finished() {
    let mut b = DebugInfoBuilder::new(6, false);
    let file = b.create_file("x", "y");
    compile_unit(&mut b, file);
    assert!(b.dispose());

    let mut b = DebugInfoBuilder::new(6, false);
    let file = b.create_file("x", "y");
    compile_unit(&mut b, file);
    b.finish();
    assert!(!b.dispose());

    let b = DebugInfoBuilder::new(6, false);
    assert!(!b.dispose());
}

#[test]
fn builder_state_transitions() {
    let mut s = BuilderState::Building;
    s.finish();
    assert_eq!(s, BuilderState::Finalized);
    assert!(!s.teardown(true));
    assert_eq!(s, BuilderState::Disposed);

    let mut s = BuilderState::Building;
    assert!(s.teardown(true));
    assert_eq!(s, BuilderState::Disposed);

    let mut s = BuilderState::Building;
    assert!(!s.teardown(false));
}

#[test]
fn new_builder_records_its_configuration() {
    let b = DebugInfoBuilder::new(42, true);
    assert_eq!(b.context(), 42);
    assert!(b.allows_unresolved());
    assert_eq!(b.node_count(), 0);
    assert_eq!(b.state(), BuilderState::Building);
}
