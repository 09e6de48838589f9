//! The debug-info builder session: it hands out metadata handles scoped to one
//! context, records the node behind each handle, and owns the finalize/dispose
//! lifecycle of the native builder resource.

pub use crate::dwarf::{DIFlagSet, DIFlags, DwarfEmissionKind, DwarfSourceLanguage};
use crate::lifecycle::BuilderState;
use vstd::prelude::*;
use vstd::string::StringExecFns;

verus! {

/// A reference to one debug-info node. It carries the identity of the context
/// it belongs to and the position of its node in the builder that made it; it
/// owns nothing, and copies of it name the same node.
#[derive(Clone, Copy, Debug, PartialEq, Eq, Hash, Structural)]
pub struct MetadataValue {
    context: u64,
    index: usize,
}

impl MetadataValue {
    /// The identity of the owning context.
    pub closed spec fn context_spec(self) -> u64 {
        self.context
    }

    /// The position of the node among those its builder created.
    pub closed spec fn index_spec(self) -> usize {
        self.index
    }

    /// The identity of the owning context.
    pub fn context(&self) -> (r: u64)
        ensures
            r == self.context_spec(),
    {
        self.context
    }

    /// The position of the node among those its builder created.
    pub fn index(&self) -> (r: usize)
        ensures
            r == self.index_spec(),
    {
        self.index
    }
}

/// One debug-info node, with the arguments it was created from.
#[derive(Clone, Debug)]
pub enum DINode {
    File { filename: String, directory: String },
    CompileUnit {
        lang: DwarfSourceLanguage,
        file: MetadataValue,
        producer: String,
        is_optimized: bool,
        flags: String,
        runtime_version: u32,
        split_name: String,
        kind: DwarfEmissionKind,
        dwo_id: u32,
        split_debug_inlining: bool,
        debug_info_for_profiling: bool,
    },
    Module {
        parent_scope: MetadataValue,
        name: String,
        config_macros: String,
        include_path: String,
        isysroot: String,
    },
    Function {
        scope: MetadataValue,
        name: String,
        linkage_name: String,
        file: MetadataValue,
        line_no: u32,
        ty: MetadataValue,
        is_local_to_unit: bool,
        is_definition: bool,
        scope_line: u32,
        flags: DIFlags,
        is_optimized: bool,
    },
    SubroutineType { file: MetadataValue, parameter_types: Vec<MetadataValue>, flags: DIFlags },
    DebugLocation {
        line: u32,
        column: u32,
        scope: MetadataValue,
        inlined_at: Option<MetadataValue>,
    },
}

/// The mathematical value of a [`DINode`]: its strings as character sequences
/// and its parameter list as a sequence.
pub enum DINodeView {
    File { filename: Seq<char>, directory: Seq<char> },
    CompileUnit {
        lang: DwarfSourceLanguage,
        file: MetadataValue,
        producer: Seq<char>,
        is_optimized: bool,
        flags: Seq<char>,
        runtime_version: u32,
        split_name: Seq<char>,
        kind: DwarfEmissionKind,
        dwo_id: u32,
        split_debug_inlining: bool,
        debug_info_for_profiling: bool,
    },
    Module {
        parent_scope: MetadataValue,
        name: Seq<char>,
        config_macros: Seq<char>,
        include_path: Seq<char>,
        isysroot: Seq<char>,
    },
    Function {
        scope: MetadataValue,
        name: Seq<char>,
        linkage_name: Seq<char>,
        file: MetadataValue,
        line_no: u32,
        ty: MetadataValue,
        is_local_to_unit: bool,
        is_definition: bool,
        scope_line: u32,
        flags: DIFlags,
        is_optimized: bool,
    },
    SubroutineType { file: MetadataValue, parameter_types: Seq<MetadataValue>, flags: DIFlags },
    DebugLocation {
        line: u32,
        column: u32,
        scope: MetadataValue,
        inlined_at: Option<MetadataValue>,
    },
}

impl View for DINode {
    type V = DINodeView;

    open spec fn view(&self) -> DINodeView {
        match self {
            DINode::File { filename, directory } => DINodeView::File {
                filename: filename@,
                directory: directory@,
            },
            DINode::CompileUnit {
                lang,
                file,
                producer,
                is_optimized,
                flags,
                runtime_version,
                split_name,
                kind,
                dwo_id,
                split_debug_inlining,
                debug_info_for_profiling,
            } => DINodeView::CompileUnit {
                lang: *lang,
                file: *file,
                producer: producer@,
                is_optimized: *is_optimized,
                flags: flags@,
                runtime_version: *runtime_version,
                split_name: split_name@,
                kind: *kind,
                dwo_id: *dwo_id,
                split_debug_inlining: *split_debug_inlining,
                debug_info_for_profiling: *debug_info_for_profiling,
            },
            DINode::Module { parent_scope, name, config_macros, include_path, isysroot } =>
                DINodeView::Module {
                parent_scope: *parent_scope,
                name: name@,
                config_macros: config_macros@,
                include_path: include_path@,
                isysroot: isysroot@,
            },
            DINode::Function {
                scope,
                name,
                linkage_name,
                file,
                line_no,
                ty,
                is_local_to_unit,
                is_definition,
                scope_line,
                flags,
                is_optimized,
            } => DINodeView::Function {
                scope: *scope,
                name: name@,
                linkage_name: linkage_name@,
                file: *file,
                line_no: *line_no,
                ty: *ty,
                is_local_to_unit: *is_local_to_unit,
                is_definition: *is_definition,
                scope_line: *scope_line,
                flags: *flags,
                is_optimized: *is_optimized,
            },
            DINode::SubroutineType { file, parameter_types, flags } =>
                DINodeView::SubroutineType {
                file: *file,
                parameter_types: parameter_types@,
                flags: *flags,
            },
            DINode::DebugLocation { line, column, scope, inlined_at } =>
                DINodeView::DebugLocation {
                line: *line,
                column: *column,
                scope: *scope,
                inlined_at: *inlined_at,
            },
        }
    }
}

impl DINodeView {
    /// Whether this is the node of a compile unit.
    pub open spec fn is_compile_unit(self) -> bool {
        self is CompileUnit
    }
}

/// One debug-info emission session bound to a context. It records every node it
/// creates, hands out a fresh handle for each, admits exactly one compile unit,
/// and decides when the native builder resource is flushed and released.
#[derive(Debug)]
pub struct DebugInfoBuilder {
    context: u64,
    allow_unresolved: bool,
    nodes: Vec<DINode>,
    compile_unit: Option<MetadataValue>,
    state: BuilderState,
}

impl DebugInfoBuilder {
    /// The identity of the context the builder is bound to.
    pub closed spec fn context_spec(self) -> u64 {
        self.context
    }

    /// Whether the builder admits function nodes that are not definitions.
    pub closed spec fn allows_unresolved_spec(self) -> bool {
        self.allow_unresolved
    }

    /// The nodes created so far, in the order of creation.
    pub closed spec fn nodes_spec(self) -> Seq<DINodeView> {
        self.nodes@.map_values(|n: DINode| n@)
    }

    /// The handle of the compile unit, once it has been created.
    pub closed spec fn compile_unit_spec(self) -> Option<MetadataValue> {
        self.compile_unit
    }

    /// Where the builder stands in its life.
    pub closed spec fn state_spec(self) -> BuilderState {
        self.state
    }

    /// Whether the compile unit has been created.
    pub open spec fn has_compile_unit(self) -> bool {
        self.compile_unit_spec() is Some
    }

    /// Whether `h` was made by this builder: same context, and a node behind it.
    pub open spec fn owns(self, h: MetadataValue) -> bool {
        &&& h.context_spec() == self.context_spec()
        &&& h.index_spec() < self.nodes_spec().len()
    }

    /// The builder is live, and the compile unit handle, if any, names the one
    /// compile-unit node among the nodes; without it there is none.
    pub closed spec fn wf(self) -> bool {
        &&& self.state.is_live()
        &&& match self.compile_unit {
            Some(h) => {
                &&& self.owns(h)
                &&& self.nodes_spec()[h.index as int].is_compile_unit()
                &&& forall|i: int|
                    0 <= i < self.nodes_spec().len() && i != h.index
                        ==> !(#[trigger] self.nodes_spec()[i]).is_compile_unit()
            },
            None => forall|i: int|
                0 <= i < self.nodes_spec().len() ==> !(#[trigger] self.nodes_spec()[i]).is_compile_unit(),
        }
    }

    /// `self` is `old` with the node `n` appended under the fresh handle `r`.
    pub open spec fn appended(self, old: Self, r: MetadataValue, n: DINodeView) -> bool {
        &&& self.wf()
        &&& self.context_spec() == old.context_spec()
        &&& self.allows_unresolved_spec() == old.allows_unresolved_spec()
        &&& self.state_spec() == old.state_spec()
        &&& self.nodes_spec() == old.nodes_spec().push(n)
        &&& r.context_spec() == old.context_spec()
        &&& r.index_spec() == old.nodes_spec().len()
        &&& forall|h: MetadataValue| old.owns(h) ==> h != r
    }

    /// Starts a session on the context `context`; `allow_unresolved` says
    /// whether function nodes that are not definitions are admitted.
    pub fn new(context: u64, allow_unresolved: bool) -> (r: Self)
        ensures
            r.wf(),
            r.context_spec() == context,
            r.allows_unresolved_spec() == allow_unresolved,
            r.nodes_spec().len() == 0,
            r.compile_unit_spec() is None,
            r.state_spec() == BuilderState::Building,
    {
        let r = DebugInfoBuilder {
            context,
            allow_unresolved,
            nodes: Vec::new(),
            compile_unit: None,
            state: BuilderState::Building,
        };
        assert(r.nodes_spec() =~= Seq::<DINodeView>::empty());
        r
    }

    /// Appends `n` and returns its handle.
    fn push_node(&mut self, n: DINode) -> (r: MetadataValue)
        requires
            old(self).wf(),
            !n@.is_compile_unit(),
        ensures
            final(self).appended(*old(self), r, n@),
            final(self).compile_unit_spec() == old(self).compile_unit_spec(),
    {
        let index = self.nodes.len();
        self.nodes.push(n);
        proof {
            assert(self.nodes_spec() =~= old(self).nodes_spec().push(n@));
        }
        MetadataValue { context: self.context, index }
    }

    /// Creates the node of a source file.
    pub fn create_file(&mut self, filename: &str, directory: &str) -> (r: MetadataValue)
        requires
            old(self).wf(),
        ensures
            final(self).appended(
                *old(self),
                r,
                DINodeView::File { filename: filename@, directory: directory@ },
            ),
            final(self).compile_unit_spec() == old(self).compile_unit_spec(),
    {
        let n = DINode::File {
            filename: String::from_str(filename),
            directory: String::from_str(directory),
        };
        self.push_node(n)
    }

    /// Creates the compile unit, the top-level scope that every other scope of
    /// the session chains to. A session has exactly one: the call is admitted
    /// only while none exists.
    pub fn create_compile_unit(
        &mut self,
        lang: DwarfSourceLanguage,
        file: MetadataValue,
        producer: &str,
        is_optimized: bool,
        flags: &str,
        runtime_version: u32,
        split_name: &str,
        kind: DwarfEmissionKind,
        dwo_id: u32,
        split_debug_inlining: bool,
        debug_info_for_profiling: bool,
    ) -> (r: MetadataValue)
        requires
            old(self).wf(),
            !old(self).has_compile_unit(),
            old(self).owns(file),
        ensures
            final(self).appended(
                *old(self),
                r,
                DINodeView::CompileUnit {
                    lang,
                    file,
                    producer: producer@,
                    is_optimized,
                    flags: flags@,
                    runtime_version,
                    split_name: split_name@,
                    kind,
                    dwo_id,
                    split_debug_inlining,
                    debug_info_for_profiling,
                },
            ),
            final(self).compile_unit_spec() == Some(r),
    {
        let n = DINode::CompileUnit {
            lang,
            file,
            producer: String::from_str(producer),
            is_optimized,
            flags: String::from_str(flags),
            runtime_version,
            split_name: String::from_str(split_name),
            kind,
            dwo_id,
            split_debug_inlining,
            debug_info_for_profiling,
        };
        let index = self.nodes.len();
        self.nodes.push(n);
        let r = MetadataValue { context: self.context, index };
        self.compile_unit = Some(r);
        proof {
            assert(self.nodes_spec() =~= old(self).nodes_spec().push(n@));
        }
        r
    }

    /// Creates a module (namespace) scope nested in `parent_scope`.
    pub fn create_module(
        &mut self,
        parent_scope: MetadataValue,
        name: &str,
        config_macros: &str,
        include_path: &str,
        isysroot: &str,
    ) -> (r: MetadataValue)
        requires
            old(self).wf(),
            old(self).owns(parent_scope),
        ensures
            final(self).appended(
                *old(self),
                r,
                DINodeView::Module {
                    parent_scope,
                    name: name@,
                    config_macros: config_macros@,
                    include_path: include_path@,
                    isysroot: isysroot@,
                },
            ),
            final(self).compile_unit_spec() == old(self).compile_unit_spec(),
    {
        let n = DINode::Module {
            parent_scope,
            name: String::from_str(name),
            config_macros: String::from_str(config_macros),
            include_path: String::from_str(include_path),
            isysroot: String::from_str(isysroot),
        };
        self.push_node(n)
    }

    /// Creates the node of a function (a subprogram) in `scope`, of the
    /// subroutine type `ty`. A builder that does not admit unresolved nodes
    /// admits only definitions: finalizing a declaration there is undefined.
    pub fn create_function(
        &mut self,
        scope: MetadataValue,
        name: &str,
        linkage_name: &str,
        file: MetadataValue,
        line_no: u32,
        ty: MetadataValue,
        is_local_to_unit: bool,
        is_definition: bool,
        scope_line: u32,
        flags: DIFlags,
        is_optimized: bool,
    ) -> (r: MetadataValue)
        requires
            old(self).wf(),
            old(self).owns(scope),
            old(self).owns(file),
            old(self).owns(ty),
            old(self).allows_unresolved_spec() || is_definition,
        ensures
            final(self).appended(
                *old(self),
                r,
                DINodeView::Function {
                    scope,
                    name: name@,
                    linkage_name: linkage_name@,
                    file,
                    line_no,
                    ty,
                    is_local_to_unit,
                    is_definition,
                    scope_line,
                    flags,
                    is_optimized,
                },
            ),
            final(self).compile_unit_spec() == old(self).compile_unit_spec(),
    {
        let n = DINode::Function {
            scope,
            name: String::from_str(name),
            linkage_name: String::from_str(linkage_name),
            file,
            line_no,
            ty,
            is_local_to_unit,
            is_definition,
            scope_line,
            flags,
            is_optimized,
        };
        self.push_node(n)
    }

    /// Creates a source position at `line` and `column` in `scope`; with
    /// `inlined_at`, the position is one inlined at that other location.
    pub fn create_debug_location(
        &mut self,
        line: u32,
        column: u32,
        scope: MetadataValue,
        inlined_at: Option<MetadataValue>,
    ) -> (r: MetadataValue)
        requires
            old(self).wf(),
            old(self).owns(scope),
            inlined_at matches Some(at) ==> old(self).owns(at),
        ensures
            final(self).appended(
                *old(self),
                r,
                DINodeView::DebugLocation { line, column, scope, inlined_at },
            ),
            final(self).compile_unit_spec() == old(self).compile_unit_spec(),
    {
        let n = DINode::DebugLocation { line, column, scope, inlined_at };
        self.push_node(n)
    }

    /// Creates a function type from its ordered parameter types (an empty list
    /// means no parameters).
    pub fn create_subroutine_type(
        &mut self,
        file: MetadataValue,
        parameter_types: &[MetadataValue],
        flags: DIFlags,
    ) -> (r: MetadataValue)
        requires
            old(self).wf(),
            old(self).owns(file),
            forall|i: int|
                0 <= i < parameter_types@.len() ==> old(self).owns(#[trigger] parameter_types@[i]),
        ensures
            final(self).appended(
                *old(self),
                r,
                DINodeView::SubroutineType { file, parameter_types: parameter_types@, flags },
            ),
            final(self).compile_unit_spec() == old(self).compile_unit_spec(),
    {
        let mut params: Vec<MetadataValue> = Vec::new();
        let mut i: usize = 0;
        while i < parameter_types.len()
            invariant
                i <= parameter_types@.len(),
                params@ == parameter_types@.subrange(0, i as int),
            decreases parameter_types@.len() - i,
        {
            params.push(parameter_types[i]);
            i = i + 1;
            assert(params@ =~= parameter_types@.subrange(0, i as int));
        }
        assert(params@ =~= parameter_types@);
        let n = DINode::SubroutineType { file, parameter_types: params, flags };
        self.push_node(n)
    }

    /// Flushes the deferred metadata. Admitted once the compile unit exists,
    /// and as often as wished; each call flushes again.
    pub fn finish(&mut self)
        requires
            old(self).wf(),
            old(self).has_compile_unit(),
        ensures
            final(self).wf(),
            final(self).state_spec() == BuilderState::Finalized,
            final(self).context_spec() == old(self).context_spec(),
            final(self).allows_unresolved_spec() == old(self).allows_unresolved_spec(),
            final(self).nodes_spec() == old(self).nodes_spec(),
            final(self).compile_unit_spec() == old(self).compile_unit_spec(),
    {
        self.state.finish();
    }

    /// Ends the session; the native resource is released once, after this.
    /// The result says whether the deferred metadata must be flushed first:
    /// only when no flush has happened and the compile unit exists.
    pub fn dispose(self) -> (finalize_first: bool)
        requires
            self.wf(),
        ensures
            finalize_first == self.state_spec().teardown_finalizes(self.has_compile_unit()),
            finalize_first == (self.state_spec() == BuilderState::Building && self.has_compile_unit()),
    {
        let mut state = self.state;
        state.teardown(self.compile_unit.is_some())
    }

    /// The identity of the context the builder is bound to.
    pub fn context(&self) -> (r: u64)
        ensures
            r == self.context_spec(),
    {
        self.context
    }

    /// Whether function nodes that are not definitions are admitted.
    pub fn allows_unresolved(&self) -> (r: bool)
        ensures
            r == self.allows_unresolved_spec(),
    {
        self.allow_unresolved
    }

    /// The handle of the compile unit, once it has been created.
    pub fn compile_unit(&self) -> (r: Option<MetadataValue>)
        ensures
            r == self.compile_unit_spec(),
    {
        self.compile_unit
    }

    /// Where the builder stands in its life.
    pub fn state(&self) -> (r: BuilderState)
        ensures
            r == self.state_spec(),
    {
        self.state
    }

    /// The number of nodes created so far.
    pub fn node_count(&self) -> (r: usize)
        ensures
            r == self.nodes_spec().len(),
    {
        self.nodes.len()
    }

    /// The node behind a handle of this builder.
    pub fn node(&self, h: MetadataValue) -> (r: &DINode)
        requires
            self.owns(h),
        ensures
            r@ == self.nodes_spec()[h.index_spec() as int],
    {
        &self.nodes[h.index]
    }
}

/// Creating the compile unit once makes the builder ready to finish; its handle
/// belongs to the builder and differs from every handle made before it.
pub proof fn compile_unit_once_then_finish(
    before: DebugInfoBuilder,
    after: DebugInfoBuilder,
    r: MetadataValue,
    n: DINodeView,
    earlier: MetadataValue,
)
    requires
        before.wf(),
        !before.has_compile_unit(),
        after.appended(before, r, n),
        after.compile_unit_spec() == Some(r),
        before.owns(earlier),
    ensures
        after.wf(),
        after.has_compile_unit(),
        after.owns(r),
        r != earlier,
{
}

/// A handle that a creation returns belongs to the builder afterwards, so it
/// can be handed to any later creation (a subroutine type as the type of a
/// function, a location as the inlining site of another), and so do all the
/// handles made before it.
pub proof fn created_handle_is_usable(
    before: DebugInfoBuilder,
    after: DebugInfoBuilder,
    r: MetadataValue,
    n: DINodeView,
    earlier: MetadataValue,
)
    requires
        after.appended(before, r, n),
        before.owns(earlier),
    ensures
        after.owns(r),
        after.owns(earlier),
        after.nodes_spec()[r.index_spec() as int] == n,
{
}

/// Two successive creations give two distinct handles, both of which belong to
/// the builder afterwards.
pub proof fn successive_handles_distinct(
    b0: DebugInfoBuilder,
    b1: DebugInfoBuilder,
    b2: DebugInfoBuilder,
    r1: MetadataValue,
    r2: MetadataValue,
    n1: DINodeView,
    n2: DINodeView,
)
    requires
        b1.appended(b0, r1, n1),
        b2.appended(b1, r2, n2),
    ensures
        r1 != r2,
        b2.owns(r1),
        b2.owns(r2),
{
}

} // verus!
