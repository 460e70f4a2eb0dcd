//! Pieces of the bytecode compiler: register allocation, compiling contexts,
//! the names along a dotted path and the locations that compile errors name.
use vstd::prelude::*;
use vstd::utf8::is_char_boundary;
use vstd::string::StringSliceAdditionalSpecFns;
use crate::span::Span;
use crate::lsp::{newline_count, last_newline, min_usize};
use crate::text::{decimal, push_decimal, push_str, string_from_chars};
use crate::parser::AstNode;

verus! {

/// Hands out registers of a function frame as a stack.
pub struct RegisterAllocator {
    pub current_top: usize,
}

impl RegisterAllocator {
    /// Takes the next free register.
    pub fn alloc_register(&mut self) -> (r: usize)
        requires
            old(self).current_top < usize::MAX,
        ensures
            r == old(self).current_top,
            final(self).current_top == old(self).current_top + 1,
    {
        let r = self.current_top;
        self.current_top = self.current_top + 1;
        r
    }

    /// Frees every register from `top` on.
    pub fn free_to(&mut self, top: usize)
        ensures
            final(self).current_top == top,
    {
        self.current_top = top;
    }
}

/// What the compiler knows about the code it is compiling.
pub struct CompilingCtx {
    pub is_public: bool,
    pub current_class: Option<String>,
    pub is_inside_vararg: bool,
}

impl CompilingCtx {
    /// The context at the top of a file: not public, outside any class and
    /// outside any variadic function.
    pub fn new() -> (r: Self)
        ensures
            !r.is_public,
            r.current_class is None,
            !r.is_inside_vararg,
    {
        Self { is_public: false, current_class: None, is_inside_vararg: false }
    }
}

/// A variadic function to be compiled for a number of extra arguments.
pub struct PendingSpecialization {
    pub name: String,
    pub vararg_count: usize,
    pub ctx: CompilingCtx,
}

/// One-based line and column of a span's start, as `line:col`; the column
/// counts bytes from the last line feed before the start.
pub open spec fn location_text(bytes: Seq<u8>, span: Span) -> Seq<char> {
    if span == (Span { start: 0, end: 0 }) {
        "<unknown location>"@
    } else {
        let up_to = bytes.take(min_usize(span.start, bytes.len() as usize) as int);
        let line = newline_count(up_to) + 1;
        let col = match last_newline(up_to) {
            Some(p) => span.start - p - 1,
            None => span.start as int,
        } + 1;
        decimal(line as nat) + ":"@ + decimal(col as nat)
    }
}

/// Where a span starts in `source`, as `line:col` counted from one, or
/// `<unknown location>` for the placeholder span.
pub fn span_to_location(source: &str, span: Span) -> (r: String)
    requires
        source.spec_bytes().len() < usize::MAX,
        span != (Span { start: 0, end: 0 }) ==> is_char_boundary(
            source.spec_bytes(),
            min_usize(span.start, source.spec_bytes().len() as usize) as int,
        ),
        span != (Span { start: 0, end: 0 }) && last_newline(
            source.spec_bytes().take(min_usize(span.start, source.spec_bytes().len() as usize) as int),
        ) is None ==> span.start < usize::MAX,
    ensures
        r@ == location_text(source.spec_bytes(), span),
{
    let mut out: Vec<char> = Vec::new();
    if span == Span::dummy() {
        push_str(&mut out, "<unknown location>");
        proof {
            assert(out@ =~= location_text(source.spec_bytes(), span));
        }
        return string_from_chars(&out);
    }
    let bytes = source.as_bytes();
    let n = bytes.len();
    let stop = if span.start <= n {
        span.start
    } else {
        n
    };
    let mut count: usize = 0;
    let mut last: Option<usize> = None;
    let mut k: usize = 0;
    while k < stop
        invariant
            stop <= n == bytes@.len(),
            k <= stop,
            count == newline_count(bytes@.take(k as int)),
            count <= k,
            last == match last_newline(bytes@.take(k as int)) {
                Some(p) => Some(p as usize),
                None => None::<usize>,
            },
            last_newline(bytes@.take(k as int)) matches Some(p) ==> 0 <= p < k,
        decreases stop - k,
    {
        proof {
            assert(bytes@.take(k + 1).drop_last() =~= bytes@.take(k as int));
        }
        if bytes[k] == 10u8 {
            count = count + 1;
            last = Some(k);
        }
        k = k + 1;
    }
    assert(span != (Span { start: 0, end: 0 }));
    assert(stop == min_usize(span.start, source.spec_bytes().len() as usize));
    assert(bytes@.take(k as int) == source.spec_bytes().take(stop as int));
    let col = match last {
        Some(p) => span.start - p - 1,
        None => span.start,
    };
    push_decimal(&mut out, count + 1);
    push_str(&mut out, ":");
    push_decimal(&mut out, col + 1);
    proof {
        assert(out@ =~= location_text(source.spec_bytes(), span));
    }
    string_from_chars(&out)
}

/// The names along a dotted path such as `a.b.c`: the identifier at its
/// root, then each identifier after a dot; other parts add nothing.
pub open spec fn dot_chain(node: AstNode) -> Seq<Seq<char>>
    decreases node,
{
    match node {
        AstNode::Identifier(name) => seq![name@],
        AstNode::DotIndex { indexee, index } => dot_chain(indexee.node) + match index.node {
            AstNode::Identifier(name) => seq![name@],
            _ => Seq::empty(),
        },
        _ => Seq::empty(),
    }
}

/// Appends the names along the dotted path `node` to `out`.
pub fn collect_dot_chain(node: &AstNode, out: &mut Vec<String>)
    ensures
        final(out)@.map_values(|s: String| s@) == old(out)@.map_values(|s: String| s@) + dot_chain(*node),
    decreases node,
{
    match node {
        AstNode::Identifier(name) => {
            let ghost before = out@;
            out.push(name.clone());
            assert(out@.map_values(|s: String| s@) =~= before.map_values(|s: String| s@) + seq![name@]);
        },
        AstNode::DotIndex { indexee, index } => {
            let ghost before = out@;
            collect_dot_chain(&indexee.node, out);
            let ghost mid = out@;
            if let AstNode::Identifier(name) = &index.node {
                out.push(name.clone());
                assert(out@.map_values(|s: String| s@) =~= mid.map_values(|s: String| s@) + seq![name@]);
            }
            assert(out@.map_values(|s: String| s@) =~= before.map_values(|s: String| s@) + dot_chain(*node));
        },
        _ => {
            assert(out@.map_values(|s: String| s@) =~= out@.map_values(|s: String| s@) + dot_chain(*node));
        },
    }
}

} // verus!
