//! Domain types of the call graph: function references and calls.

use vstd::prelude::*;

verus! {

/// Reference to a function (module, name, arity), with its definition site
/// when the query provides it.
#[derive(Debug, Clone)]
pub struct FunctionRef {
    pub module: String,
    pub name: String,
    pub arity: i64,
    pub kind: Option<String>,
    pub file: Option<String>,
    pub start_line: Option<i64>,
    pub end_line: Option<i64>,
}

/// What a `FunctionRef` holds, as plain values.
pub struct FunctionRefView {
    pub module: Seq<char>,
    pub name: Seq<char>,
    pub arity: i64,
    pub kind: Option<Seq<char>>,
    pub file: Option<Seq<char>>,
    pub start_line: Option<i64>,
    pub end_line: Option<i64>,
}

pub open spec fn opt_view(o: Option<String>) -> Option<Seq<char>> {
    match o {
        Some(s) => Some(s@),
        None => None,
    }
}

impl View for FunctionRef {
    type V = FunctionRefView;

    open spec fn view(&self) -> FunctionRefView {
        FunctionRefView {
            module: self.module@,
            name: self.name@,
            arity: self.arity,
            kind: opt_view(self.kind),
            file: opt_view(self.file),
            start_line: self.start_line,
            end_line: self.end_line,
        }
    }
}

impl FunctionRef {
    /// A reference by module, name and arity alone.
    pub fn new(module: String, name: String, arity: i64) -> (r: FunctionRef)
        ensures
            r@ == (FunctionRefView {
                module: module@,
                name: name@,
                arity,
                kind: None,
                file: None,
                start_line: None,
                end_line: None,
            }),
    {
        FunctionRef { module, name, arity, kind: None, file: None, start_line: None, end_line: None }
    }

    /// A reference with its definition site.
    pub fn with_definition(
        module: String,
        name: String,
        arity: i64,
        kind: String,
        file: String,
        start_line: i64,
        end_line: i64,
    ) -> (r: FunctionRef)
        ensures
            r@ == (FunctionRefView {
                module: module@,
                name: name@,
                arity,
                kind: Some(kind@),
                file: Some(file@),
                start_line: Some(start_line),
                end_line: Some(end_line),
            }),
    {
        FunctionRef {
            module,
            name,
            arity,
            kind: Some(kind),
            file: Some(file),
            start_line: Some(start_line),
            end_line: Some(end_line),
        }
    }
}

/// A function call relationship between caller and callee.
#[derive(Debug, Clone)]
pub struct Call {
    pub caller: FunctionRef,
    pub callee: FunctionRef,
    pub line: i64,
    pub call_type: Option<String>,
    pub depth: Option<i64>,
}

/// What a `Call` holds, as plain values.
pub struct CallView {
    pub caller: FunctionRefView,
    pub callee: FunctionRefView,
    pub line: i64,
    pub call_type: Option<Seq<char>>,
    pub depth: Option<i64>,
}

impl View for Call {
    type V = CallView;

    open spec fn view(&self) -> CallView {
        CallView {
            caller: self.caller@,
            callee: self.callee@,
            line: self.line,
            call_type: opt_view(self.call_type),
            depth: self.depth,
        }
    }
}

} // verus!
