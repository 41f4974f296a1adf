//! What the host is handed when a server can be launched.

use vstd::prelude::*;
use lsp_types::Url;
use serde_json::Value;

verus! {

/// The documents a launched server is registered for.
#[derive(Debug)]
pub struct DocumentFilter {
    pub language: String,
    pub pattern: Option<String>,
}

pub struct DocumentFilterView {
    pub language: Seq<char>,
    pub pattern: Option<Seq<char>>,
}

impl View for DocumentFilter {
    type V = DocumentFilterView;

    open spec fn view(&self) -> DocumentFilterView {
        DocumentFilterView {
            language: self.language@,
            pattern: match self.pattern {
                Some(p) => Some(p@),
                None => None,
            },
        }
    }
}

/// The executable to run: a path the user configured and the host found, or
/// the binary kept in the cache. The cached binary comes with the URI that
/// names it to the host. The configured path is handed on as it was
/// written, with the `urn:` URI of it where one can be formed; that none can
/// be formed does not make the path any less found.
#[derive(Debug)]
pub enum ExecutableRef {
    Override { path: String, urn: Option<Url> },
    Cached { path: String, uri: Url },
}

pub enum ExecutableRefView {
    Override { path: Seq<char>, urn: Option<Url> },
    Cached { path: Seq<char>, uri: Url },
}

impl View for ExecutableRef {
    type V = ExecutableRefView;

    open spec fn view(&self) -> ExecutableRefView {
        match self {
            ExecutableRef::Override { path, urn } => ExecutableRefView::Override {
                path: path@,
                urn: *urn,
            },
            ExecutableRef::Cached { path, uri } => ExecutableRefView::Cached {
                path: path@,
                uri: *uri,
            },
        }
    }
}

/// The one normal form of a successful resolution, whichever way it was
/// reached: lists are empty and options absent where there is nothing to say.
#[derive(Debug)]
pub struct LaunchDescriptor {
    pub executable: ExecutableRef,
    pub args: Vec<String>,
    pub filters: Vec<DocumentFilter>,
    pub options: Option<Value>,
}

pub struct LaunchDescriptorView {
    pub executable: ExecutableRefView,
    pub args: Seq<Seq<char>>,
    pub filters: Seq<DocumentFilterView>,
    pub options: Option<Value>,
}

impl View for LaunchDescriptor {
    type V = LaunchDescriptorView;

    open spec fn view(&self) -> LaunchDescriptorView {
        LaunchDescriptorView {
            executable: self.executable@,
            args: self.args@.map_values(|a: String| a@),
            filters: self.filters@.map_values(|f: DocumentFilter| f@),
            options: self.options,
        }
    }
}

/// The descriptor for an executable: no arguments, one filter for the
/// language with no path pattern, and the options passed through as they
/// came.
pub open spec fn spec_launch(
    executable: ExecutableRefView,
    language_id: Seq<char>,
    options: Option<Value>,
) -> LaunchDescriptorView {
    LaunchDescriptorView {
        executable: executable,
        args: Seq::empty(),
        filters: seq![DocumentFilterView { language: language_id, pattern: None }],
        options: options,
    }
}

impl LaunchDescriptor {
    pub fn new(executable: ExecutableRef, language_id: String, options: Option<Value>) -> (d:
        LaunchDescriptor)
        ensures
            d@ == spec_launch(executable@, language_id@, options),
    {
        let args: Vec<String> = Vec::new();
        let mut filters: Vec<DocumentFilter> = Vec::new();
        filters.push(DocumentFilter { language: language_id, pattern: None });
        let d = LaunchDescriptor { executable, args, filters, options };
        proof {
            assert(d@.args =~= Seq::<Seq<char>>::empty());
            assert(d@.filters =~= seq![
                DocumentFilterView { language: language_id@, pattern: None::<Seq<char>> },
            ]);
        }
        d
    }
}

} // verus!
