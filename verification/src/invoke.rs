//! The invocation adapter: drives one analysis call through the foreign
//! environment as a fixed sequence of steps — import the module, resolve
//! the entry point, call it with keyword parameters, render the return
//! value as text — and normalizes every failure class on the way.
//!
//! The embedder performs the foreign work itself and reports each outcome
//! to the session, which decides the next step and maps failures to their
//! error kinds. A session must run, from `begin` to its end, inside one
//! execution region of the foreign environment: the environment admits one
//! native caller at a time, so sessions never interleave. Each step
//! consumes the session value, so a session cannot be rewound or forked.

use vstd::prelude::*;

use crate::errors::{BridgeError, ErrorKind};
use crate::json::parsed_doc;
use crate::marshal::{decode, decode_spec, result_matches, AnalysisResult};
use crate::runtime::{contains_dir, RuntimeHandle};

verus! {

/// One analysis invocation: the data and model parameters handed to the
/// entry point, and the resolved location of the analysis module. Immutable
/// for the duration of the invocation.
pub struct AnalysisRequest {
    pub source_data_path: String,
    pub model_type: String,
    pub module_directory: String,
    pub module_name: String,
}

/// The fixed, well-known name of the entry point the bridge calls on the
/// analysis module.
pub fn entry_point_name() -> (r: &'static str)
    ensures
        r@ == "run_analysis"@,
{
    "run_analysis"
}

/// A session whose next step is importing the analysis module.
pub struct ImportStep {
    request: AnalysisRequest,
}

/// A session whose next step is resolving the entry point on the imported
/// module.
pub struct ResolveStep {
    request: AnalysisRequest,
}

/// A session whose next step is calling the resolved entry point.
pub struct CallStep {
    request: AnalysisRequest,
}

/// A session whose next step is rendering the foreign return value as text
/// and marshaling it.
pub struct ConvertStep {}

/// Starts one invocation session inside an active execution region: makes
/// the request's module directory the highest-priority search path entry,
/// so a same-named module elsewhere is shadowed, then hands back the import
/// step.
pub fn begin(runtime: &mut RuntimeHandle, request: AnalysisRequest) -> (s: ImportStep)
    ensures
        s.req() == request,
        contains_dir(old(runtime)@, request.module_directory@) ==> final(runtime)@ == old(
            runtime,
        )@,
        !contains_dir(old(runtime)@, request.module_directory@) ==> final(runtime)@ == old(
            runtime,
        )@.insert(0, request.module_directory),
        contains_dir(final(runtime)@, request.module_directory@),
{
    let dir = request.module_directory.clone();
    runtime.prepare_import(dir);
    ImportStep { request }
}

impl ImportStep {
    /// The request this session runs.
    pub closed spec fn req(self) -> AnalysisRequest {
        self.request
    }

    /// The name of the module the embedder must import next.
    pub fn module_name(&self) -> (r: &String)
        ensures
            r == self.req().module_name,
    {
        &self.request.module_name
    }

    /// The import failed: the session ends, the diagnostic mapped to the
    /// module-load failure kind.
    pub fn import_failed(self, message: String) -> (e: BridgeError)
        ensures
            e.kind == ErrorKind::ModuleLoadFailed,
            e.message == message,
    {
        BridgeError::new(ErrorKind::ModuleLoadFailed, message)
    }

    /// The module imported: resolve the entry point on it next.
    pub fn imported(self) -> (n: ResolveStep)
        ensures
            n.req() == self.req(),
    {
        ResolveStep { request: self.request }
    }
}

impl ResolveStep {
    /// The request this session runs.
    pub closed spec fn req(self) -> AnalysisRequest {
        self.request
    }

    /// The entry point is not defined on the module: the session ends with
    /// the entry-point-missing kind.
    pub fn entry_point_missing(self, message: String) -> (e: BridgeError)
        ensures
            e.kind == ErrorKind::EntryPointMissing,
            e.message == message,
    {
        BridgeError::new(ErrorKind::EntryPointMissing, message)
    }

    /// The entry point resolved: call it next.
    pub fn resolved(self) -> (n: CallStep)
        ensures
            n.req() == self.req(),
    {
        CallStep { request: self.request }
    }
}

impl CallStep {
    /// The request this session runs.
    pub closed spec fn req(self) -> AnalysisRequest {
        self.request
    }

    /// The value for the `csv_path` keyword parameter of the entry point;
    /// the call passes keyword parameters only, never positional ones.
    pub fn csv_path(&self) -> (r: &String)
        ensures
            r == self.req().source_data_path,
    {
        &self.request.source_data_path
    }

    /// The value for the `model_type` keyword parameter of the entry point.
    pub fn model_type(&self) -> (r: &String)
        ensures
            r == self.req().model_type,
    {
        &self.request.model_type
    }

    /// The entry point raised: the session ends with the foreign-execution
    /// failure kind carrying the foreign error's textual rendering.
    pub fn call_raised(self, message: String) -> (e: BridgeError)
        ensures
            e.kind == ErrorKind::ForeignExecutionFailed,
            e.message == message,
    {
        BridgeError::new(ErrorKind::ForeignExecutionFailed, message)
    }

    /// The entry point returned a value: render it as text next.
    pub fn returned(self) -> (n: ConvertStep)
    {
        ConvertStep {  }
    }
}

impl ConvertStep {
    /// Rendering the foreign return value as text failed; classified as a
    /// foreign-execution failure.
    pub fn convert_failed(self, message: String) -> (e: BridgeError)
        ensures
            e.kind == ErrorKind::ForeignExecutionFailed,
            e.message == message,
    {
        BridgeError::new(ErrorKind::ForeignExecutionFailed, message)
    }

    /// The textual rendering of the foreign return value: marshals it into
    /// the typed result, as `decode` does.
    pub fn finish(self, text: &str) -> (r: Result<AnalysisResult, BridgeError>)
        ensures
            parsed_doc(text@) is None ==> (r matches Err(e) && e.kind
                == ErrorKind::MalformedResult),
            parsed_doc(text@) matches Some(v) ==> ((decode_spec(v) matches Err(m) ==> (
            r matches Err(e) && e.kind == ErrorKind::MalformedResult && e.message@ == m))
                && (decode_spec(v) matches Ok(pm) ==> (r matches Ok(res) && result_matches(
                res,
                pm.0,
                pm.1,
            )))),
    {
        decode(text)
    }
}

} // verus!
