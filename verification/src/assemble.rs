//! The package-assembly decision engine.
//!
//! One assembly request resolves a tool descriptor, validates the client's
//! file selection against that descriptor's variant, and produces exactly
//! one launch descriptor or exactly one error. The engine is split at its
//! two provider calls: [`plan_assembly`] takes the tool-registry result and
//! decides — ready entry, launch needed, or failure — and, where a launch
//! is needed, [`complete_launch`] takes the dispatcher's result and builds
//! the final entry. At most one launch is ever planned for one request, and
//! only after every validation for the variant has passed.

use vstd::prelude::*;

use crate::domain::{ErrorCode, strs_view};

verus! {

// ---------------------------------------------------------------------------
// Descriptors
// ---------------------------------------------------------------------------

/// Machine shape a resource-backed tool asks for.
#[derive(Clone, Copy, Debug, PartialEq, Eq, Structural)]
pub struct EnvResource {
    pub num_cpu: u32,
    pub num_ram: u64,
}

/// Relies on `serde_json::Value` as an opaque carrier: launch configuration
/// whose schema is owned by the tool catalog, passed through unread.
#[verifier::external_type_specification]
#[verifier::external_body]
pub struct ExValue(serde_json::Value);

/// Launch configuration for a resource-backed tool. The packager does not
/// know the config's schema; the value is carried through opaque and takes
/// no part in any decision.
pub struct Config {
    pub inner: serde_json::Value,
}

/// A tool descriptor as the tool registry resolves it: a closed tagged
/// variant. Assembly dispatches on the variant by exhaustive matching; the
/// resource-augmented hosted forms are declared but carry no handling rule
/// yet, and `BrowserNative` takes no part in assembly today.
pub enum VirtualResearchEnv {
    /// A tool opened inline in the page.
    EoscInline { tool_id: String, version: String },
    /// A tool that redirects to a third-party site with the selected files.
    BrowserNative { tool_id: String, files: Vec<String> },
    /// A tool that needs a provisioned environment; `requirements` is the
    /// set of file basenames the tool must find among the selected files.
    Hosted { tool_id: String, version: String, requirements: Vec<String> },
    /// Planned: hosted, allocating built-in resources.
    HostedWithBuiltInRes {
        tool_id: String,
        version: String,
        requirements: Vec<String>,
        config: Option<Config>,
        res: EnvResource,
    },
    /// Planned: hosted, asking a resource-providing tool.
    HostedWithPluginRes {
        tool_id: String,
        version: String,
        requirements: Vec<String>,
        config: Option<Config>,
        res_id: String,
        res: EnvResource,
    },
}

/// Mathematical view of [`VirtualResearchEnv`]. The opaque launch
/// configuration carries no decision content and has no view.
pub ghost enum VirtualResearchEnvV {
    EoscInline { tool_id: Seq<char>, version: Seq<char> },
    BrowserNative { tool_id: Seq<char>, files: Seq<Seq<char>> },
    Hosted { tool_id: Seq<char>, version: Seq<char>, requirements: Seq<Seq<char>> },
    HostedWithBuiltInRes {
        tool_id: Seq<char>,
        version: Seq<char>,
        requirements: Seq<Seq<char>>,
        res: EnvResource,
    },
    HostedWithPluginRes {
        tool_id: Seq<char>,
        version: Seq<char>,
        requirements: Seq<Seq<char>>,
        res_id: Seq<char>,
        res: EnvResource,
    },
}

impl View for VirtualResearchEnv {
    type V = VirtualResearchEnvV;

    open spec fn view(&self) -> VirtualResearchEnvV {
        match self {
            VirtualResearchEnv::EoscInline { tool_id, version } => {
                VirtualResearchEnvV::EoscInline { tool_id: tool_id@, version: version@ }
            },
            VirtualResearchEnv::BrowserNative { tool_id, files } => {
                VirtualResearchEnvV::BrowserNative { tool_id: tool_id@, files: strs_view(files@) }
            },
            VirtualResearchEnv::Hosted { tool_id, version, requirements } => {
                VirtualResearchEnvV::Hosted {
                    tool_id: tool_id@,
                    version: version@,
                    requirements: strs_view(requirements@),
                }
            },
            VirtualResearchEnv::HostedWithBuiltInRes {
                tool_id,
                version,
                requirements,
                res,
                ..
            } => {
                VirtualResearchEnvV::HostedWithBuiltInRes {
                    tool_id: tool_id@,
                    version: version@,
                    requirements: strs_view(requirements@),
                    res: *res,
                }
            },
            VirtualResearchEnv::HostedWithPluginRes {
                tool_id,
                version,
                requirements,
                res_id,
                res,
                ..
            } => {
                VirtualResearchEnvV::HostedWithPluginRes {
                    tool_id: tool_id@,
                    version: version@,
                    requirements: strs_view(requirements@),
                    res_id: res_id@,
                    res: *res,
                }
            },
        }
    }
}

/// View of an optional tool-resolution result.
pub open spec fn opt_vre_view(o: Option<VirtualResearchEnv>) -> Option<VirtualResearchEnvV> {
    match o {
        Option::None => Option::None,
        Option::Some(v) => Option::Some(v@),
    }
}

// ---------------------------------------------------------------------------
// Results of an assembly
// ---------------------------------------------------------------------------

/// The payload handed to the dispatcher for a hosted launch.
#[derive(Debug)]
pub struct LaunchRequest {
    pub tool_id: String,
    pub files: Vec<String>,
}

/// Mathematical view of [`LaunchRequest`].
pub ghost struct LaunchRequestV {
    pub tool_id: Seq<char>,
    pub files: Seq<Seq<char>>,
}

impl View for LaunchRequest {
    type V = LaunchRequestV;

    open spec fn view(&self) -> LaunchRequestV {
        LaunchRequestV { tool_id: self.tool_id@, files: strs_view(self.files@) }
    }
}

/// How the client reaches the assembled environment.
#[derive(Debug)]
pub enum EntryPoint {
    /// Inline tool: no callback exists; the one selected file is attached.
    EoscInline { callback: String, file: String },
    /// Hosted tool: the callback address the dispatcher returned.
    Hosted { callback_url: String },
}

/// Mathematical view of [`EntryPoint`].
pub ghost enum EntryPointV {
    EoscInline { callback: Seq<char>, file: Seq<char> },
    Hosted { callback_url: Seq<char> },
}

impl View for EntryPoint {
    type V = EntryPointV;

    open spec fn view(&self) -> EntryPointV {
        match self {
            EntryPoint::EoscInline { callback, file } => {
                EntryPointV::EoscInline { callback: callback@, file: file@ }
            },
            EntryPoint::Hosted { callback_url } => {
                EntryPointV::Hosted { callback_url: callback_url@ }
            },
        }
    }
}

/// The single descriptor one successful assembly returns.
#[derive(Debug)]
pub struct VreEntry {
    pub tool_id: String,
    pub version: String,
    pub entry_point: EntryPoint,
}

/// Mathematical view of [`VreEntry`].
pub ghost struct VreEntryV {
    pub tool_id: Seq<char>,
    pub version: Seq<char>,
    pub entry_point: EntryPointV,
}

impl View for VreEntry {
    type V = VreEntryV;

    open spec fn view(&self) -> VreEntryV {
        VreEntryV {
            tool_id: self.tool_id@,
            version: self.version@,
            entry_point: self.entry_point@,
        }
    }
}

/// A validated hosted assembly, waiting on the dispatcher: the launch
/// payload, and the version kept for the final entry.
#[derive(Debug)]
pub struct PendingLaunch {
    pub version: String,
    pub request: LaunchRequest,
}

/// Mathematical view of [`PendingLaunch`].
pub ghost struct PendingLaunchV {
    pub version: Seq<char>,
    pub request: LaunchRequestV,
}

impl View for PendingLaunch {
    type V = PendingLaunchV;

    open spec fn view(&self) -> PendingLaunchV {
        PendingLaunchV { version: self.version@, request: self.request@ }
    }
}

/// The single failure one assembly returns, with its machine-readable
/// content.
#[derive(Debug)]
pub enum AssembleError {
    /// The tool registry could not resolve the tool.
    ToolResolutionFailed,
    /// An inline tool needs exactly one selected file; `actual` says how
    /// many were selected instead.
    WrongFileCount { actual: usize },
    /// The requirements of a hosted tool that no selected file's basename
    /// meets, in requirement order.
    UnmetRequirements { unmet: Vec<String> },
    /// The launch call failed.
    DispatcherUnavailable,
    /// The resolved descriptor has no handling rule.
    UnsupportedVreVariant { tool_id: String },
}

/// Mathematical view of [`AssembleError`].
pub ghost enum AssembleErrorV {
    ToolResolutionFailed,
    WrongFileCount { actual: int },
    UnmetRequirements { unmet: Seq<Seq<char>> },
    DispatcherUnavailable,
    UnsupportedVreVariant { tool_id: Seq<char> },
}

impl View for AssembleError {
    type V = AssembleErrorV;

    open spec fn view(&self) -> AssembleErrorV {
        match self {
            AssembleError::ToolResolutionFailed => AssembleErrorV::ToolResolutionFailed,
            AssembleError::WrongFileCount { actual } => {
                AssembleErrorV::WrongFileCount { actual: *actual as int }
            },
            AssembleError::UnmetRequirements { unmet } => {
                AssembleErrorV::UnmetRequirements { unmet: strs_view(unmet@) }
            },
            AssembleError::DispatcherUnavailable => AssembleErrorV::DispatcherUnavailable,
            AssembleError::UnsupportedVreVariant { tool_id } => {
                AssembleErrorV::UnsupportedVreVariant { tool_id: tool_id@ }
            },
        }
    }
}

/// The error code of each failure class, as the wire taxonomy names it.
pub open spec fn code_of(e: AssembleErrorV) -> ErrorCode {
    match e {
        AssembleErrorV::ToolResolutionFailed => ErrorCode::ProviderUnavailable,
        AssembleErrorV::WrongFileCount { .. } => ErrorCode::ValidationFailed,
        AssembleErrorV::UnmetRequirements { .. } => ErrorCode::ValidationFailed,
        AssembleErrorV::DispatcherUnavailable => ErrorCode::DispatcherUnavailable,
        AssembleErrorV::UnsupportedVreVariant { .. } => ErrorCode::UnsupportedVreVariant,
    }
}

impl AssembleError {
    /// The machine-readable code of this failure.
    pub fn code(&self) -> (c: ErrorCode)
        ensures
            c == code_of(self@),
    {
        match self {
            AssembleError::ToolResolutionFailed => ErrorCode::ProviderUnavailable,
            AssembleError::WrongFileCount { .. } => ErrorCode::ValidationFailed,
            AssembleError::UnmetRequirements { .. } => ErrorCode::ValidationFailed,
            AssembleError::DispatcherUnavailable => ErrorCode::DispatcherUnavailable,
            AssembleError::UnsupportedVreVariant { .. } => ErrorCode::UnsupportedVreVariant,
        }
    }
}

/// What [`plan_assembly`] decides: a finished entry (inline path), a
/// validated launch to perform (hosted path), or the single failure.
#[derive(Debug)]
pub enum AssemblyStep {
    Ready(VreEntry),
    NeedsLaunch(PendingLaunch),
    Failed(AssembleError),
}

/// Mathematical view of [`AssemblyStep`].
pub ghost enum AssemblyStepV {
    Ready(VreEntryV),
    NeedsLaunch(PendingLaunchV),
    Failed(AssembleErrorV),
}

impl View for AssemblyStep {
    type V = AssemblyStepV;

    open spec fn view(&self) -> AssemblyStepV {
        match self {
            AssemblyStep::Ready(e) => AssemblyStepV::Ready(e@),
            AssemblyStep::NeedsLaunch(p) => AssemblyStepV::NeedsLaunch(p@),
            AssemblyStep::Failed(e) => AssemblyStepV::Failed(e@),
        }
    }
}

// ---------------------------------------------------------------------------
// Basenames and requirement matching
// ---------------------------------------------------------------------------

/// The characters of a path after its last `/`; the whole path when it
/// holds no `/`.
pub open spec fn basename_of(p: Seq<char>) -> Seq<char>
    decreases p.len(),
{
    if p.len() == 0 {
        Seq::empty()
    } else if p.last() == '/' {
        Seq::empty()
    } else {
        basename_of(p.drop_last()).push(p.last())
    }
}

/// A suffix that starts right after a `/` (or at the start of a slash-free
/// path) and holds no further `/` is the basename.
proof fn lemma_basename_suffix(p: Seq<char>, cut: int)
    requires
        0 <= cut <= p.len(),
        cut == 0 || p[cut - 1] == '/',
        forall|j: int| cut <= j < p.len() ==> p[j] != '/',
    ensures
        basename_of(p) == p.subrange(cut, p.len() as int),
    decreases p.len(),
{
    if p.len() == 0 {
        assert(basename_of(p) =~= p.subrange(cut, p.len() as int));
    } else if cut == p.len() {
        assert(p.last() == '/');
        assert(basename_of(p) =~= p.subrange(cut, p.len() as int));
    } else {
        assert(p.last() != '/');
        lemma_basename_suffix(p.drop_last(), cut);
        assert(basename_of(p) == p.drop_last().subrange(cut, p.len() - 1).push(p.last()));
        assert(p.drop_last().subrange(cut, p.len() - 1).push(p.last()) =~= p.subrange(
            cut,
            p.len() as int,
        ));
    }
}

/// The basename of a path, as [`basename_of`] states it.
pub fn basename(path: &str) -> (r: String)
    ensures
        r@ == basename_of(path@),
{
    let n = path.unicode_len();
    let mut cut: usize = 0;
    let mut i: usize = 0;
    while i < n
        invariant
            i <= n,
            cut <= i,
            n == path@.len(),
            cut == 0 || path@[cut - 1] == '/',
            forall|j: int| cut <= j < i ==> path@[j] != '/',
        decreases n - i,
    {
        if path.get_char(i) == '/' {
            cut = i + 1;
        }
        i = i + 1;
    }
    proof {
        lemma_basename_suffix(path@, cut as int);
    }
    let tail = path.substring_char(cut, n);
    tail.to_owned()
}

/// Whether some selected file's basename is exactly `req`.
pub open spec fn selection_has_basename(selection: Seq<Seq<char>>, req: Seq<char>) -> bool {
    exists|i: int| 0 <= i < selection.len() && basename_of(selection[i]) == req
}

/// The requirements, in their given order, that no selected file's
/// basename meets.
pub open spec fn unmet_of(requirements: Seq<Seq<char>>, selection: Seq<Seq<char>>) -> Seq<
    Seq<char>,
>
    decreases requirements.len(),
{
    if requirements.len() == 0 {
        Seq::empty()
    } else {
        unmet_of(requirements.drop_last(), selection) + (if selection_has_basename(
            selection,
            requirements.last(),
        ) {
            Seq::empty()
        } else {
            seq![requirements.last()]
        })
    }
}

/// No requirement is unmet exactly when every requirement is some selected
/// file's basename: the all-must-match rule.
pub proof fn lemma_unmet_of_empty_iff(requirements: Seq<Seq<char>>, selection: Seq<Seq<char>>)
    ensures
        unmet_of(requirements, selection).len() == 0 <==> (forall|i: int|
            0 <= i < requirements.len() ==> selection_has_basename(
                selection,
                #[trigger] requirements[i],
            )),
    decreases requirements.len(),
{
    if requirements.len() > 0 {
        lemma_unmet_of_empty_iff(requirements.drop_last(), selection);
        assert(requirements.last() == requirements[requirements.len() - 1]);
        assert(forall|i: int|
            0 <= i < requirements.len() - 1 ==> requirements.drop_last()[i]
                == #[trigger] requirements[i]);
    }
}

/// Whether some file of the selection has basename `req`, by scanning the
/// selection in order.
pub fn selection_contains(selection: &Vec<String>, req: &String) -> (b: bool)
    ensures
        b == selection_has_basename(strs_view(selection@), req@),
{
    let ghost selv = strs_view(selection@);
    let mut i: usize = 0;
    while i < selection.len()
        invariant
            i <= selection@.len(),
            selv == strs_view(selection@),
            forall|j: int| 0 <= j < i ==> basename_of(selv[j]) != req@,
        decreases selection@.len() - i,
    {
        let b = basename(selection[i].as_str());
        if b == *req {
            proof {
                assert(basename_of(selv[i as int]) == req@);
            }
            return true;
        }
        i = i + 1;
    }
    false
}

/// The unmet requirements of a hosted tool against a selection, in
/// requirement order, as [`unmet_of`] states them.
pub fn unmet_requirements(requirements: &Vec<String>, selection: &Vec<String>) -> (unmet: Vec<
    String,
>)
    ensures
        strs_view(unmet@) == unmet_of(strs_view(requirements@), strs_view(selection@)),
{
    let ghost reqsv = strs_view(requirements@);
    let ghost selv = strs_view(selection@);
    let mut unmet: Vec<String> = Vec::new();
    let mut i: usize = 0;
    while i < requirements.len()
        invariant
            i <= requirements@.len(),
            reqsv == strs_view(requirements@),
            selv == strs_view(selection@),
            strs_view(unmet@) == unmet_of(reqsv.take(i as int), selv),
        decreases requirements@.len() - i,
    {
        let ghost unmet_before = strs_view(unmet@);
        let present = selection_contains(selection, &requirements[i]);
        if !present {
            unmet.push(requirements[i].clone());
        }
        proof {
            let t = reqsv.take(i as int + 1);
            assert(t.drop_last() =~= reqsv.take(i as int));
            assert(t.last() == reqsv[i as int]);
            if present {
                assert(strs_view(unmet@) =~= unmet_before + Seq::<Seq<char>>::empty());
            } else {
                assert(strs_view(unmet@) =~= unmet_before + seq![reqsv[i as int]]);
            }
        }
        i = i + 1;
    }
    proof {
        assert(reqsv.take(reqsv.len() as int) =~= reqsv);
    }
    unmet
}

// ---------------------------------------------------------------------------
// The decision engine
// ---------------------------------------------------------------------------

/// The callback field of an inline entry: no callback address exists on
/// that path, the field carries this fixed placeholder.
pub open spec fn inline_callback_placeholder() -> Seq<char> {
    "inline"@
}

/// What assembly decides for one resolved tool and one selection: the
/// whole dispatch-and-validate rule of the engine.
///
/// A failed resolution fails the request. An inline tool requires exactly
/// one selected file and is ready at once, never launching. A hosted tool
/// requires every requirement to be some selected file's basename
/// (all-must-match); only then is the one launch planned, with the whole
/// selection as payload. Every other variant fails explicitly as
/// unsupported.
pub open spec fn assembly_plan(
    resolution: Option<VirtualResearchEnvV>,
    selection: Seq<Seq<char>>,
) -> AssemblyStepV {
    match resolution {
        Option::None => AssemblyStepV::Failed(AssembleErrorV::ToolResolutionFailed),
        Option::Some(tool) => match tool {
            VirtualResearchEnvV::EoscInline { tool_id, version } => {
                if selection.len() == 1 {
                    AssemblyStepV::Ready(
                        VreEntryV {
                            tool_id,
                            version,
                            entry_point: EntryPointV::EoscInline {
                                callback: inline_callback_placeholder(),
                                file: selection[0],
                            },
                        },
                    )
                } else {
                    AssemblyStepV::Failed(
                        AssembleErrorV::WrongFileCount { actual: selection.len() as int },
                    )
                }
            },
            VirtualResearchEnvV::Hosted { tool_id, version, requirements } => {
                if unmet_of(requirements, selection).len() == 0 {
                    AssemblyStepV::NeedsLaunch(
                        PendingLaunchV {
                            version,
                            request: LaunchRequestV { tool_id, files: selection },
                        },
                    )
                } else {
                    AssemblyStepV::Failed(
                        AssembleErrorV::UnmetRequirements {
                            unmet: unmet_of(requirements, selection),
                        },
                    )
                }
            },
            VirtualResearchEnvV::BrowserNative { tool_id, .. } => {
                AssemblyStepV::Failed(AssembleErrorV::UnsupportedVreVariant { tool_id })
            },
            VirtualResearchEnvV::HostedWithBuiltInRes { tool_id, .. } => {
                AssemblyStepV::Failed(AssembleErrorV::UnsupportedVreVariant { tool_id })
            },
            VirtualResearchEnvV::HostedWithPluginRes { tool_id, .. } => {
                AssemblyStepV::Failed(AssembleErrorV::UnsupportedVreVariant { tool_id })
            },
        },
    }
}

/// Dispatch and validate one assembly request.
///
/// `resolution` is the tool registry's answer, `None` where resolution
/// failed. The result is exactly what [`assembly_plan`] states: either the
/// finished inline entry, or the single validated launch to perform, or
/// the single failure. No launch is planned on any other outcome.
pub fn plan_assembly(resolution: Option<VirtualResearchEnv>, selection: Vec<String>) -> (step:
    AssemblyStep)
    ensures
        step@ == assembly_plan(opt_vre_view(resolution), strs_view(selection@)),
{
    match resolution {
        Option::None => AssemblyStep::Failed(AssembleError::ToolResolutionFailed),
        Option::Some(tool) => match tool {
            VirtualResearchEnv::EoscInline { tool_id, version } => {
                if selection.len() == 1 {
                    let mut sel = selection;
                    let file = sel.remove(0);
                    AssemblyStep::Ready(VreEntry {
                        tool_id,
                        version,
                        entry_point: EntryPoint::EoscInline {
                            callback: "inline".to_owned(),
                            file,
                        },
                    })
                } else {
                    AssemblyStep::Failed(AssembleError::WrongFileCount { actual: selection.len() })
                }
            },
            VirtualResearchEnv::Hosted { tool_id, version, requirements } => {
                let unmet = unmet_requirements(&requirements, &selection);
                if unmet.is_empty() {
                    AssemblyStep::NeedsLaunch(PendingLaunch {
                        version,
                        request: LaunchRequest { tool_id, files: selection },
                    })
                } else {
                    AssemblyStep::Failed(AssembleError::UnmetRequirements { unmet })
                }
            },
            VirtualResearchEnv::BrowserNative { tool_id, .. } => {
                AssemblyStep::Failed(AssembleError::UnsupportedVreVariant { tool_id })
            },
            VirtualResearchEnv::HostedWithBuiltInRes { tool_id, .. } => {
                AssemblyStep::Failed(AssembleError::UnsupportedVreVariant { tool_id })
            },
            VirtualResearchEnv::HostedWithPluginRes { tool_id, .. } => {
                AssemblyStep::Failed(AssembleError::UnsupportedVreVariant { tool_id })
            },
        },
    }
}

/// Finish a validated hosted assembly with the dispatcher's answer.
///
/// `launch_result` is the callback address the launch call returned,
/// `None` where the call failed. Success builds the one hosted entry
/// around that address; failure is the single `DispatcherUnavailable`
/// error. Nothing else is ever returned.
pub fn complete_launch(pending: PendingLaunch, launch_result: Option<String>) -> (r: Result<
    VreEntry,
    AssembleError,
>)
    ensures
        launch_result matches Option::Some(url) ==> (r matches Result::Ok(e) && e@ == (VreEntryV {
            tool_id: pending.request.tool_id@,
            version: pending.version@,
            entry_point: EntryPointV::Hosted { callback_url: url@ },
        })),
        launch_result matches Option::None ==> (r matches Result::Err(e) && e@
            == AssembleErrorV::DispatcherUnavailable),
{
    match launch_result {
        Option::Some(url) => Result::Ok(VreEntry {
            tool_id: pending.request.tool_id,
            version: pending.version,
            entry_point: EntryPoint::Hosted { callback_url: url },
        }),
        Option::None => Result::Err(AssembleError::DispatcherUnavailable),
    }
}

// ---------------------------------------------------------------------------
// Laws of the engine
// ---------------------------------------------------------------------------

/// LAW. Against an inline tool, a one-file selection yields a ready entry
/// whose inline entry point carries exactly that file; any other selection
/// size fails validation naming the actual count. Neither outcome ever
/// plans a launch: the inline path never reaches the dispatcher.
pub proof fn lemma_inline_dispatch(
    tool_id: Seq<char>,
    version: Seq<char>,
    selection: Seq<Seq<char>>,
)
    ensures
        ({
            let step = assembly_plan(
                Option::Some(VirtualResearchEnvV::EoscInline { tool_id, version }),
                selection,
            );
            &&& selection.len() == 1 ==> step == AssemblyStepV::Ready(
                VreEntryV {
                    tool_id,
                    version,
                    entry_point: EntryPointV::EoscInline {
                        callback: inline_callback_placeholder(),
                        file: selection[0],
                    },
                },
            )
            &&& selection.len() != 1 ==> step == AssemblyStepV::Failed(
                AssembleErrorV::WrongFileCount { actual: selection.len() as int },
            )
            &&& !(step is NeedsLaunch)
        }),
{
}

/// LAW. Against a hosted tool, the one launch is planned — with the whole
/// selection as payload — exactly when every requirement is the basename
/// of some selected file; otherwise validation fails, enumerating the
/// unmet requirements in order, and no launch is planned.
pub proof fn lemma_hosted_dispatch(
    tool_id: Seq<char>,
    version: Seq<char>,
    requirements: Seq<Seq<char>>,
    selection: Seq<Seq<char>>,
)
    ensures
        ({
            let step = assembly_plan(
                Option::Some(
                    VirtualResearchEnvV::Hosted { tool_id, version, requirements },
                ),
                selection,
            );
            &&& (forall|i: int|
                0 <= i < requirements.len() ==> selection_has_basename(
                    selection,
                    #[trigger] requirements[i],
                )) <==> step == AssemblyStepV::NeedsLaunch(
                PendingLaunchV {
                    version,
                    request: LaunchRequestV { tool_id, files: selection },
                },
            )
            &&& !(step is NeedsLaunch) ==> (step matches AssemblyStepV::Failed(
                AssembleErrorV::UnmetRequirements { unmet },
            ) && unmet == unmet_of(requirements, selection) && unmet.len() > 0)
        }),
{
    lemma_unmet_of_empty_iff(requirements, selection);
}

} // verus!
