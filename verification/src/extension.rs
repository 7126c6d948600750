//! The extension program: its loading for a target function, and its links.
//!
//! Each operation that needs the kernel comes in two halves. The first says
//! which call to make, as a request of plain numbers; the second takes the
//! kernel's answer and moves the program on.

use vstd::prelude::*;
use crate::error::{ProgramError, Syscall};
use crate::handles::{LinkHandle, ProgramHandle, TypeGraphHandle};
use crate::links::{holds, inserted, LinkId, LinkTable};
use crate::resolver::Resolved;
use crate::type_graph::{extension_attach_type, extension_program_type};

verus! {

/// What a load recorded of its target, for the kernel's verifier and for
/// `Extension::attach`.
#[derive(Debug, PartialEq, Eq, Structural)]
pub struct AttachParameters {
    /// The program that holds the function to replace.
    pub target_program: ProgramHandle,
    /// The type description of that program.
    pub attach_btf_object: TypeGraphHandle,
    /// The id of the function in that type description.
    pub attach_btf_id: u32,
}

/// How far an extension has come.
#[derive(Debug, PartialEq, Eq, Structural)]
pub enum ExtensionState {
    /// Not loaded, and no load under way.
    NotLoaded,
    /// The request to load went out, and its answer is due.
    Loading(AttachParameters),
    /// Loaded, as `program`, for the target in `params`.
    Loaded { program: ProgramHandle, params: AttachParameters },
}

/// The call that loads the extension.
#[derive(Debug, Clone, Copy, PartialEq, Eq, Structural)]
pub struct LoadRequest {
    /// The kernel's number for the program type of extensions.
    pub program_type: u32,
    pub attach_prog_fd: i32,
    pub attach_btf_obj_fd: i32,
    pub attach_btf_id: u32,
}

/// A load that did not come about. The handles that the load had taken
/// come back, for the caller to close.
#[derive(Debug)]
pub struct LoadRefused {
    pub error: ProgramError,
    pub release_program: Option<ProgramHandle>,
    pub release_type_graph: Option<TypeGraphHandle>,
}

/// The call that creates the link of an extension.
#[derive(Debug, Clone, Copy, PartialEq, Eq, Structural)]
pub struct LinkRequest {
    /// The extension.
    pub program_fd: i32,
    /// The program that holds the function to replace.
    pub target_fd: i32,
    /// Always 0: the kernel wants this attach type for an extension's link
    /// and reads nothing from it.
    pub attach_type: u32,
    /// Always 0.
    pub flags: u32,
    /// The id of the function to replace.
    pub target_btf_id: u32,
}

/// The call that links the extension to a target other than the one it was
/// loaded for, and the type description that was opened to find the
/// function, for the caller to close.
#[derive(Debug, PartialEq, Eq, Structural)]
pub struct LinkPlan {
    pub request: LinkRequest,
    pub close: TypeGraphHandle,
}

/// An attachment to another target that did not come about, with the type
/// description to close where one was opened.
#[derive(Debug)]
pub struct AttachRefused {
    pub error: ProgramError,
    pub close: Option<TypeGraphHandle>,
}

/// A program that replaces a function of another, loaded program.
#[derive(Debug)]
pub struct Extension {
    state: ExtensionState,
    links: LinkTable,
}

/// An `Extension` as contracts see it.
pub ghost struct ExtensionView {
    pub state: ExtensionState,
    pub links: Seq<Option<LinkHandle>>,
}

/// The load request that carries `params`.
pub open spec fn load_request_for(params: AttachParameters) -> LoadRequest {
    LoadRequest {
        program_type: 28,
        attach_prog_fd: params.target_program.fd,
        attach_btf_obj_fd: params.attach_btf_object.fd,
        attach_btf_id: params.attach_btf_id,
    }
}

/// The request that links `program_fd` to the function `target_btf_id` of
/// `target_fd`.
pub open spec fn link_request_for(program_fd: i32, target_fd: i32, target_btf_id: u32) -> LinkRequest {
    LinkRequest { program_fd, target_fd, attach_type: 0, flags: 0, target_btf_id }
}

/// `Extension::load`: the state it leaves and what it returns.
pub open spec fn after_load(
    state: ExtensionState,
    program: ProgramHandle,
    resolution: Result<Resolved, ProgramError>,
) -> (ExtensionState, Result<LoadRequest, LoadRefused>) {
    match resolution {
        Err(error) => (
            state,
            Err(LoadRefused { error, release_program: Some(program), release_type_graph: None }),
        ),
        Ok(found) => if state is NotLoaded {
            let params = AttachParameters {
                target_program: program,
                attach_btf_object: found.handle,
                attach_btf_id: found.type_id,
            };
            (ExtensionState::Loading(params), Ok(load_request_for(params)))
        } else {
            (
                state,
                Err(
                    LoadRefused {
                        error: ProgramError::AlreadyLoaded,
                        release_program: Some(program),
                        release_type_graph: Some(found.handle),
                    },
                ),
            )
        },
    }
}

/// `Extension::load_finished`: the state it leaves and what it returns.
pub open spec fn after_load_finished(state: ExtensionState, outcome: Result<ProgramHandle, i32>) -> (
    ExtensionState,
    Result<(), LoadRefused>,
) {
    match state {
        ExtensionState::Loading(params) => match outcome {
            Ok(program) => (ExtensionState::Loaded { program, params }, Ok(())),
            Err(io_error) => (
                ExtensionState::NotLoaded,
                Err(
                    LoadRefused {
                        error: ProgramError::SyscallError { call: Syscall::ProgLoad, io_error },
                        release_program: Some(params.target_program),
                        release_type_graph: Some(params.attach_btf_object),
                    },
                ),
            ),
        },
        _ => (
            state,
            Err(
                LoadRefused {
                    error: if state is Loaded {
                        ProgramError::AlreadyLoaded
                    } else {
                        ProgramError::NotLoaded
                    },
                    release_program: match outcome {
                        Ok(program) => Some(program),
                        Err(_) => None,
                    },
                    release_type_graph: None,
                },
            ),
        ),
    }
}

/// `Extension::attach`: what it returns.
pub open spec fn attach_request(state: ExtensionState) -> Result<LinkRequest, ProgramError> {
    match state {
        ExtensionState::Loaded { program, params } => Ok(
            link_request_for(program.fd, params.target_program.fd, params.attach_btf_id),
        ),
        _ => Err(ProgramError::NotLoaded),
    }
}

/// `Extension::attach_to_program`: what it returns.
pub open spec fn attach_to_program_plan(
    state: ExtensionState,
    target_fd: i32,
    resolution: Result<Resolved, ProgramError>,
) -> Result<LinkPlan, AttachRefused> {
    match resolution {
        Err(error) => Err(AttachRefused { error, close: None }),
        Ok(found) => match state {
            ExtensionState::Loaded { program, params } => Ok(
                LinkPlan {
                    request: link_request_for(program.fd, target_fd, found.type_id),
                    close: found.handle,
                },
            ),
            _ => Err(AttachRefused { error: ProgramError::NotLoaded, close: Some(found.handle) }),
        },
    }
}

/// `Extension::link_created`: the extension it leaves and what it returns.
pub open spec fn after_link_created(before: ExtensionView, outcome: Result<LinkHandle, i32>) -> (
    ExtensionView,
    Result<LinkId, ProgramError>,
) {
    match outcome {
        Ok(link) => (
            ExtensionView { state: before.state, links: inserted(before.links, link).0 },
            Ok(inserted(before.links, link).1),
        ),
        Err(io_error) => (
            before,
            Err(ProgramError::SyscallError { call: Syscall::LinkCreate, io_error }),
        ),
    }
}

impl View for Extension {
    type V = ExtensionView;

    closed spec fn view(&self) -> ExtensionView {
        ExtensionView { state: self.state, links: self.links@ }
    }
}

impl Extension {
    /// The kernel's number for the program type of extensions.
    pub const PROGRAM_TYPE: u32 = 28;

    /// An extension that is not loaded and has no links.
    pub fn new() -> (fresh: Extension)
        ensures
            fresh@.state == ExtensionState::NotLoaded,
            fresh@.links == Seq::<Option<LinkHandle>>::empty(),
    {
        Extension { state: ExtensionState::NotLoaded, links: LinkTable::new() }
    }

    /// Begins to load the extension for the function that `resolution`
    /// found in `program`.
    ///
    /// Where the resolution failed, its error comes back and nothing
    /// changes. Where the extension is loaded or being loaded, the load is
    /// refused with `AlreadyLoaded`. Else the extension keeps the target and
    /// gives the request to make; `load_finished` takes the answer.
    pub fn load(&mut self, program: ProgramHandle, resolution: Result<Resolved, ProgramError>) -> (request:
        Result<LoadRequest, LoadRefused>)
        ensures
            (final(self)@.state, request) == after_load(old(self)@.state, program, resolution),
            final(self)@.links == old(self)@.links,
    {
        match resolution {
            Err(error) => Err(
                LoadRefused { error, release_program: Some(program), release_type_graph: None },
            ),
            Ok(found) => {
                if self.is_not_loaded() {
                    let request = LoadRequest {
                        program_type: extension_program_type(),
                        attach_prog_fd: program.fd,
                        attach_btf_obj_fd: found.handle.fd,
                        attach_btf_id: found.type_id,
                    };
                    self.state = ExtensionState::Loading(
                        AttachParameters {
                            target_program: program,
                            attach_btf_object: found.handle,
                            attach_btf_id: found.type_id,
                        },
                    );
                    Ok(request)
                } else {
                    Err(
                        LoadRefused {
                            error: ProgramError::AlreadyLoaded,
                            release_program: Some(program),
                            release_type_graph: Some(found.handle),
                        },
                    )
                }
            },
        }
    }

    /// Takes the kernel's answer to the request that `load` gave: the handle
    /// of the loaded extension, or the error number.
    ///
    /// On an error the extension is not loaded again and keeps nothing of
    /// the target: both handles come back. Where no load is under way the
    /// answer is refused, and the handle in it comes back.
    pub fn load_finished(&mut self, outcome: Result<ProgramHandle, i32>) -> (done: Result<
        (),
        LoadRefused,
    >)
        ensures
            (final(self)@.state, done) == after_load_finished(old(self)@.state, outcome),
            final(self)@.links == old(self)@.links,
    {
        let mut state = ExtensionState::NotLoaded;
        std::mem::swap(&mut state, &mut self.state);
        match state {
            ExtensionState::Loading(params) => match outcome {
                Ok(program) => {
                    self.state = ExtensionState::Loaded { program, params };
                    Ok(())
                },
                Err(io_error) => Err(
                    LoadRefused {
                        error: ProgramError::SyscallError { call: Syscall::ProgLoad, io_error },
                        release_program: Some(params.target_program),
                        release_type_graph: Some(params.attach_btf_object),
                    },
                ),
            },
            other => {
                let error = match &other {
                    ExtensionState::Loaded { .. } => ProgramError::AlreadyLoaded,
                    _ => ProgramError::NotLoaded,
                };
                self.state = other;
                Err(LoadRefused { error, release_program: outcome.ok(), release_type_graph: None })
            },
        }
    }

    /// The request that links the extension to the function it was loaded
    /// for; `NotLoaded`, and no request, where it is not loaded.
    /// `link_created` takes the kernel's answer.
    pub fn attach(&self) -> (request: Result<LinkRequest, ProgramError>)
        ensures
            request == attach_request(self@.state),
    {
        match &self.state {
            ExtensionState::Loaded { program, params } => Ok(
                LinkRequest {
                    program_fd: program.fd,
                    target_fd: params.target_program.fd,
                    attach_type: extension_attach_type(),
                    flags: 0,
                    target_btf_id: params.attach_btf_id,
                },
            ),
            _ => Err(ProgramError::NotLoaded),
        }
    }

    /// The request that links the extension to the function that
    /// `resolution` found in `program`, which need not be the one it was
    /// loaded for. The extension is left as it is. `link_created` takes the
    /// kernel's answer.
    ///
    /// The error of a failed resolution comes first, then `NotLoaded`. The
    /// type description that the resolution opened is needed no longer and
    /// comes back either way.
    pub fn attach_to_program(
        &self,
        program: &ProgramHandle,
        resolution: Result<Resolved, ProgramError>,
    ) -> (plan: Result<LinkPlan, AttachRefused>)
        ensures
            plan == attach_to_program_plan(self@.state, program.fd, resolution),
    {
        match resolution {
            Err(error) => Err(AttachRefused { error, close: None }),
            Ok(found) => match &self.state {
                ExtensionState::Loaded { program: own, params: _ } => Ok(
                    LinkPlan {
                        request: LinkRequest {
                            program_fd: own.fd,
                            target_fd: program.fd,
                            attach_type: extension_attach_type(),
                            flags: 0,
                            target_btf_id: found.type_id,
                        },
                        close: found.handle,
                    },
                ),
                _ => Err(AttachRefused { error: ProgramError::NotLoaded, close: Some(found.handle) }),
            },
        }
    }

    /// The table of links has no more slots than `usize` counts.
    pub proof fn lemma_links_fit(&self)
        ensures
            self@.links.len() <= usize::MAX,
    {
        self.links.lemma_len_fits();
    }

    /// Takes the kernel's answer to a link request: the new link, which goes
    /// into the table under an id that no live link has, or the error
    /// number. The links that were live stay so.
    pub fn link_created(&mut self, outcome: Result<LinkHandle, i32>) -> (id: Result<
        LinkId,
        ProgramError,
    >)
        ensures
            (final(self)@, id) == after_link_created(old(self)@, outcome),
            id matches Ok(new_id) ==> !holds(old(self)@.links, new_id) && holds(
                final(self)@.links,
                new_id,
            ),
            forall|live: LinkId|
                holds(old(self)@.links, live) ==> holds(final(self)@.links, live) && id != Ok::<
                    LinkId,
                    ProgramError,
                >(live),
    {
        match outcome {
            Ok(link) => Ok(self.links.insert(link)),
            Err(io_error) => Err(
                ProgramError::SyscallError { call: Syscall::LinkCreate, io_error },
            ),
        }
    }

    /// Takes the link with the id `id` out of the table, for the caller to
    /// close; `NotAttached` where the id has no live link.
    pub fn detach(&mut self, id: LinkId) -> (taken: Result<LinkHandle, ProgramError>)
        ensures
            final(self)@.state == old(self)@.state,
            match taken {
                Ok(link) => holds(old(self)@.links, id) && old(self)@.links[id.index as int]
                    == Some(link) && final(self)@.links == old(self)@.links.update(
                    id.index as int,
                    None,
                ),
                Err(error) => !holds(old(self)@.links, id) && error is NotAttached
                    && final(self)@.links == old(self)@.links,
            },
    {
        self.links.remove(id)
    }

    /// Whether neither a load has succeeded nor one is under way.
    pub fn is_not_loaded(&self) -> (idle: bool)
        ensures
            idle == (self@.state is NotLoaded),
    {
        match &self.state {
            ExtensionState::NotLoaded => true,
            _ => false,
        }
    }

    /// Whether the extension is loaded.
    pub fn is_loaded(&self) -> (loaded: bool)
        ensures
            loaded == (self@.state is Loaded),
    {
        match &self.state {
            ExtensionState::Loaded { .. } => true,
            _ => false,
        }
    }

    /// The target that the extension keeps: the one of the load under way,
    /// or of the load that succeeded.
    pub fn attach_parameters(&self) -> (params: Option<&AttachParameters>)
        ensures
            match self@.state {
                ExtensionState::NotLoaded => params is None,
                ExtensionState::Loading(kept) => params == Some(&kept),
                ExtensionState::Loaded { program, params: kept } => params == Some(&kept),
            },
    {
        match &self.state {
            ExtensionState::NotLoaded => None,
            ExtensionState::Loading(kept) => Some(kept),
            ExtensionState::Loaded { program: _, params } => Some(params),
        }
    }

    /// The links of the extension.
    pub fn links(&self) -> (table: &LinkTable)
        ensures
            table@ == self@.links,
    {
        &self.links
    }
}

/// An extension that no load has brought to `Loaded` gives no link request:
/// `attach` fails with `NotLoaded`. A load whose resolution failed, and a
/// load that the kernel refused, both leave it so.
pub proof fn lemma_attach_needs_load(
    state: ExtensionState,
    program: ProgramHandle,
    error: ProgramError,
    io_error: i32,
)
    requires
        !(state is Loaded),
    ensures
        attach_request(state) == Err::<LinkRequest, ProgramError>(ProgramError::NotLoaded),
        !(after_load(state, program, Err(error)).0 is Loaded),
        !(after_load_finished(state, Err(io_error)).0 is Loaded),
        after_load_finished(state, Err(io_error)).0 is NotLoaded || after_load_finished(
            state,
            Err(io_error),
        ).0 == state,
{
}

/// After a load that succeeded, `attach` asks for a link from the loaded
/// extension to the program that was given to `load`, at the function id
/// that the load's resolution found, with attach type 0.
pub proof fn lemma_attach_follows_load(program: ProgramHandle, found: Resolved, loaded: ProgramHandle)
    ensures
        ({
            let (loading, request) = after_load(ExtensionState::NotLoaded, program, Ok(found));
            let (done, answer) = after_load_finished(loading, Ok(loaded));
            &&& request == Ok::<LoadRequest, LoadRefused>(
                LoadRequest {
                    program_type: 28,
                    attach_prog_fd: program.fd,
                    attach_btf_obj_fd: found.handle.fd,
                    attach_btf_id: found.type_id,
                },
            )
            &&& answer is Ok
            &&& attach_request(done) == Ok::<LinkRequest, ProgramError>(
                LinkRequest {
                    program_fd: loaded.fd,
                    target_fd: program.fd,
                    attach_type: 0,
                    flags: 0,
                    target_btf_id: found.type_id,
                },
            )
        }),
{
}

/// A load that the kernel refused keeps nothing: the extension is not
/// loaded, and the two handles that the load had taken come back.
pub proof fn lemma_refused_load_keeps_nothing(
    program: ProgramHandle,
    found: Resolved,
    io_error: i32,
)
    ensures
        ({
            let (loading, request) = after_load(ExtensionState::NotLoaded, program, Ok(found));
            let (done, answer) = after_load_finished(loading, Err(io_error));
            &&& done is NotLoaded
            &&& answer matches Err(refused) && refused.release_program == Some(program)
                && refused.release_type_graph == Some(found.handle)
        }),
{
}

/// Linking to another target leaves what the load recorded: whatever the
/// target, the resolution and the kernel's answer, the state of the extension
/// stays, and `attach` asks for the same link as before.
pub proof fn lemma_other_target_leaves_load(before: ExtensionView, outcome: Result<LinkHandle, i32>)
    ensures
        after_link_created(before, outcome).0.state == before.state,
        attach_request(after_link_created(before, outcome).0.state) == attach_request(before.state),
{
}

/// Two links created one after the other get two ids, both live afterwards:
/// also where the two requests were the same. The table is one that can
/// exist: after both links it has no more slots than `usize` counts, which
/// `Extension::lemma_links_fit` shows of every table. `link_created` states
/// the same of each single call, for every table.
pub proof fn lemma_each_link_has_its_id(before: ExtensionView, first: LinkHandle, second: LinkHandle)
    requires
        before.links.len() + 2 <= usize::MAX,
    ensures
        ({
            let (once, first_id) = after_link_created(before, Ok(first));
            let (twice, second_id) = after_link_created(once, Ok(second));
            &&& first_id matches Ok(a) && second_id matches Ok(b) && a != b && holds(twice.links, a)
                && holds(twice.links, b)
        }),
{
}

} // verus!
