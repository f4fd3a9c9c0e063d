//! The interface of a backend.
//!
//! A backend is one way of running one family of languages. It says what it
//! is (its [`Profile`]), holds the state of one run (its [`Instance`] view)
//! and performs the stages of the run. The stages that touch the host are
//! split: the backend says what to write and what to start, the host does it,
//! and the backend reads the report.

use crate::context::DataHolder;
use crate::error::{verdict_of, SniprunError};
use crate::level::SupportLevel;
use crate::process::{run_verdict, Invocation, InvocationView, ProcessReport};
use crate::registry::{BackendDescriptor, Descriptor};
use crate::text::{has_more_than_spaces, has_visible_text, without_spaces, without_whitespace};
use crate::workspace::{artifact_of, workspace_of};
use vstd::prelude::*;

verus! {

/// What a backend is, whatever it runs.
pub struct Profile {
    /// Identifier of the backend, and name of its directory.
    pub name: Seq<char>,
    /// A name to show to people, then the filetypes that the backend claims.
    pub languages: Seq<Seq<char>>,
    /// The most context that the backend can handle.
    pub max_support_level: SupportLevel,
    /// Whether the backend is preferred for its filetypes.
    pub default_for_filetype: bool,
    /// Name of the file, inside the backend's directory, that holds the code.
    pub artifact_name: Seq<char>,
    /// The external program that runs the artifact.
    pub program: Seq<char>,
    /// The arguments that precede the artifact's path.
    pub args: Seq<Seq<char>>,
}

impl Profile {
    /// The filetypes that the backend claims: its languages but the first,
    /// which is for display only.
    pub open spec fn filetypes(self) -> Seq<Seq<char>> {
        self.languages.skip(1)
    }

    /// The entry of the backend in the registry.
    pub open spec fn descriptor(self) -> Descriptor {
        Descriptor {
            name: self.name,
            filetypes: self.filetypes(),
            max_support_level: self.max_support_level,
            is_default_for_filetype: self.default_for_filetype,
        }
    }

    /// The artifact of the backend below `cache_root`.
    pub open spec fn artifact(self, cache_root: Seq<char>) -> Seq<char> {
        artifact_of(cache_root, self.name, self.artifact_name)
    }

    /// The start of the backend's program on its artifact below `cache_root`.
    pub open spec fn invocation(self, cache_root: Seq<char>) -> InvocationView {
        InvocationView {
            program: self.program,
            args: self.args,
            artifact_path: self.artifact(cache_root),
        }
    }
}

/// A file for the host to write: the path, and the text that is to be all of
/// its content.
#[derive(Debug, PartialEq, Eq)]
pub struct Artifact {
    pub path: String,
    pub content: String,
}

/// The mathematical content of an [`Artifact`].
pub struct ArtifactView {
    pub path: Seq<char>,
    pub content: Seq<char>,
}

impl View for Artifact {
    type V = ArtifactView;

    open spec fn view(&self) -> ArtifactView {
        ArtifactView { path: self.path@, content: self.content@ }
    }
}

/// The state of one run of a backend.
pub struct Instance {
    /// The level in force; never above the backend's maximum.
    pub level: SupportLevel,
    /// The request, as the host made it.
    pub data: DataHolder,
    /// The code to run, once it is fetched.
    pub code: Seq<char>,
}

/// The code that a run at `level` takes from `data`: the block as it stands if
/// it holds more than whitespace and the level reaches `Bloc`; else the line
/// if it holds more than spaces and the level reaches `Line`; else nothing.
pub open spec fn fetched(data: DataHolder, level: SupportLevel) -> Seq<char> {
    if without_whitespace(data.current_bloc@).len() > 0 && level.reaches(SupportLevel::Bloc) {
        data.current_bloc@
    } else if without_spaces(data.current_line@).len() > 0 && level.reaches(SupportLevel::Line) {
        data.current_line@
    } else {
        Seq::empty()
    }
}

impl Instance {
    /// The state after Fetch: the code is what the level in force admits of
    /// the request.
    pub open spec fn after_fetch(self) -> Instance {
        Instance { code: fetched(self.data, self.level), ..self }
    }

    /// The state with other code.
    pub open spec fn with_code(self, code: Seq<char>) -> Instance {
        Instance { code, ..self }
    }

    /// The state after the level is lowered to `level`; a higher `level`
    /// changes nothing.
    pub open spec fn after_lowering(self, level: SupportLevel) -> Instance {
        Instance { level: self.level.lower(level), ..self }
    }
}

/// Takes from `data` the code that a run at `level` is to see.
pub fn fetch(data: &DataHolder, level: SupportLevel) -> (code: String)
    ensures
        code@ == fetched(*data, level),
{
    if level >= SupportLevel::Bloc && has_visible_text(data.current_bloc.as_str()) {
        data.current_bloc.clone()
    } else if level >= SupportLevel::Line && has_more_than_spaces(data.current_line.as_str()) {
        data.current_line.clone()
    } else {
        String::new()
    }
}

/// The content of a list of strings.
pub open spec fn texts(list: Seq<String>) -> Seq<Seq<char>> {
    list.map_values(|text: String| text@)
}

/// What every backend offers.
pub trait Interpreter: Sized {
    /// What the backend is.
    spec fn profile() -> Profile;

    /// The code with the backend's fixed text put around it.
    spec fn wrapped(code: Seq<char>) -> Seq<char>;

    /// Code that is wrapped already is left as it is.
    proof fn wrapping_is_idempotent(code: Seq<char>)
        ensures
            Self::wrapped(Self::wrapped(code)) == Self::wrapped(code),
    ;

    /// The state of the run.
    spec fn state(&self) -> Instance;

    /// The instance is valid; in particular its level does not exceed the
    /// backend's maximum.
    spec fn wf(&self) -> bool;

    /// A valid instance never runs above its backend's maximum.
    proof fn level_is_capped(&self)
        requires
            self.wf(),
        ensures
            Self::profile().max_support_level.reaches(self.state().level),
    ;

    /// An instance for `data` at `level`, or at the backend's maximum if
    /// `level` exceeds it. No code is fetched yet.
    fn new_with_level(data: DataHolder, level: SupportLevel) -> (instance: Box<Self>)
        ensures
            instance.wf(),
            instance.state() == (Instance {
                level: level.lower(Self::profile().max_support_level),
                data,
                code: Seq::empty(),
            }),
    ;

    /// An instance for `data` at the backend's maximum level.
    fn new(data: DataHolder) -> (instance: Box<Self>)
        ensures
            instance.wf(),
            instance.state() == (Instance {
                level: Self::profile().max_support_level,
                data,
                code: Seq::empty(),
            }),
    {
        Self::new_with_level(data, Self::get_max_support_level())
    }

    /// The backend's display name, then the filetypes it claims.
    fn get_supported_languages() -> (languages: Vec<String>)
        ensures
            languages@.len() > 0,
            texts(languages@) == Self::profile().languages,
    ;

    /// The backend's identifier.
    fn get_name() -> (name: String)
        ensures
            name@ == Self::profile().name,
    ;

    /// The level in force.
    fn get_current_level(&self) -> (level: SupportLevel)
        ensures
            level == self.state().level,
    ;

    /// Lowers the level in force to `level`. A `level` above the one in force
    /// changes nothing: the level of a run never rises.
    fn set_current_level(&mut self, level: SupportLevel)
        requires
            old(self).wf(),
        ensures
            final(self).wf(),
            final(self).state() == old(self).state().after_lowering(level),
    ;

    /// Whether the backend is preferred for its filetypes.
    fn default_for_filetype() -> (hint: bool)
        ensures
            hint == Self::profile().default_for_filetype,
    ;

    /// A copy of the request.
    fn get_data(&self) -> (data: DataHolder)
        ensures
            data == self.state().data,
    ;

    /// The most context that the backend can handle.
    fn get_max_support_level() -> (level: SupportLevel)
        ensures
            level == Self::profile().max_support_level,
    ;

    /// Fetch: takes from the request the code that the level in force admits.
    /// Finding no code is no failure.
    fn fetch_code(&mut self) -> (result: Result<(), SniprunError>)
        requires
            old(self).wf(),
        ensures
            result is Ok,
            final(self).wf(),
            final(self).state() == old(self).state().after_fetch(),
    ;

    /// Augment: puts the backend's fixed text around the code.
    fn add_boilerplate(&mut self) -> (result: Result<(), SniprunError>)
        requires
            old(self).wf(),
        ensures
            result is Ok,
            final(self).wf(),
            final(self).state() == old(self).state().with_code(
                Self::wrapped(old(self).state().code),
            ),
    ;

    /// The directory that the backend owns below the request's cache root.
    fn get_workspace(&self) -> (path: String)
        requires
            self.wf(),
        ensures
            path@ == workspace_of(self.state().data.work_dir@, Self::profile().name),
    ;

    /// Build: says where the code is to be written. The host writes it there,
    /// in place of whatever the file held.
    fn build(&self) -> (artifact: Artifact)
        requires
            self.wf(),
        ensures
            artifact@ == (ArtifactView {
                path: Self::profile().artifact(self.state().data.work_dir@),
                content: self.state().code,
            }),
    ;

    /// Run, first half: says what the host is to start.
    fn command(&self) -> (invocation: Invocation)
        requires
            self.wf(),
        ensures
            invocation@ == Self::profile().invocation(self.state().data.work_dir@),
    ;

    /// Run, second half: reads what the program left behind.
    fn execute(&self, report: ProcessReport) -> (result: Result<String, SniprunError>)
        ensures
            verdict_of(result) == run_verdict(report@),
    ;
}

/// The entry of the backend `I` for the registry.
pub fn descriptor<I: Interpreter>() -> (entry: BackendDescriptor)
    ensures
        entry@ == I::profile().descriptor(),
{
    let mut languages = I::get_supported_languages();
    let ghost all = languages@;
    let _display = languages.remove(0);
    let entry = BackendDescriptor {
        name: I::get_name(),
        filetypes: languages,
        max_support_level: I::get_max_support_level(),
        is_default_for_filetype: I::default_for_filetype(),
    };
    assert(entry@.filetypes =~= texts(all).skip(1));
    entry
}

/// Below `Bloc` the block is not looked at: two requests with the same line
/// yield the same code.
pub proof fn block_is_ignored_below_bloc(a: DataHolder, b: DataHolder, level: SupportLevel)
    requires
        !level.reaches(SupportLevel::Bloc),
        a.current_line@ == b.current_line@,
    ensures
        fetched(a, level) == fetched(b, level),
{
}

/// Below `Line` nothing is looked at: no code is fetched.
pub proof fn nothing_is_fetched_below_line(data: DataHolder, level: SupportLevel)
    requires
        !level.reaches(SupportLevel::Line),
    ensures
        fetched(data, level) == Seq::<char>::empty(),
{
}

/// Where the block is taken, it is taken as it stands, and the line is not
/// looked at.
pub proof fn line_is_ignored_when_block_applies(a: DataHolder, b: DataHolder, level: SupportLevel)
    requires
        level.reaches(SupportLevel::Bloc),
        without_whitespace(a.current_bloc@).len() > 0,
        a.current_bloc@ == b.current_bloc@,
    ensures
        fetched(a, level) == a.current_bloc@,
        fetched(b, level) == a.current_bloc@,
{
}

/// Where the block does not apply and the level reaches `Line`, a line that
/// holds more than spaces is taken as it stands.
pub proof fn line_is_the_fallback(data: DataHolder, level: SupportLevel)
    requires
        level.reaches(SupportLevel::Line),
        !(without_whitespace(data.current_bloc@).len() > 0 && level.reaches(SupportLevel::Bloc)),
    ensures
        fetched(data, level) == if without_spaces(data.current_line@).len() > 0 {
            data.current_line@
        } else {
            Seq::<char>::empty()
        },
{
}

/// A request whose block holds only whitespace and whose line holds only
/// spaces yields no code, at every level.
pub proof fn blank_request_yields_no_code(data: DataHolder, level: SupportLevel)
    requires
        without_whitespace(data.current_bloc@).len() == 0,
        without_spaces(data.current_line@).len() == 0,
    ensures
        fetched(data, level) == Seq::<char>::empty(),
{
}

/// A run created at the level `requested` on a backend of maximum `max`
/// goes by the lower of the two. Unless both reach `Bloc` the block is not
/// looked at, and unless both reach `Line` nothing is fetched.
pub proof fn fetch_goes_by_the_capped_level(
    a: DataHolder,
    b: DataHolder,
    requested: SupportLevel,
    max: SupportLevel,
)
    ensures
        !(requested.reaches(SupportLevel::Bloc) && max.reaches(SupportLevel::Bloc))
            && a.current_line@ == b.current_line@ ==> fetched(a, requested.lower(max)) == fetched(
            b,
            requested.lower(max),
        ),
        !(requested.reaches(SupportLevel::Line) && max.reaches(SupportLevel::Line)) ==> fetched(
            a,
            requested.lower(max),
        ) == Seq::<char>::empty(),
{
}

/// Fetching again changes nothing, and neither does fetching again after the
/// level was lowered: Fetch reads the request and the level, never the code
/// that an earlier run left behind.
pub proof fn fetch_is_idempotent(state: Instance, level: SupportLevel, left_behind: Seq<char>)
    ensures
        state.after_fetch().after_fetch() == state.after_fetch(),
        state.after_lowering(level).after_fetch().after_fetch() == state.after_lowering(
            level,
        ).after_fetch(),
        state.with_code(left_behind).after_fetch() == state.after_fetch(),
{
}

/// Augmenting again changes nothing: the backend's text is never put around
/// the code twice.
pub proof fn augment_is_idempotent<I: Interpreter>(state: Instance)
    ensures
        state.with_code(I::wrapped(state.code)).with_code(
            I::wrapped(state.with_code(I::wrapped(state.code)).code),
        ) == state.with_code(I::wrapped(state.code)),
{
    I::wrapping_is_idempotent(state.code);
}

/// A valid instance never takes more of the request than its backend's
/// maximum allows: unless the maximum reaches `Bloc` the block is not looked
/// at, and unless it reaches `Line` nothing is fetched.
pub proof fn fetch_stays_within_the_maximum<I: Interpreter>(instance: I, other: DataHolder)
    requires
        instance.wf(),
    ensures
        !I::profile().max_support_level.reaches(SupportLevel::Bloc)
            && other.current_line@ == instance.state().data.current_line@ ==> fetched(
            instance.state().data,
            instance.state().level,
        ) == fetched(other, instance.state().level),
        !I::profile().max_support_level.reaches(SupportLevel::Line) ==> fetched(
            instance.state().data,
            instance.state().level,
        ) == Seq::<char>::empty(),
{
    instance.level_is_capped();
}

/// Lowering never raises the level, and what was lowered stays lowered.
pub proof fn lowering_never_raises(state: Instance, level: SupportLevel, again: SupportLevel)
    ensures
        state.level.reaches(state.after_lowering(level).level),
        level.reaches(state.after_lowering(level).level),
        state.after_lowering(level).level.reaches(
            state.after_lowering(level).after_lowering(again).level,
        ),
        state.after_lowering(level).after_lowering(level) == state.after_lowering(level),
{
}

} // verus!
