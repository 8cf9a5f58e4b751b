//! The enclave handle: where the image is looked for, how the enclave is
//! created, and how the outcome is kept for the life of the process.
//!
//! Looking at the file system and creating the enclave are the caller's
//! work. [`init_enclave`] decides between the steps: the caller performs the
//! action it is given and comes back with what happened.

use vstd::prelude::*;
use crate::error::EnclaveError;
use crate::status::SgxStatus;

verus! {

/// File name of the signed enclave image.
pub const ENCLAVE_FILE: &'static str = "librust_cosmwasm_enclave.signed.so";

/// Name of the environment variable that names the directory searched first.
pub const ENCLAVE_DIR_VARIABLE: &'static str = "SCRT_ENCLAVE_DIR";

/// Length in bytes of a launch token.
pub const LAUNCH_TOKEN_SIZE: usize = 1024;

/// Identifier of a created enclave.
#[derive(Clone, Copy, Debug, PartialEq, Eq, Structural)]
pub struct EnclaveHandle {
    pub eid: u64,
}

/// The debug flag an enclave is created with: production builds switch
/// introspection off, all others allow it.
pub open spec fn debug_flag_of(production: bool) -> i32 {
    if production {
        0
    } else {
        1
    }
}

/// The debug flag an enclave is created with.
pub fn debug_flag(production: bool) -> (flag: i32)
    ensures
        flag == debug_flag_of(production),
{
    if production {
        0
    } else {
        1
    }
}

/// The launch token an enclave is created with: all zero.
pub fn launch_token() -> (token: [u8; 1024])
    ensures
        forall|i: int| 0 <= i < LAUNCH_TOKEN_SIZE ==> token[i] == 0,
{
    [0u8; 1024]
}

/// The attributes an enclave is created with: the two words of its
/// attribute flags and its selection of miscellaneous features, all zero.
pub fn misc_attributes() -> (zeroed: (u64, u64, u32))
    ensures
        zeroed == (0u64, 0u64, 0u32),
{
    (0, 0, 0)
}

/// The directories searched for the enclave image, in the order in which they
/// are searched: the configured directory, or the current one where none is
/// configured, and then the standard library directories.
pub open spec fn search_path(configured: Option<Seq<char>>) -> Seq<Seq<char>> {
    seq![
        match configured {
            Some(directory) => directory,
            None => "."@,
        },
        "/lib"@,
        "/usr/lib"@,
        "/usr/local/lib"@,
    ]
}

/// The directories searched for the enclave image, first to last.
/// `configured` is the value of the variable named by
/// [`ENCLAVE_DIR_VARIABLE`], if it is set.
pub fn search_directories(configured: Option<String>) -> (directories: Vec<String>)
    ensures
        directories.deep_view() == search_path(
            match configured {
                Some(directory) => Some(directory@),
                None => None,
            },
        ),
{
    let first = match configured {
        Some(directory) => directory,
        None => ".".to_owned(),
    };
    let mut directories: Vec<String> = Vec::new();
    directories.push(first);
    directories.push("/lib".to_owned());
    directories.push("/usr/lib".to_owned());
    directories.push("/usr/local/lib".to_owned());
    assert(directories.deep_view() =~= search_path(
        match configured {
            Some(directory) => Some(directory@),
            None => None,
        },
    ));
    directories
}

/// Where the creation of the enclave stands.
#[derive(Clone, Copy, Debug, PartialEq, Eq)]
pub enum InitPhase {
    /// The directory with this position in the search order is being looked
    /// at; those before it do not hold the image.
    Searching { next: usize },
    /// The image was found in the directory with this position, and the
    /// enclave is being created from it.
    Creating { found: usize },
    /// Creation is over, with this outcome.
    Finished { outcome: Result<EnclaveHandle, EnclaveError> },
}

/// What the caller reports back.
#[derive(Clone, Copy, Debug, PartialEq, Eq)]
pub enum InitEvent {
    /// Whether the image is in the directory that was to be looked at.
    Probed { exists: bool },
    /// What creating the enclave gave: its identifier, or the platform's
    /// status.
    Created { outcome: Result<u64, SgxStatus> },
}

/// What the caller is to do next.
#[derive(Clone, Copy, Debug, PartialEq, Eq)]
pub enum InitAction {
    /// Look whether the directory with this position in the search order
    /// holds a file named [`ENCLAVE_FILE`], and report `Probed`.
    Probe { directory: usize },
    /// Create the enclave from the image in the directory with this position,
    /// with this debug flag, the launch token of [`launch_token`] and the
    /// attributes of [`misc_attributes`], and report `Created`.
    Create { directory: usize, debug: i32 },
    /// Nothing is left to do: this is the outcome.
    Finish { outcome: Result<EnclaveHandle, EnclaveError> },
}

/// The creation of the enclave as a mathematical value.
pub struct InitModel {
    /// How many directories are searched.
    pub directories: nat,
    /// The debug flag the enclave is created with.
    pub debug: i32,
    pub phase: InitPhase,
}

impl InitModel {
    /// The positions a phase names are positions of the search order.
    pub open spec fn wf(self) -> bool {
        match self.phase {
            InitPhase::Searching { next } => next < self.directories,
            InitPhase::Creating { found } => found < self.directories,
            InitPhase::Finished { .. } => true,
        }
    }

    /// The phase a search is in when the directories before `next` do not
    /// hold the image: the next directory is looked at, or the search is
    /// over without a find.
    pub open spec fn search_from(self, next: nat) -> InitPhase {
        if next < self.directories {
            InitPhase::Searching { next: next as usize }
        } else {
            InitPhase::Finished { outcome: Err(EnclaveError::EnclaveNotFound) }
        }
    }

    /// The start: nothing has been looked at.
    pub open spec fn start(directories: nat, production: bool) -> InitModel {
        let fresh = InitModel {
            directories,
            debug: debug_flag_of(production),
            phase: InitPhase::Searching { next: 0 },
        };
        InitModel { phase: fresh.search_from(0), ..fresh }
    }

    /// The action that the current phase waits on.
    pub open spec fn pending(self) -> InitAction {
        match self.phase {
            InitPhase::Searching { next } => InitAction::Probe { directory: next },
            InitPhase::Creating { found } => InitAction::Create { directory: found, debug: self.debug },
            InitPhase::Finished { outcome } => InitAction::Finish { outcome },
        }
    }

    /// The phase after an event. A find ends the search at once; a miss moves
    /// it to the next directory. A created enclave is kept by its identifier,
    /// a refused creation by the platform's status. An event that does not
    /// answer the pending action changes nothing.
    pub open spec fn after(self, event: InitEvent) -> InitPhase {
        match (self.phase, event) {
            (InitPhase::Searching { next }, InitEvent::Probed { exists }) => {
                if exists {
                    InitPhase::Creating { found: next }
                } else {
                    self.search_from((next + 1) as nat)
                }
            },
            (InitPhase::Creating { .. }, InitEvent::Created { outcome }) => InitPhase::Finished {
                outcome: match outcome {
                    Ok(eid) => Ok(EnclaveHandle { eid }),
                    Err(status) => Err(EnclaveError::EnclaveCreationFailed(status)),
                },
            },
            _ => self.phase,
        }
    }

    /// The machine after an event.
    pub open spec fn step(self, event: InitEvent) -> InitModel {
        InitModel { phase: self.after(event), ..self }
    }
}

/// The positions that a creation names stay positions of the search order,
/// from its start and through every event.
pub proof fn lemma_positions_stay_valid(directories: nat, production: bool, machine: InitModel, event: InitEvent)
    requires
        directories <= usize::MAX,
        machine.directories <= usize::MAX,
    ensures
        InitModel::start(directories, production).wf(),
        machine.wf() ==> machine.step(event).wf(),
{
}

/// What a caller that does as it is told reports back for an action, on a
/// platform where `present` says for each directory of the search order
/// whether it holds the image, and where creating the enclave gives
/// `creation`.
pub open spec fn report(present: Seq<bool>, creation: Result<u64, SgxStatus>, action: InitAction) -> InitEvent {
    match action {
        InitAction::Probe { directory } => InitEvent::Probed { exists: present[directory as int] },
        _ => InitEvent::Created { outcome: creation },
    }
}

/// The actions a machine asks for on such a platform, from the pending one to
/// the one that finishes, within `fuel` steps.
pub open spec fn actions(
    machine: InitModel,
    present: Seq<bool>,
    creation: Result<u64, SgxStatus>,
    fuel: nat,
) -> Seq<InitAction>
    decreases fuel,
{
    let action = machine.pending();
    if fuel == 0 || action is Finish {
        seq![action]
    } else {
        seq![action] + actions(machine.step(report(present, creation, action)), present, creation, (fuel - 1) as nat)
    }
}

/// `at` is the first directory at or after `from` that holds the image.
pub open spec fn first_present(present: Seq<bool>, from: int, at: int) -> bool {
    &&& from <= at < present.len()
    &&& present[at]
    &&& forall|j: int| from <= j < at ==> !present[j]
}

/// No directory at or after `from` holds the image.
pub open spec fn none_present(present: Seq<bool>, from: int) -> bool {
    forall|j: int| from <= j < present.len() ==> !present[j]
}

/// What a creation that gave `creation` ends in.
pub open spec fn created(creation: Result<u64, SgxStatus>) -> Result<EnclaveHandle, EnclaveError> {
    match creation {
        Ok(eid) => Ok(EnclaveHandle { eid }),
        Err(status) => Err(EnclaveError::EnclaveCreationFailed(status)),
    }
}

/// A search that has reached directory `from` looks at the directories from
/// there on in order, stops at the first that holds the image and creates the
/// enclave from it; if none does, it ends without a find.
proof fn lemma_search_from(
    machine: InitModel,
    present: Seq<bool>,
    creation: Result<u64, SgxStatus>,
    from: nat,
    fuel: nat,
)
    requires
        present.len() == machine.directories,
        machine.directories <= usize::MAX,
        from <= machine.directories,
        machine.phase == machine.search_from(from),
        fuel >= machine.directories - from + 2,
    ensures
        none_present(present, from as int) ==> {
            let asked = actions(machine, present, creation, fuel);
            &&& asked.len() == machine.directories - from + 1
            &&& forall|j: int|
                0 <= j < machine.directories - from ==> asked[j] == (InitAction::Probe {
                    directory: (from + j) as usize,
                })
            &&& asked.last() == (InitAction::Finish { outcome: Err(EnclaveError::EnclaveNotFound) })
        },
        forall|at: int| #[trigger]
            first_present(present, from as int, at) ==> {
                let asked = actions(machine, present, creation, fuel);
                &&& asked.len() == at - from + 3
                &&& forall|j: int|
                    0 <= j <= at - from ==> asked[j] == (InitAction::Probe { directory: (from + j) as usize })
                &&& asked[at - from + 1] == (InitAction::Create { directory: at as usize, debug: machine.debug })
                &&& asked[at - from + 2] == (InitAction::Finish { outcome: created(creation) })
            },
    decreases machine.directories - from,
{
    let asked = actions(machine, present, creation, fuel);
    if from < machine.directories {
        let probe = InitAction::Probe { directory: from as usize };
        assert(machine.pending() == probe);
        let next = machine.step(report(present, creation, probe));
        let rest = actions(next, present, creation, (fuel - 1) as nat);
        assert(asked == seq![probe] + rest);
        if present[from as int] {
            assert(next.phase == InitPhase::Creating { found: from as usize });
            let create = InitAction::Create { directory: from as usize, debug: machine.debug };
            let last = next.step(report(present, creation, create));
            let tail = actions(last, present, creation, (fuel - 2) as nat);
            assert(rest == seq![create] + tail);
            assert(tail == seq![InitAction::Finish { outcome: created(creation) }]);
            assert forall|at: int| #[trigger] first_present(present, from as int, at) implies at == from by {
                if from < at {
                    assert(!present[from as int]);
                }
            }
        } else {
            assert(next.phase == next.search_from(from + 1));
            lemma_search_from(next, present, creation, from + 1, (fuel - 1) as nat);
            assert forall|at: int| #[trigger] first_present(present, from as int, at) implies first_present(
                present,
                from as int + 1,
                at,
            ) by {}
            if none_present(present, from as int) {
                assert(none_present(present, from as int + 1));
                assert forall|j: int| 0 <= j < machine.directories - from implies asked[j] == (InitAction::Probe {
                    directory: (from + j) as usize,
                }) by {
                    if j > 0 {
                        assert(asked[j] == rest[j - 1]);
                    }
                }
            }
            assert forall|at: int| #[trigger] first_present(present, from as int, at) implies {
                &&& asked.len() == at - from + 3
                &&& forall|j: int|
                    0 <= j <= at - from ==> asked[j] == (InitAction::Probe { directory: (from + j) as usize })
                &&& asked[at - from + 1] == (InitAction::Create { directory: at as usize, debug: machine.debug })
                &&& asked[at - from + 2] == (InitAction::Finish { outcome: created(creation) })
            } by {
                assert(first_present(present, from as int + 1, at));
                assert forall|j: int| 0 <= j <= at - from implies asked[j] == (InitAction::Probe {
                    directory: (from + j) as usize,
                }) by {
                    if j > 0 {
                        assert(asked[j] == rest[j - 1]);
                    }
                }
                assert(asked[at - from + 1] == rest[at - from]);
                assert(asked[at - from + 2] == rest[at - from + 1]);
            }
        }
    } else {
        assert(asked == seq![InitAction::Finish { outcome: Err(EnclaveError::EnclaveNotFound) }]);
    }
}

/// The directories are looked at in their order and none is looked at after
/// the first that holds the image; the enclave is created from that one, once,
/// with the debug flag of the build. What creation gives is the outcome. Where
/// no directory holds the image, every one is looked at, nothing is created,
/// and the outcome is `EnclaveNotFound`.
pub proof fn lemma_first_match_is_used(
    directories: nat,
    production: bool,
    present: Seq<bool>,
    creation: Result<u64, SgxStatus>,
)
    requires
        present.len() == directories,
        directories <= usize::MAX,
    ensures
        none_present(present, 0) ==> {
            let asked = actions(InitModel::start(directories, production), present, creation, directories + 2);
            &&& asked.len() == directories + 1
            &&& forall|j: int| 0 <= j < directories ==> asked[j] == (InitAction::Probe { directory: j as usize })
            &&& asked.last() == (InitAction::Finish { outcome: Err(EnclaveError::EnclaveNotFound) })
        },
        forall|at: int| #[trigger]
            first_present(present, 0, at) ==> {
                let asked = actions(InitModel::start(directories, production), present, creation, directories + 2);
                &&& asked.len() == at + 3
                &&& forall|j: int| 0 <= j <= at ==> asked[j] == (InitAction::Probe { directory: j as usize })
                &&& asked[at + 1] == (InitAction::Create {
                    directory: at as usize,
                    debug: debug_flag_of(production),
                })
                &&& asked[at + 2] == (InitAction::Finish { outcome: created(creation) })
            },
{
    lemma_search_from(InitModel::start(directories, production), present, creation, 0, directories + 2);
}

/// The creation of the enclave, step by step.
pub struct EnclaveInit {
    directories: usize,
    debug: i32,
    phase: InitPhase,
}

impl View for EnclaveInit {
    type V = InitModel;

    closed spec fn view(&self) -> InitModel {
        InitModel { directories: self.directories as nat, debug: self.debug, phase: self.phase }
    }
}

impl EnclaveInit {
    #[verifier::type_invariant]
    spec fn inv(&self) -> bool {
        self@.wf()
    }

    /// Begins the creation of an enclave whose image is searched in
    /// `directories` directories. Returns the machine and the first action.
    pub fn start(directories: usize, production: bool) -> (begun: (EnclaveInit, InitAction))
        ensures
            begun.0@ == InitModel::start(directories as nat, production),
            begun.1 == begun.0@.pending(),
            begun.0@.wf(),
    {
        let debug: i32 = debug_flag(production);
        let phase = if 0 < directories {
            InitPhase::Searching { next: 0 }
        } else {
            InitPhase::Finished { outcome: Err(EnclaveError::EnclaveNotFound) }
        };
        let machine = EnclaveInit { directories, debug, phase };
        let action = machine.pending();
        (machine, action)
    }

    /// The action that the machine waits on.
    pub fn pending(&self) -> (action: InitAction)
        ensures
            action == self@.pending(),
            self@.wf(),
    {
        proof {
            use_type_invariant(self);
        }
        match self.phase {
            InitPhase::Searching { next } => InitAction::Probe { directory: next },
            InitPhase::Creating { found } => InitAction::Create { directory: found, debug: self.debug },
            InitPhase::Finished { outcome } => InitAction::Finish { outcome },
        }
    }
}

/// Takes what the caller reports and says what to do next. The machine moves
/// as [`InitModel::step`] says, and the action returned is the one its new
/// phase waits on.
pub fn init_enclave(machine: &mut EnclaveInit, event: InitEvent) -> (action: InitAction)
    ensures
        final(machine)@ == old(machine)@.step(event),
        action == final(machine)@.pending(),
        final(machine)@.wf(),
{
    proof {
        use_type_invariant(&*machine);
    }
    let phase = match (machine.phase, event) {
        (InitPhase::Searching { next }, InitEvent::Probed { exists }) => {
            if exists {
                InitPhase::Creating { found: next }
            } else if next + 1 < machine.directories {
                InitPhase::Searching { next: next + 1 }
            } else {
                InitPhase::Finished { outcome: Err(EnclaveError::EnclaveNotFound) }
            }
        },
        (InitPhase::Creating { found }, InitEvent::Created { outcome }) => InitPhase::Finished {
            outcome: match outcome {
                Ok(eid) => Ok(EnclaveHandle { eid }),
                Err(status) => Err(EnclaveError::EnclaveCreationFailed(status)),
            },
        },
        (phase, _) => phase,
    };
    machine.phase = phase;
    machine.pending()
}

/// The place where the one outcome of creating the enclave is kept: empty
/// until creation has been tried, and from then on holding what the first try
/// gave, be it a handle or a failure.
pub struct EnclaveSlot {
    memo: Option<Result<EnclaveHandle, EnclaveError>>,
}

impl View for EnclaveSlot {
    type V = Option<Result<EnclaveHandle, EnclaveError>>;

    closed spec fn view(&self) -> Option<Result<EnclaveHandle, EnclaveError>> {
        self.memo
    }
}

/// What a slot holds after an outcome is brought to it: the first outcome
/// stays.
pub open spec fn settled(
    memo: Option<Result<EnclaveHandle, EnclaveError>>,
    outcome: Result<EnclaveHandle, EnclaveError>,
) -> Result<EnclaveHandle, EnclaveError> {
    match memo {
        Some(first) => first,
        None => outcome,
    }
}

/// What a slot holds after the outcomes of `tries` are brought to it one
/// after the other.
pub open spec fn settled_all(
    memo: Option<Result<EnclaveHandle, EnclaveError>>,
    tries: Seq<Result<EnclaveHandle, EnclaveError>>,
) -> Option<Result<EnclaveHandle, EnclaveError>>
    decreases tries.len(),
{
    if tries.len() == 0 {
        memo
    } else {
        settled_all(Some(settled(memo, tries[0])), tries.skip(1))
    }
}

impl EnclaveSlot {
    /// A slot for which creation has not been tried.
    pub fn new() -> (slot: EnclaveSlot)
        ensures
            slot@.is_none(),
    {
        EnclaveSlot { memo: None }
    }

    /// Brings the outcome of a creation to the slot and returns the outcome
    /// that every caller is to see. The slot keeps the first outcome it is
    /// given; a later one is dropped, and the first is returned in its place.
    pub fn settle(&mut self, outcome: Result<EnclaveHandle, EnclaveError>) -> (kept: Result<
        EnclaveHandle,
        EnclaveError,
    >)
        ensures
            kept == settled(old(self)@, outcome),
            final(self)@ == Some(kept),
    {
        match self.memo {
            Some(first) => first,
            None => {
                self.memo = Some(outcome);
                outcome
            },
        }
    }
}

/// The enclave, as far as it is known: `None` while creation has not been
/// tried, which tells the caller to create it with [`init_enclave`] and to
/// bring the outcome to [`EnclaveSlot::settle`]; afterwards the kept outcome,
/// the same at every call.
pub fn get_enclave(slot: &EnclaveSlot) -> (known: Option<Result<EnclaveHandle, EnclaveError>>)
    ensures
        known == slot@,
{
    slot.memo
}

/// Once a slot holds an outcome, nothing brought to it later changes what it
/// holds: after a failed first try every caller sees that failure, after a
/// successful one every caller sees that handle.
pub proof fn lemma_slot_keeps_first_outcome(
    first: Result<EnclaveHandle, EnclaveError>,
    tries: Seq<Result<EnclaveHandle, EnclaveError>>,
)
    ensures
        settled_all(Some(first), tries) == Some(first),
        settled_all(None, seq![first] + tries) == Some(first),
    decreases tries.len(),
{
    if tries.len() > 0 {
        lemma_slot_keeps_first_outcome(first, tries.skip(1));
    }
    assert((seq![first] + tries).skip(1) == tries);
}

} // verus!
