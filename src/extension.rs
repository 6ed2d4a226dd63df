//! Activation: the registrations the extension asks of the host, one at a
//! time, stopping at the first that fails.
use vstd::prelude::*;
use crate::command::Command;

verus! {

/// The extension's two colour themes.
#[derive(Clone, Copy, Debug, PartialEq, Eq, Structural)]
pub enum Theme {
    Dark,
    Light,
}

/// One registration asked of the host.
#[derive(Clone, Copy, Debug, PartialEq, Eq, Structural)]
pub enum Registration {
    LanguageServer,
    Command(Command),
    Theme(Theme),
    Snippets,
}

/// An activation that stopped because the host refused a registration.
#[derive(Clone, Copy, Debug, PartialEq, Eq, Structural)]
pub struct RegistrationFailure {
    pub registration: Registration,
}

/// Where activation stands. `Registering(i)` waits for the host's answer to
/// the registration at position `i`.
#[derive(Clone, Copy, Debug, PartialEq, Eq, Structural)]
pub enum ActivationState {
    Inactive,
    Registering(usize),
    Active,
    Failed(usize),
}

/// What the host is to do next: perform a registration, or take the
/// activation's result (all registered, or stopped by a refusal).
#[derive(Clone, Copy, Debug, PartialEq, Eq, Structural)]
pub enum ActivationAction {
    Register(Registration),
    Activated,
    Aborted(RegistrationFailure),
}

/// The extension.
pub struct NixMoxExtension;

/// How many registrations activation asks for.
pub const REGISTRATION_COUNT: usize = 10;

/// The language under which the snippet collection is registered.
pub const SNIPPET_LANGUAGE: &'static str = "nushell";

/// The registrations, in the order activation asks for them.
pub open spec fn registrations() -> Seq<Registration> {
    seq![
        Registration::LanguageServer,
        Registration::Command(Command::Run),
        Registration::Command(Command::Test),
        Registration::Command(Command::ValidateSecurity),
        Registration::Command(Command::ShowMetrics),
        Registration::Command(Command::GenerateDocs),
        Registration::Command(Command::SetupWizard),
        Registration::Theme(Theme::Dark),
        Registration::Theme(Theme::Light),
        Registration::Snippets,
    ]
}

pub open spec fn theme_name(t: Theme) -> Seq<char> {
    match t {
        Theme::Dark => "nix-mox-dark"@,
        Theme::Light => "nix-mox-light"@,
    }
}

/// A state in which activation can go on: waiting on a registration that
/// exists.
pub open spec fn awaiting(s: ActivationState) -> bool {
    match s {
        ActivationState::Registering(i) => i < REGISTRATION_COUNT,
        _ => false,
    }
}

/// The first step of activation.
pub open spec fn activation_start() -> (ActivationState, ActivationAction) {
    (ActivationState::Registering(0), ActivationAction::Register(registrations()[0]))
}

/// The step after the host answered the registration at position `i`.
pub open spec fn after_answer(i: usize, succeeded: bool) -> (ActivationState, ActivationAction) {
    if !succeeded {
        (
            ActivationState::Failed(i),
            ActivationAction::Aborted(RegistrationFailure { registration: registrations()[i as int] }),
        )
    } else if i + 1 < REGISTRATION_COUNT {
        (
            ActivationState::Registering((i + 1) as usize),
            ActivationAction::Register(registrations()[i + 1]),
        )
    } else {
        (ActivationState::Active, ActivationAction::Activated)
    }
}

impl Theme {
    pub fn name(&self) -> (r: &'static str)
        ensures
            r@ == theme_name(*self),
    {
        match self {
            Theme::Dark => "nix-mox-dark",
            Theme::Light => "nix-mox-light",
        }
    }
}

/// The registration at position `i`.
pub fn registration(i: usize) -> (r: Registration)
    requires
        i < REGISTRATION_COUNT,
    ensures
        r == registrations()[i as int],
{
    if i == 0 {
        Registration::LanguageServer
    } else if i == 1 {
        Registration::Command(Command::Run)
    } else if i == 2 {
        Registration::Command(Command::Test)
    } else if i == 3 {
        Registration::Command(Command::ValidateSecurity)
    } else if i == 4 {
        Registration::Command(Command::ShowMetrics)
    } else if i == 5 {
        Registration::Command(Command::GenerateDocs)
    } else if i == 6 {
        Registration::Command(Command::SetupWizard)
    } else if i == 7 {
        Registration::Theme(Theme::Dark)
    } else if i == 8 {
        Registration::Theme(Theme::Light)
    } else {
        Registration::Snippets
    }
}

impl NixMoxExtension {
    pub fn new() -> (r: Self)
        ensures
            r == (NixMoxExtension),
    {
        NixMoxExtension
    }

    pub fn name(&self) -> (r: &'static str)
        ensures
            r@ == "nix-mox"@,
    {
        "nix-mox"
    }

    pub fn version(&self) -> (r: &'static str)
        ensures
            r@ == "1.0.0"@,
    {
        "1.0.0"
    }

    /// Starts activation: the first registration to perform.
    pub fn activate(&self) -> (r: (ActivationState, ActivationAction))
        ensures
            r == activation_start(),
            awaiting(r.0),
    {
        (ActivationState::Registering(0), ActivationAction::Register(registration(0)))
    }

    /// Takes the host's answer to the registration that `state` waits on:
    /// the next registration, or the activation's result.
    pub fn registered(&self, state: ActivationState, succeeded: bool) -> (r: (
        ActivationState,
        ActivationAction,
    ))
        requires
            awaiting(state),
        ensures
            match state {
                ActivationState::Registering(i) => r == after_answer(i, succeeded),
                _ => false,
            },
            r.1 is Register ==> awaiting(r.0),
    {
        match state {
            ActivationState::Registering(i) => {
                if !succeeded {
                    (
                        ActivationState::Failed(i),
                        ActivationAction::Aborted(RegistrationFailure { registration: registration(i) }),
                    )
                } else if i + 1 < REGISTRATION_COUNT {
                    (
                        ActivationState::Registering(i + 1),
                        ActivationAction::Register(registration(i + 1)),
                    )
                } else {
                    (ActivationState::Active, ActivationAction::Activated)
                }
            },
            _ => (state, ActivationAction::Activated),
        }
    }

    /// Ends an active extension. The host owns what was registered, so
    /// nothing is released; any other state stays as it is.
    pub fn deactivate(&self, state: ActivationState) -> (r: ActivationState)
        ensures
            state is Active ==> r is Inactive,
            !(state is Active) ==> r == state,
    {
        match state {
            ActivationState::Active => ActivationState::Inactive,
            _ => state,
        }
    }
}

/// The registrations asked for, and the action activation ends with, when
/// it is driven from `step` by a host that answers `answers` in order. A
/// registration asked for with no answer left is listed, and the end is
/// then unknown (`None`).
pub open spec fn drive(step: (ActivationState, ActivationAction), answers: Seq<bool>) -> (
    Seq<Registration>,
    Option<ActivationAction>,
)
    decreases answers.len(),
{
    match step.1 {
        ActivationAction::Register(reg) => {
            if answers.len() == 0 {
                (seq![reg], None)
            } else {
                let next = match step.0 {
                    ActivationState::Registering(i) => after_answer(i, answers[0]),
                    _ => step,
                };
                let rest = drive(next, answers.drop_first());
                (seq![reg] + rest.0, rest.1)
            }
        },
        _ => (Seq::empty(), Some(step.1)),
    }
}

proof fn lemma_drive_refused_from(i: usize, f: int, answers: Seq<bool>)
    requires
        0 <= i <= f < REGISTRATION_COUNT,
        i <= answers.len(),
        f < answers.len(),
        forall|j: int| 0 <= j < f ==> answers[j],
        !answers[f],
    ensures
        drive(
            (ActivationState::Registering(i), ActivationAction::Register(registrations()[i as int])),
            answers.subrange(i as int, answers.len() as int),
        ) == (
            registrations().subrange(i as int, f + 1),
            Some(ActivationAction::Aborted(RegistrationFailure { registration: registrations()[f] })),
        ),
    decreases f - i,
{
    let rest = answers.subrange(i as int, answers.len() as int);
    assert(rest[0] == answers[i as int]);
    assert(rest.drop_first() =~= answers.subrange(i + 1, answers.len() as int));
    if i < f {
        lemma_drive_refused_from((i + 1) as usize, f, answers);
        assert(registrations().subrange(i as int, f + 1) =~= seq![registrations()[i as int]]
            + registrations().subrange(i + 1, f + 1));
    } else {
        assert(registrations().subrange(i as int, f + 1) =~= seq![registrations()[i as int]]);
        assert(drive(after_answer(i, false), rest.drop_first()).0 =~= Seq::empty());
    }
}

/// Activation is fail-fast: against a host that accepts the registrations
/// before position `f` and refuses the one at `f`, activation asks for
/// exactly the registrations up to and including `f`, none after it, and
/// ends aborted by that registration.
pub proof fn lemma_activation_stops_at_refusal(f: int, answers: Seq<bool>)
    requires
        0 <= f < REGISTRATION_COUNT,
        f < answers.len(),
        forall|j: int| 0 <= j < f ==> answers[j],
        !answers[f],
    ensures
        drive(activation_start(), answers) == (
            registrations().take(f + 1),
            Some(ActivationAction::Aborted(RegistrationFailure { registration: registrations()[f] })),
        ),
{
    lemma_drive_refused_from(0, f, answers);
    assert(answers.subrange(0, answers.len() as int) =~= answers);
    assert(registrations().subrange(0, f + 1) =~= registrations().take(f + 1));
}

proof fn lemma_drive_accepted_from(i: usize, answers: Seq<bool>)
    requires
        i < REGISTRATION_COUNT,
        REGISTRATION_COUNT <= answers.len(),
        forall|j: int| 0 <= j < REGISTRATION_COUNT ==> answers[j],
    ensures
        drive(
            (ActivationState::Registering(i), ActivationAction::Register(registrations()[i as int])),
            answers.subrange(i as int, answers.len() as int),
        ) == (
            registrations().subrange(i as int, REGISTRATION_COUNT as int),
            Some(ActivationAction::Activated),
        ),
    decreases REGISTRATION_COUNT - i,
{
    let rest = answers.subrange(i as int, answers.len() as int);
    assert(rest[0] == answers[i as int]);
    assert(rest.drop_first() =~= answers.subrange(i + 1, answers.len() as int));
    if i + 1 < REGISTRATION_COUNT {
        lemma_drive_accepted_from((i + 1) as usize, answers);
        assert(registrations().subrange(i as int, REGISTRATION_COUNT as int) =~= seq![
            registrations()[i as int],
        ] + registrations().subrange(i + 1, REGISTRATION_COUNT as int));
    } else {
        assert(registrations().subrange(i as int, REGISTRATION_COUNT as int) =~= seq![
            registrations()[i as int],
        ]);
        assert(drive(after_answer(i, true), rest.drop_first()).0 =~= Seq::empty());
    }
}

/// Against a host that accepts every registration, activation asks for each
/// registration once, in order, and ends active.
pub proof fn lemma_activation_registers_all(answers: Seq<bool>)
    requires
        REGISTRATION_COUNT <= answers.len(),
        forall|j: int| 0 <= j < REGISTRATION_COUNT ==> answers[j],
    ensures
        drive(activation_start(), answers) == (registrations(), Some(ActivationAction::Activated)),
{
    lemma_drive_accepted_from(0, answers);
    assert(answers.subrange(0, answers.len() as int) =~= answers);
    assert(registrations().subrange(0, REGISTRATION_COUNT as int) =~= registrations());
}

} // verus!
