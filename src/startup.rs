//! What the startup hook does, decided from the build mode, whether the main
//! window exists, and the platform label.
use vstd::prelude::*;

verus! {

/// One thing the startup hook does, in the order the hook does them.
#[derive(Debug)]
pub enum SetupAction {
    /// Open the developer-tools panel of the main window.
    OpenDevtools,
    /// Print one diagnostic line on standard output.
    Print(String),
    /// Return from the hook, so that the host enters its event loop.
    Finish,
}

/// The mathematical view of a [`SetupAction`].
pub ghost enum SetupStep {
    OpenDevtools,
    Print(Seq<char>),
    Finish,
}

impl View for SetupAction {
    type V = SetupStep;

    open spec fn view(&self) -> SetupStep {
        match self {
            SetupAction::OpenDevtools => SetupStep::OpenDevtools,
            SetupAction::Print(s) => SetupStep::Print(s@),
            SetupAction::Finish => SetupStep::Finish,
        }
    }
}

pub open spec fn devtools_opened_line() -> Seq<char> {
    "DevTools ouverts pour le débogage"@
}

pub open spec fn window_missing_line() -> Seq<char> {
    "Fenêtre principale non trouvée"@
}

pub open spec fn started_prefix() -> Seq<char> {
    "Application Tauri démarrée sur "@
}

/// The line that reports the platform at startup.
pub open spec fn started_line(platform_label: Seq<char>) -> Seq<char> {
    started_prefix() + platform_label
}

/// The steps of the debug-only developer-tools stage.
pub open spec fn devtools_steps(debug_build: bool, main_window_found: bool) -> Seq<SetupStep> {
    if !debug_build {
        seq![]
    } else if main_window_found {
        seq![SetupStep::OpenDevtools, SetupStep::Print(devtools_opened_line())]
    } else {
        seq![SetupStep::Print(window_missing_line())]
    }
}

/// Everything the startup hook does: the developer-tools stage, then the
/// platform line, then handing control back to the host.
pub open spec fn setup_steps(
    debug_build: bool,
    main_window_found: bool,
    platform_label: Seq<char>,
) -> Seq<SetupStep> {
    devtools_steps(debug_build, main_window_found) + seq![
        SetupStep::Print(started_line(platform_label)),
        SetupStep::Finish,
    ]
}

pub open spec fn steps_of(actions: Seq<SetupAction>) -> Seq<SetupStep> {
    actions.map_values(|a: SetupAction| a@)
}

/// Decides what the startup hook does. A missing main window is only
/// reported: it never keeps the hook from finishing.
pub fn plan_setup(debug_build: bool, main_window_found: bool, platform_label: &str) -> (r: Vec<
    SetupAction,
>)
    ensures
        steps_of(r@) == setup_steps(debug_build, main_window_found, platform_label@),
{
    let mut r: Vec<SetupAction> = Vec::new();
    if debug_build {
        if main_window_found {
            r.push(SetupAction::OpenDevtools);
            r.push(SetupAction::Print(String::from_str("DevTools ouverts pour le débogage")));
        } else {
            r.push(SetupAction::Print(String::from_str("Fenêtre principale non trouvée")));
        }
    }
    let mut line = String::from_str("Application Tauri démarrée sur ");
    line.append(platform_label);
    r.push(SetupAction::Print(line));
    r.push(SetupAction::Finish);
    assert(steps_of(r@) =~= setup_steps(debug_build, main_window_found, platform_label@));
    r
}

/// The startup hook always finishes, and so hands control to the host's event
/// loop, whether or not the main window is there: the platform line comes
/// just before the end, and a release build ignores the window altogether.
pub proof fn lemma_setup_always_finishes(
    debug_build: bool,
    main_window_found: bool,
    platform_label: Seq<char>,
)
    ensures
        ({
            let steps = setup_steps(debug_build, main_window_found, platform_label);
            &&& steps.len() >= 2
            &&& steps.last() == SetupStep::Finish
            &&& steps[steps.len() - 2] == SetupStep::Print(started_line(platform_label))
            &&& forall|i: int| 0 <= i < steps.len() - 1 ==> steps[i] != SetupStep::Finish
        }),
        !debug_build ==> setup_steps(debug_build, true, platform_label) == setup_steps(
            debug_build,
            false,
            platform_label,
        ),
{
    let steps = setup_steps(debug_build, main_window_found, platform_label);
    let head = devtools_steps(debug_build, main_window_found);
    assert(forall|i: int| 0 <= i < head.len() ==> steps[i] == head[i]);
}

} // verus!
