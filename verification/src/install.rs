//! Installing a downloaded Debian package through apt.

use vstd::prelude::*;
use vstd::utf8::{decode_utf8, valid_utf8};

use crate::failure::{ErrorView, Failure, UpdateError};
use crate::platform::{apt_deb_arch, deb_arch, law_deb_arch};
use crate::text::{joined, law_trimmed, lossy_text, trimmed, utf8_lossy, white_space};

verus! {

/// A program and its first arguments; the file to install follows them.
#[derive(Debug)]
pub struct InstallCommand {
    pub program: &'static str,
    pub args: Vec<&'static str>,
}

/// The command that asks for privileges once and installs the file that follows.
pub fn install_command() -> (res: InstallCommand)
    ensures
        res.program@ == "pkexec"@,
        res.args@.map_values(|arg: &'static str| arg@) == seq!["apt"@, "install"@],
{
    let mut args: Vec<&'static str> = Vec::new();
    args.push("apt");
    args.push("install");
    assert(args@.map_values(|arg: &'static str| arg@) =~= seq!["apt"@, "install"@]);
    InstallCommand { program: "pkexec", args }
}

/// What the application has to do next, with texts of type `S`.
#[verifier::ext_equal]
#[derive(Debug, PartialEq, Eq)]
pub enum InstallStep<S> {
    /// Write the package to a temporary file of this name.
    Write { file_name: S },
    /// Run the install command on that file.
    Install,
    /// Remove that file; the installation ended with this result.
    Remove(Result<(), Failure<S>>),
    /// Nothing; the whole ended with this result.
    Finished(Result<(), Failure<S>>),
}

/// What came of a step.
#[derive(Debug, PartialEq, Eq)]
pub enum InstallEvent {
    /// The file was written.
    Written,
    /// The file was not written, for this reason.
    WriteFailed(String),
    /// The task that runs the installer did not end, for this reason.
    NotJoined(String),
    /// The installer was not started, for this reason.
    NotStarted(String),
    /// The installer ended.
    Exited { success: bool, stderr: Vec<u8> },
    /// The removal of the file was tried.
    Removed,
}

/// The view of a result without a value.
pub open spec fn unit_view(res: Result<(), UpdateError>) -> Result<(), ErrorView> {
    match res {
        Ok(_) => Ok(()),
        Err(error) => Err(error@),
    }
}

impl View for InstallStep<String> {
    type V = InstallStep<Seq<char>>;

    open spec fn view(&self) -> InstallStep<Seq<char>> {
        match self {
            InstallStep::Write { file_name } => InstallStep::Write { file_name: file_name@ },
            InstallStep::Install => InstallStep::Install,
            InstallStep::Remove(res) => InstallStep::Remove(unit_view(*res)),
            InstallStep::Finished(res) => InstallStep::Finished(unit_view(*res)),
        }
    }
}

/// The temporary file's name for a version and a Debian architecture.
pub open spec fn deb_file_name(version: Seq<char>, arch: Seq<char>) -> Seq<char> {
    "Axolotl.Launcher_"@ + version + "_"@ + arch + ".deb"@
}

/// The first step: refused without apt, then on an architecture without packages.
pub open spec fn first_step(apt_linux: bool, arch: Seq<char>, version: Seq<char>) -> InstallStep<
    Seq<char>,
> {
    if !apt_linux {
        InstallStep::Finished(Err(Failure::AptUnavailable))
    } else {
        match deb_arch(arch) {
            Ok(deb) => InstallStep::Write { file_name: deb_file_name(version, deb) },
            Err(error) => InstallStep::Finished(Err(error)),
        }
    }
}

/// The failure that tells an installer's error output, without white space around
/// it.
pub open spec fn told_failure(stderr: Seq<char>) -> ErrorView {
    Failure::AptInstallFailed { stderr: trimmed(stderr) }
}

/// The result of an installer that ended.
pub open spec fn exit_result(success: bool, stderr: Seq<u8>) -> Result<(), ErrorView> {
    if success {
        Ok(())
    } else {
        Err(told_failure(utf8_lossy(stderr)))
    }
}

/// The event is an answer to the step.
pub open spec fn answers(step: InstallStep<Seq<char>>, event: InstallEvent) -> bool {
    match step {
        InstallStep::Write { .. } => event is Written || event is WriteFailed,
        InstallStep::Install => event is NotJoined || event is NotStarted || event is Exited,
        InstallStep::Remove(_) => event is Removed,
        InstallStep::Finished(_) => false,
    }
}

/// The step after an event. A file that was written is removed whatever came of
/// the installation. An event that answers another step changes nothing.
pub open spec fn next_step(step: InstallStep<Seq<char>>, event: InstallEvent) -> InstallStep<
    Seq<char>,
> {
    match (step, event) {
        (InstallStep::Write { .. }, InstallEvent::Written) => InstallStep::Install,
        (InstallStep::Write { .. }, InstallEvent::WriteFailed(error)) => InstallStep::Finished(
            Err(Failure::DebNotWritten { error: error@ }),
        ),
        (InstallStep::Install, InstallEvent::NotJoined(error)) => InstallStep::Remove(
            Err(Failure::UpdaterNotRun { error: error@ }),
        ),
        (InstallStep::Install, InstallEvent::NotStarted(error)) => InstallStep::Remove(
            Err(Failure::PkexecNotStarted { error: error@ }),
        ),
        (InstallStep::Install, InstallEvent::Exited { success, stderr }) => InstallStep::Remove(
            exit_result(success, stderr@),
        ),
        (InstallStep::Remove(res), InstallEvent::Removed) => InstallStep::Finished(res),
        _ => step,
    }
}

/// The first step to install the Debian package of a version.
pub fn install_apt_package(apt_linux: bool, arch: &str, version: &str) -> (res: InstallStep<String>)
    ensures
        res@ == first_step(apt_linux, arch@, version@),
{
    if !apt_linux {
        return InstallStep::Finished(Err(Failure::AptUnavailable));
    }
    match apt_deb_arch(arch) {
        Ok(deb) => {
            let mut file_name = joined("Axolotl.Launcher_", version);
            file_name.append("_");
            file_name.append(deb);
            file_name.append(".deb");
            InstallStep::Write { file_name }
        },
        Err(error) => InstallStep::Finished(Err(error)),
    }
}

/// The failure that tells an installer's error output.
pub fn install_failure(stderr: &str) -> (res: UpdateError)
    ensures
        res@ == told_failure(stderr@),
{
    Failure::AptInstallFailed { stderr: stderr.trim().to_owned() }
}

/// The result of an installer that ended: a failure tells the error output, which
/// is decoded as it stands where it is valid UTF-8.
pub fn install_result(success: bool, stderr: &[u8]) -> (res: Result<(), UpdateError>)
    ensures
        unit_view(res) == exit_result(success, stderr@),
        !success && valid_utf8(stderr@) ==> utf8_lossy(stderr@) == decode_utf8(stderr@),
{
    if success {
        Ok(())
    } else {
        let text = lossy_text(stderr);
        Err(install_failure(text.as_str()))
    }
}

/// The step after an event.
pub fn advance(step: InstallStep<String>, event: InstallEvent) -> (res: InstallStep<String>)
    ensures
        res@ == next_step(step@, event),
        step@ is Install ==> (event matches InstallEvent::Exited { success, stderr } ==> (!success
            && valid_utf8(stderr@) ==> utf8_lossy(stderr@) == decode_utf8(stderr@))),
{
    match step {
        InstallStep::Write { file_name } => match event {
            InstallEvent::Written => InstallStep::Install,
            InstallEvent::WriteFailed(error) => InstallStep::Finished(
                Err(Failure::DebNotWritten { error }),
            ),
            _ => InstallStep::Write { file_name },
        },
        InstallStep::Install => match event {
            InstallEvent::NotJoined(error) => InstallStep::Remove(
                Err(Failure::UpdaterNotRun { error }),
            ),
            InstallEvent::NotStarted(error) => InstallStep::Remove(
                Err(Failure::PkexecNotStarted { error }),
            ),
            InstallEvent::Exited { success, stderr } => InstallStep::Remove(
                install_result(success, stderr.as_slice()),
            ),
            _ => InstallStep::Install,
        },
        InstallStep::Remove(res) => match event {
            InstallEvent::Removed => InstallStep::Finished(res),
            _ => InstallStep::Remove(res),
        },
        InstallStep::Finished(res) => InstallStep::Finished(res),
    }
}

/// Each event answers the step that it meets.
pub open spec fn all_answer(step: InstallStep<Seq<char>>, events: Seq<InstallEvent>) -> bool
    decreases events.len(),
{
    events.len() > 0 ==> answers(step, events[0]) && all_answer(
        next_step(step, events[0]),
        events.drop_first(),
    )
}

/// The steps that the application takes, the first one included.
pub open spec fn steps_taken(step: InstallStep<Seq<char>>, events: Seq<InstallEvent>) -> Seq<
    InstallStep<Seq<char>>,
>
    decreases events.len(),
{
    if events.len() == 0 {
        seq![step]
    } else {
        seq![step] + steps_taken(next_step(step, events[0]), events.drop_first())
    }
}

/// The step at a place follows from the one before and from its answer.
spec fn follows(steps: Seq<InstallStep<Seq<char>>>, events: Seq<InstallEvent>, i: int) -> bool {
    answers(steps[i], events[i]) && steps[i + 1] == next_step(steps[i], events[i])
}

/// Each step that is taken follows from the one before and from its answer.
proof fn lemma_steps_follow_events(step: InstallStep<Seq<char>>, events: Seq<InstallEvent>)
    requires
        all_answer(step, events),
    ensures
        steps_taken(step, events).len() == events.len() + 1,
        steps_taken(step, events)[0] == step,
        forall|i: int|
            0 <= i < events.len() ==> #[trigger] follows(steps_taken(step, events), events, i),
    decreases events.len(),
{
    if events.len() > 0 {
        let steps = steps_taken(step, events);
        let rest = events.drop_first();
        let later = steps_taken(next_step(step, events[0]), rest);
        lemma_steps_follow_events(next_step(step, events[0]), rest);
        assert forall|i: int| 0 <= i < events.len() implies #[trigger] follows(
            steps,
            events,
            i,
        ) by {
            if i > 0 {
                assert(follows(later, rest, i - 1));
            }
        }
    }
}

/// From a first step at most three answers lead to the end, each to the next step.
proof fn lemma_run_unfolds(step: InstallStep<Seq<char>>, events: Seq<InstallEvent>)
    requires
        all_answer(step, events),
        step is Write || step is Finished,
    ensures
        events.len() <= 3,
        steps_taken(step, events).len() == events.len() + 1,
        steps_taken(step, events)[0] == step,
        events.len() > 0 ==> follows(steps_taken(step, events), events, 0),
        events.len() > 1 ==> follows(steps_taken(step, events), events, 1),
        events.len() > 2 ==> follows(steps_taken(step, events), events, 2),
{
    lemma_steps_follow_events(step, events);
    let steps = steps_taken(step, events);
    if events.len() > 3 {
        assert(follows(steps, events, 0) && follows(steps, events, 1));
        assert(follows(steps, events, 2) && follows(steps, events, 3));
    }
}

/// However the steps turn out, privileges are asked for at most once, and only after
/// the file was written; a file that was written is removed before the end; and the
/// end is reached after three answers at most.
pub proof fn law_one_prompt_and_no_file_left(
    apt_linux: bool,
    arch: Seq<char>,
    version: Seq<char>,
    events: Seq<InstallEvent>,
)
    requires
        all_answer(first_step(apt_linux, arch, version), events),
    ensures
        ({
            let steps = steps_taken(first_step(apt_linux, arch, version), events);
            &&& forall|i: int, j: int|
                0 <= i < j < steps.len() ==> !(#[trigger] steps[i] is Install
                    && #[trigger] steps[j] is Install)
            &&& forall|i: int|
                0 <= i < steps.len() && #[trigger] steps[i] is Install ==> i == 1
                    && steps[0] is Write && events[0] is Written
            &&& steps.last() is Finished ==> forall|i: int|
                0 <= i < steps.len() && #[trigger] steps[i] is Install ==> i + 2 < steps.len()
                    && steps[i + 1] is Remove
            &&& events.len() <= 3
            &&& events.len() == 3 ==> steps.last() is Finished
        }),
{
    lemma_run_unfolds(first_step(apt_linux, arch, version), events);
}

/// The package is installed exactly where apt is in charge, the architecture has
/// packages, the file was written and the installer reported success.
pub proof fn law_success_needs_every_step(
    apt_linux: bool,
    arch: Seq<char>,
    version: Seq<char>,
    events: Seq<InstallEvent>,
)
    requires
        all_answer(first_step(apt_linux, arch, version), events),
    ensures
        steps_taken(first_step(apt_linux, arch, version), events).last()
            == InstallStep::<Seq<char>>::Finished(Ok(())) <==> {
            &&& apt_linux
            &&& deb_arch(arch) is Ok
            &&& events.len() == 3
            &&& events[0] is Written
            &&& events[1] matches InstallEvent::Exited { success, .. } && success
        },
{
    lemma_run_unfolds(first_step(apt_linux, arch, version), events);
}

/// The installation is refused without apt; with apt, on an architecture without
/// packages, which the refusal quotes; and else begins with the file.
pub proof fn law_installation_begins(apt_linux: bool, arch: Seq<char>, version: Seq<char>)
    ensures
        !apt_linux ==> first_step(apt_linux, arch, version) == InstallStep::<Seq<char>>::Finished(
            Err(Failure::AptUnavailable),
        ),
        apt_linux && arch != "x86_64"@ && arch != "aarch64"@ ==> first_step(
            apt_linux,
            arch,
            version,
        ) == InstallStep::<Seq<char>>::Finished(Err(Failure::UnsupportedAptArchitecture { arch })),
        apt_linux && (arch == "x86_64"@ || arch == "aarch64"@) ==> {
            &&& first_step(apt_linux, arch, version) matches InstallStep::Write { file_name }
            &&& arch == "x86_64"@ ==> file_name == deb_file_name(version, "amd64"@)
            &&& arch == "aarch64"@ ==> file_name == deb_file_name(version, "arm64"@)
        },
{
    law_deb_arch(arch);
}

/// The file's name holds the version and Debian's name for the architecture, whole
/// and in this order, and ends in `.deb`; what else it holds is the same whatever
/// the two are.
pub proof fn law_file_name(a: (Seq<char>, Seq<char>), b: (Seq<char>, Seq<char>))
    ensures
        exists|lead: Seq<char>, between: Seq<char>|
            deb_file_name(a.0, a.1) == #[trigger] (lead + a.0 + between + a.1 + ".deb"@)
                && deb_file_name(b.0, b.1) == lead + b.0 + between + b.1 + ".deb"@,
{
    assert(deb_file_name(a.0, a.1) == "Axolotl.Launcher_"@ + a.0 + "_"@ + a.1 + ".deb"@);
}

/// An installer that reported success gives success, whatever it wrote; one that did
/// not gives its error output, with nothing but white space cut off at the two ends
/// and none left there.
pub proof fn law_exit_is_told(success: bool, stderr: Seq<u8>) -> (cut: (int, int))
    ensures
        success <==> exit_result(success, stderr) == Ok::<(), ErrorView>(()),
        ({
            let text = utf8_lossy(stderr);
            let (from, to) = cut;
            &&& 0 <= from <= to <= text.len()
            &&& !success ==> exit_result(success, stderr) == Err::<(), ErrorView>(
                Failure::AptInstallFailed { stderr: text.subrange(from, to) },
            )
            &&& forall|i: int| 0 <= i < from ==> white_space(#[trigger] text[i])
            &&& forall|i: int| to <= i < text.len() ==> white_space(#[trigger] text[i])
            &&& from < to ==> !white_space(text[from]) && !white_space(text[to - 1])
        }),
{
    law_trimmed(utf8_lossy(stderr))
}

/// An event answers a step exactly where it leads to another one: what came of the
/// file answers the writing of it, what came of the installer answers the
/// installation, and the removal of the file answers the removal.
pub proof fn law_answers_lead_on(step: InstallStep<Seq<char>>, event: InstallEvent)
    ensures
        answers(step, event) <==> next_step(step, event) != step,
        event is Written || event is WriteFailed ==> (answers(step, event) <==> step is Write),
        event is NotJoined || event is NotStarted || event is Exited ==> (answers(step, event)
            <==> step is Install),
        event is Removed ==> (answers(step, event) <==> step is Remove),
{
}

/// What the whole ends with is what went wrong first: a file that was not written, a
/// task that did not end, an installer that was not started, each with its reason;
/// else what the installer reported.
pub proof fn law_first_trouble_is_told(
    arch: Seq<char>,
    version: Seq<char>,
    events: Seq<InstallEvent>,
)
    requires
        all_answer(first_step(true, arch, version), events),
        deb_arch(arch) is Ok,
        steps_taken(first_step(true, arch, version), events).last() is Finished,
    ensures
        ({
            let end = steps_taken(first_step(true, arch, version), events).last();
            &&& events[0] matches InstallEvent::WriteFailed(error) ==> end == InstallStep::<
                Seq<char>,
            >::Finished(Err(Failure::DebNotWritten { error: error@ }))
            &&& events[0] !is WriteFailed ==> {
                &&& events.len() == 3
                &&& events[1] matches InstallEvent::NotJoined(error) ==> end == InstallStep::<
                    Seq<char>,
                >::Finished(Err(Failure::UpdaterNotRun { error: error@ }))
                &&& events[1] matches InstallEvent::NotStarted(error) ==> end == InstallStep::<
                    Seq<char>,
                >::Finished(Err(Failure::PkexecNotStarted { error: error@ }))
                &&& events[1] matches InstallEvent::Exited { success, stderr } ==> end
                    == InstallStep::<Seq<char>>::Finished(exit_result(success, stderr@))
            }
        }),
{
    lemma_run_unfolds(first_step(true, arch, version), events);
}

} // verus!
