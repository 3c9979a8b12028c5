//! The labels of workspaces and panes, the commands that panes run, and how the choice of a cockpit
//! is handed on.
use super::layout::{refused, reply};
use super::types::{
    CockpitError, CockpitErrorModel, CockpitPaneRequest, CockpitPaneRequestModel,
    CockpitRunRequest, CockpitRunRequestModel, CockpitUnavailable, CockpitUnavailableModel, EnvVar,
    EnvVarModel,
};
use crate::domain::{CockpitMode, Run, RunModel};
use crate::shell::{quoted, shell_quote, strip_linux_deleted_exe_suffix, without_deleted_mark};
use crate::table::Row;
use crate::text::{after_prefix, append_decimal, decimal, strip_prefix};
use vstd::prelude::*;
use vstd::string::*;

verus! {

pub const COCKPIT_MODE_TRANSPORT_PREFIX: &'static str = "__khazad_cockpit_mode=";

pub open spec fn workspace_label(run_id: Seq<char>) -> Seq<char> {
    "Khazad-Doom "@ + run_id
}

/// The label of the workspace of a run.
pub fn workspace_label_for_run(run_id: &str) -> (r: String)
    ensures
        r@ == workspace_label(run_id@),
{
    let mut r = "Khazad-Doom ".to_owned();
    r.append(run_id);
    r
}

pub open spec fn worker_label(run_id: Seq<char>, slice_id: Seq<char>, attempt: usize) -> Seq<char> {
    "Worker "@ + run_id + "/"@ + slice_id + " attempt "@ + decimal(attempt as nat)
}

/// The label of the pane of a worker.
pub fn worker_pane_label(run_id: &str, slice_id: &str, attempt: usize) -> (r: String)
    ensures
        r@ == worker_label(run_id@, slice_id@, attempt),
{
    let mut r = "Worker ".to_owned();
    r.append(run_id);
    r.append("/");
    r.append(slice_id);
    r.append(" attempt ");
    append_decimal(&mut r, attempt as u64);
    r
}

/// The request for the workspace of a run: its dashboard shows the monitor of the run.
pub open spec fn run_request(run: RunModel, khazad_home: Seq<char>, binary: Seq<char>) -> CockpitRunRequestModel {
    CockpitRunRequestModel {
        repo_path: run.repo_path,
        khazad_home,
        workspace_label: workspace_label(run.id),
        feed_command: quoted(binary) + " monitor --run "@ + quoted(run.id)
            + " --interval-ms 1000"@,
    }
}

impl CockpitRunRequest {
    /// The request for a run, whose dashboard is shown by the given program.
    pub fn for_run(run: &Run, khazad_home: &str, binary: &str) -> (r: CockpitRunRequest)
        ensures
            r@ == run_request(run@, khazad_home@, binary@),
    {
        let mut feed_command = shell_quote(binary);
        feed_command.append(" monitor --run ");
        let run_id = shell_quote(run.id.as_str());
        feed_command.append(run_id.as_str());
        feed_command.append(" --interval-ms 1000");
        CockpitRunRequest {
            repo_path: run.repo_path.dup(),
            khazad_home: khazad_home.to_owned(),
            workspace_label: workspace_label_for_run(run.id.as_str()),
            feed_command,
        }
    }
}

pub open spec fn assignment(var: EnvVarModel) -> Seq<char> {
    var.key + "="@ + var.value
}

pub(super) fn assignment_of(var: &EnvVar) -> (r: String)
    ensures
        r@ == assignment(var@),
{
    let mut r = var.key.dup();
    r.append("=");
    r.append(var.value.as_str());
    r
}

/// Quoted assignments with a space between them.
pub open spec fn assignments(env: Seq<EnvVarModel>) -> Seq<char>
    decreases env.len(),
{
    if env.len() == 0 {
        Seq::empty()
    } else if env.len() == 1 {
        quoted(assignment(env[0]))
    } else {
        assignments(env.drop_last()) + " "@ + quoted(assignment(env.last()))
    }
}

/// The command of a pane, run with the variables that were asked for.
pub open spec fn command_with_env(request: CockpitPaneRequestModel) -> Seq<char> {
    if request.env.len() == 0 {
        request.command
    } else {
        "env "@ + assignments(request.env) + " "@ + request.command
    }
}

/// The command of a pane with its environment in front.
pub fn pane_command_with_env(request: &CockpitPaneRequest) -> (r: String)
    ensures
        r@ == command_with_env(request@),
{
    if request.env.len() == 0 {
        return request.command.dup();
    }
    let mut words = String::new();
    let mut i: usize = 0;
    assert(request@.env.take(0) =~= Seq::empty());
    while i < request.env.len()
        invariant
            i <= request.env.len(),
            words@ == assignments(request@.env.take(i as int)),
        decreases request.env.len() - i,
    {
        let ghost part = request@.env.take(i + 1);
        assert(part.drop_last() =~= request@.env.take(i as int));
        assert(part.last() == request.env@[i as int]@);
        if i > 0 {
            words.append(" ");
        }
        let text = assignment_of(&request.env[i]);
        let word = shell_quote(text.as_str());
        let ghost before = words@;
        words.append(word.as_str());
        assert(i == 0 ==> before =~= Seq::empty() && words@ =~= quoted(assignment(part[0])));
        i = i + 1;
    }
    assert(request@.env.take(i as int) =~= request@.env);
    let mut r = "env ".to_owned();
    r.append(words.as_str());
    r.append(" ");
    r.append(request.command.as_str());
    r
}

pub open spec fn shell_script(script: Seq<char>) -> Seq<char> {
    "/bin/sh -c "@ + quoted(script)
}

/// The command of the pane that shows what the gates do. It never fails: what it shows is not what
/// decides.
pub open spec fn gate_activity_command(binary: Seq<char>, run_id: Seq<char>) -> Seq<char> {
    shell_script(
        quoted(binary) + " cockpit paint-gate-activity --run "@ + quoted(run_id)
            + " --interval-ms 1000"@
            + "; khazad_painter_status=$?; if [ \"$khazad_painter_status\" -ne 0 ]; then printf '%s\\n' '[khazad] gate/repair activity painter exited non-fatally; daemon gate artifacts remain authoritative' >&2; fi; exit 0"@,
    )
}

/// The command that shows the activity of the gates of a run.
pub fn gate_activity_pane_command(binary: &str, run_id: &str) -> (r: String)
    ensures
        r@ == gate_activity_command(binary@, run_id@),
{
    let mut script = shell_quote(binary);
    script.append(" cockpit paint-gate-activity --run ");
    let run = shell_quote(run_id);
    script.append(run.as_str());
    script.append(" --interval-ms 1000");
    script.append(
        "; khazad_painter_status=$?; if [ \"$khazad_painter_status\" -ne 0 ]; then printf '%s\\n' '[khazad] gate/repair activity painter exited non-fatally; daemon gate artifacts remain authoritative' >&2; fi; exit 0",
    );
    let mut r = "/bin/sh -c ".to_owned();
    let quoted_script = shell_quote(script.as_str());
    r.append(quoted_script.as_str());
    r
}

/// The command of the pane that shows what a worker does. The worker runs beside the painter, and
/// the pane waits for it and ends as it ends, whatever becomes of the painter.
pub open spec fn worker_activity_command(
    binary: Seq<char>,
    wrapper_command: Seq<char>,
    stdout_path: Seq<char>,
    status_path: Seq<char>,
    exit_path: Seq<char>,
) -> Seq<char> {
    shell_script(
        "("@ + wrapper_command + ") & khazad_wrapper_pid=$!; "@ + quoted(binary)
            + " cockpit paint-worker-activity --stdout "@ + quoted(stdout_path) + " --status "@
            + quoted(status_path) + " --exit "@ + quoted(exit_path)
            + "; khazad_painter_status=$?; if [ \"$khazad_painter_status\" -ne 0 ]; then printf '%s\\n' '[khazad] worker activity painter exited non-fatally; wrapper artifacts remain authoritative' >&2; fi; wait \"$khazad_wrapper_pid\"; exit $?"@,
    )
}

/// The command that runs a worker and shows its activity.
pub fn worker_activity_pane_command(
    binary: &str,
    wrapper_command: &str,
    stdout_path: &str,
    status_path: &str,
    exit_path: &str,
) -> (r: String)
    ensures
        r@ == worker_activity_command(
            binary@,
            wrapper_command@,
            stdout_path@,
            status_path@,
            exit_path@,
        ),
{
    let mut script = "(".to_owned();
    script.append(wrapper_command);
    script.append(") & khazad_wrapper_pid=$!; ");
    let painter = shell_quote(binary);
    script.append(painter.as_str());
    script.append(" cockpit paint-worker-activity --stdout ");
    let stdout = shell_quote(stdout_path);
    script.append(stdout.as_str());
    script.append(" --status ");
    let status = shell_quote(status_path);
    script.append(status.as_str());
    script.append(" --exit ");
    let exit = shell_quote(exit_path);
    script.append(exit.as_str());
    script.append(
        "; khazad_painter_status=$?; if [ \"$khazad_painter_status\" -ne 0 ]; then printf '%s\\n' '[khazad] worker activity painter exited non-fatally; wrapper artifacts remain authoritative' >&2; fi; wait \"$khazad_wrapper_pid\"; exit $?",
    );
    let mut r = "/bin/sh -c ".to_owned();
    let quoted_script = shell_quote(script.as_str());
    r.append(quoted_script.as_str());
    r
}

pub open spec fn unknown_mode(value: Seq<char>) -> CockpitErrorModel {
    refused("unknown cockpit mode "@ + quoted(value))
}

fn unknown_mode_error(value: &str) -> (r: CockpitError)
    ensures
        r@ == unknown_mode(value@),
{
    let mut message = "unknown cockpit mode ".to_owned();
    let shown = shell_quote(value);
    message.append(shown.as_str());
    CockpitError { message }
}

/// The argument that hands a mode on.
pub open spec fn transport_arg(mode: CockpitMode) -> Seq<char> {
    COCKPIT_MODE_TRANSPORT_PREFIX@ + mode.text()
}

/// The argument that hands a cockpit mode on.
pub fn cockpit_mode_transport_arg(value: &str) -> (r: Result<String, CockpitError>)
    ensures
        reply(r) == match CockpitMode::of_text(value@) {
            Some(mode) => Ok::<Seq<char>, CockpitErrorModel>(transport_arg(mode)),
            None => Err::<Seq<char>, CockpitErrorModel>(unknown_mode(value@)),
        },
{
    match CockpitMode::parse(value) {
        Some(mode) => {
            let mut r = COCKPIT_MODE_TRANSPORT_PREFIX.to_owned();
            r.append(mode.as_str());
            Ok(r)
        },
        None => Err(unknown_mode_error(value)),
    }
}

/// The mode that arguments hand on, and the other arguments in their order. At most one argument
/// may hand on a mode.
pub open spec fn transported(args: Seq<Seq<char>>) -> Result<
    (Option<CockpitMode>, Seq<Seq<char>>),
    CockpitErrorModel,
>
    decreases args.len(),
{
    if args.len() == 0 {
        Ok((None, Seq::empty()))
    } else {
        match transported(args.drop_last()) {
            Err(error) => Err(error),
            Ok((mode, kept)) => match after_prefix(args.last(), COCKPIT_MODE_TRANSPORT_PREFIX@) {
                None => Ok((mode, kept.push(args.last()))),
                Some(value) => match CockpitMode::of_text(value) {
                    None => Err(unknown_mode(value)),
                    Some(found) => if mode is Some {
                        Err(refused("multiple cockpit mode overrides were provided"@))
                    } else {
                        Ok((Some(found), kept))
                    },
                },
            },
        }
    }
}

proof fn lemma_transport_fails(args: Seq<Seq<char>>, n: int)
    requires
        0 <= n <= args.len(),
        transported(args.take(n)) is Err,
    ensures
        transported(args) == transported(args.take(n)),
    decreases args.len() - n,
{
    if n < args.len() {
        assert(args.take(n + 1).drop_last() =~= args.take(n));
        lemma_transport_fails(args, n + 1);
    } else {
        assert(args.take(n) =~= args);
    }
}

/// Takes the mode out of a list of arguments. Arguments that cannot be read are dropped with the
/// rest.
pub fn take_cockpit_mode_transport_arg(args: &mut Vec<String>) -> (r: Result<
    Option<CockpitMode>,
    CockpitError,
>)
    ensures
        match transported(old(args).deep_view()) {
            Ok((mode, kept)) => reply(r) == Ok::<Option<CockpitMode>, CockpitErrorModel>(mode)
                && final(args).deep_view() == kept,
            Err(error) => reply(r) == Err::<Option<CockpitMode>, CockpitErrorModel>(error)
                && final(args).deep_view() == Seq::<Seq<char>>::empty(),
        },
{
    let all = args.dup();
    let mut mode: Option<CockpitMode> = None;
    let mut kept: Vec<String> = Vec::new();
    let mut i: usize = 0;
    assert(all.deep_view().take(0) =~= Seq::empty());
    assert(kept.deep_view() =~= Seq::empty());
    while i < all.len()
        invariant
            i <= all.len(),
            all.deep_view() == old(args).deep_view(),
            transported(all.deep_view().take(i as int)) == Ok::<
                (Option<CockpitMode>, Seq<Seq<char>>),
                CockpitErrorModel,
            >((mode, kept.deep_view())),
        decreases all.len() - i,
    {
        proof {
            let part = all.deep_view().take(i + 1);
            assert(part.drop_last() =~= all.deep_view().take(i as int));
            assert(part.last() == all@[i as int]@);
        }
        match strip_prefix(all[i].as_str(), COCKPIT_MODE_TRANSPORT_PREFIX) {
            None => {
                let ghost before = kept.deep_view();
                let arg = all[i].dup();
                kept.push(arg);
                assert(kept.deep_view() =~= before.push(arg@));
            },
            Some(value) => {
                let found = match CockpitMode::parse(value.as_str()) {
                    Some(found) => found,
                    None => {
                        proof {
                            lemma_transport_fails(all.deep_view(), i + 1);
                        }
                        *args = Vec::new();
                        assert(args.deep_view() =~= Seq::empty());
                        return Err(unknown_mode_error(value.as_str()));
                    },
                };
                if mode.is_some() {
                    proof {
                        lemma_transport_fails(all.deep_view(), i + 1);
                    }
                    *args = Vec::new();
                    assert(args.deep_view() =~= Seq::empty());
                    return Err(
                        CockpitError {
                            message: "multiple cockpit mode overrides were provided".to_owned(),
                        },
                    );
                }
                mode = Some(found);
            },
        }
        i = i + 1;
    }
    assert(all.deep_view().take(i as int) =~= all.deep_view());
    *args = kept;
    Ok(mode)
}

/// A mode that was handed on among other arguments is taken out again, and the others stay as they
/// were.
pub proof fn law_transport_round_trip(
    mode: CockpitMode,
    before: Seq<Seq<char>>,
    after: Seq<Seq<char>>,
)
    requires
        forall|i: int|
            0 <= i < before.len() ==> after_prefix(
                #[trigger] before[i],
                COCKPIT_MODE_TRANSPORT_PREFIX@,
            ) is None,
        forall|i: int|
            0 <= i < after.len() ==> after_prefix(
                #[trigger] after[i],
                COCKPIT_MODE_TRANSPORT_PREFIX@,
            ) is None,
    ensures
        transported(before.push(transport_arg(mode)) + after) == Ok::<
            (Option<CockpitMode>, Seq<Seq<char>>),
            CockpitErrorModel,
        >((Some(mode), before + after)),
    decreases before.len() + after.len(),
{
    let arg = transport_arg(mode);
    let prefix = COCKPIT_MODE_TRANSPORT_PREFIX@;
    if after.len() > 0 {
        let all = before.push(arg) + after;
        assert(all.drop_last() =~= before.push(arg) + after.drop_last());
        assert(all.last() == after[after.len() - 1]);
        law_transport_round_trip(mode, before, after.drop_last());
        assert(before + after =~= (before + after.drop_last()).push(after.last()));
    } else {
        let all = before.push(arg) + after;
        assert(all =~= before.push(arg));
        assert(all.drop_last() =~= before);
        lemma_untransported(before);
        assert(arg.take(prefix.len() as int) =~= prefix);
        assert(arg.skip(prefix.len() as int) =~= mode.text());
        mode.lemma_text_round_trip();
        assert(before + after =~= before);
    }
}

proof fn lemma_untransported(args: Seq<Seq<char>>)
    requires
        forall|i: int|
            0 <= i < args.len() ==> after_prefix(
                #[trigger] args[i],
                COCKPIT_MODE_TRANSPORT_PREFIX@,
            ) is None,
    ensures
        transported(args) == Ok::<(Option<CockpitMode>, Seq<Seq<char>>), CockpitErrorModel>(
            (None, args),
        ),
    decreases args.len(),
{
    if args.len() > 0 {
        lemma_untransported(args.drop_last());
        assert(after_prefix(args[args.len() - 1], COCKPIT_MODE_TRANSPORT_PREFIX@) is None);
        assert(args.drop_last().push(args.last()) =~= args);
    } else {
        assert(args =~= Seq::empty());
    }
}

impl CockpitUnavailable {
    pub fn new(mode: CockpitMode, adapter: &str, message: &str) -> (r: CockpitUnavailable)
        ensures
            r@ == (CockpitUnavailableModel {
                mode,
                adapter: adapter@,
                message: message@,
                remediation: "Install a usable herdr binary, or run with --cockpit direct to suppress cockpit attempts. Khazad-Doom continues to use daemon state, status, watch, monitor, verification, merge, and handoff as the source of truth."@,
            }),
    {
        CockpitUnavailable {
            mode,
            adapter: adapter.to_owned(),
            message: message.to_owned(),
            remediation: "Install a usable herdr binary, or run with --cockpit direct to suppress cockpit attempts. Khazad-Doom continues to use daemon state, status, watch, monitor, verification, merge, and handoff as the source of truth.".to_owned(),
        }
    }
}

/// The program that panes are to run: the one that runs now, if its file is still there, with or
/// without the mark of a replaced file; or else one from the search path. No other file is looked
/// for, and the second only where the first is not there.
pub fn reusable_khazad_binary<F: Fn(&str) -> bool>(
    current_exe: Option<&str>,
    is_executable: F,
    in_path: Option<String>,
) -> (r: Option<String>)
    requires
        current_exe matches Some(path) ==> {
            &&& is_executable.requires((path,))
            &&& is_executable.ensures((path,), false) ==> (forall|s: &str|
                without_deleted_mark(path@) == Some(s@) ==> #[trigger] is_executable.requires((s,)))
        },
    ensures
        match current_exe {
            None => r.deep_view() == in_path.deep_view(),
            Some(path) => {
                ||| is_executable.ensures((path,), true) && r.deep_view() == Some(path@)
                ||| is_executable.ensures((path,), false) && match without_deleted_mark(path@) {
                    None => r.deep_view() == in_path.deep_view(),
                    Some(stripped) => {
                        ||| exists|s: &str| s@ == stripped && #[trigger] is_executable.ensures(
                            (s,),
                            true,
                        ) && r.deep_view() == Some(stripped)
                        ||| exists|s: &str| s@ == stripped && #[trigger] is_executable.ensures(
                            (s,),
                            false,
                        ) && r.deep_view() == in_path.deep_view()
                    },
                }
            },
        },
{
    match current_exe {
        Some(path) => {
            if is_executable(path) {
                return Some(path.to_owned());
            }
            match strip_linux_deleted_exe_suffix(path) {
                Some(stripped) => {
                    if is_executable(stripped.as_str()) {
                        return Some(stripped);
                    }
                    in_path
                },
                None => in_path,
            }
        },
        None => in_path,
    }
}

} // verus!
