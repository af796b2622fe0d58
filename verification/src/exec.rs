//! The rules of the two run modes: what is shown around a streamed process,
//! and what a finished process becomes, a result or a self-contained error.

use vstd::prelude::*;
use vstd::utf8::{decode_utf8, encode_utf8, valid_utf8};
use crate::color::{
    append_bytes, color_enabled, colored, is_terminal, write_colored, Color, ColorSpec, Stream,
};
use crate::command::{
    args_parts, description_text, envs_parts, list_text, option_text, option_view, texts, Command,
    CommandView,
};
use crate::output::{cmd_info_text, cmd_info_with_output, ExitStatus, Output};
use crate::text::{debug_quoted, debug_text, decode_error_text, lossy_text, strict_decoded};

verus! {

/// The kinds of failure of a run.
#[derive(Clone, Copy, Debug)]
pub enum ErrorKind {
    /// The current working directory could not be determined.
    Environment,
    /// The operating system could not start the process or wait for it.
    LaunchOrWait,
    /// The process ran to its end and failed.
    NonZeroExit,
    /// The process succeeded, but its standard output is not valid text.
    InvalidOutputEncoding,
}

/// A failure of a run. The message is self-contained: it holds the whole
/// invocation and, where there is any, the captured output.
pub struct ExecError {
    pub kind: ErrorKind,
    pub message: String,
    /// The underlying failure, where there is one: that of the operating
    /// system, or that of decoding the output.
    pub cause: Option<String>,
}

/// All parts, one after the other.
pub open spec fn concat_all(parts: Seq<Seq<char>>) -> Seq<char>
    decreases parts.len(),
{
    if parts.len() == 0 {
        Seq::empty()
    } else {
        concat_all(parts.drop_last()) + parts.last()
    }
}

/// The part of the invocation line that removes a variable: `-u KEY ` for an
/// override without a value, nothing for one with a value.
pub open spec fn removal_text(e: (Seq<char>, Option<Seq<char>>)) -> Seq<char> {
    match e.1 {
        None => "-u "@ + e.0 + " "@,
        Some(_) => Seq::empty(),
    }
}

/// The part of the invocation line that sets a variable: `KEY=<value> ` for
/// an override with a value, nothing for one without.
pub open spec fn setting_text(e: (Seq<char>, Option<Seq<char>>)) -> Seq<char> {
    match e.1 {
        Some(v) => e.0 + "="@ + debug_text(v) + " "@,
        None => Seq::empty(),
    }
}

/// All removals of the overrides, in order.
pub open spec fn removals_text(envs: Seq<(Seq<char>, Option<Seq<char>>)>) -> Seq<char> {
    concat_all(Seq::new(envs.len(), |i: int| removal_text(envs[i])))
}

/// All settings of the overrides, in order.
pub open spec fn settings_text(envs: Seq<(Seq<char>, Option<Seq<char>>)>) -> Seq<char> {
    concat_all(Seq::new(envs.len(), |i: int| setting_text(envs[i])))
}

/// Each argument quoted, with a space before it.
pub open spec fn arguments_text(args: Seq<Seq<char>>) -> Seq<char> {
    concat_all(Seq::new(args.len(), |i: int| " "@ + debug_text(args[i])))
}

/// The change of directory in front of the invocation line.
pub open spec fn directory_text(dir: Option<Seq<char>>) -> Seq<char> {
    match dir {
        Some(d) => "cd "@ + debug_text(d) + " && "@,
        None => Seq::empty(),
    }
}

/// The removals, behind the word `env` where there is any.
pub open spec fn env_prefix_text(envs: Seq<(Seq<char>, Option<Seq<char>>)>) -> Seq<char> {
    if removals_text(envs).len() == 0 {
        Seq::empty()
    } else {
        "env "@ + removals_text(envs)
    }
}

/// The invocation as one line in the manner of a shell: the change of
/// directory, the removed and the set variables, the quoted program and the
/// quoted arguments.
pub open spec fn invocation_text(c: CommandView) -> Seq<char> {
    directory_text(c.current_dir) + env_prefix_text(c.envs) + settings_text(c.envs) + debug_text(
        c.program,
    ) + arguments_text(c.args)
}

fn concat_strings(parts: &Vec<String>) -> (r: String)
    ensures
        r@ == concat_all(texts(parts@)),
{
    let ghost all = texts(parts@);
    let mut out = String::new();
    let mut i: usize = 0;
    while i < parts.len()
        invariant
            i <= parts.len(),
            all == texts(parts@),
            out@ == concat_all(all.take(i as int)),
        decreases parts.len() - i,
    {
        proof {
            assert(all.take(i + 1).drop_last() =~= all.take(i as int));
            assert(all.take(i + 1).last() == parts@[i as int]@);
        }
        out.append(parts[i].as_str());
        i = i + 1;
    }
    proof {
        assert(all.take(i as int) =~= all);
    }
    out
}

/// The invocation as one line, as `invocation_text` says.
pub fn invocation_string(cmd: &Command) -> (r: String)
    ensures
        r@ == invocation_text(cmd@),
{
    let mut removals: Vec<String> = Vec::new();
    let mut settings: Vec<String> = Vec::new();
    let mut k: usize = 0;
    while k < cmd.envs.len()
        invariant
            k <= cmd.envs.len(),
            removals@.len() == k,
            settings@.len() == k,
            forall|j: int| 0 <= j < k ==> removals@[j]@ == removal_text(#[trigger] cmd.envs@[j]@),
            forall|j: int| 0 <= j < k ==> settings@[j]@ == setting_text(#[trigger] cmd.envs@[j]@),
        decreases cmd.envs.len() - k,
    {
        let e = &cmd.envs[k];
        match &e.value {
            Some(v) => {
                let mut s = String::from_str(e.key.as_str());
                s.append("=");
                s.append(debug_quoted(v.as_str()).as_str());
                s.append(" ");
                settings.push(s);
                removals.push(String::new());
            },
            None => {
                let mut s = String::from_str("-u ");
                s.append(e.key.as_str());
                s.append(" ");
                removals.push(s);
                settings.push(String::new());
            },
        }
        k = k + 1;
    }
    let mut arguments: Vec<String> = Vec::new();
    let mut i: usize = 0;
    while i < cmd.args.len()
        invariant
            i <= cmd.args.len(),
            arguments@.len() == i,
            forall|j: int|
                0 <= j < i ==> arguments@[j]@ == " "@ + debug_text(#[trigger] cmd.args@[j]@),
        decreases cmd.args.len() - i,
    {
        let mut s = String::from_str(" ");
        s.append(debug_quoted(cmd.args[i].as_str()).as_str());
        arguments.push(s);
        i = i + 1;
    }
    proof {
        let envs = cmd@.envs;
        assert(texts(removals@) =~= Seq::new(envs.len(), |i: int| removal_text(envs[i])));
        assert(texts(settings@) =~= Seq::new(envs.len(), |i: int| setting_text(envs[i])));
        assert(texts(arguments@) =~= Seq::new(
            cmd@.args.len(),
            |i: int| " "@ + debug_text(cmd@.args[i]),
        ));
    }
    let mut out = String::new();
    match &cmd.current_dir {
        Some(d) => {
            let mut s = String::from_str("cd ");
            s.append(debug_quoted(d.as_str()).as_str());
            s.append(" && ");
            out.append(s.as_str());
        },
        None => {},
    }
    let removed = concat_strings(&removals);
    if !removed.as_str().is_empty() {
        let mut s = String::from_str("env ");
        s.append(removed.as_str());
        out.append(s.as_str());
    }
    out.append(concat_strings(&settings).as_str());
    out.append(debug_quoted(cmd.program.as_str()).as_str());
    out.append(concat_strings(&arguments).as_str());
    proof {
        assert(out@ =~= invocation_text(cmd@));
    }
    out
}

/// The colours of the banner before a run: black on cyan.
pub open spec fn start_colors() -> ColorSpec {
    ColorSpec { fg: Some(Color::Black), bg: Some(Color::Cyan) }
}

/// The colours of the banner after a run: black on green after a success,
/// black on red after a failure.
pub open spec fn end_colors(success: bool) -> ColorSpec {
    ColorSpec { fg: Some(Color::Black), bg: Some(if success { Color::Green } else { Color::Red }) }
}

/// The banner before a run: the working directory under `start_colors`, a
/// space, the invocation line and a line feed.
pub open spec fn start_banner_bytes(color: bool, cwd: Seq<char>, c: CommandView) -> Seq<u8> {
    colored(color, start_colors(), encode_utf8(cwd)) + encode_utf8(
        " "@ + invocation_text(c) + "\n"@,
    )
}

/// The banner after a run: the words ` END OUTPUT ` under `end_colors`, and a
/// line feed.
pub open spec fn end_banner_bytes(color: bool, success: bool) -> Seq<u8> {
    colored(color, end_colors(success), encode_utf8(" END OUTPUT "@)) + encode_utf8("\n"@)
}

/// The bytes of the banner before a run.
pub fn start_banner(color: bool, cwd: &str, cmd: &Command) -> (r: Vec<u8>)
    ensures
        r@ == start_banner_bytes(color, cwd@, cmd@),
{
    let spec = ColorSpec { fg: Some(Color::Black), bg: Some(Color::Cyan) };
    let mut out: Vec<u8> = Vec::new();
    write_colored(&mut out, color, &spec, cwd.as_bytes());
    let mut line = String::from_str(" ");
    line.append(invocation_string(cmd).as_str());
    line.append("\n");
    append_bytes(&mut out, line.as_str().as_bytes());
    proof {
        assert(out@ =~= start_banner_bytes(color, cwd@, cmd@));
    }
    out
}

/// The bytes of the banner after a run.
pub fn end_banner(color: bool, success: bool) -> (r: Vec<u8>)
    ensures
        r@ == end_banner_bytes(color, success),
{
    let spec = ColorSpec {
        fg: Some(Color::Black),
        bg: Some(if success { Color::Green } else { Color::Red }),
    };
    let mut out: Vec<u8> = Vec::new();
    write_colored(&mut out, color, &spec, " END OUTPUT ".as_bytes());
    append_bytes(&mut out, "\n".as_bytes());
    proof {
        assert(out@ =~= end_banner_bytes(color, success));
    }
    out
}

/// The message of a launch failure: the invocation, described.
pub open spec fn launch_message(c: CommandView) -> Seq<char> {
    "Failed to execute command ("@ + description_text(c) + ")"@
}

/// The message of a streamed run that failed: the invocation, described.
pub open spec fn exit_message(c: CommandView) -> Seq<char> {
    "Process did not exit successfully ("@ + description_text(c) + ")"@
}

/// The message of a captured run that failed: the invocation and both
/// captured streams, described.
pub open spec fn captured_exit_message(c: CommandView, stdout: Seq<u8>, stderr: Seq<u8>) -> Seq<
    char,
> {
    "Process did not exit successfully ("@ + cmd_info_text(c, stdout, stderr) + ")"@
}

/// The message of a captured run whose output is not valid text: the
/// invocation, the offending bytes and the error stream, described.
pub open spec fn encoding_message(c: CommandView, stdout: Seq<u8>, stderr: Seq<u8>) -> Seq<char> {
    "Process stdout is not UTF-8 ("@ + cmd_info_text(c, stdout, stderr) + ")"@
}

/// The failure to determine the current working directory, with the failure
/// of the operating system as its cause.
pub fn environment_failure(cause: String) -> (e: ExecError)
    ensures
        e.kind is Environment,
        e.message@ == "Failed to get current working directory"@,
        e.cause == Some(cause),
{
    ExecError {
        kind: ErrorKind::Environment,
        message: String::from_str("Failed to get current working directory"),
        cause: Some(cause),
    }
}

/// The failure to start a process or to wait for it, with the failure of the
/// operating system as its cause and the invocation in its message.
pub fn launch_failure(cmd: &Command, cause: String) -> (e: ExecError)
    ensures
        e.kind is LaunchOrWait,
        e.message@ == launch_message(cmd@),
        e.cause == Some(cause),
{
    let mut message = String::from_str("Failed to execute command (");
    message.append(cmd.description().to_text().as_str());
    message.append(")");
    ExecError { kind: ErrorKind::LaunchOrWait, message, cause: Some(cause) }
}

/// The result of a streamed run that ended with `status`: success for a
/// successful status, else a failure that describes the invocation.
pub fn exec_result(cmd: &Command, status: ExitStatus) -> (r: Result<(), ExecError>)
    ensures
        status.is_success() <==> r is Ok,
        r matches Err(e) ==> e.kind is NonZeroExit && e.message@ == exit_message(cmd@)
            && e.cause is None,
{
    if status.success() {
        Ok(())
    } else {
        let mut message = String::from_str("Process did not exit successfully (");
        message.append(cmd.description().to_text().as_str());
        message.append(")");
        Err(ExecError { kind: ErrorKind::NonZeroExit, message, cause: None })
    }
}

/// The content of the outcome of a captured run: a captured result, or a
/// failure of some kind with its message.
pub enum OutcomeView {
    Captured { command: CommandView, status: ExitStatus, stdout: Seq<char>, stderr: Seq<u8> },
    Failed { kind: ErrorKind, message: Seq<char>, cause: Option<Seq<char>> },
}

/// The content of an outcome.
pub open spec fn outcome_view(r: Result<Output, ExecError>) -> OutcomeView {
    match r {
        Ok(out) => OutcomeView::Captured {
            command: out.command@,
            status: out.status,
            stdout: out.stdout@,
            stderr: out.stderr@,
        },
        Err(e) => OutcomeView::Failed {
            kind: e.kind,
            message: e.message@,
            cause: option_view(e.cause),
        },
    }
}

/// What a captured run becomes. A failed status gives a `NonZeroExit`
/// failure without a cause; a successful one with output that is not valid
/// text gives an `InvalidOutputEncoding` failure whose cause is the decoding
/// error; else the result holds the invocation, the status, the output
/// decoded and the raw error bytes.
pub open spec fn outcome_of(
    c: CommandView,
    status: ExitStatus,
    stdout: Seq<u8>,
    stderr: Seq<u8>,
) -> OutcomeView {
    if !status.is_success() {
        OutcomeView::Failed {
            kind: ErrorKind::NonZeroExit,
            message: captured_exit_message(c, stdout, stderr),
            cause: None,
        }
    } else if !valid_utf8(stdout) {
        OutcomeView::Failed {
            kind: ErrorKind::InvalidOutputEncoding,
            message: encoding_message(c, stdout, stderr),
            cause: Some(decode_error_text(stdout)),
        }
    } else {
        OutcomeView::Captured { command: c, status, stdout: decode_utf8(stdout), stderr }
    }
}

/// What a captured run becomes once the process has ended with `status`,
/// having written `stdout` and `stderr`: the outcome that `outcome_of`
/// gives. A result is well formed, owns the very invocation handed in,
/// and its text encodes back to the bytes written.
pub fn capture_outcome(cmd: Command, status: ExitStatus, stdout: Vec<u8>, stderr: Vec<u8>) -> (r:
    Result<Output, ExecError>)
    ensures
        outcome_view(r) == outcome_of(cmd@, status, stdout@, stderr@),
        r matches Ok(out) ==> out.wf() && out.command == cmd && out.stderr == stderr
            && encode_utf8(out.stdout@) == stdout@,
{
    if !status.success() {
        let mut message = String::from_str("Process did not exit successfully (");
        message.append(
            cmd_info_with_output(&cmd, stdout.as_slice(), stderr.as_slice()).as_str(),
        );
        message.append(")");
        return Err(ExecError { kind: ErrorKind::NonZeroExit, message, cause: None });
    }
    match strict_decoded(stdout) {
        Ok(text) => {
            proof {
                vstd::utf8::encode_utf8_decode_utf8(text@);
            }
            Ok(Output { command: cmd, status, stdout: text, stderr })
        },
        Err(refused) => {
            let (bytes, why) = refused;
            let mut message = String::from_str("Process stdout is not UTF-8 (");
            message.append(
                cmd_info_with_output(&cmd, bytes.as_slice(), stderr.as_slice()).as_str(),
            );
            message.append(")");
            Err(ExecError { kind: ErrorKind::InvalidOutputEncoding, message, cause: Some(why) })
        },
    }
}

/// The first step of a streamed run, given whether standard error is an
/// interactive terminal and the working directory, or why it is unknown.
///
/// With a known directory it gives the banner to send to standard error
/// before the process is started; off a terminal the banner is plain text.
/// With an unknown one it gives the `Environment` error.
pub fn exec_begin_on(is_terminal: bool, cmd: &Command, cwd: Result<String, String>) -> (r: Result<
    Vec<u8>,
    ExecError,
>)
    ensures
        r is Ok <==> cwd is Ok,
        r matches Ok(banner) ==> (banner@ == start_banner_bytes(false, cwd->Ok_0@, cmd@) || (
        is_terminal && banner@ == start_banner_bytes(true, cwd->Ok_0@, cmd@))),
        r matches Err(e) ==> e.kind is Environment && e.message@
            == "Failed to get current working directory"@ && e.cause == Some(cwd->Err_0),
{
    match cwd {
        Ok(dir) => {
            let color = color_enabled(Stream::Stderr, is_terminal);
            Ok(start_banner(color, dir.as_str(), cmd))
        },
        Err(cause) => Err(environment_failure(cause)),
    }
}

/// The last step of a streamed run, given whether standard error is an
/// interactive terminal and how the process ended, or why it could not be
/// started or waited for.
///
/// For a process that ended it gives the closing banner to send to standard
/// error, plain text off a terminal, and the result of the run. For one that
/// could not be run it gives no banner and the `LaunchOrWait` error.
pub fn exec_end_on(is_terminal: bool, cmd: &Command, ended: Result<ExitStatus, String>) -> (r: (
    Vec<u8>,
    Result<(), ExecError>,
))
    ensures
        r.1 is Ok <==> (ended matches Ok(status) && status.is_success()),
        ended matches Ok(status) ==> (r.0@ == end_banner_bytes(false, status.is_success()) || (
        is_terminal && r.0@ == end_banner_bytes(true, status.is_success()))) && (r.1 matches Err(e)
            ==> e.kind is NonZeroExit && e.message@ == exit_message(cmd@) && e.cause is None),
        ended matches Err(cause) ==> r.0@ == Seq::<u8>::empty() && (r.1 matches Err(e)
            && e.kind is LaunchOrWait && e.message@ == launch_message(cmd@) && e.cause == Some(
            cause,
        )),
{
    match ended {
        Ok(status) => {
            let color = color_enabled(Stream::Stderr, is_terminal);
            (end_banner(color, status.success()), exec_result(cmd, status))
        },
        Err(cause) => (Vec::new(), Err(launch_failure(cmd, cause))),
    }
}

/// The first step of a streamed run: asks whether standard error is an
/// interactive terminal and goes on as `exec_begin_on` does.
pub fn exec_begin(cmd: &Command, cwd: Result<String, String>) -> (r: Result<Vec<u8>, ExecError>)
    ensures
        r is Ok <==> cwd is Ok,
        r matches Ok(banner) ==> (banner@ == start_banner_bytes(false, cwd->Ok_0@, cmd@)
            || banner@ == start_banner_bytes(true, cwd->Ok_0@, cmd@)),
        r matches Err(e) ==> e.kind is Environment && e.message@
            == "Failed to get current working directory"@ && e.cause == Some(cwd->Err_0),
{
    exec_begin_on(is_terminal(Stream::Stderr), cmd, cwd)
}

/// The last step of a streamed run: asks whether standard error is an
/// interactive terminal and goes on as `exec_end_on` does.
pub fn exec_end(cmd: &Command, ended: Result<ExitStatus, String>) -> (r: (
    Vec<u8>,
    Result<(), ExecError>,
))
    ensures
        r.1 is Ok <==> (ended matches Ok(status) && status.is_success()),
        ended matches Ok(status) ==> (r.0@ == end_banner_bytes(false, status.is_success()) || r.0@
            == end_banner_bytes(true, status.is_success())) && (r.1 matches Err(e) ==> e.kind
            is NonZeroExit && e.message@ == exit_message(cmd@) && e.cause is None),
        ended matches Err(cause) ==> r.0@ == Seq::<u8>::empty() && (r.1 matches Err(e)
            && e.kind is LaunchOrWait && e.message@ == launch_message(cmd@) && e.cause == Some(
            cause,
        )),
{
    exec_end_on(is_terminal(Stream::Stderr), cmd, ended)
}

/// Without colour both banners of a streamed run are plain text: the working
/// directory, a space, the invocation line and a line feed before the run;
/// the words ` END OUTPUT ` and a line feed after it.
pub proof fn banners_plain_without_color(cwd: Seq<char>, c: CommandView, success: bool)
    ensures
        start_banner_bytes(false, cwd, c) == encode_utf8(cwd) + encode_utf8(
            " "@ + invocation_text(c) + "\n"@,
        ),
        end_banner_bytes(false, success) == encode_utf8(" END OUTPUT "@) + encode_utf8("\n"@),
{
}

/// A process that succeeds and writes valid text is captured, and the text
/// comes back exactly as it was written.
pub proof fn capture_keeps_valid_text(
    c: CommandView,
    status: ExitStatus,
    text: Seq<char>,
    stderr: Seq<u8>,
)
    requires
        status.is_success(),
    ensures
        outcome_of(c, status, encode_utf8(text), stderr) == (OutcomeView::Captured {
            command: c,
            status,
            stdout: text,
            stderr,
        }),
{
    vstd::utf8::encode_utf8_valid_utf8(text);
    vstd::utf8::encode_utf8_decode_utf8(text);
}

/// A process that fails is never captured: the outcome is a `NonZeroExit`
/// failure whose message begins with the words that say so and then names
/// the program, quoted.
pub proof fn capture_of_failed_exit(
    c: CommandView,
    status: ExitStatus,
    stdout: Seq<u8>,
    stderr: Seq<u8>,
)
    requires
        !status.is_success(),
    ensures
        outcome_of(c, status, stdout, stderr) matches OutcomeView::Failed { kind, message, cause }
            && kind is NonZeroExit && cause is None && exists|rest: Seq<char>|
            message == "Process did not exit successfully ("@ + "program = "@ + debug_text(
                c.program,
            ) + rest,
{
    let message = captured_exit_message(c, stdout, stderr);
    let rest = ", args = "@ + list_text(args_parts(c.args)) + ", envs = "@ + list_text(
        envs_parts(c.envs),
    ) + ", current_dir = "@ + option_text(c.current_dir) + ", stdout = "@ + debug_text(
        lossy_text(stdout),
    ) + ", stderr = "@ + debug_text(lossy_text(stderr)) + ")"@;
    assert(message =~= "Process did not exit successfully ("@ + "program = "@ + debug_text(
        c.program,
    ) + rest);
}

/// A process that succeeds but writes bytes that are not valid text is never
/// captured: the outcome is an `InvalidOutputEncoding` failure, and its cause
/// is the decoding error.
pub proof fn capture_of_invalid_text(
    c: CommandView,
    status: ExitStatus,
    stdout: Seq<u8>,
    stderr: Seq<u8>,
)
    requires
        status.is_success(),
        !valid_utf8(stdout),
    ensures
        outcome_of(c, status, stdout, stderr) == (OutcomeView::Failed {
            kind: ErrorKind::InvalidOutputEncoding,
            message: encoding_message(c, stdout, stderr),
            cause: Some(decode_error_text(stdout)),
        }),
{
}

} // verus!
