//! What a finished, captured process leaves behind, and its description.

use vstd::prelude::*;
use vstd::utf8::{decode_utf8, encode_utf8, valid_utf8};
use crate::command::{description_text, Command, CommandView};
use crate::text::{debug_quoted, debug_text, lossy_decoded, lossy_text};

verus! {

/// How a process ended: its exit code, or `None` where it was ended by a
/// signal and has none.
#[derive(Clone, Copy, Debug)]
pub struct ExitStatus {
    pub code: Option<i32>,
}

impl ExitStatus {
    /// A process succeeded where it ended by itself with code zero.
    pub open spec fn is_success(&self) -> bool {
        self.code == Some(0i32)
    }

    /// Whether the process succeeded.
    pub fn success(&self) -> (r: bool)
        ensures
            r == self.is_success(),
    {
        match self.code {
            Some(c) => c == 0,
            None => false,
        }
    }
}

/// The result of a captured run: the invocation, how it ended, its standard
/// output as text and its standard error as raw bytes.
pub struct Output {
    pub command: Command,
    pub status: ExitStatus,
    pub stdout: String,
    pub stderr: Vec<u8>,
}

/// The description of an invocation together with what it printed: the
/// description of the invocation, then the quoted output text and the quoted
/// error text.
pub open spec fn output_text(c: CommandView, stdout: Seq<char>, stderr: Seq<char>) -> Seq<char> {
    description_text(c) + ", stdout = "@ + debug_text(stdout) + ", stderr = "@ + debug_text(
        stderr,
    )
}

/// The description of an invocation together with the raw bytes of both
/// streams, each decoded lossily.
pub open spec fn cmd_info_text(c: CommandView, stdout: Seq<u8>, stderr: Seq<u8>) -> Seq<char> {
    output_text(c, lossy_text(stdout), lossy_text(stderr))
}

fn output_string(cmd: &Command, stdout: &str, stderr: &str) -> (r: String)
    ensures
        r@ == output_text(cmd@, stdout@, stderr@),
{
    let mut out = cmd.description().to_text();
    out.append(", stdout = ");
    out.append(debug_quoted(stdout).as_str());
    out.append(", stderr = ");
    out.append(debug_quoted(stderr).as_str());
    out
}

/// Describes an invocation and the bytes it wrote. Total: bytes that are not
/// valid text are decoded lossily, never refused; bytes that are valid text
/// are shown as that text.
pub fn cmd_info_with_output(cmd: &Command, stdout: &[u8], stderr: &[u8]) -> (r: String)
    ensures
        r@ == cmd_info_text(cmd@, stdout@, stderr@),
        valid_utf8(stdout@) ==> r@ == output_text(
            cmd@,
            decode_utf8(stdout@),
            lossy_text(stderr@),
        ),
        valid_utf8(stderr@) ==> r@ == output_text(
            cmd@,
            lossy_text(stdout@),
            decode_utf8(stderr@),
        ),
{
    let shown_out = lossy_decoded(stdout);
    let shown_err = lossy_decoded(stderr);
    output_string(cmd, shown_out.as_str(), shown_err.as_str())
}

/// A read-only description of a captured result.
pub struct OutputDescription<'a> {
    pub out: &'a Output,
}

impl<'a> OutputDescription<'a> {
    /// The description as text. It is total and depends on the captured
    /// result alone. It shows the output text itself, and so agrees with the
    /// description of the same invocation and the bytes of that text.
    pub fn to_text(&self) -> (r: String)
        ensures
            r@ == output_text(self.out.command@, self.out.stdout@, lossy_text(self.out.stderr@)),
            r@ == cmd_info_text(
                self.out.command@,
                encode_utf8(self.out.stdout@),
                self.out.stderr@,
            ),
    {
        let written = self.out.stdout.as_str().as_bytes();
        proof {
            vstd::utf8::encode_utf8_valid_utf8(self.out.stdout@);
            vstd::utf8::encode_utf8_decode_utf8(self.out.stdout@);
        }
        cmd_info_with_output(&self.out.command, written, self.out.stderr.as_slice())
    }
}

impl Output {
    /// A captured result is well formed where its process succeeded.
    pub open spec fn wf(&self) -> bool {
        self.status.is_success()
    }

    /// The diagnostic description of this result.
    pub fn description(&self) -> (r: OutputDescription<'_>)
        ensures
            r.out == self,
    {
        OutputDescription { out: self }
    }
}

/// Descriptions are deterministic: invocations with equal content have the
/// same description, with and without captured output.
pub proof fn description_is_deterministic(
    a: Command,
    b: Command,
    stdout: Seq<u8>,
    stderr: Seq<u8>,
)
    requires
        a@ == b@,
    ensures
        description_text(a@) == description_text(b@),
        cmd_info_text(a@, stdout, stderr) == cmd_info_text(b@, stdout, stderr),
{
}

} // verus!
