//! The command-execution engine's verifiable half: composing the argument
//! vector and standard-input decision for a tool invocation, and turning the
//! finished process's raw output into a classified `CommandResult`. The
//! process spawn itself is input/output and happens outside the library,
//! driven by the `InvocationPlan` values built here.
use vstd::prelude::*;
use crate::config::{opt_view, ToolConfig, ToolV};
use crate::content::{is_binary_content, spec_is_binary};
use crate::json::{spec_json_str, json_quote};
use crate::text::{spec_dec_int, spec_split_ws, strs_view, dec_i64, split_ws};

verus! {

/// Everything the surrounding program needs to spawn one tool process:
/// the executable, its working directory, the composed argument vector, and
/// what to do with standard input.
pub struct InvocationPlan {
    pub command: String,
    pub working_dir: String,
    pub argv: Vec<String>,
    pub open_stdin: bool,
    pub stdin_text: Option<String>,
}

pub struct PlanV {
    pub command: Seq<char>,
    pub working_dir: Seq<char>,
    pub argv: Seq<Seq<char>>,
    pub open_stdin: bool,
    pub stdin_text: Option<Seq<char>>,
}

impl View for InvocationPlan {
    type V = PlanV;

    open spec fn view(&self) -> PlanV {
        PlanV {
            command: self.command@,
            working_dir: self.working_dir@,
            argv: strs_view(self.argv@),
            open_stdin: self.open_stdin,
            stdin_text: opt_view(self.stdin_text),
        }
    }
}

/// The argument vector a tool observes: nothing at all when the tool does
/// not accept arguments; otherwise the tool's default arguments,
/// whitespace-split, followed by the caller's arguments, whitespace-split.
pub open spec fn spec_argv(t: ToolV, args: Option<Seq<char>>) -> Seq<Seq<char>> {
    if !t.accepts_args {
        Seq::empty()
    } else {
        (match t.default_args {
            Some(d) => spec_split_ws(d),
            None => Seq::empty(),
        }) + (match args {
            Some(a) => spec_split_ws(a),
            None => Seq::empty(),
        })
    }
}

/// Composes the invocation plan for one call of `tool`.
///
/// The argument vector is exactly `spec_argv`: default arguments first, then
/// the caller's, and none at all when the tool refuses arguments. Standard
/// input is piped exactly when the tool accepts input, and the text to write
/// is the caller's only in that case; the pipe is closed after the optional
/// write, so the process never waits on an open pipe.
pub fn plan_invocation(tool: &ToolConfig, args: Option<&str>, input: Option<&str>) -> (p:
    InvocationPlan)
    ensures
        p@.command == tool@.command,
        p@.working_dir == tool@.path,
        p@.argv == spec_argv(
            tool@,
            match args {
                Some(a) => Some(a@),
                None => None,
            },
        ),
        p@.open_stdin == tool@.accept_input,
        p@.stdin_text == (if tool@.accept_input {
            match input {
                Some(s) => Some(s@),
                None => None::<Seq<char>>,
            }
        } else {
            None::<Seq<char>>
        }),
{
    let mut argv: Vec<String> = Vec::new();
    if tool.accepts_args {
        if let Some(d) = &tool.default_args {
            argv = split_ws(d.as_str());
        }
        if let Some(a) = args {
            let mut extra = split_ws(a);
            let ghost argv0 = argv@;
            let ghost extra0 = extra@;
            argv.append(&mut extra);
            proof {
                assert(strs_view(argv0 + extra0) =~~= strs_view(argv0) + strs_view(extra0));
            }
        }
        proof {
            assert(strs_view(Seq::<String>::empty()) =~~= Seq::<Seq<char>>::empty());
            assert(forall|s: Seq<Seq<char>>| #![auto] Seq::<Seq<char>>::empty() + s =~~= s);
            assert(forall|s: Seq<Seq<char>>| #![auto] s + Seq::<Seq<char>>::empty() =~~= s);
        }
    } else {
        proof {
            assert(strs_view(Seq::<String>::empty()) =~~= Seq::<Seq<char>>::empty());
        }
    }
    let stdin_text: Option<String> = if tool.accept_input {
        match input {
            Some(s) => Some(s.to_owned()),
            None => None,
        }
    } else {
        None
    };
    InvocationPlan {
        command: tool.command.clone(),
        working_dir: tool.path.clone(),
        argv,
        open_stdin: tool.accept_input,
        stdin_text,
    }
}

/// What came back from running (or failing to run) one tool process.
pub enum ProcessOutcome {
    /// The process ran to completion. `status` is its exit code, or absent
    /// when the platform reported none (for example, the process was killed
    /// by a signal).
    Finished { status: Option<i32>, stdout: Vec<u8>, stderr: Vec<u8> },
    /// The process could not be spawned at all.
    SpawnFailed { message: String },
}

pub enum OutcomeV {
    Finished { status: Option<i32>, stdout: Seq<u8>, stderr: Seq<u8> },
    SpawnFailed { message: Seq<char> },
}

impl View for ProcessOutcome {
    type V = OutcomeV;

    open spec fn view(&self) -> OutcomeV {
        match self {
            ProcessOutcome::Finished { status, stdout, stderr } => OutcomeV::Finished {
                status: *status,
                stdout: stdout@,
                stderr: stderr@,
            },
            ProcessOutcome::SpawnFailed { message } => OutcomeV::SpawnFailed { message: message@ },
        }
    }
}

/// One tool invocation's outcome, classified: exit status (`-1` when the
/// platform reported none), standard output as text or base64, standard
/// error always as text, and the tool's declared content type and
/// disposition.
pub struct CommandResult {
    pub status_code: i32,
    pub output: String,
    pub error: String,
    pub content_type: Option<String>,
    pub content_disposition: Option<String>,
    pub is_binary: bool,
}

pub struct CommandResultV {
    pub status_code: int,
    pub output: Seq<char>,
    pub error: Seq<char>,
    pub content_type: Option<Seq<char>>,
    pub content_disposition: Option<Seq<char>>,
    pub is_binary: bool,
}

impl View for CommandResult {
    type V = CommandResultV;

    open spec fn view(&self) -> CommandResultV {
        CommandResultV {
            status_code: self.status_code as int,
            output: self.output@,
            error: self.error@,
            content_type: opt_view(self.content_type),
            content_disposition: opt_view(self.content_disposition),
            is_binary: self.is_binary,
        }
    }
}

/// What the standard base64 alphabet encodes the given bytes to.
pub uninterp spec fn spec_base64(b: Seq<u8>) -> Seq<char>;

/// Relies on the base64 crate's `STANDARD` engine and its `Engine::encode`:
/// the padded standard-alphabet encoding, a function of the input bytes
/// alone; an empty input encodes to an empty string.
#[verifier::external_body]
pub(crate) fn base64_encode(b: &[u8]) -> (r: String)
    ensures
        r@ == spec_base64(b@),
        b@.len() == 0 ==> r@.len() == 0,
{
    base64::Engine::encode(&base64::engine::general_purpose::STANDARD, b)
}

/// What lossy UTF-8 decoding turns the given bytes into: the decoded text,
/// with each invalid sequence replaced.
pub uninterp spec fn spec_utf8_lossy(b: Seq<u8>) -> Seq<char>;

/// Relies on `String::from_utf8_lossy`: a function of the input bytes alone
/// that decodes them as UTF-8, replacing invalid sequences with U+FFFD; an
/// empty input decodes to an empty string.
#[verifier::external_body]
pub(crate) fn utf8_lossy(b: &[u8]) -> (r: String)
    ensures
        r@ == spec_utf8_lossy(b@),
        b@.len() == 0 ==> r@.len() == 0,
{
    String::from_utf8_lossy(b).into_owned()
}

/// The classified result of one invocation of `t` that ended as `o` says.
pub open spec fn spec_command_result(t: ToolV, o: OutcomeV) -> CommandResultV {
    match o {
        OutcomeV::Finished { status, stdout, stderr } => CommandResultV {
            status_code: match status {
                Some(c) => c as int,
                None => -1,
            },
            output: if spec_is_binary(t.content_type) {
                spec_base64(stdout)
            } else {
                spec_utf8_lossy(stdout)
            },
            error: spec_utf8_lossy(stderr),
            content_type: t.content_type,
            content_disposition: t.content_disposition,
            is_binary: spec_is_binary(t.content_type),
        },
        OutcomeV::SpawnFailed { message } => CommandResultV {
            status_code: -1,
            output: Seq::empty(),
            error: message,
            content_type: t.content_type,
            content_disposition: t.content_disposition,
            is_binary: spec_is_binary(t.content_type),
        },
    }
}

/// Classifies one process outcome for `tool`: standard output is base64
/// exactly when the tool's declared content type is binary, standard error
/// is always decoded as text, and a missing exit code becomes `-1`. A spawn
/// failure yields empty output with the failure message as the error text.
pub fn build_command_result(tool: &ToolConfig, outcome: ProcessOutcome) -> (r: CommandResult)
    ensures
        r@ == spec_command_result(tool@, outcome@),
{
    let is_binary = is_binary_content(&tool.content_type);
    match outcome {
        ProcessOutcome::Finished { status, stdout, stderr } => {
            let status_code = match status {
                Some(c) => c,
                None => -1,
            };
            let output = if is_binary {
                base64_encode(stdout.as_slice())
            } else {
                utf8_lossy(stdout.as_slice())
            };
            CommandResult {
                status_code,
                output,
                error: utf8_lossy(stderr.as_slice()),
                content_type: tool.content_type.clone(),
                content_disposition: tool.content_disposition.clone(),
                is_binary,
            }
        },
        ProcessOutcome::SpawnFailed { message } => CommandResult {
            status_code: -1,
            output: String::new(),
            error: message,
            content_type: tool.content_type.clone(),
            content_disposition: tool.content_disposition.clone(),
            is_binary,
        },
    }
}

pub open spec fn spec_json_opt_str(o: Option<Seq<char>>) -> Seq<char> {
    match o {
        Some(s) => spec_json_str(s),
        None => "null"@,
    }
}

pub open spec fn spec_json_bool(b: bool) -> Seq<char> {
    if b {
        "true"@
    } else {
        "false"@
    }
}

/// The serialized form of a `CommandResult`, as it appears inside a plain
/// text content block: one object, two-space indented, fields in declaration
/// order.
pub open spec fn spec_command_result_json(c: CommandResultV) -> Seq<char> {
    "{\n  \"status_code\": "@ + spec_dec_int(c.status_code) + ",\n  \"output\": "@
        + spec_json_str(c.output) + ",\n  \"error\": "@ + spec_json_str(c.error)
        + ",\n  \"content_type\": "@ + spec_json_opt_str(c.content_type)
        + ",\n  \"content_disposition\": "@ + spec_json_opt_str(c.content_disposition)
        + ",\n  \"is_binary\": "@ + spec_json_bool(c.is_binary) + "\n}"@
}

fn json_opt_quote(o: &Option<String>) -> (r: String)
    ensures
        r@ == spec_json_opt_str(opt_view(*o)),
{
    match o {
        Some(s) => json_quote(s.as_str()),
        None => {
            let mut out = String::new();
            out.append("null");
            out
        },
    }
}

/// Serializes `c` as `spec_command_result_json` describes.
pub fn command_result_json(c: &CommandResult) -> (r: String)
    ensures
        r@ == spec_command_result_json(c@),
{
    let mut out = String::new();
    out.append("{\n  \"status_code\": ");
    out.append(dec_i64(c.status_code as i64).as_str());
    out.append(",\n  \"output\": ");
    out.append(json_quote(c.output.as_str()).as_str());
    out.append(",\n  \"error\": ");
    out.append(json_quote(c.error.as_str()).as_str());
    out.append(",\n  \"content_type\": ");
    out.append(json_opt_quote(&c.content_type).as_str());
    out.append(",\n  \"content_disposition\": ");
    out.append(json_opt_quote(&c.content_disposition).as_str());
    out.append(",\n  \"is_binary\": ");
    if c.is_binary {
        out.append("true");
    } else {
        out.append("false");
    }
    out.append("\n}");
    proof {
        assert(out@ =~= spec_command_result_json(c@));
    }
    out
}

} // verus!
