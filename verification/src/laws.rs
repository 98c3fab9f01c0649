//! The library's laws, stated once and proved from the definitions the
//! contracts use.
use vstd::prelude::*;
use crate::config::{ConfigV, PromptV, ResourceV, ToolV, spec_config_ok, tool_names};
use crate::content::spec_mime_is_text;
use crate::envelope::spec_err_env;
use crate::runner::{spec_argv, spec_base64, spec_command_result, spec_utf8_lossy, OutcomeV};
use crate::server::{spec_plan, spec_route, StepV};
use crate::text::spec_split_ws;
use crate::wire::WireV;

verus! {

/// Argument ordering: when a tool accepts arguments, the argument vector is
/// the tool's default arguments, whitespace-split, followed by the caller's,
/// whitespace-split, in that order.
pub proof fn lemma_argument_ordering(t: ToolV, args: Option<Seq<char>>, input: Option<Seq<char>>)
    requires
        t.accepts_args,
    ensures
        spec_plan(t, args, input).argv == (match t.default_args {
            Some(d) => spec_split_ws(d),
            None => Seq::<Seq<char>>::empty(),
        }) + (match args {
            Some(a) => spec_split_ws(a),
            None => Seq::<Seq<char>>::empty(),
        }),
{
}

/// Disabled arguments: when a tool does not accept arguments, the argument
/// vector is empty whatever the caller supplied.
pub proof fn lemma_disabled_args(t: ToolV, args: Option<Seq<char>>, input: Option<Seq<char>>)
    requires
        !t.accepts_args,
    ensures
        spec_plan(t, args, input).argv == Seq::<Seq<char>>::empty(),
        spec_argv(t, args) == Seq::<Seq<char>>::empty(),
{
}

/// Binary payload: a finished run of a tool whose declared content type is
/// not textual yields a result marked binary whose output is exactly the
/// base64 encoding of the process's standard-output bytes.
pub proof fn lemma_binary_payload(
    t: ToolV,
    status: Option<i32>,
    stdout: Seq<u8>,
    stderr: Seq<u8>,
)
    requires
        t.content_type matches Some(ct) && !spec_mime_is_text(ct),
    ensures
        spec_command_result(t, OutcomeV::Finished { status, stdout, stderr }).is_binary,
        spec_command_result(t, OutcomeV::Finished { status, stdout, stderr }).output
            == spec_base64(stdout),
{
}

/// Text passthrough: a finished run of a tool with no declared content type
/// yields a result not marked binary whose output is exactly the lossy
/// UTF-8 decoding of the process's standard-output bytes.
pub proof fn lemma_text_passthrough(
    t: ToolV,
    status: Option<i32>,
    stdout: Seq<u8>,
    stderr: Seq<u8>,
)
    requires
        t.content_type is None,
    ensures
        !spec_command_result(t, OutcomeV::Finished { status, stdout, stderr }).is_binary,
        spec_command_result(t, OutcomeV::Finished { status, stdout, stderr }).output
            == spec_utf8_lossy(stdout),
        spec_command_result(t, OutcomeV::Finished { status, stdout, stderr }).error
            == spec_utf8_lossy(stderr),
{
}

/// Notification silence: a request whose method starts with the
/// notification prefix is routed to silence, whatever else it carries and
/// whatever the catalogs hold.
pub proof fn lemma_notification_silence(w: WireV, c: ConfigV)
    requires
        "notifications/"@.is_prefix_of(w.method),
    ensures
        spec_route(w, c) == StepV::Silence,
{
}

/// Unknown method: a request whose method is none of the routed names and
/// no notification is answered with the method-not-found error, its id
/// echoed.
pub proof fn lemma_unknown_method(w: WireV, c: ConfigV)
    requires
        !"notifications/"@.is_prefix_of(w.method),
        w.method != "initialize"@,
        w.method != "initialized"@,
        w.method != "tools/list"@,
        w.method != "tools/call"@,
        w.method != "prompts/list"@,
        w.method != "prompts/get"@,
        w.method != "resources/list"@,
        w.method != "resources/read"@,
        w.method != "resources/templates/list"@,
    ensures
        spec_route(w, c) == StepV::Reply(
            spec_err_env(w.id_json, -32601, "Method not found: "@ + w.method),
        ),
{
}

/// Standard input signaling: when a tool accepts input and the caller
/// supplied none, the plan still opens the standard-input pipe and carries
/// no text, so the runner closes the pipe at once and the process observes
/// empty input rather than a hung pipe.
pub proof fn lemma_stdin_closed(t: ToolV, args: Option<Seq<char>>)
    requires
        t.accept_input,
    ensures
        spec_plan(t, args, None).open_stdin,
        spec_plan(t, args, None).stdin_text is None,
{
}

/// Name uniqueness: a catalog in which two tools share a name is not an
/// acceptable configuration, so building the catalogs fails before any
/// request is served.
pub proof fn lemma_duplicate_tool_rejected(
    tools: Seq<ToolV>,
    prompts: Seq<PromptV>,
    resources: Seq<ResourceV>,
    i: int,
    j: int,
)
    requires
        0 <= i < j < tools.len(),
        tools[i].name == tools[j].name,
    ensures
        !spec_config_ok(tools, prompts, resources),
{
    assert(tool_names(tools)[i] == tools[i].name);
    assert(tool_names(tools)[j] == tools[j].name);
    assert(!tool_names(tools).no_duplicates());
}

} // verus!
