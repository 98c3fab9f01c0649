//! The method dispatcher: one inbound line in, zero or one outbound lines
//! out. Routing, parameter checks, catalog lookups, and the exact text of
//! every reply are verified here; where a reply needs outside work first (a
//! process run, a file read, an HTTP GET), the dispatcher hands back a
//! pending step, and a finishing function turns the outside outcome into
//! the reply line.
use vstd::prelude::*;
use crate::config::{opt_view, ConfigData, ConfigV, PromptV, ResourceV, ToolConfig, ToolV,
    PromptConfig, ResourceConfig, tools_v, prompts_v, resources_v};
use crate::envelope::{spec_ok_env, spec_err_env, spec_join, ok_env, err_env, lemma_join_snoc};
use crate::json::{spec_json_str, json_quote};
use crate::resource::{PendingFetch, PendingFetchV, PendingRead, PendingReadV, spec_list_mime,
    list_mime};
use crate::runner::{spec_argv, spec_command_result, spec_command_result_json, spec_json_bool,
    CommandResult, CommandResultV, InvocationPlan, PlanV, ProcessOutcome, OutcomeV,
    build_command_result, command_result_json, plan_invocation};
use crate::text::{str_eq, str_starts_with, str_suffix_from};
use crate::wire::{json_accepts, spec_wire, WireRequest, WireV, parse_wire};

verus! {

/// The dispatcher and its three read-only catalogs.
pub struct MyCommandMCPServer {
    pub tools: Vec<ToolConfig>,
    pub prompts: Vec<PromptConfig>,
    pub resources: Vec<ResourceConfig>,
}

impl View for MyCommandMCPServer {
    type V = ConfigV;

    open spec fn view(&self) -> ConfigV {
        ConfigV {
            tools: tools_v(self.tools@),
            prompts: prompts_v(self.prompts@),
            resources: resources_v(self.resources@),
        }
    }
}

/// A pending tool invocation: the dispatcher resolved the tool and composed
/// the plan; the surrounding program is to run the process and hand the
/// outcome to `finish_tool`.
pub struct PendingTool {
    pub id_json: String,
    pub tool: ToolConfig,
    pub plan: InvocationPlan,
}

pub struct PendingToolV {
    pub id_json: Seq<char>,
    pub tool: ToolV,
    pub plan: PlanV,
}

impl View for PendingTool {
    type V = PendingToolV;

    open spec fn view(&self) -> PendingToolV {
        PendingToolV { id_json: self.id_json@, tool: self.tool@, plan: self.plan@ }
    }
}

/// What one inbound line leads to: no reply (a notification), a finished
/// reply line, or outside work that a finishing function will turn into the
/// reply line.
pub enum DispatchStep {
    Silence,
    Reply(String),
    RunTool(PendingTool),
    FetchUrl(PendingFetch),
    ReadFile(PendingRead),
}

pub enum StepV {
    Silence,
    Reply(Seq<char>),
    RunTool(PendingToolV),
    FetchUrl(PendingFetchV),
    ReadFile(PendingReadV),
}

impl View for DispatchStep {
    type V = StepV;

    open spec fn view(&self) -> StepV {
        match self {
            DispatchStep::Silence => StepV::Silence,
            DispatchStep::Reply(s) => StepV::Reply(s@),
            DispatchStep::RunTool(p) => StepV::RunTool(p@),
            DispatchStep::FetchUrl(p) => StepV::FetchUrl(p@),
            DispatchStep::ReadFile(p) => StepV::ReadFile(p@),
        }
    }
}

/// The plan composed for one call of tool `t` with the given optional
/// argument and input strings.
pub open spec fn spec_plan(t: ToolV, args: Option<Seq<char>>, input: Option<Seq<char>>) -> PlanV {
    PlanV {
        command: t.command,
        working_dir: t.path,
        argv: spec_argv(t, args),
        open_stdin: t.accept_input,
        stdin_text: if t.accept_input {
            input
        } else {
            None
        },
    }
}

pub open spec fn spec_find_tool(ts: Seq<ToolV>, name: Seq<char>) -> Option<ToolV>
    decreases ts.len(),
{
    if ts.len() == 0 {
        None
    } else if ts[0].name == name {
        Some(ts[0])
    } else {
        spec_find_tool(ts.skip(1), name)
    }
}

pub open spec fn spec_find_prompt(ps: Seq<PromptV>, name: Seq<char>) -> Option<PromptV>
    decreases ps.len(),
{
    if ps.len() == 0 {
        None
    } else if ps[0].name == name {
        Some(ps[0])
    } else {
        spec_find_prompt(ps.skip(1), name)
    }
}

pub open spec fn spec_find_resource(rs: Seq<ResourceV>, name: Seq<char>) -> Option<ResourceV>
    decreases rs.len(),
{
    if rs.len() == 0 {
        None
    } else if rs[0].name == name {
        Some(rs[0])
    } else {
        spec_find_resource(rs.skip(1), name)
    }
}

fn find_tool<'a>(tools: &'a Vec<ToolConfig>, name: &str) -> (r: Option<&'a ToolConfig>)
    ensures
        match r {
            Some(t) => spec_find_tool(tools_v(tools@), name@) == Some(t@),
            None => spec_find_tool(tools_v(tools@), name@) is None,
        },
{
    let ghost ts = tools_v(tools@);
    let mut i: usize = 0;
    proof {
        assert(ts.skip(0) =~= ts);
    }
    while i < tools.len()
        invariant
            i <= tools.len(),
            ts == tools_v(tools@),
            spec_find_tool(ts, name@) == spec_find_tool(ts.skip(i as int), name@),
        decreases tools.len() - i,
    {
        proof {
            assert(ts.skip(i as int)[0] == ts[i as int]);
            assert(ts.skip(i as int).skip(1) =~= ts.skip(i as int + 1));
        }
        if str_eq(tools[i].name.as_str(), name) {
            return Some(&tools[i]);
        }
        i += 1;
    }
    proof {
        assert(ts.skip(tools@.len() as int) =~= Seq::<ToolV>::empty());
    }
    None
}

fn find_prompt<'a>(prompts: &'a Vec<PromptConfig>, name: &str) -> (r: Option<&'a PromptConfig>)
    ensures
        match r {
            Some(p) => spec_find_prompt(prompts_v(prompts@), name@) == Some(p@),
            None => spec_find_prompt(prompts_v(prompts@), name@) is None,
        },
{
    let ghost ps = prompts_v(prompts@);
    let mut i: usize = 0;
    proof {
        assert(ps.skip(0) =~= ps);
    }
    while i < prompts.len()
        invariant
            i <= prompts.len(),
            ps == prompts_v(prompts@),
            spec_find_prompt(ps, name@) == spec_find_prompt(ps.skip(i as int), name@),
        decreases prompts.len() - i,
    {
        proof {
            assert(ps.skip(i as int)[0] == ps[i as int]);
            assert(ps.skip(i as int).skip(1) =~= ps.skip(i as int + 1));
        }
        if str_eq(prompts[i].name.as_str(), name) {
            return Some(&prompts[i]);
        }
        i += 1;
    }
    proof {
        assert(ps.skip(prompts@.len() as int) =~= Seq::<PromptV>::empty());
    }
    None
}

fn find_resource<'a>(resources: &'a Vec<ResourceConfig>, name: &str) -> (r: Option<
    &'a ResourceConfig>)
    ensures
        match r {
            Some(p) => spec_find_resource(resources_v(resources@), name@) == Some(p@),
            None => spec_find_resource(resources_v(resources@), name@) is None,
        },
{
    let ghost rs = resources_v(resources@);
    let mut i: usize = 0;
    proof {
        assert(rs.skip(0) =~= rs);
    }
    while i < resources.len()
        invariant
            i <= resources.len(),
            rs == resources_v(resources@),
            spec_find_resource(rs, name@) == spec_find_resource(rs.skip(i as int), name@),
        decreases resources.len() - i,
    {
        proof {
            assert(rs.skip(i as int)[0] == rs[i as int]);
            assert(rs.skip(i as int).skip(1) =~= rs.skip(i as int + 1));
        }
        if str_eq(resources[i].name.as_str(), name) {
            return Some(&resources[i]);
        }
        i += 1;
    }
    proof {
        assert(rs.skip(resources@.len() as int) =~= Seq::<ResourceV>::empty());
    }
    None
}

/// One entry of the `tools/list` result: name, description, and an input
/// schema offering an `args` string, plus an `input` string when the tool
/// accepts standard input.
pub open spec fn spec_tool_entry(t: ToolV) -> Seq<char> {
    "{\"name\":"@ + spec_json_str(t.name) + ",\"description\":"@ + spec_json_str(t.description)
        + ",\"inputSchema\":{\"type\":\"object\",\"properties\":{\"args\":{\"type\":\"string\",\"description\":\"Arguments for the command (optional)\"}"@
        + (if t.accept_input {
        ",\"input\":{\"type\":\"string\",\"description\":\"Text input to send to the command's standard input\"}"@
    } else {
        Seq::<char>::empty()
    }) + "}}}"@
}

pub open spec fn spec_tools_list(ts: Seq<ToolV>) -> Seq<char> {
    "{\"tools\":["@ + spec_join(ts.map_values(|t: ToolV| spec_tool_entry(t))) + "]}"@
}

pub open spec fn spec_prompt_entry(p: PromptV) -> Seq<char> {
    "{\"name\":"@ + spec_json_str(p.name) + ",\"description\":"@ + spec_json_str(p.description)
        + "}"@
}

pub open spec fn spec_prompts_list(ps: Seq<PromptV>) -> Seq<char> {
    "{\"prompts\":["@ + spec_join(ps.map_values(|p: PromptV| spec_prompt_entry(p))) + "]}"@
}

pub open spec fn spec_resource_entry(r: ResourceV) -> Seq<char> {
    "{\"uri\":"@ + spec_json_str("file://"@ + r.name) + ",\"name\":"@ + spec_json_str(r.name)
        + ",\"description\":"@ + spec_json_str(r.description) + ",\"mimeType\":"@ + spec_json_str(
        spec_list_mime(r.path),
    ) + "}"@
}

pub open spec fn spec_resources_list(rs: Seq<ResourceV>) -> Seq<char> {
    "{\"resources\":["@ + spec_join(rs.map_values(|r: ResourceV| spec_resource_entry(r))) + "]}"@
}

/// A prompt's materialized text: its inline content. Content loading fills
/// this before the catalogs are built; a prompt left without content yields
/// empty text.
pub open spec fn spec_prompt_text(p: PromptV) -> Seq<char> {
    match p.content {
        Some(c) => c,
        None => Seq::empty(),
    }
}

/// The `prompts/get` result: the prompt's name and description, and one
/// user message carrying its text.
pub open spec fn spec_prompt_result(p: PromptV) -> Seq<char> {
    "{\"name\":"@ + spec_json_str(p.name) + ",\"description\":"@ + spec_json_str(p.description)
        + ",\"messages\":[{\"role\":\"user\",\"content\":{\"type\":\"text\",\"text\":"@
        + spec_json_str(spec_prompt_text(p)) + "}}]}"@
}

fn tool_entry(t: &ToolConfig) -> (r: String)
    ensures
        r@ == spec_tool_entry(t@),
{
    let mut out = String::new();
    out.append("{\"name\":");
    out.append(json_quote(t.name.as_str()).as_str());
    out.append(",\"description\":");
    out.append(json_quote(t.description.as_str()).as_str());
    out.append(
        ",\"inputSchema\":{\"type\":\"object\",\"properties\":{\"args\":{\"type\":\"string\",\"description\":\"Arguments for the command (optional)\"}",
    );
    if t.accept_input {
        out.append(
            ",\"input\":{\"type\":\"string\",\"description\":\"Text input to send to the command's standard input\"}",
        );
    }
    out.append("}}}");
    proof {
        assert(out@ =~= spec_tool_entry(t@));
    }
    out
}

fn prompt_entry(p: &PromptConfig) -> (r: String)
    ensures
        r@ == spec_prompt_entry(p@),
{
    let mut out = String::new();
    out.append("{\"name\":");
    out.append(json_quote(p.name.as_str()).as_str());
    out.append(",\"description\":");
    out.append(json_quote(p.description.as_str()).as_str());
    out.append("}");
    proof {
        assert(out@ =~= spec_prompt_entry(p@));
    }
    out
}

fn resource_entry(r: &ResourceConfig) -> (res: String)
    ensures
        res@ == spec_resource_entry(r@),
{
    let mut uri = String::new();
    uri.append("file://");
    uri.append(r.name.as_str());
    let mut out = String::new();
    out.append("{\"uri\":");
    out.append(json_quote(uri.as_str()).as_str());
    out.append(",\"name\":");
    out.append(json_quote(r.name.as_str()).as_str());
    out.append(",\"description\":");
    out.append(json_quote(r.description.as_str()).as_str());
    out.append(",\"mimeType\":");
    out.append(json_quote(list_mime(r.path.as_str())).as_str());
    out.append("}");
    proof {
        assert(uri@ =~= "file://"@ + r@.name);
        assert(out@ =~= spec_resource_entry(r@));
    }
    out
}

fn tools_list_json(tools: &Vec<ToolConfig>) -> (r: String)
    ensures
        r@ == spec_tools_list(tools_v(tools@)),
{
    let ghost entries = tools_v(tools@).map_values(|t: ToolV| spec_tool_entry(t));
    let mut out = String::new();
    out.append("{\"tools\":[");
    let mut i: usize = 0;
    proof {
        assert(entries.take(0) =~~= Seq::<Seq<char>>::empty());
        assert(out@ =~= "{\"tools\":["@ + spec_join(entries.take(0)));
    }
    while i < tools.len()
        invariant
            i <= tools.len(),
            entries == tools_v(tools@).map_values(|t: ToolV| spec_tool_entry(t)),
            out@ == "{\"tools\":["@ + spec_join(entries.take(i as int)),
        decreases tools.len() - i,
    {
        let e = tool_entry(&tools[i]);
        let ghost pre = entries.take(i as int);
        proof {
            assert(entries[i as int] == spec_tool_entry(tools_v(tools@)[i as int]));
            assert(entries.take(i as int + 1) =~~= pre.push(entries[i as int]));
        }
        if i == 0 {
            out.append(e.as_str());
            proof {
                assert(entries.take(1) =~~= seq![entries[0]]);
                assert(spec_join(seq![entries[0]]) == entries[0]);
            }
        } else {
            out.append(",");
            out.append(e.as_str());
            proof {
                lemma_join_snoc(pre, entries[i as int]);
                assert(("{\"tools\":["@ + spec_join(pre)) + ","@ + e@ =~= "{\"tools\":["@ + (
                spec_join(pre) + ","@ + entries[i as int]));
            }
        }
        i += 1;
    }
    out.append("]}");
    proof {
        assert(entries.take(tools@.len() as int) =~~= entries);
        assert(out@ =~= spec_tools_list(tools_v(tools@)));
    }
    out
}

fn prompts_list_json(prompts: &Vec<PromptConfig>) -> (r: String)
    ensures
        r@ == spec_prompts_list(prompts_v(prompts@)),
{
    let ghost entries = prompts_v(prompts@).map_values(|p: PromptV| spec_prompt_entry(p));
    let mut out = String::new();
    out.append("{\"prompts\":[");
    let mut i: usize = 0;
    proof {
        assert(entries.take(0) =~~= Seq::<Seq<char>>::empty());
        assert(out@ =~= "{\"prompts\":["@ + spec_join(entries.take(0)));
    }
    while i < prompts.len()
        invariant
            i <= prompts.len(),
            entries == prompts_v(prompts@).map_values(|p: PromptV| spec_prompt_entry(p)),
            out@ == "{\"prompts\":["@ + spec_join(entries.take(i as int)),
        decreases prompts.len() - i,
    {
        let e = prompt_entry(&prompts[i]);
        let ghost pre = entries.take(i as int);
        proof {
            assert(entries[i as int] == spec_prompt_entry(prompts_v(prompts@)[i as int]));
            assert(entries.take(i as int + 1) =~~= pre.push(entries[i as int]));
        }
        if i == 0 {
            out.append(e.as_str());
            proof {
                assert(entries.take(1) =~~= seq![entries[0]]);
                assert(spec_join(seq![entries[0]]) == entries[0]);
            }
        } else {
            out.append(",");
            out.append(e.as_str());
            proof {
                lemma_join_snoc(pre, entries[i as int]);
                assert(("{\"prompts\":["@ + spec_join(pre)) + ","@ + e@ =~= "{\"prompts\":["@ + (
                spec_join(pre) + ","@ + entries[i as int]));
            }
        }
        i += 1;
    }
    out.append("]}");
    proof {
        assert(entries.take(prompts@.len() as int) =~~= entries);
        assert(out@ =~= spec_prompts_list(prompts_v(prompts@)));
    }
    out
}

fn resources_list_json(resources: &Vec<ResourceConfig>) -> (r: String)
    ensures
        r@ == spec_resources_list(resources_v(resources@)),
{
    let ghost entries = resources_v(resources@).map_values(|r: ResourceV| spec_resource_entry(r));
    let mut out = String::new();
    out.append("{\"resources\":[");
    let mut i: usize = 0;
    proof {
        assert(entries.take(0) =~~= Seq::<Seq<char>>::empty());
        assert(out@ =~= "{\"resources\":["@ + spec_join(entries.take(0)));
    }
    while i < resources.len()
        invariant
            i <= resources.len(),
            entries == resources_v(resources@).map_values(|r: ResourceV| spec_resource_entry(r)),
            out@ == "{\"resources\":["@ + spec_join(entries.take(i as int)),
        decreases resources.len() - i,
    {
        let e = resource_entry(&resources[i]);
        let ghost pre = entries.take(i as int);
        proof {
            assert(entries[i as int] == spec_resource_entry(resources_v(resources@)[i as int]));
            assert(entries.take(i as int + 1) =~~= pre.push(entries[i as int]));
        }
        if i == 0 {
            out.append(e.as_str());
            proof {
                assert(entries.take(1) =~~= seq![entries[0]]);
                assert(spec_join(seq![entries[0]]) == entries[0]);
            }
        } else {
            out.append(",");
            out.append(e.as_str());
            proof {
                lemma_join_snoc(pre, entries[i as int]);
                assert(("{\"resources\":["@ + spec_join(pre)) + ","@ + e@ =~= "{\"resources\":["@
                    + (spec_join(pre) + ","@ + entries[i as int]));
            }
        }
        i += 1;
    }
    out.append("]}");
    proof {
        assert(entries.take(resources@.len() as int) =~~= entries);
        assert(out@ =~= spec_resources_list(resources_v(resources@)));
    }
    out
}

fn prompt_result_json(p: &PromptConfig) -> (r: String)
    ensures
        r@ == spec_prompt_result(p@),
{
    let mut out = String::new();
    out.append("{\"name\":");
    out.append(json_quote(p.name.as_str()).as_str());
    out.append(",\"description\":");
    out.append(json_quote(p.description.as_str()).as_str());
    out.append(",\"messages\":[{\"role\":\"user\",\"content\":{\"type\":\"text\",\"text\":");
    match &p.content {
        Some(c) => out.append(json_quote(c.as_str()).as_str()),
        None => out.append(json_quote("").as_str()),
    }
    out.append("}}]}");
    proof {
        if p@.content is None {
            reveal_strlit("");
            assert(""@ =~= Seq::<char>::empty());
            assert(spec_prompt_text(p@) == Seq::<char>::empty());
        }
        assert(out@ =~= spec_prompt_result(p@));
    }
    out
}

fn dup_tool(t: &ToolConfig) -> (r: ToolConfig)
    ensures
        r@ == t@,
{
    ToolConfig {
        name: t.name.clone(),
        description: t.description.clone(),
        command: t.command.clone(),
        path: t.path.clone(),
        accepts_args: t.accepts_args,
        accept_input: t.accept_input,
        default_args: match &t.default_args {
            Some(s) => Some(s.clone()),
            None => None,
        },
        content_type: match &t.content_type {
            Some(s) => Some(s.clone()),
            None => None,
        },
        content_disposition: match &t.content_disposition {
            Some(s) => Some(s.clone()),
            None => None,
        },
    }
}

/// The resource name inside a read URI: the URI with any `file://` prefix
/// removed.
pub open spec fn spec_strip_file(uri: Seq<char>) -> Seq<char> {
    if "file://"@.is_prefix_of(uri) {
        uri.skip("file://"@.len() as int)
    } else {
        uri
    }
}

fn strip_file(uri: &str) -> (r: String)
    ensures
        r@ == spec_strip_file(uri@),
{
    if str_starts_with(uri, "file://") {
        proof {
            reveal_strlit("file://");
        }
        str_suffix_from(uri, 7)
    } else {
        uri.to_owned()
    }
}

/// The reply to a line that is not acceptable JSON: a parse error with a
/// null id.
pub open spec fn spec_parse_error_line() -> Seq<char> {
    spec_err_env("null"@, -32700, "Parse error"@)
}

/// Where routing one request leads, for every request value and every
/// catalog state.
pub open spec fn spec_route(w: WireV, c: ConfigV) -> StepV {
    if "notifications/"@.is_prefix_of(w.method) {
        StepV::Silence
    } else if w.method == "resources/list"@ {
        StepV::Reply(spec_ok_env(w.id_json, spec_resources_list(c.resources)))
    } else if w.method == "resources/read"@ {
        if !w.has_params {
            StepV::Reply(
                spec_err_env(w.id_json, -32602, "Missing params in resources/read request"@),
            )
        } else {
            match w.uri {
                None => StepV::Reply(
                    spec_err_env(w.id_json, -32000, "Missing resource uri in request"@),
                ),
                Some(uri) => {
                    let name = spec_strip_file(uri);
                    match spec_find_resource(c.resources, name) {
                        None => StepV::Reply(
                            spec_err_env(
                                w.id_json,
                                -32000,
                                "Resource '"@ + name + "' not found"@,
                            ),
                        ),
                        Some(res) => {
                            if "http://"@.is_prefix_of(res.path) || "https://"@.is_prefix_of(
                                res.path,
                            ) {
                                StepV::FetchUrl(
                                    PendingFetchV { id_json: w.id_json, uri, url: res.path },
                                )
                            } else {
                                StepV::ReadFile(
                                    PendingReadV { id_json: w.id_json, uri, path: res.path },
                                )
                            }
                        },
                    }
                },
            }
        }
    } else if w.method == "initialize"@ {
        StepV::Reply(
            spec_ok_env(
                w.id_json,
                "{\"protocolVersion\":\"2024-11-05\",\"capabilities\":{\"tools\":{},\"prompts\":{},\"resources\":{}},\"serverInfo\":{\"name\":\"mycommandmcp\",\"version\":\"0.1.0\"}}"@,
            ),
        )
    } else if w.method == "initialized"@ {
        StepV::Reply(spec_ok_env(w.id_json, "{}"@))
    } else if w.method == "tools/list"@ {
        StepV::Reply(spec_ok_env(w.id_json, spec_tools_list(c.tools)))
    } else if w.method == "tools/call"@ {
        if !w.has_params {
            StepV::Reply(spec_err_env(w.id_json, -32602, "Missing params in tools/call request"@))
        } else {
            match w.name {
                None => StepV::Reply(
                    spec_err_env(w.id_json, -32000, "Missing tool name in request"@),
                ),
                Some(name) => match spec_find_tool(c.tools, name) {
                    None => StepV::Reply(
                        spec_err_env(w.id_json, -32000, "Tool '"@ + name + "' not found"@),
                    ),
                    Some(t) => StepV::RunTool(
                        PendingToolV {
                            id_json: w.id_json,
                            tool: t,
                            plan: spec_plan(t, w.args, w.input),
                        },
                    ),
                },
            }
        }
    } else if w.method == "prompts/list"@ {
        StepV::Reply(spec_ok_env(w.id_json, spec_prompts_list(c.prompts)))
    } else if w.method == "prompts/get"@ {
        if !w.has_params {
            StepV::Reply(spec_err_env(w.id_json, -32602, "Missing params in prompts/get request"@))
        } else {
            match w.name {
                None => StepV::Reply(
                    spec_err_env(w.id_json, -32000, "Missing prompt name in request"@),
                ),
                Some(name) => match spec_find_prompt(c.prompts, name) {
                    None => StepV::Reply(
                        spec_err_env(w.id_json, -32000, "Prompt not found: "@ + name),
                    ),
                    Some(p) => StepV::Reply(spec_ok_env(w.id_json, spec_prompt_result(p))),
                },
            }
        }
    } else if w.method == "resources/templates/list"@ {
        StepV::Reply(spec_ok_env(w.id_json, "{\"resourceTemplates\":[]}"@))
    } else {
        StepV::Reply(spec_err_env(w.id_json, -32601, "Method not found: "@ + w.method))
    }
}

impl MyCommandMCPServer {
    /// Takes ownership of the validated catalogs.
    pub fn new(config: ConfigData) -> (s: Self)
        ensures
            s@ == config@,
    {
        MyCommandMCPServer {
            tools: config.tools,
            prompts: config.prompts,
            resources: config.resources,
        }
    }

    /// Routes one extracted request, exactly as `spec_route` says.
    pub fn route(&self, w: &WireRequest) -> (r: DispatchStep)
        ensures
            r@ == spec_route(w@, self@),
    {
        let id = w.id_json.as_str();
        let m = w.method.as_str();
        if str_starts_with(m, "notifications/") {
            DispatchStep::Silence
        } else if str_eq(m, "resources/list") {
            DispatchStep::Reply(ok_env(id, resources_list_json(&self.resources).as_str()))
        } else if str_eq(m, "resources/read") {
            if !w.has_params {
                DispatchStep::Reply(err_env(id, -32602, "Missing params in resources/read request"))
            } else {
                match &w.uri {
                    None => DispatchStep::Reply(
                        err_env(id, -32000, "Missing resource uri in request"),
                    ),
                    Some(uri) => {
                        let name = strip_file(uri.as_str());
                        match find_resource(&self.resources, name.as_str()) {
                            None => {
                                let mut msg = String::new();
                                msg.append("Resource '");
                                msg.append(name.as_str());
                                msg.append("' not found");
                                proof {
                                    assert(msg@ =~= "Resource '"@ + name@ + "' not found"@);
                                }
                                DispatchStep::Reply(err_env(id, -32000, msg.as_str()))
                            },
                            Some(res) => {
                                if str_starts_with(res.path.as_str(), "http://") || str_starts_with(
                                    res.path.as_str(),
                                    "https://",
                                ) {
                                    DispatchStep::FetchUrl(
                                        PendingFetch {
                                            id_json: w.id_json.clone(),
                                            uri: uri.clone(),
                                            url: res.path.clone(),
                                        },
                                    )
                                } else {
                                    DispatchStep::ReadFile(
                                        PendingRead {
                                            id_json: w.id_json.clone(),
                                            uri: uri.clone(),
                                            path: res.path.clone(),
                                        },
                                    )
                                }
                            },
                        }
                    },
                }
            }
        } else if str_eq(m, "initialize") {
            DispatchStep::Reply(
                ok_env(
                    id,
                    "{\"protocolVersion\":\"2024-11-05\",\"capabilities\":{\"tools\":{},\"prompts\":{},\"resources\":{}},\"serverInfo\":{\"name\":\"mycommandmcp\",\"version\":\"0.1.0\"}}",
                ),
            )
        } else if str_eq(m, "initialized") {
            DispatchStep::Reply(ok_env(id, "{}"))
        } else if str_eq(m, "tools/list") {
            DispatchStep::Reply(ok_env(id, tools_list_json(&self.tools).as_str()))
        } else if str_eq(m, "tools/call") {
            if !w.has_params {
                DispatchStep::Reply(err_env(id, -32602, "Missing params in tools/call request"))
            } else {
                match &w.name {
                    None => DispatchStep::Reply(err_env(id, -32000, "Missing tool name in request")),
                    Some(name) => {
                        match find_tool(&self.tools, name.as_str()) {
                            None => {
                                let mut msg = String::new();
                                msg.append("Tool '");
                                msg.append(name.as_str());
                                msg.append("' not found");
                                proof {
                                    assert(msg@ =~= "Tool '"@ + name@ + "' not found"@);
                                }
                                DispatchStep::Reply(err_env(id, -32000, msg.as_str()))
                            },
                            Some(t) => {
                                let args = match &w.args {
                                    Some(s) => Some(s.as_str()),
                                    None => None,
                                };
                                let input = match &w.input {
                                    Some(s) => Some(s.as_str()),
                                    None => None,
                                };
                                let plan = plan_invocation(t, args, input);
                                DispatchStep::RunTool(
                                    PendingTool {
                                        id_json: w.id_json.clone(),
                                        tool: dup_tool(t),
                                        plan,
                                    },
                                )
                            },
                        }
                    },
                }
            }
        } else if str_eq(m, "prompts/list") {
            DispatchStep::Reply(ok_env(id, prompts_list_json(&self.prompts).as_str()))
        } else if str_eq(m, "prompts/get") {
            if !w.has_params {
                DispatchStep::Reply(err_env(id, -32602, "Missing params in prompts/get request"))
            } else {
                match &w.name {
                    None => DispatchStep::Reply(
                        err_env(id, -32000, "Missing prompt name in request"),
                    ),
                    Some(name) => {
                        match find_prompt(&self.prompts, name.as_str()) {
                            None => {
                                let mut msg = String::new();
                                msg.append("Prompt not found: ");
                                msg.append(name.as_str());
                                proof {
                                    assert(msg@ =~= "Prompt not found: "@ + name@);
                                }
                                DispatchStep::Reply(err_env(id, -32000, msg.as_str()))
                            },
                            Some(p) => DispatchStep::Reply(
                                ok_env(id, prompt_result_json(p).as_str()),
                            ),
                        }
                    },
                }
            }
        } else if str_eq(m, "resources/templates/list") {
            DispatchStep::Reply(ok_env(id, "{\"resourceTemplates\":[]}"))
        } else {
            let mut msg = String::new();
            msg.append("Method not found: ");
            msg.append(m);
            proof {
                assert(msg@ =~= "Method not found: "@ + w@.method);
            }
            DispatchStep::Reply(err_env(id, -32601, msg.as_str()))
        }
    }

    /// Handles one inbound line. A line that is not acceptable JSON yields
    /// the parse-error reply with a null id; an acceptable line is routed as
    /// `spec_route` says, on exactly the fields `spec_wire` reads from it.
    pub fn handle_request(&self, line: &str) -> (r: DispatchStep)
        ensures
            !json_accepts(line@) ==> r@ == StepV::Reply(spec_parse_error_line()),
            json_accepts(line@) ==> r@ == spec_route(spec_wire(line@), self@),
    {
        match parse_wire(line) {
            None => DispatchStep::Reply(err_env("null", -32700, "Parse error")),
            Some(w) => {
                let r = self.route(&w);
                proof {
                    assert(r@ == spec_route(spec_wire(line@), self@));
                }
                r
            },
        }
    }
}

/// The `tools/call` result for one classified command result: a `resource`
/// content block (a data URI, base64 for binary output) when a content type
/// is in play, else a `text` block carrying the serialized result; `isError`
/// reflects a non-zero exit status.
pub open spec fn spec_ct_or_octet(o: Option<Seq<char>>) -> Seq<char> {
    match o {
        Some(s) => s,
        None => "application/octet-stream"@,
    }
}

pub open spec fn spec_call_result(c: CommandResultV) -> Seq<char> {
    if c.is_binary || c.content_type is Some {
        "{\"content\":[{\"type\":\"resource\",\"resource\":{\"uri\":"@ + spec_json_str(
            if c.is_binary {
                "data:"@ + spec_ct_or_octet(c.content_type) + ";base64,"@ + c.output
            } else {
                "data:"@ + spec_ct_or_octet(c.content_type)
            },
        ) + ",\"mimeType\":"@ + spec_json_str(spec_ct_or_octet(c.content_type)) + (
        if c.is_binary {
            Seq::<char>::empty()
        } else {
            ",\"text\":"@ + spec_json_str(c.output)
        }) + (match c.content_disposition {
            Some(d) => ",\"contentDisposition\":"@ + spec_json_str(d),
            None => Seq::<char>::empty(),
        }) + "}}],\"isError\":"@ + spec_json_bool(c.status_code != 0) + "}"@
    } else {
        "{\"content\":[{\"type\":\"text\",\"text\":"@ + spec_json_str(spec_command_result_json(c))
            + "}],\"isError\":"@ + spec_json_bool(c.status_code != 0) + "}"@
    }
}

fn ct_or_octet(o: &Option<String>) -> (r: String)
    ensures
        r@ == spec_ct_or_octet(opt_view(*o)),
{
    match o {
        Some(s) => s.clone(),
        None => {
            let mut out = String::new();
            out.append("application/octet-stream");
            out
        },
    }
}

fn call_result_json(c: &CommandResult) -> (r: String)
    ensures
        r@ == spec_call_result(c@),
{
    if c.is_binary || c.content_type.is_some() {
        let ct = ct_or_octet(&c.content_type);
        let mut uri = String::new();
        uri.append("data:");
        uri.append(ct.as_str());
        if c.is_binary {
            uri.append(";base64,");
            uri.append(c.output.as_str());
            proof {
                assert(uri@ =~= "data:"@ + spec_ct_or_octet(c@.content_type) + ";base64,"@
                    + c@.output);
            }
        } else {
            proof {
                assert(uri@ =~= "data:"@ + spec_ct_or_octet(c@.content_type));
            }
        }
        let mut out = String::new();
        out.append("{\"content\":[{\"type\":\"resource\",\"resource\":{\"uri\":");
        out.append(json_quote(uri.as_str()).as_str());
        out.append(",\"mimeType\":");
        out.append(json_quote(ct.as_str()).as_str());
        if !c.is_binary {
            out.append(",\"text\":");
            out.append(json_quote(c.output.as_str()).as_str());
        }
        match &c.content_disposition {
            Some(d) => {
                out.append(",\"contentDisposition\":");
                out.append(json_quote(d.as_str()).as_str());
            },
            None => {},
        }
        out.append("}}],\"isError\":");
        if c.status_code != 0 {
            out.append("true");
        } else {
            out.append("false");
        }
        out.append("}");
        proof {
            assert(out@ =~= spec_call_result(c@));
        }
        out
    } else {
        let mut out = String::new();
        out.append("{\"content\":[{\"type\":\"text\",\"text\":");
        out.append(json_quote(command_result_json(c).as_str()).as_str());
        out.append("}],\"isError\":");
        if c.status_code != 0 {
            out.append("true");
        } else {
            out.append("false");
        }
        out.append("}");
        proof {
            assert(out@ =~= spec_call_result(c@));
        }
        out
    }
}

/// The reply line for a finished tool invocation: the classified result,
/// wrapped as `spec_call_result` says, in a success envelope with the
/// request's id.
pub open spec fn spec_tool_reply(p: PendingToolV, o: OutcomeV) -> Seq<char> {
    spec_ok_env(p.id_json, spec_call_result(spec_command_result(p.tool, o)))
}

/// Turns a tool invocation's outcome into the reply line, exactly as
/// `spec_tool_reply` says. A spawn failure and a non-zero exit both yield a
/// result annotated `isError`, never a protocol error.
pub fn finish_tool(p: &PendingTool, outcome: ProcessOutcome) -> (r: String)
    ensures
        r@ == spec_tool_reply(p@, outcome@),
{
    let result = build_command_result(&p.tool, outcome);
    let body = call_result_json(&result);
    ok_env(p.id_json.as_str(), body.as_str())
}

} // verus!
