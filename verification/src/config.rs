//! The operator-configured catalogs: tool, prompt, and resource descriptors,
//! and the validation that turns raw descriptor lists into the read-only
//! catalogs the dispatcher serves from. Reading and parsing the
//! configuration document itself is input/output and happens outside the
//! library; the library receives plain descriptor values.
use vstd::prelude::*;
use crate::text::str_eq;

verus! {

/// Command-line options: an explicit configuration-file path and an optional
/// log-file path.
pub struct Args {
    pub config: Option<String>,
    pub log_file: Option<String>,
}

/// A configured tool: a named external command.
#[derive(Clone, Debug)]
pub struct ToolConfig {
    pub name: String,
    pub description: String,
    pub command: String,
    pub path: String,
    pub accepts_args: bool,
    pub accept_input: bool,
    pub default_args: Option<String>,
    pub content_type: Option<String>,
    pub content_disposition: Option<String>,
}

/// A configured prompt: a named text, given inline or by a file path or URL.
#[derive(Clone, Debug)]
pub struct PromptConfig {
    pub name: String,
    pub description: String,
    pub content: Option<String>,
    pub path: Option<String>,
    pub url: Option<String>,
}

/// A configured resource: a named local file path or `http(s)://` URL.
#[derive(Clone, Debug)]
pub struct ResourceConfig {
    pub name: String,
    pub description: String,
    pub path: String,
}

/// The shape of the raw configuration document: descriptor lists, plus the
/// locations of further documents to merge in before validation.
pub struct ToolsConfig {
    pub tools: Vec<ToolConfig>,
    pub prompts: Vec<PromptConfig>,
    pub resources: Vec<ResourceConfig>,
    pub external_configs: Vec<String>,
}

pub struct ToolV {
    pub name: Seq<char>,
    pub description: Seq<char>,
    pub command: Seq<char>,
    pub path: Seq<char>,
    pub accepts_args: bool,
    pub accept_input: bool,
    pub default_args: Option<Seq<char>>,
    pub content_type: Option<Seq<char>>,
    pub content_disposition: Option<Seq<char>>,
}

pub struct PromptV {
    pub name: Seq<char>,
    pub description: Seq<char>,
    pub content: Option<Seq<char>>,
    pub path: Option<Seq<char>>,
    pub url: Option<Seq<char>>,
}

pub struct ResourceV {
    pub name: Seq<char>,
    pub description: Seq<char>,
    pub path: Seq<char>,
}

pub open spec fn opt_view(o: Option<String>) -> Option<Seq<char>> {
    match o {
        Some(s) => Some(s@),
        None => None,
    }
}

impl View for ToolConfig {
    type V = ToolV;

    open spec fn view(&self) -> ToolV {
        ToolV {
            name: self.name@,
            description: self.description@,
            command: self.command@,
            path: self.path@,
            accepts_args: self.accepts_args,
            accept_input: self.accept_input,
            default_args: opt_view(self.default_args),
            content_type: opt_view(self.content_type),
            content_disposition: opt_view(self.content_disposition),
        }
    }
}

impl View for PromptConfig {
    type V = PromptV;

    open spec fn view(&self) -> PromptV {
        PromptV {
            name: self.name@,
            description: self.description@,
            content: opt_view(self.content),
            path: opt_view(self.path),
            url: opt_view(self.url),
        }
    }
}

impl View for ResourceConfig {
    type V = ResourceV;

    open spec fn view(&self) -> ResourceV {
        ResourceV { name: self.name@, description: self.description@, path: self.path@ }
    }
}

pub open spec fn tools_v(s: Seq<ToolConfig>) -> Seq<ToolV> {
    s.map_values(|t: ToolConfig| t@)
}

pub open spec fn prompts_v(s: Seq<PromptConfig>) -> Seq<PromptV> {
    s.map_values(|p: PromptConfig| p@)
}

pub open spec fn resources_v(s: Seq<ResourceConfig>) -> Seq<ResourceV> {
    s.map_values(|r: ResourceConfig| r@)
}

/// The validated catalogs. Names are unique within each catalog and every
/// prompt names exactly one content source.
pub struct ConfigData {
    pub tools: Vec<ToolConfig>,
    pub prompts: Vec<PromptConfig>,
    pub resources: Vec<ResourceConfig>,
}

pub struct ConfigV {
    pub tools: Seq<ToolV>,
    pub prompts: Seq<PromptV>,
    pub resources: Seq<ResourceV>,
}

impl View for ConfigData {
    type V = ConfigV;

    open spec fn view(&self) -> ConfigV {
        ConfigV {
            tools: tools_v(self.tools@),
            prompts: prompts_v(self.prompts@),
            resources: resources_v(self.resources@),
        }
    }
}

/// Why a configuration was rejected; each variant names the offending entry.
#[derive(Debug)]
pub enum ConfigError {
    DuplicateTool { name: String },
    DuplicatePrompt { name: String },
    DuplicateResource { name: String },
    PromptWithoutSource { name: String },
    PromptSourceConflict { name: String },
}

/// A prompt must name exactly one source for its text: inline content, a
/// file path, or a URL.
pub open spec fn spec_prompt_source_ok(p: PromptV) -> bool {
    match (p.content, p.path, p.url) {
        (Some(_), None, None) => true,
        (None, Some(_), None) => true,
        (None, None, Some(_)) => true,
        _ => false,
    }
}

pub open spec fn tool_names(s: Seq<ToolV>) -> Seq<Seq<char>> {
    s.map_values(|t: ToolV| t.name)
}

pub open spec fn prompt_names(s: Seq<PromptV>) -> Seq<Seq<char>> {
    s.map_values(|p: PromptV| p.name)
}

pub open spec fn resource_names(s: Seq<ResourceV>) -> Seq<Seq<char>> {
    s.map_values(|r: ResourceV| r.name)
}

/// A configuration is acceptable when names are unique within each catalog
/// and every prompt names exactly one content source.
pub open spec fn spec_config_ok(
    tools: Seq<ToolV>,
    prompts: Seq<PromptV>,
    resources: Seq<ResourceV>,
) -> bool {
    &&& tool_names(tools).no_duplicates()
    &&& prompt_names(prompts).no_duplicates()
    &&& resource_names(resources).no_duplicates()
    &&& forall|i: int| 0 <= i < prompts.len() ==> spec_prompt_source_ok(#[trigger] prompts[i])
}

/// The violation an error reports: the entry the variant names actually
/// breaks that variant's rule in the given lists.
pub open spec fn spec_error_names_violation(
    e: ConfigError,
    tools: Seq<ToolV>,
    prompts: Seq<PromptV>,
    resources: Seq<ResourceV>,
) -> bool {
    match e {
        ConfigError::DuplicateTool { name } => exists|a: int, b: int|
            #![trigger tools[a], tools[b]]
            0 <= a < b < tools.len() && tools[a].name == tools[b].name && tools[b].name == name@,
        ConfigError::DuplicatePrompt { name } => exists|a: int, b: int|
            #![trigger prompts[a], prompts[b]]
            0 <= a < b < prompts.len() && prompts[a].name == prompts[b].name && prompts[b].name
                == name@,
        ConfigError::DuplicateResource { name } => exists|a: int, b: int|
            #![trigger resources[a], resources[b]]
            0 <= a < b < resources.len() && resources[a].name == resources[b].name
                && resources[b].name == name@,
        ConfigError::PromptWithoutSource { name } => exists|a: int|
            0 <= a < prompts.len() && (#[trigger] prompts[a]).name == name@ && prompts[a].content
                is None && prompts[a].path is None && prompts[a].url is None,
        ConfigError::PromptSourceConflict { name } => exists|a: int|
            0 <= a < prompts.len() && (#[trigger] prompts[a]).name == name@ && ((prompts[a].content
                is Some && prompts[a].path is Some) || (prompts[a].content is Some
                && prompts[a].url is Some) || (prompts[a].path is Some && prompts[a].url
                is Some)),
    }
}

/// Validates the merged descriptor lists and builds the catalogs. Succeeds
/// exactly on acceptable configurations, and keeps the descriptors in their
/// given order; an error names an entry that actually breaks its variant's
/// rule.
pub fn build_config(
    tools: Vec<ToolConfig>,
    prompts: Vec<PromptConfig>,
    resources: Vec<ResourceConfig>,
) -> (r: Result<ConfigData, ConfigError>)
    ensures
        r is Ok <==> spec_config_ok(tools_v(tools@), prompts_v(prompts@), resources_v(resources@)),
        r matches Ok(c) ==> c@ == (ConfigV {
            tools: tools_v(tools@),
            prompts: prompts_v(prompts@),
            resources: resources_v(resources@),
        }),
        r matches Err(e) ==> spec_error_names_violation(
            e,
            tools_v(tools@),
            prompts_v(prompts@),
            resources_v(resources@),
        ),
{
    let mut i: usize = 0;
    while i < tools.len()
        invariant
            i <= tools.len(),
            forall|a: int, b: int|
                0 <= a < b < i ==> tool_names(tools_v(tools@))[a] != tool_names(tools_v(tools@))[b],
        decreases tools.len() - i,
    {
        let mut j: usize = 0;
        while j < i
            invariant
                j <= i < tools.len(),
                forall|b: int| 0 <= b < j ==> tools@[b].name@ != tools@[i as int].name@,
            decreases i - j,
        {
            if str_eq(tools[j].name.as_str(), tools[i].name.as_str()) {
                proof {
                    assert(tool_names(tools_v(tools@))[j as int] == tool_names(
                        tools_v(tools@),
                    )[i as int]);
                    assert(tools_v(tools@)[j as int].name == tools_v(tools@)[i as int].name);
                }
                return Err(ConfigError::DuplicateTool { name: tools[i].name.clone() });
            }
            j += 1;
        }
        proof {
            assert(forall|b: int| 0 <= b < i ==> tool_names(tools_v(tools@))[b] != tool_names(
                tools_v(tools@),
            )[i as int]);
        }
        i += 1;
    }
    let mut i: usize = 0;
    while i < prompts.len()
        invariant
            i <= prompts.len(),
            forall|a: int, b: int|
                0 <= a < b < i ==> prompt_names(prompts_v(prompts@))[a] != prompt_names(
                    prompts_v(prompts@),
                )[b],
            forall|a: int| 0 <= a < i ==> spec_prompt_source_ok(#[trigger] prompts_v(prompts@)[a]),
        decreases prompts.len() - i,
    {
        let mut j: usize = 0;
        while j < i
            invariant
                j <= i < prompts.len(),
                forall|b: int| 0 <= b < j ==> prompts@[b].name@ != prompts@[i as int].name@,
            decreases i - j,
        {
            if str_eq(prompts[j].name.as_str(), prompts[i].name.as_str()) {
                proof {
                    assert(prompt_names(prompts_v(prompts@))[j as int] == prompt_names(
                        prompts_v(prompts@),
                    )[i as int]);
                    assert(prompts_v(prompts@)[j as int].name == prompts_v(prompts@)[i as int].name);
                }
                return Err(ConfigError::DuplicatePrompt { name: prompts[i].name.clone() });
            }
            j += 1;
        }
        let has_content = prompts[i].content.is_some();
        let has_path = prompts[i].path.is_some();
        let has_url = prompts[i].url.is_some();
        if !has_content && !has_path && !has_url {
            proof {
                assert(!spec_prompt_source_ok(prompts_v(prompts@)[i as int]));
            }
            return Err(ConfigError::PromptWithoutSource { name: prompts[i].name.clone() });
        }
        if (has_content && (has_path || has_url)) || (has_path && has_url) {
            proof {
                assert(!spec_prompt_source_ok(prompts_v(prompts@)[i as int]));
            }
            return Err(ConfigError::PromptSourceConflict { name: prompts[i].name.clone() });
        }
        proof {
            assert(spec_prompt_source_ok(prompts_v(prompts@)[i as int]));
            assert(forall|b: int| 0 <= b < i ==> prompt_names(prompts_v(prompts@))[b]
                != prompt_names(prompts_v(prompts@))[i as int]);
        }
        i += 1;
    }
    let mut i: usize = 0;
    while i < resources.len()
        invariant
            i <= resources.len(),
            forall|a: int, b: int|
                0 <= a < b < i ==> resource_names(resources_v(resources@))[a] != resource_names(
                    resources_v(resources@),
                )[b],
        decreases resources.len() - i,
    {
        let mut j: usize = 0;
        while j < i
            invariant
                j <= i < resources.len(),
                forall|b: int| 0 <= b < j ==> resources@[b].name@ != resources@[i as int].name@,
            decreases i - j,
        {
            if str_eq(resources[j].name.as_str(), resources[i].name.as_str()) {
                proof {
                    assert(resource_names(resources_v(resources@))[j as int] == resource_names(
                        resources_v(resources@),
                    )[i as int]);
                    assert(resources_v(resources@)[j as int].name == resources_v(
                        resources@,
                    )[i as int].name);
                }
                return Err(ConfigError::DuplicateResource { name: resources[i].name.clone() });
            }
            j += 1;
        }
        proof {
            assert(forall|b: int| 0 <= b < i ==> resource_names(resources_v(resources@))[b]
                != resource_names(resources_v(resources@))[i as int]);
        }
        i += 1;
    }
    Ok(ConfigData { tools, prompts, resources })
}

impl ToolsConfig {
    /// Validates a merged document's descriptor lists and builds the
    /// catalogs, as `build_config` says. Any documents named under
    /// `external_configs` must have been merged in already.
    pub fn validate(self) -> (r: Result<ConfigData, ConfigError>)
        ensures
            r is Ok <==> spec_config_ok(
                tools_v(self.tools@),
                prompts_v(self.prompts@),
                resources_v(self.resources@),
            ),
            r matches Ok(c) ==> c@ == (ConfigV {
                tools: tools_v(self.tools@),
                prompts: prompts_v(self.prompts@),
                resources: resources_v(self.resources@),
            }),
            r matches Err(e) ==> spec_error_names_violation(
                e,
                tools_v(self.tools@),
                prompts_v(self.prompts@),
                resources_v(self.resources@),
            ),
    {
        build_config(self.tools, self.prompts, self.resources)
    }
}

/// Where a prompt's text comes from, by the precedence the prompt loader
/// uses: inline content first, then a file path, then a URL.
pub enum PromptSource {
    Inline { content: String },
    File { path: String },
    Url { url: String },
    Missing,
}

impl PromptConfig {
    /// The source this prompt's text is loaded from: inline `content` when
    /// present, else the file `path`, else the `url`, else nothing.
    pub fn content_source(&self) -> (r: PromptSource)
        ensures
            match r {
                PromptSource::Inline { content } => self@.content == Some(content@),
                PromptSource::File { path } => self@.content is None && self@.path == Some(path@),
                PromptSource::Url { url } => self@.content is None && self@.path is None && self@.url
                    == Some(url@),
                PromptSource::Missing => self@.content is None && self@.path is None && self@.url
                    is None,
            },
    {
        if let Some(content) = &self.content {
            return PromptSource::Inline { content: content.clone() };
        }
        if let Some(path) = &self.path {
            return PromptSource::File { path: path.clone() };
        }
        if let Some(url) = &self.url {
            return PromptSource::Url { url: url.clone() };
        }
        PromptSource::Missing
    }
}

} // verus!
