//! Synthesis of the subprocess's argument vector from the session
//! configuration, and the JSON renderings of the configuration types.

use vstd::prelude::*;
use vstd::map::*;
use vstd::string::*;
use crate::errors::{int_str, i64_string};
use crate::json::{
    json_array, json_dump, json_map_insert, json_map_model, json_map_new, json_model,
    json_object, json_string, json_to_string, JsonData,
};
use crate::types::{AgentDefinition, ClaudeAgentOptions, McpServerConfig, SettingSource, SystemPrompt};

verus! {

/// The views of a sequence of strings.
pub open spec fn strs(v: Seq<String>) -> Seq<Seq<char>> {
    v.map_values(|s: String| s@)
}

/// The items joined with commas.
pub open spec fn join_comma_spec(s: Seq<Seq<char>>) -> Seq<char>
    decreases s.len(),
{
    if s.len() == 0 {
        Seq::empty()
    } else if s.len() == 1 {
        s[0]
    } else {
        join_comma_spec(s.drop_last()) + ","@ + s.last()
    }
}

/// A flag with its value, when the option is set.
pub open spec fn opt_flag(flag: Seq<char>, v: Option<String>) -> Seq<Seq<char>> {
    match v {
        Some(s) => seq![flag, s@],
        None => Seq::empty(),
    }
}

/// A bare flag, when the switch is on.
pub open spec fn flag_if(flag: Seq<char>, b: bool) -> Seq<Seq<char>> {
    if b {
        seq![flag]
    } else {
        Seq::empty()
    }
}

/// The system-prompt arguments: free text sets the prompt, a preset only
/// appends its optional extra text.
pub open spec fn prompt_args(p: Option<SystemPrompt>) -> Seq<Seq<char>> {
    match p {
        None => Seq::empty(),
        Some(SystemPrompt::Text(t)) => seq!["--system-prompt"@, t@],
        Some(SystemPrompt::Preset { preset: _, append }) => match append {
            Some(a) => seq!["--append-system-prompt"@, a@],
            None => Seq::empty(),
        },
    }
}

/// A tool-list flag, when the list is non-empty.
pub open spec fn tools_args(flag: Seq<char>, tools: Seq<String>) -> Seq<Seq<char>> {
    if tools.len() == 0 {
        Seq::empty()
    } else {
        seq![flag, join_comma_spec(strs(tools))]
    }
}

/// One `--add-dir` pair per directory.
pub open spec fn dirs_args(dirs: Seq<String>) -> Seq<Seq<char>>
    decreases dirs.len(),
{
    if dirs.len() == 0 {
        Seq::empty()
    } else {
        dirs_args(dirs.drop_last()) + seq!["--add-dir"@, dirs.last()@]
    }
}

/// The extra arguments: each flag with two leading dashes, followed by its
/// value when one is given.
pub open spec fn extra_args_spec(e: Seq<(String, Option<String>)>) -> Seq<Seq<char>>
    decreases e.len(),
{
    if e.len() == 0 {
        Seq::empty()
    } else {
        extra_args_spec(e.drop_last()) + seq!["--"@ + e.last().0@] + (match e.last().1 {
            Some(v) => seq![v@],
            None => Seq::empty(),
        })
    }
}

/// The name under which a settings source is selected.
pub open spec fn source_str(s: SettingSource) -> Seq<char> {
    match s {
        SettingSource::User => "user"@,
        SettingSource::Project => "project"@,
        SettingSource::Local => "local"@,
    }
}

pub open spec fn sources_args(s: Option<Vec<SettingSource>>) -> Seq<Seq<char>> {
    match s {
        None => Seq::empty(),
        Some(v) => seq![
            "--setting-sources"@,
            join_comma_spec(v@.map_values(|x: SettingSource| source_str(x))),
        ],
    }
}

/// The JSON rendering of one agent definition.
pub open spec fn agent_data(a: AgentDefinition) -> JsonData {
    let base = map!["description"@ => JsonData::Str(a.description@), "prompt"@ => JsonData::Str(a.prompt@)];
    let with_tools = match a.tools {
        Some(ts) => base.insert("tools"@, JsonData::Arr(strs(ts@).map_values(|t: Seq<char>| JsonData::Str(t)))),
        None => base,
    };
    JsonData::Obj(
        match a.model {
            Some(m) => with_tools.insert("model"@, JsonData::Str(m@)),
            None => with_tools,
        },
    )
}

/// The JSON object holding every agent, keyed by name.
pub open spec fn agents_data(a: Seq<(String, AgentDefinition)>) -> Map<Seq<char>, JsonData>
    decreases a.len(),
{
    if a.len() == 0 {
        Map::empty()
    } else {
        agents_data(a.drop_last()).insert(a.last().0@, agent_data(a.last().1))
    }
}

pub open spec fn agents_args(a: Seq<(String, AgentDefinition)>) -> Seq<Seq<char>> {
    if a.len() == 0 {
        Seq::empty()
    } else {
        seq!["--agents"@, json_dump(JsonData::Obj(agents_data(a)))]
    }
}

/// A JSON object of string pairs.
pub open spec fn pairs_data(pairs: Seq<(String, String)>) -> Map<Seq<char>, JsonData>
    decreases pairs.len(),
{
    if pairs.len() == 0 {
        Map::empty()
    } else {
        pairs_data(pairs.drop_last()).insert(
            pairs.last().0@,
            JsonData::Str(pairs.last().1@),
        )
    }
}

/// The JSON rendering of one MCP server configuration, under its session
/// name. An in-process server passes only its type and name; the others
/// carry their full connection data.
pub open spec fn server_data(name: Seq<char>, c: McpServerConfig) -> JsonData {
    match c {
        McpServerConfig::Stdio { command, args, env } => {
            let base = map!["type"@ => JsonData::Str("stdio"@), "command"@ => JsonData::Str(command@)];
            let with_args = match args {
                Some(a) => base.insert("args"@, JsonData::Arr(strs(a@).map_values(|t: Seq<char>| JsonData::Str(t)))),
                None => base,
            };
            JsonData::Obj(
                match env {
                    Some(e) => with_args.insert("env"@, JsonData::Obj(pairs_data(e@))),
                    None => with_args,
                },
            )
        },
        McpServerConfig::SSE { url, headers } => {
            let base = map!["type"@ => JsonData::Str("sse"@), "url"@ => JsonData::Str(url@)];
            JsonData::Obj(
                match headers {
                    Some(h) => base.insert("headers"@, JsonData::Obj(pairs_data(h@))),
                    None => base,
                },
            )
        },
        McpServerConfig::HTTP { url, headers } => {
            let base = map!["type"@ => JsonData::Str("http"@), "url"@ => JsonData::Str(url@)];
            JsonData::Obj(
                match headers {
                    Some(h) => base.insert("headers"@, JsonData::Obj(pairs_data(h@))),
                    None => base,
                },
            )
        },
        McpServerConfig::SDK { name: _, instance: _ } => JsonData::Obj(
            map!["type"@ => JsonData::Str("sdk"@), "name"@ => JsonData::Str(name)],
        ),
    }
}

/// The JSON object holding every configured server, keyed by name.
pub open spec fn servers_data(s: Seq<(String, McpServerConfig)>) -> Map<Seq<char>, JsonData>
    decreases s.len(),
{
    if s.len() == 0 {
        Map::empty()
    } else {
        servers_data(s.drop_last()).insert(
            s.last().0@,
            server_data(s.last().0@, s.last().1),
        )
    }
}

pub open spec fn mcp_args(s: Seq<(String, McpServerConfig)>) -> Seq<Seq<char>> {
    if s.len() == 0 {
        Seq::empty()
    } else {
        seq![
            "--mcp-config"@,
            json_dump(JsonData::Obj(map!["mcpServers"@ => JsonData::Obj(servers_data(s))])),
        ]
    }
}

pub open spec fn max_turns_args(mt: Option<i32>) -> Seq<Seq<char>> {
    match mt {
        Some(n) => seq!["--max-turns"@, int_str(n as int)],
        None => Seq::empty(),
    }
}

/// The whole argument vector handed to the subprocess.
pub open spec fn build_command_spec(
    cli_path: Seq<char>,
    o: ClaudeAgentOptions,
    is_streaming: bool,
) -> Seq<Seq<char>> {
    seq![cli_path, "--output-format"@, "stream-json"@, "--verbose"@] + prompt_args(o.system_prompt)
        + tools_args("--allowedTools"@, o.allowed_tools@) + max_turns_args(o.max_turns)
        + tools_args("--disallowedTools"@, o.disallowed_tools@) + opt_flag("--model"@, o.model)
        + opt_flag("--permission-prompt-tool"@, o.permission_prompt_tool_name) + opt_flag(
        "--permission-mode"@,
        o.permission_mode,
    ) + flag_if("--continue"@, o.continue_conversation) + opt_flag("--resume"@, o.resume)
        + opt_flag("--settings"@, o.settings) + dirs_args(o.add_dirs@) + mcp_args(o.mcp_servers@)
        + flag_if("--include-partial-messages"@, o.include_partial_messages) + flag_if(
        "--fork-session"@,
        o.fork_session,
    ) + agents_args(o.agents@) + sources_args(o.setting_sources) + extra_args_spec(o.extra_args@)
        + (if is_streaming {
        seq!["--input-format"@, "stream-json"@]
    } else {
        seq!["--print"@, "--"@, ""@]
    })
}

// ---------------------------------------------------------------------------
// Executable builders
// ---------------------------------------------------------------------------
/// Join strings with commas.
fn join_comma(items: &Vec<String>) -> (r: String)
    ensures
        r@ == join_comma_spec(strs(items@)),
{
    let mut s = String::new();
    let mut i: usize = 0;
    proof {
        reveal_strlit(",");
    }
    while i < items.len()
        invariant
            0 <= i <= items@.len(),
            s@ == join_comma_spec(strs(items@).take(i as int)),
        decreases items@.len() - i,
    {
        if i > 0 {
            s.append(",");
        }
        s.append(items[i].as_str());
        proof {
            let all = strs(items@);
            assert(all.take(i as int + 1).drop_last() =~= all.take(i as int));
            assert(all.take(i as int + 1).last() == items@[i as int]@);
            if i == 0 {
                assert(s@ =~= join_comma_spec(all.take(1)));
            } else {
                assert(s@ =~= join_comma_spec(all.take(i as int + 1)));
            }
        }
        i = i + 1;
    }
    proof {
        assert(strs(items@).take(items@.len() as int) =~= strs(items@));
    }
    s
}

fn push_str(cmd: &mut Vec<String>, s: &str)
    ensures
        strs(final(cmd)@) == strs(old(cmd)@).push(s@),
{
    cmd.push(s.to_owned());
    assert(strs(final(cmd)@) =~= strs(old(cmd)@).push(s@));
}

fn push_string(cmd: &mut Vec<String>, s: String)
    ensures
        strs(final(cmd)@) == strs(old(cmd)@).push(s@),
{
    cmd.push(s);
    assert(strs(final(cmd)@) =~= strs(old(cmd)@).push(s@));
}

/// The JSON value of one agent definition.
fn agent_to_json(a: &AgentDefinition) -> (v: serde_json::Value)
    ensures
        json_model(v) == agent_data(*a),
{
    let mut m = json_map_new();
    json_map_insert(&mut m, "description", json_string(a.description.as_str()));
    json_map_insert(&mut m, "prompt", json_string(a.prompt.as_str()));
    match &a.tools {
        Some(ts) => {
            json_map_insert(&mut m, "tools", strings_to_json(ts));
        },
        None => {},
    }
    match &a.model {
        Some(md) => {
            json_map_insert(&mut m, "model", json_string(md.as_str()));
        },
        None => {},
    }
    let v = json_object(m);
    proof {
        assert(json_model(v) =~~= agent_data(*a));
    }
    v
}

/// A JSON array of strings.
fn strings_to_json(items: &Vec<String>) -> (v: serde_json::Value)
    ensures
        json_model(v) == JsonData::Arr(
            strs(items@).map_values(|t: Seq<char>| JsonData::Str(t)),
        ),
{
    let mut out: Vec<serde_json::Value> = Vec::new();
    let mut i: usize = 0;
    while i < items.len()
        invariant
            0 <= i <= items@.len(),
            out@.len() == i,
            forall|k: int|
                0 <= k < i ==> json_model(#[trigger] out@[k]) == JsonData::Str(items@[k]@),
        decreases items@.len() - i,
    {
        out.push(json_string(items[i].as_str()));
        i = i + 1;
    }
    let v = json_array(out);
    proof {
        let want = strs(items@).map_values(|t: Seq<char>| JsonData::Str(t));
        match json_model(v) {
            JsonData::Arr(s) => {
                assert forall|k: int| 0 <= k < items@.len() implies s[k] == want[k] by {
                    assert(strs(items@)[k] == items@[k]@);
                    assert(s[k] == json_model(out@[k]));
                }
                assert(s =~= want);
            },
            _ => {
                assert(false);
            },
        }
    }
    v
}

/// A JSON object of string pairs.
fn pairs_to_json(pairs: &Vec<(String, String)>) -> (v: serde_json::Value)
    ensures
        json_model(v) == JsonData::Obj(pairs_data(pairs@)),
{
    let mut m = json_map_new();
    let mut i: usize = 0;
    while i < pairs.len()
        invariant
            0 <= i <= pairs@.len(),
            json_map_model(m) == pairs_data(pairs@.take(i as int)),
        decreases pairs@.len() - i,
    {
        json_map_insert(&mut m, pairs[i].0.as_str(), json_string(pairs[i].1.as_str()));
        proof {
            assert(pairs@.take(i as int + 1).drop_last() =~= pairs@.take(i as int));
            assert(json_map_model(m) =~= pairs_data(pairs@.take(i as int + 1)));
        }
        i = i + 1;
    }
    proof {
        assert(pairs@.take(pairs@.len() as int) =~= pairs@);
    }
    json_object(m)
}

/// The JSON value of one server configuration.
fn server_to_json(name: &str, c: &McpServerConfig) -> (v: serde_json::Value)
    ensures
        json_model(v) == server_data(name@, *c),
{
    match c {
        McpServerConfig::Stdio { command, args, env } => {
            let mut m = json_map_new();
            json_map_insert(&mut m, "type", json_string("stdio"));
            json_map_insert(&mut m, "command", json_string(command.as_str()));
            match args {
                Some(a) => {
                    json_map_insert(&mut m, "args", strings_to_json(a));
                },
                None => {},
            }
            match env {
                Some(e) => {
                    json_map_insert(&mut m, "env", pairs_to_json(e));
                },
                None => {},
            }
            let v = json_object(m);
            proof {
                assert(json_model(v) =~~= server_data(name@, *c));
            }
            v
        },
        McpServerConfig::SSE { url, headers } => {
            let mut m = json_map_new();
            json_map_insert(&mut m, "type", json_string("sse"));
            json_map_insert(&mut m, "url", json_string(url.as_str()));
            match headers {
                Some(h) => {
                    json_map_insert(&mut m, "headers", pairs_to_json(h));
                },
                None => {},
            }
            let v = json_object(m);
            proof {
                assert(json_model(v) =~~= server_data(name@, *c));
            }
            v
        },
        McpServerConfig::HTTP { url, headers } => {
            let mut m = json_map_new();
            json_map_insert(&mut m, "type", json_string("http"));
            json_map_insert(&mut m, "url", json_string(url.as_str()));
            match headers {
                Some(h) => {
                    json_map_insert(&mut m, "headers", pairs_to_json(h));
                },
                None => {},
            }
            let v = json_object(m);
            proof {
                assert(json_model(v) =~~= server_data(name@, *c));
            }
            v
        },
        McpServerConfig::SDK { name: _, instance: _ } => {
            let mut m = json_map_new();
            json_map_insert(&mut m, "type", json_string("sdk"));
            json_map_insert(&mut m, "name", json_string(name));
            let v = json_object(m);
            proof {
                assert(json_model(v) =~~= server_data(name@, *c));
            }
            v
        },
    }
}

/// The `--mcp-config` JSON text.
fn mcp_config_text(servers: &Vec<(String, McpServerConfig)>) -> (r: String)
    ensures
        r@ == json_dump(
            JsonData::Obj(map!["mcpServers"@ => JsonData::Obj(servers_data(servers@))]),
        ),
{
    let mut m = json_map_new();
    let mut i: usize = 0;
    while i < servers.len()
        invariant
            0 <= i <= servers@.len(),
            json_map_model(m) == servers_data(servers@.take(i as int)),
        decreases servers@.len() - i,
    {
        let v = server_to_json(servers[i].0.as_str(), &servers[i].1);
        json_map_insert(&mut m, servers[i].0.as_str(), v);
        proof {
            assert(servers@.take(i as int + 1).drop_last() =~= servers@.take(i as int));
            assert(json_map_model(m) =~= servers_data(servers@.take(i as int + 1)));
        }
        i = i + 1;
    }
    proof {
        assert(servers@.take(servers@.len() as int) =~= servers@);
    }
    let mut outer = json_map_new();
    json_map_insert(&mut outer, "mcpServers", json_object(m));
    let v = json_object(outer);
    proof {
        assert(json_model(v) =~~= JsonData::Obj(
            map!["mcpServers"@ => JsonData::Obj(servers_data(servers@))],
        ));
    }
    json_to_string(&v)
}

/// The `--agents` JSON text.
fn agents_text(agents: &Vec<(String, AgentDefinition)>) -> (r: String)
    ensures
        r@ == json_dump(JsonData::Obj(agents_data(agents@))),
{
    let mut m = json_map_new();
    let mut i: usize = 0;
    while i < agents.len()
        invariant
            0 <= i <= agents@.len(),
            json_map_model(m) == agents_data(agents@.take(i as int)),
        decreases agents@.len() - i,
    {
        let v = agent_to_json(&agents[i].1);
        json_map_insert(&mut m, agents[i].0.as_str(), v);
        proof {
            assert(agents@.take(i as int + 1).drop_last() =~= agents@.take(i as int));
            assert(json_map_model(m) =~= agents_data(agents@.take(i as int + 1)));
        }
        i = i + 1;
    }
    proof {
        assert(agents@.take(agents@.len() as int) =~= agents@);
    }
    let v = json_object(m);
    json_to_string(&v)
}

/// The selected settings sources, comma-joined.
fn sources_text(sources: &Vec<SettingSource>) -> (r: String)
    ensures
        r@ == join_comma_spec(sources@.map_values(|x: SettingSource| source_str(x))),
{
    let mut names: Vec<String> = Vec::new();
    let mut i: usize = 0;
    while i < sources.len()
        invariant
            0 <= i <= sources@.len(),
            names@.len() == i,
            forall|k: int| 0 <= k < i ==> (#[trigger] names@[k])@ == source_str(sources@[k]),
        decreases sources@.len() - i,
    {
        let n: String = match sources[i] {
            SettingSource::User => "user".to_owned(),
            SettingSource::Project => "project".to_owned(),
            SettingSource::Local => "local".to_owned(),
        };
        names.push(n);
        i = i + 1;
    }
    let r = join_comma(&names);
    proof {
        assert(strs(names@) =~= sources@.map_values(|x: SettingSource| source_str(x)));
    }
    r
}

/// Append the system-prompt arguments.
fn add_prompt(cmd: &mut Vec<String>, p: &Option<SystemPrompt>)
    ensures
        strs(final(cmd)@) == strs(old(cmd)@) + prompt_args(*p),
{
    match p {
        Some(SystemPrompt::Text(t)) => {
            push_str(cmd, "--system-prompt");
            push_string(cmd, t.clone());
        },
        Some(SystemPrompt::Preset { preset: _, append }) => {
            match append {
                Some(a) => {
                    push_str(cmd, "--append-system-prompt");
                    push_string(cmd, a.clone());
                },
                None => {},
            }
        },
        None => {},
    }
    assert(strs(final(cmd)@) =~= strs(old(cmd)@) + prompt_args(*p));
}

/// Append a tool-list flag when the list is non-empty.
fn add_tools(cmd: &mut Vec<String>, flag: &str, tools: &Vec<String>)
    ensures
        strs(final(cmd)@) == strs(old(cmd)@) + tools_args(flag@, tools@),
{
    if tools.len() > 0 {
        push_str(cmd, flag);
        push_string(cmd, join_comma(tools));
    }
    assert(strs(final(cmd)@) =~= strs(old(cmd)@) + tools_args(flag@, tools@));
}

/// Append a flag and its value when the option is set.
fn add_opt(cmd: &mut Vec<String>, flag: &str, v: &Option<String>)
    ensures
        strs(final(cmd)@) == strs(old(cmd)@) + opt_flag(flag@, *v),
{
    match v {
        Some(s) => {
            push_str(cmd, flag);
            push_string(cmd, s.clone());
        },
        None => {},
    }
    assert(strs(final(cmd)@) =~= strs(old(cmd)@) + opt_flag(flag@, *v));
}

/// Append a bare flag when the switch is on.
fn add_flag_if(cmd: &mut Vec<String>, flag: &str, b: bool)
    ensures
        strs(final(cmd)@) == strs(old(cmd)@) + flag_if(flag@, b),
{
    if b {
        push_str(cmd, flag);
    }
    assert(strs(final(cmd)@) =~= strs(old(cmd)@) + flag_if(flag@, b));
}

/// Append the `--max-turns` arguments.
fn add_max_turns(cmd: &mut Vec<String>, mt: &Option<i32>)
    ensures
        strs(final(cmd)@) == strs(old(cmd)@) + max_turns_args(*mt),
{
    match mt {
        Some(n) => {
            push_str(cmd, "--max-turns");
            push_string(cmd, i64_string(*n as i64));
        },
        None => {},
    }
    assert(strs(final(cmd)@) =~= strs(old(cmd)@) + max_turns_args(*mt));
}

/// Append one `--add-dir` pair per directory.
fn add_dirs(cmd: &mut Vec<String>, dirs: &Vec<String>)
    ensures
        strs(final(cmd)@) == strs(old(cmd)@) + dirs_args(dirs@),
{
    let ghost c0 = strs(old(cmd)@);
    let mut i: usize = 0;
    while i < dirs.len()
        invariant
            0 <= i <= dirs@.len(),
            strs(cmd@) == c0 + dirs_args(dirs@.take(i as int)),
        decreases dirs@.len() - i,
    {
        push_str(cmd, "--add-dir");
        push_string(cmd, dirs[i].clone());
        proof {
            assert(dirs@.take(i as int + 1).drop_last() =~= dirs@.take(i as int));
            assert(strs(cmd@) =~= c0 + dirs_args(dirs@.take(i as int + 1)));
        }
        i = i + 1;
    }
    proof {
        assert(dirs@.take(dirs@.len() as int) =~= dirs@);
    }
}

/// Append the `--mcp-config` arguments when servers are configured.
fn add_mcp(cmd: &mut Vec<String>, servers: &Vec<(String, McpServerConfig)>)
    ensures
        strs(final(cmd)@) == strs(old(cmd)@) + mcp_args(servers@),
{
    if servers.len() > 0 {
        push_str(cmd, "--mcp-config");
        push_string(cmd, mcp_config_text(servers));
    }
    assert(strs(final(cmd)@) =~= strs(old(cmd)@) + mcp_args(servers@));
}

/// Append the `--agents` arguments when agents are configured.
fn add_agents(cmd: &mut Vec<String>, agents: &Vec<(String, AgentDefinition)>)
    ensures
        strs(final(cmd)@) == strs(old(cmd)@) + agents_args(agents@),
{
    if agents.len() > 0 {
        push_str(cmd, "--agents");
        push_string(cmd, agents_text(agents));
    }
    assert(strs(final(cmd)@) =~= strs(old(cmd)@) + agents_args(agents@));
}

/// Append the `--setting-sources` arguments when sources are selected.
fn add_sources(cmd: &mut Vec<String>, s: &Option<Vec<SettingSource>>)
    ensures
        strs(final(cmd)@) == strs(old(cmd)@) + sources_args(*s),
{
    match s {
        Some(sources) => {
            push_str(cmd, "--setting-sources");
            push_string(cmd, sources_text(sources));
        },
        None => {},
    }
    assert(strs(final(cmd)@) =~= strs(old(cmd)@) + sources_args(*s));
}

/// Append the extra arguments.
fn add_extra(cmd: &mut Vec<String>, extra: &Vec<(String, Option<String>)>)
    ensures
        strs(final(cmd)@) == strs(old(cmd)@) + extra_args_spec(extra@),
{
    let ghost c0 = strs(old(cmd)@);
    let mut j: usize = 0;
    proof {
        reveal_strlit("--");
    }
    while j < extra.len()
        invariant
            0 <= j <= extra@.len(),
            strs(cmd@) == c0 + extra_args_spec(extra@.take(j as int)),
        decreases extra@.len() - j,
    {
        let mut flag = String::new();
        proof {
            reveal_strlit("--");
        }
        flag.append("--");
        flag.append(extra[j].0.as_str());
        assert(flag@ =~= "--"@ + extra@[j as int].0@);
        push_string(cmd, flag);
        match &extra[j].1 {
            Some(v) => {
                push_string(cmd, v.clone());
            },
            None => {},
        }
        proof {
            assert(extra@.take(j as int + 1).drop_last() =~= extra@.take(j as int));
            assert(strs(cmd@) =~= c0 + extra_args_spec(extra@.take(j as int + 1)));
        }
        j = j + 1;
    }
    proof {
        assert(extra@.take(extra@.len() as int) =~= extra@);
    }
}

/// Build the full argument vector for launching the subprocess: the CLI
/// path first, then one flag group per configured option, and the
/// input-mode arguments last.
pub fn build_command(cli_path: &String, options: &ClaudeAgentOptions, is_streaming: bool) -> (cmd:
    Vec<String>)
    ensures
        strs(cmd@) == build_command_spec(cli_path@, *options, is_streaming),
{
    let mut cmd: Vec<String> = Vec::new();
    push_string(&mut cmd, cli_path.clone());
    push_str(&mut cmd, "--output-format");
    push_str(&mut cmd, "stream-json");
    push_str(&mut cmd, "--verbose");
    proof {
        assert(strs(cmd@) =~= seq![cli_path@, "--output-format"@, "stream-json"@, "--verbose"@]);
    }
    add_prompt(&mut cmd, &options.system_prompt);
    add_tools(&mut cmd, "--allowedTools", &options.allowed_tools);
    add_max_turns(&mut cmd, &options.max_turns);
    add_tools(&mut cmd, "--disallowedTools", &options.disallowed_tools);
    add_opt(&mut cmd, "--model", &options.model);
    add_opt(&mut cmd, "--permission-prompt-tool", &options.permission_prompt_tool_name);
    add_opt(&mut cmd, "--permission-mode", &options.permission_mode);
    add_flag_if(&mut cmd, "--continue", options.continue_conversation);
    add_opt(&mut cmd, "--resume", &options.resume);
    add_opt(&mut cmd, "--settings", &options.settings);
    add_dirs(&mut cmd, &options.add_dirs);
    add_mcp(&mut cmd, &options.mcp_servers);
    add_flag_if(&mut cmd, "--include-partial-messages", options.include_partial_messages);
    add_flag_if(&mut cmd, "--fork-session", options.fork_session);
    add_agents(&mut cmd, &options.agents);
    add_sources(&mut cmd, &options.setting_sources);
    add_extra(&mut cmd, &options.extra_args);
    if is_streaming {
        push_str(&mut cmd, "--input-format");
        push_str(&mut cmd, "stream-json");
    } else {
        push_str(&mut cmd, "--print");
        push_str(&mut cmd, "--");
        push_str(&mut cmd, "");
    }
    proof {
        assert(strs(cmd@) =~= build_command_spec(cli_path@, *options, is_streaming));
    }
    cmd
}

impl SystemPrompt {
    /// The JSON rendering of a system prompt: free text is a plain string,
    /// a preset an object with its name and optional appended text.
    pub open spec fn to_json_data(self) -> JsonData {
        match self {
            SystemPrompt::Text(t) => JsonData::Str(t@),
            SystemPrompt::Preset { preset, append } => {
                let base = map!["type"@ => JsonData::Str("preset"@), "preset"@ => JsonData::Str(preset@)];
                JsonData::Obj(
                    match append {
                        Some(a) => base.insert("append"@, JsonData::Str(a@)),
                        None => base,
                    },
                )
            },
        }
    }

    /// The JSON value of this prompt.
    pub fn to_json(&self) -> (v: serde_json::Value)
        ensures
            json_model(v) == self.to_json_data(),
    {
        match self {
            SystemPrompt::Text(t) => json_string(t.as_str()),
            SystemPrompt::Preset { preset, append } => {
                let mut m = json_map_new();
                json_map_insert(&mut m, "type", json_string("preset"));
                json_map_insert(&mut m, "preset", json_string(preset.as_str()));
                match append {
                    Some(a) => {
                        json_map_insert(&mut m, "append", json_string(a.as_str()));
                    },
                    None => {},
                }
                let v = json_object(m);
                proof {
                    assert(json_model(v) =~~= self.to_json_data());
                }
                v
            },
        }
    }
}

impl SettingSource {
    /// The JSON value of this source: its lowercase name.
    pub fn to_json(&self) -> (v: serde_json::Value)
        ensures
            json_model(v) == JsonData::Str(source_str(*self)),
    {
        match self {
            SettingSource::User => json_string("user"),
            SettingSource::Project => json_string("project"),
            SettingSource::Local => json_string("local"),
        }
    }
}

} // verus!
