//! Tool descriptions for in-process MCP servers: the parameter schema type
//! and the tool-schema rendering the protocol sends to the peer.

use vstd::prelude::*;
use vstd::map::*;
use crate::json::{
    get_str_field, json_array, json_get, json_is_null, json_is_object, json_map_insert,
    json_map_model, json_map_new, json_model, json_object, json_string, obj_get, obj_has,
    obj_str, JsonData,
};

verus! {

/// Schema of one tool parameter: its JSON type name and an optional
/// description.
#[derive(Debug, Clone)]
pub struct ToolParameter {
    pub param_type: String,
    pub description: Option<String>,
}

/// The JSON rendering of one parameter.
pub open spec fn param_data(p: ToolParameter) -> JsonData {
    let base = map!["type"@ => JsonData::Str(p.param_type@)];
    JsonData::Obj(
        match p.description {
            Some(d) => base.insert("description"@, JsonData::Str(d@)),
            None => base,
        },
    )
}

/// The documents `ToolParameter::from_json` accepts: an object with a
/// string `type`, whose `description`, if there is one, is a string or
/// null.
pub open spec fn param_json_ok(d: JsonData) -> bool {
    &&& d is Obj
    &&& obj_str(d, "type"@) is Some
    &&& (obj_has(d, "description"@) ==> obj_get(d, "description"@) is Str || obj_get(
        d,
        "description"@,
    ) is Null)
}

impl ToolParameter {
    /// The JSON value of this parameter.
    pub fn to_json(&self) -> (v: serde_json::Value)
        ensures
            json_model(v) == param_data(*self),
    {
        let mut m = json_map_new();
        json_map_insert(&mut m, "type", json_string(self.param_type.as_str()));
        match &self.description {
            Some(d) => {
                json_map_insert(&mut m, "description", json_string(d.as_str()));
            },
            None => {},
        }
        let v = json_object(m);
        proof {
            assert(json_model(v) =~~= param_data(*self));
        }
        v
    }

    /// Read a parameter back from its JSON value.
    pub fn from_json(v: &serde_json::Value) -> (r: Option<ToolParameter>)
        ensures
            r is Some <==> param_json_ok(json_model(*v)),
            r matches Some(p) ==> obj_str(json_model(*v), "type"@) == Some(p.param_type@) && (
            p.description matches Some(dd) ==> obj_str(json_model(*v), "description"@) == Some(
                dd@,
            )) && (p.description is None ==> !obj_has(json_model(*v), "description"@) || obj_get(
                json_model(*v),
                "description"@,
            ) is Null),
    {
        if !json_is_object(v) {
            return None;
        }
        let param_type = match get_str_field(v, "type") {
            Some(t) => t,
            None => {
                return None;
            },
        };
        let description = match json_get(v, "description") {
            Some(x) => {
                if json_is_null(x) {
                    None
                } else {
                    match crate::json::json_as_str(x) {
                        Some(s) => Some(s),
                        None => {
                            return None;
                        },
                    }
                }
            },
            None => None,
        };
        Some(ToolParameter { param_type, description })
    }
}

/// The `properties` object of a tool schema.
pub open spec fn props_data(params: Seq<(String, ToolParameter)>) -> Map<Seq<char>, JsonData>
    decreases params.len(),
{
    if params.len() == 0 {
        Map::empty()
    } else {
        props_data(params.drop_last()).insert(
            params.last().0@,
            param_data(params.last().1),
        )
    }
}

/// The `required` list of a tool schema: every parameter name, in order.
pub open spec fn required_data(params: Seq<(String, ToolParameter)>) -> Seq<JsonData> {
    params.map_values(|p: (String, ToolParameter)| JsonData::Str(p.0@))
}

/// The schema object describing one tool to the peer.
pub open spec fn schema_data(
    name: Seq<char>,
    description: Seq<char>,
    params: Seq<(String, ToolParameter)>,
) -> JsonData {
    JsonData::Obj(
        map![
            "name"@ => JsonData::Str(name),
            "description"@ => JsonData::Str(description),
            "inputSchema"@ => JsonData::Obj(
                map![
                    "type"@ => JsonData::Str("object"@),
                    "properties"@ => JsonData::Obj(props_data(params)),
                    "required"@ => JsonData::Arr(required_data(params)),
                ],
            ),
        ],
    )
}

/// Build the schema a server advertises for one tool: its name and
/// description, an object schema holding every parameter, and the full
/// parameter list as required.
pub fn tool_schema(name: &str, description: &str, params: &Vec<(String, ToolParameter)>) -> (v:
    serde_json::Value)
    ensures
        json_model(v) == schema_data(name@, description@, params@),
{
    let mut props = json_map_new();
    let mut required: Vec<serde_json::Value> = Vec::new();
    let mut i: usize = 0;
    while i < params.len()
        invariant
            0 <= i <= params@.len(),
            json_map_model(props) == props_data(params@.take(i as int)),
            required@.len() == i,
            forall|k: int|
                0 <= k < i ==> json_model(#[trigger] required@[k]) == JsonData::Str(
                    params@[k].0@,
                ),
        decreases params@.len() - i,
    {
        required.push(json_string(params[i].0.as_str()));
        let pv = params[i].1.to_json();
        json_map_insert(&mut props, params[i].0.as_str(), pv);
        proof {
            assert(params@.take(i as int + 1).drop_last() =~= params@.take(i as int));
            assert(json_map_model(props) =~= props_data(params@.take(i as int + 1)));
        }
        i = i + 1;
    }
    proof {
        assert(params@.take(params@.len() as int) =~= params@);
    }
    let required_arr = json_array(required);
    let mut schema = json_map_new();
    json_map_insert(&mut schema, "type", json_string("object"));
    json_map_insert(&mut schema, "properties", json_object(props));
    json_map_insert(&mut schema, "required", required_arr);
    let mut outer = json_map_new();
    json_map_insert(&mut outer, "name", json_string(name));
    json_map_insert(&mut outer, "description", json_string(description));
    json_map_insert(&mut outer, "inputSchema", json_object(schema));
    let v = json_object(outer);
    proof {
        match json_model(required_arr) {
            JsonData::Arr(s) => {
                assert forall|k: int| 0 <= k < params@.len() implies s[k] == required_data(
                    params@,
                )[k] by {
                    assert(s[k] == json_model(required@[k]));
                    assert(json_model(required@[k]) == JsonData::Str(params@[k].0@));
                    assert(required_data(params@)[k] == JsonData::Str(params@[k].0@));
                }
                assert(s =~= required_data(params@));
            },
            _ => {
                assert(false);
            },
        }
        assert(json_model(v) =~~= schema_data(name@, description@, params@));
    }
    v
}

} // verus!
