//! The tools of a request: how they are read, which are passed on, and which is chosen.

use vstd::prelude::*;

use crate::anthropic::types::{invalid, place, tools_view, ErrorView, RequestError, Tool, ToolView};
use crate::json::{
    as_text, items_view, lemma_position_of, lookup, maybe_json, no_fields, position_of, text, Fields, Json,
    JsonView,
};
use crate::rows::{all_ok, lemma_front_error, lemma_push, seen};
use crate::text::{dec, join2, maybe_text, same};

verus! {

/// A tool as a request defines it; one of type `namespace` holds further tools.
#[derive(Debug)]
pub struct ResponseTool {
    pub tool_type: String,
    pub name: Option<String>,
    pub description: Option<String>,
    pub parameters: Option<Json>,
    pub tools: Vec<ResponseTool>,
}

/// A tool definition as plain values.
pub struct DefinitionView {
    pub tool_type: Seq<char>,
    pub name: Option<Seq<char>>,
    pub description: Option<Seq<char>>,
    pub parameters: Option<JsonView>,
    pub tools: Seq<DefinitionView>,
}

/// A tool definition as plain values.
pub open spec fn definition_view(tool: ResponseTool) -> DefinitionView
    decreases tool,
{
    DefinitionView {
        tool_type: tool.tool_type@,
        name: maybe_text(tool.name),
        description: maybe_text(tool.description),
        parameters: maybe_json(tool.parameters),
        tools: Seq::new(
            tool.tools@.len(),
            |i: int|
                if 0 <= i < tool.tools@.len() {
                    definition_view(tool.tools@[i])
                } else {
                    arbitrary()
                },
        ),
    }
}

impl View for ResponseTool {
    type V = DefinitionView;

    open spec fn view(&self) -> DefinitionView {
        definition_view(*self)
    }
}

/// The definitions of a row, as plain values.
pub open spec fn definitions_view(tools: Seq<ResponseTool>) -> Seq<DefinitionView> {
    tools.map_values(|tool: ResponseTool| tool@)
}

/// The tools inside a definition are the views of its tools.
proof fn lemma_inner_view(tool: ResponseTool)
    ensures
        tool@.tools == definitions_view(tool.tools@),
{
    assert(tool@.tools =~= definitions_view(tool.tools@));
}

/// What a tool definition is read from: the values of its fields, as far as they are
/// there.
pub struct Sources {
    pub tool_type: Option<JsonView>,
    pub name: Option<JsonView>,
    pub description: Option<JsonView>,
    pub parameters: Option<JsonView>,
    pub tools: Option<JsonView>,
}

/// The values of a definition's fields: by name in an object, by position in an array,
/// which may leave out the last.
pub open spec fn sources(json: JsonView) -> Option<Sources> {
    match json {
        JsonView::Object(entries) => Some(
            Sources {
                tool_type: lookup(entries, "type"@),
                name: lookup(entries, "name"@),
                description: lookup(entries, "description"@),
                parameters: lookup(entries, "parameters"@),
                tools: lookup(entries, "tools"@),
            },
        ),
        JsonView::Array(items) => if items.len() == 4 || items.len() == 5 {
            Some(
                Sources {
                    tool_type: Some(items[0]),
                    name: Some(items[1]),
                    description: Some(items[2]),
                    parameters: Some(items[3]),
                    tools: if items.len() == 5 {
                        Some(items[4])
                    } else {
                        None
                    },
                },
            )
        } else {
            None
        },
        _ => None,
    }
}

/// A text that may be missing or null; nothing where it is another value.
pub open spec fn optional_text(value: Option<JsonView>) -> Option<Option<Seq<char>>> {
    match value {
        None => Some(None),
        Some(JsonView::Null) => Some(None),
        Some(JsonView::Text(s)) => Some(Some(s)),
        _ => None,
    }
}

/// A value that may be missing or null.
pub open spec fn optional_value(value: Option<JsonView>) -> Option<JsonView> {
    match value {
        Some(JsonView::Null) => None,
        _ => value,
    }
}

/// The tool definition that a JSON value holds: its type is a text, its name and
/// description are texts or missing, its tools are an array of definitions or missing.
pub open spec fn definition(json: JsonView) -> Option<DefinitionView>
    decreases json,
{
    match sources(json) {
        None => None,
        Some(found) => {
            let inner = match found.tools {
                None => Some(Seq::empty()),
                Some(JsonView::Array(items)) => {
                    proof {
                        lemma_tools_inside(json);
                    }
                    definitions(items)
                },
                _ => None,
            };
            match (
                as_text(found.tool_type),
                optional_text(found.name),
                optional_text(found.description),
                inner,
            ) {
                (Some(tool_type), Some(name), Some(description), Some(tools)) => Some(
                    DefinitionView {
                        tool_type,
                        name,
                        description,
                        parameters: optional_value(found.parameters),
                        tools,
                    },
                ),
                _ => None,
            }
        },
    }
}

/// The definitions that a row of JSON values holds, where each of them holds one.
pub open spec fn definitions(items: Seq<JsonView>) -> Option<Seq<DefinitionView>>
    decreases items,
{
    if items.len() == 0 {
        Some(Seq::empty())
    } else {
        match (definitions(items.drop_last()), definition(items.last())) {
            (Some(front), Some(last)) => Some(front.push(last)),
            _ => None,
        }
    }
}

/// A row of values holds no definitions where its front holds none.
proof fn lemma_definitions_front(items: Seq<JsonView>, n: int)
    requires
        0 <= n <= items.len(),
        definitions(items.take(n)) is None,
    ensures
        definitions(items) is None,
    decreases items.len(),
{
    if n == items.len() {
        assert(items.take(n) =~= items);
    } else {
        assert(items.drop_last().take(n) =~= items.take(n));
        lemma_definitions_front(items.drop_last(), n);
    }
}

/// The tools inside a definition are smaller than it.
pub proof fn lemma_tools_inside(json: JsonView)
    requires
        sources(json) matches Some(found) && found.tools matches Some(JsonView::Array(_)),
    ensures
        decreases_to!(json => sources(json)->0.tools->0->Array_0),
{
    match json {
        JsonView::Object(entries) => {
            let at = position_of(entries, "tools"@);
            lemma_position_of(entries, "tools"@);
            assert(decreases_to!(json => json->Object_0[at].1->Array_0));
        },
        JsonView::Array(items) => {
            assert(decreases_to!(json => json->Array_0[4]->Array_0));
        },
        _ => {},
    }
}

/// The parameters of a tool that defines none.
pub open spec fn no_parameters() -> JsonView {
    JsonView::Object(
        no_fields().push(("type"@, JsonView::Text("object"@))).push(
            ("properties"@, JsonView::Object(no_fields())),
        ),
    )
}

/// The tool that a function definition stands for, or what is wrong with it.
pub open spec fn function_tool(tool: DefinitionView, param: Seq<char>) -> Result<
    ToolView,
    ErrorView,
> {
    match tool.name {
        Some(name) if name.len() > 0 => match (match tool.parameters {
            Some(parameters) => parameters,
            None => no_parameters(),
        }) {
            JsonView::Object(input_schema) => Ok(
                ToolView {
                    tool_type: None,
                    name,
                    description: match tool.description {
                        Some(description) => description,
                        None => Seq::empty(),
                    },
                    input_schema,
                    max_uses: None,
                },
            ),
            _ => Err(
                invalid(
                    "function tool parameters must be a JSON object"@,
                    param + ".parameters"@,
                ),
            ),
        },
        _ => Err(invalid("function tool name is required"@, param + ".name"@)),
    }
}

/// The name of a tool's place in the request, with `rest` behind it.
pub open spec fn tool_path(index: nat, rest: Seq<char>) -> Seq<char> {
    "tools["@ + dec(index) + ("]"@ + rest)
}

/// The name of the place of a tool inside another.
pub open spec fn inner_path(index: nat, inner: nat) -> Seq<char> {
    tool_path(index, ".tools["@ + dec(inner) + ("]"@ + ""@))
}

/// The functions among the first `n` tools of a namespace.
pub open spec fn inner_functions(tools: Seq<DefinitionView>, index: nat, n: nat) -> Seq<
    Result<ToolView, ErrorView>,
>
    decreases n,
{
    if n == 0 {
        Seq::empty()
    } else {
        let at = (n - 1) as nat;
        let before = inner_functions(tools, index, at);
        if tools[at as int].tool_type == "function"@ {
            before.push(function_tool(tools[at as int], inner_path(index, at)))
        } else {
            before
        }
    }
}

/// The functions that a tool of the request stands for: itself, those inside it, or none.
pub open spec fn functions_of(tool: DefinitionView, index: nat) -> Seq<
    Result<ToolView, ErrorView>,
> {
    if tool.tool_type == "function"@ {
        seq![function_tool(tool, tool_path(index, ""@))]
    } else if tool.tool_type == "namespace"@ {
        inner_functions(tool.tools, index, tool.tools.len())
    } else {
        Seq::empty()
    }
}

/// The functions that the first `n` tools of the request stand for.
pub open spec fn functions(tools: Seq<DefinitionView>, n: nat) -> Seq<Result<ToolView, ErrorView>>
    decreases n,
{
    if n == 0 {
        Seq::empty()
    } else {
        let at = (n - 1) as nat;
        functions(tools, at) + functions_of(tools[at as int], at)
    }
}

/// The tools that are passed on to the backend, or what is wrong with the first that
/// cannot be.
pub open spec fn mapped_tools(tools: Seq<DefinitionView>) -> Result<Seq<ToolView>, ErrorView> {
    all_ok(functions(tools, tools.len()))
}

/// An object whose only entry is a type.
pub open spec fn typed(kind: Seq<char>) -> Seq<(Seq<char>, JsonView)> {
    no_fields().push(("type"@, JsonView::Text(kind)))
}

/// The choice among the tools as the backend takes it, or what is wrong with it.
pub open spec fn tool_choice(choice: Option<JsonView>, tools: Seq<ToolView>) -> Result<
    Option<JsonView>,
    ErrorView,
> {
    match choice {
        None => Ok(None),
        Some(JsonView::Text(value)) => if value == "auto"@ {
            Ok(Some(JsonView::Object(typed("auto"@))))
        } else if value == "none"@ {
            Ok(Some(JsonView::Object(typed("none"@))))
        } else if value == "required"@ {
            Ok(Some(JsonView::Object(typed("any"@))))
        } else {
            Err(invalid("Invalid tool_choice"@, "tool_choice"@))
        },
        Some(JsonView::Object(object)) => if as_text(lookup(object, "type"@)) == Some(
            "function"@,
        ) {
            match as_text(lookup(object, "name"@)) {
                Some(name) if name.len() > 0 => if exists|i: int|
                    0 <= i < tools.len() && (#[trigger] tools[i]).name == name {
                    Ok(
                        Some(
                            JsonView::Object(typed("tool"@).push(("name"@, JsonView::Text(name)))),
                        ),
                    )
                } else {
                    Err(invalid("tool_choice names an undefined function"@, "tool_choice.name"@))
                },
                _ => Err(invalid("tool_choice function name is required"@, "tool_choice.name"@)),
            }
        } else {
            Err(invalid("Invalid tool_choice"@, "tool_choice"@))
        },
        _ => Err(invalid("Invalid tool_choice"@, "tool_choice"@)),
    }
}

proof fn lemma_inner_front(tools: Seq<DefinitionView>, index: nat, n: nat, m: nat)
    requires
        n <= m,
    ensures
        inner_functions(tools, index, n).is_prefix_of(inner_functions(tools, index, m)),
    decreases m,
{
    if n < m {
        lemma_inner_front(tools, index, n, (m - 1) as nat);
    }
}

proof fn lemma_front(tools: Seq<DefinitionView>, n: nat, m: nat)
    requires
        n <= m,
    ensures
        functions(tools, n).is_prefix_of(functions(tools, m)),
    decreases m,
{
    if n < m {
        lemma_front(tools, n, (m - 1) as nat);
    }
}

/// A tool that cannot be passed on is reported under its own place in the request, and
/// no tool after it changes that.
pub proof fn law_first_bad_tool_is_reported(
    tools: Seq<DefinitionView>,
    more: Seq<DefinitionView>,
)
    requires
        mapped_tools(tools) is Err,
    ensures
        mapped_tools(tools + more) == mapped_tools(tools),
{
    let all = tools + more;
    lemma_same_front(tools, all, tools.len());
    lemma_front(all, tools.len(), all.len());
    lemma_front_error(functions(tools, tools.len()), functions(all, all.len()));
}

/// What the first tools stand for does not depend on those behind them.
pub proof fn lemma_same_front(a: Seq<DefinitionView>, b: Seq<DefinitionView>, n: nat)
    requires
        a.is_prefix_of(b),
        n <= a.len(),
    ensures
        functions(a, n) == functions(b, n),
    decreases n,
{
    if n > 0 {
        lemma_same_front(a, b, (n - 1) as nat);
        assert(a[n - 1] == b[n - 1]);
    }
}

/// A text that may be missing or null; nothing where it is another value.
fn read_text(value: Option<&Json>) -> (r: Option<Option<String>>)
    ensures
        match optional_text(
            match value {
                Some(json) => Some(json@),
                None => None,
            },
        ) {
            Some(found) => r matches Some(read) && maybe_text(read) == found,
            None => r is None,
        },
{
    match value {
        None => Some(None),
        Some(Json::Null) => Some(None),
        Some(Json::Text(s)) => Some(Some(s.clone())),
        _ => None,
    }
}

/// The definitions that an array of JSON values holds, where each of them holds one.
fn decode_tools(items: &Vec<Json>) -> (r: Option<Vec<ResponseTool>>)
    ensures
        match definitions(items_view(items@)) {
            Some(tools) => r matches Some(read) && definitions_view(read@) == tools,
            None => r is None,
        },
    decreases items_view(items@),
{
    let ghost all = items_view(items@);
    let mut tools: Vec<ResponseTool> = Vec::new();
    assert(definitions_view(tools@) =~= Seq::<DefinitionView>::empty());
    for i in 0..items.len()
        invariant
            all == items_view(items@),
            definitions(all.take(i as int)) == Some(definitions_view(tools@)),
    {
        assert(all.take(i + 1).drop_last() =~= all.take(i as int));
        assert(decreases_to!(all => all[i as int]));
        match decode_tool(&items[i]) {
            Some(tool) => {
                let ghost before = tools@;
                tools.push(tool);
                assert(definitions_view(tools@) =~= definitions_view(before).push(tool@));
            },
            None => {
                proof {
                    lemma_definitions_front(all, i + 1);
                }
                return None;
            },
        }
    }
    assert(all.take(all.len() as int) =~= all);
    Some(tools)
}

/// The tool definition that a JSON value holds, where it holds one.
pub fn decode_tool(json: &Json) -> (r: Option<ResponseTool>)
    ensures
        match definition(json@) {
            Some(tool) => r matches Some(read) && read@ == tool,
            None => r is None,
        },
    decreases json@,
{
    let tool_type: Option<&Json>;
    let name: Option<&Json>;
    let description: Option<&Json>;
    let parameters: Option<&Json>;
    let inner: Option<&Json>;
    if let Some(object) = json.as_object() {
        tool_type = object.get("type");
        name = object.get("name");
        description = object.get("description");
        parameters = object.get("parameters");
        inner = object.get("tools");
    } else if let Some(items) = json.as_array() {
        if items.len() != 4 && items.len() != 5 {
            return None;
        }
        tool_type = Some(&items[0]);
        name = Some(&items[1]);
        description = Some(&items[2]);
        parameters = Some(&items[3]);
        inner = if items.len() == 5 {
            Some(&items[4])
        } else {
            None
        };
    } else {
        return None;
    }
    let tool_type = match tool_type {
        Some(Json::Text(s)) => s.clone(),
        _ => {
            return None;
        },
    };
    let (name, description) = match (read_text(name), read_text(description)) {
        (Some(name), Some(description)) => (name, description),
        _ => {
            return None;
        },
    };
    let parameters = match parameters {
        Some(value) => if value.is_null() {
            None
        } else {
            Some(value.duplicate())
        },
        None => None,
    };
    let tools = match inner {
        None => Vec::new(),
        Some(value) => match value.as_array() {
            Some(items) => {
                proof {
                    lemma_tools_inside(json@);
                }
                match decode_tools(items) {
                    Some(tools) => tools,
                    None => {
                        return None;
                    },
                }
            },
            None => {
                return None;
            },
        },
    };
    let tool = ResponseTool { tool_type, name, description, parameters, tools };
    proof {
        lemma_inner_view(tool);
        if inner is None {
            assert(definitions_view(tool.tools@) =~= Seq::<DefinitionView>::empty());
        }
    }
    Some(tool)
}

/// The tool that a function definition stands for, or what is wrong with it.
pub fn map_function_tool(tool: &ResponseTool, param: &str) -> (r: Result<Tool, RequestError>)
    ensures
        seen(r) == function_tool(tool@, param@),
{
    let name = match &tool.name {
        Some(name) if !name.as_str().is_empty() => name.clone(),
        _ => {
            return Err(
                RequestError::new("function tool name is required", join2(param, ".name").as_str()),
            );
        },
    };
    let input_schema = match &tool.parameters {
        Some(parameters) => match parameters.duplicate() {
            Json::Object(fields) => {
                proof {
                    crate::json::lemma_object_view(fields);
                }
                fields
            },
            _ => {
                return Err(
                    RequestError::new(
                        "function tool parameters must be a JSON object",
                        join2(param, ".parameters").as_str(),
                    ),
                );
            },
        },
        None => Fields::new().with("type", text("object")).with(
            "properties",
            Fields::new().into_object(),
        ),
    };
    let description = match &tool.description {
        Some(description) => description.clone(),
        None => String::new(),
    };
    Ok(Tool { tool_type: None, name, description, input_schema, max_uses: None })
}

/// The tools that are passed on to the backend: the functions, also those inside a
/// namespace; tools of other types are left out.
pub fn map_tools(tools: &Vec<ResponseTool>) -> (r: Result<Vec<Tool>, RequestError>)
    ensures
        match mapped_tools(definitions_view(tools@)) {
            Ok(mapped) => r matches Ok(found) && tools_view(found@) == mapped,
            Err(error) => r matches Err(found) && found@ == error,
        },
{
    let ghost all = definitions_view(tools@);
    let mut mapped: Vec<Tool> = Vec::new();
    assert(tools_view(mapped@) =~= Seq::<ToolView>::empty());
    for index in 0..tools.len()
        invariant
            all == definitions_view(tools@),
            all_ok(functions(all, index as nat)) == Ok::<Seq<ToolView>, ErrorView>(
                tools_view(mapped@),
            ),
    {
        let tool = &tools[index];
        let ghost done = functions(all, index as nat);
        proof {
            lemma_inner_view(*tool);
            lemma_front(all, (index + 1) as nat, all.len());
            assert(all[index as int] == tool@);
        }
        if same(tool.tool_type.as_str(), "function") {
            let next = map_function_tool(tool, place("tools[", index, "").as_str());
            proof {
                lemma_push(done, seen(next));
                assert(done + functions_of(tool@, index as nat) =~= done.push(seen(next)));
            }
            match next {
                Ok(found) => {
                    let ghost before = mapped@;
                    mapped.push(found);
                    assert(tools_view(mapped@) =~= tools_view(before).push(found@));
                },
                Err(error) => {
                    proof {
                        lemma_front_error(functions(all, (index + 1) as nat), functions(all, all.len()));
                    }
                    return Err(error);
                },
            }
        } else if same(tool.tool_type.as_str(), "namespace") {
            let ghost inner_all = tool@.tools;
            assert(done + inner_functions(inner_all, index as nat, 0) =~= done);
            for inner in 0..tool.tools.len()
                invariant
                    all == definitions_view(tools@),
                    index < tools@.len(),
                    all[index as int] == tool@,
                    tool.tool_type@ == "namespace"@,
                    tool.tool_type@ != "function"@,
                    inner_all == definitions_view(tool.tools@),
                    inner_all == tool@.tools,
                    done == functions(all, index as nat),
                    functions(all, (index + 1) as nat).is_prefix_of(functions(all, all.len())),
                    all_ok(done + inner_functions(inner_all, index as nat, inner as nat)) == Ok::<
                        Seq<ToolView>,
                        ErrorView,
                    >(tools_view(mapped@)),
            {
                let item = &tool.tools[inner];
                let ghost so_far = done + inner_functions(inner_all, index as nat, inner as nat);
                assert(inner_all[inner as int] == item@);
                if same(item.tool_type.as_str(), "function") {
                    let rest = place(".tools[", inner, "");
                    let next = map_function_tool(
                        item,
                        place("tools[", index, rest.as_str()).as_str(),
                    );
                    let ghost then = done + inner_functions(
                        inner_all,
                        index as nat,
                        (inner + 1) as nat,
                    );
                    proof {
                        lemma_push(so_far, seen(next));
                        assert(then =~= so_far.push(seen(next)));
                    }
                    match next {
                        Ok(found) => {
                            let ghost before = mapped@;
                            mapped.push(found);
                            assert(tools_view(mapped@) =~= tools_view(before).push(found@));
                        },
                        Err(error) => {
                            proof {
                                lemma_inner_front(
                                    inner_all,
                                    index as nat,
                                    (inner + 1) as nat,
                                    inner_all.len(),
                                );
                                assert(then.is_prefix_of(functions(all, (index + 1) as nat)));
                                lemma_front_error(then, functions(all, (index + 1) as nat));
                                lemma_front_error(
                                    functions(all, (index + 1) as nat),
                                    functions(all, all.len()),
                                );
                            }
                            return Err(error);
                        },
                    }
                }
            }
        } else {
            assert(done + functions_of(tool@, index as nat) =~= done);
        }
    }
    Ok(mapped)
}

/// An object whose only entry is a type.
fn of_type(kind: &str) -> (r: Fields)
    ensures
        r@ == typed(kind@),
{
    Fields::new().with("type", text(kind))
}

/// The choice among the tools as the backend takes it, or what is wrong with it.
pub fn map_tool_choice(choice: &Option<Json>, tools: &Vec<Tool>) -> (r: Result<
    Option<Json>,
    RequestError,
>)
    ensures
        match tool_choice(maybe_json(*choice), tools_view(tools@)) {
            Ok(chosen) => r matches Ok(found) && maybe_json(found) == chosen,
            Err(error) => r matches Err(found) && found@ == error,
        },
{
    let asked = match choice {
        Some(asked) => asked,
        None => {
            return Ok(None);
        },
    };
    if let Some(value) = asked.as_str() {
        if same(value, "auto") {
            return Ok(Some(of_type("auto").into_object()));
        }
        if same(value, "none") {
            return Ok(Some(of_type("none").into_object()));
        }
        if same(value, "required") {
            return Ok(Some(of_type("any").into_object()));
        }
    }
    if let Some(object) = asked.as_object() {
        let function = match object.get_text("type") {
            Some(kind) => same(kind, "function"),
            None => false,
        };
        if function {
            let name = match object.get_text("name") {
                Some(name) if !name.is_empty() => name,
                _ => {
                    return Err(
                        RequestError::new(
                            "tool_choice function name is required",
                            "tool_choice.name",
                        ),
                    );
                },
            };
            let ghost known = tools_view(tools@);
            for i in 0..tools.len()
                invariant
                    known == tools_view(tools@),
                    maybe_json(*choice) == Some(JsonView::Object(object@)),
                    as_text(lookup(object@, "type"@)) == Some("function"@),
                    as_text(lookup(object@, "name"@)) == Some(name@),
                    name@.len() > 0,
                    forall|j: int| 0 <= j < i ==> (#[trigger] known[j]).name != name@,
            {
                assert(known[i as int] == tools@[i as int]@);
                if same(tools[i].name.as_str(), name) {
                    assert(exists|j: int|
                        0 <= j < known.len() && (#[trigger] known[j]).name == name@);
                    return Ok(Some(of_type("tool").with("name", text(name)).into_object()));
                }
            }
            return Err(
                RequestError::new("tool_choice names an undefined function", "tool_choice.name"),
            );
        }
    }
    Err(RequestError::new("Invalid tool_choice", "tool_choice"))
}

} // verus!
