//! The fixed catalog of tools that the server offers.

use vstd::prelude::*;
use crate::json::entry;
use crate::json::string_models;
use crate::json::Json;
use crate::json::JsonModel;
use crate::json::Member;
use crate::json::member_models;
use crate::json::item_models;
use crate::text::str_eq;
use crate::text::views;

verus! {

/// One named argument of a tool. Every argument is a string; `choices`, where
/// it is not empty, lists the values that the argument may take.
#[derive(Debug)]
pub struct ToolParameter {
    pub name: String,
    pub description: String,
    pub choices: Vec<String>,
}

/// What a [`ToolParameter`] stands for.
pub ghost struct ToolParameterModel {
    pub name: Seq<char>,
    pub description: Seq<char>,
    pub choices: Seq<Seq<char>>,
}

impl View for ToolParameter {
    type V = ToolParameterModel;

    open spec fn view(&self) -> ToolParameterModel {
        ToolParameterModel {
            name: self.name@,
            description: self.description@,
            choices: views(self.choices@),
        }
    }
}

/// The description of one tool: its unique name, what it does, its arguments
/// and the names of those that a call must give.
#[derive(Debug)]
pub struct ToolDescriptor {
    pub name: String,
    pub description: String,
    pub parameters: Vec<ToolParameter>,
    pub required: Vec<String>,
}

/// What a [`ToolDescriptor`] stands for.
pub ghost struct ToolDescriptorModel {
    pub name: Seq<char>,
    pub description: Seq<char>,
    pub parameters: Seq<ToolParameterModel>,
    pub required: Seq<Seq<char>>,
}

/// The models of `parameters`, one for one.
pub open spec fn parameter_models(parameters: Seq<ToolParameter>) -> Seq<ToolParameterModel> {
    Seq::new(parameters.len(), |i: int| parameters[i]@)
}

/// The models of `tools`, one for one.
pub open spec fn descriptor_models(tools: Seq<ToolDescriptor>) -> Seq<ToolDescriptorModel> {
    Seq::new(tools.len(), |i: int| tools[i]@)
}

impl View for ToolDescriptor {
    type V = ToolDescriptorModel;

    open spec fn view(&self) -> ToolDescriptorModel {
        ToolDescriptorModel {
            name: self.name@,
            description: self.description@,
            parameters: parameter_models(self.parameters@),
            required: views(self.required@),
        }
    }
}

/// An argument that may take any value.
pub open spec fn parameter(name: Seq<char>, description: Seq<char>) -> ToolParameterModel {
    ToolParameterModel { name, description, choices: Seq::empty() }
}

/// An argument that takes one of two values.
pub open spec fn choice(
    name: Seq<char>,
    description: Seq<char>,
    first: Seq<char>,
    second: Seq<char>,
) -> ToolParameterModel {
    ToolParameterModel { name, description, choices: seq![first, second] }
}

/// A tool.
pub open spec fn tool(
    name: Seq<char>,
    description: Seq<char>,
    parameters: Seq<ToolParameterModel>,
    required: Seq<Seq<char>>,
) -> ToolDescriptorModel {
    ToolDescriptorModel { name, description, parameters, required }
}

/// The catalog: every tool of the server, in the order in which it is listed.
pub open spec fn catalog() -> Seq<ToolDescriptorModel> {
    seq![
        tool(
            "read_changes"@,
            "Read extracted code changes from Git"@,
            seq![
                parameter("source"@, "Source identifier (commit hash, 'staged', or file path)"@),
            ],
            seq!["source"@],
        ),
        tool(
            "get_service_mapping"@,
            "Get documentation location for a service"@,
            seq![parameter("service"@, "Service name"@)],
            seq!["service"@],
        ),
        tool("list_services"@, "List all mapped services"@, seq![], seq![]),
        tool(
            "generate_documentation"@,
            "Generate documentation from code changes"@,
            seq![
                parameter("service"@, "Service name"@),
                parameter("changes"@, "JSON string of extracted changes"@),
                choice("format"@, "Output format (markdown, json)"@, "markdown"@, "json"@),
            ],
            seq!["service"@, "changes"@],
        ),
        tool(
            "update_documentation"@,
            "Update existing documentation"@,
            seq![
                parameter("service"@, "Service name"@),
                parameter("doc_path"@, "Path to documentation file"@),
                parameter("content"@, "Content to append/update"@),
            ],
            seq!["service"@, "doc_path"@, "content"@],
        ),
        tool(
            "search_services"@,
            "Search services by query with relevance scoring"@,
            seq![parameter("query"@, "Search query string"@)],
            seq!["query"@],
        ),
        tool(
            "search_by_feature"@,
            "Search services by specific feature or functionality"@,
            seq![parameter("feature"@, "Feature to search for"@)],
            seq!["feature"@],
        ),
        tool(
            "search_by_keyword"@,
            "Search services by keyword with flexible matching"@,
            seq![parameter("keyword"@, "Keyword to search for"@)],
            seq!["keyword"@],
        ),
        tool(
            "automated_documentation_workflow"@,
            "Automated workflow: extract changes → generate documentation → save to mapped location"@,
            seq![
                parameter("service"@, "Service name"@),
                parameter("source"@, "Source identifier (commit hash, 'staged', or file path)"@),
            ],
            seq!["service"@, "source"@],
        ),
        tool(
            "detect_service_name"@,
            "Detect service name from current directory with AI fallback"@,
            seq![],
            seq![],
        ),
        tool(
            "get_repository_info"@,
            "Get information about the current Git repository and directory"@,
            seq![],
            seq![],
        ),
    ]
}

/// Whether the catalog holds a tool of this name.
pub open spec fn is_registered(name: Seq<char>) -> bool {
    exists|i: int| 0 <= i < catalog().len() && #[trigger] catalog()[i].name == name
}

impl ToolParameter {
    /// An argument that may take any value.
    pub fn new(name: &str, description: &str) -> (p: ToolParameter)
        ensures
            p@ == parameter(name@, description@),
    {
        let p = ToolParameter {
            name: name.to_string(),
            description: description.to_string(),
            choices: Vec::new(),
        };
        proof {
            assert(p@.choices =~= Seq::empty());
        }
        p
    }

    /// An argument that takes one of two values.
    pub fn with_choices(name: &str, description: &str, first: &str, second: &str) -> (p:
        ToolParameter)
        ensures
            p@ == choice(name@, description@, first@, second@),
    {
        let mut choices: Vec<String> = Vec::new();
        choices.push(first.to_string());
        choices.push(second.to_string());
        let p = ToolParameter {
            name: name.to_string(),
            description: description.to_string(),
            choices,
        };
        proof {
            assert(p@.choices =~= seq![first@, second@]);
        }
        p
    }
}

impl ToolDescriptor {
    /// A tool without arguments.
    pub fn plain(name: &str, description: &str) -> (d: ToolDescriptor)
        ensures
            d@ == tool(name@, description@, seq![], seq![]),
    {
        let d = ToolDescriptor {
            name: name.to_string(),
            description: description.to_string(),
            parameters: Vec::new(),
            required: Vec::new(),
        };
        proof {
            assert(d@.parameters =~= seq![]);
            assert(d@.required =~= seq![]);
        }
        d
    }

    /// A tool whose arguments are `parameters`, of which the first `required`
    /// must be given in a call.
    pub fn with_parameters(
        name: &str,
        description: &str,
        parameters: Vec<ToolParameter>,
        required: usize,
    ) -> (d: ToolDescriptor)
        requires
            required <= parameters.len(),
        ensures
            d@ == tool(
                name@,
                description@,
                parameter_models(parameters@),
                Seq::new(required as nat, |i: int| parameters@[i].name@),
            ),
    {
        let mut names: Vec<String> = Vec::new();
        let mut i: usize = 0;
        while i < required
            invariant
                i <= required <= parameters.len(),
                names.len() == i,
                forall|k: int| 0 <= k < i ==> names@[k]@ == parameters@[k].name@,
            decreases required - i,
        {
            names.push(parameters[i].name.clone());
            i += 1;
        }
        let d = ToolDescriptor {
            name: name.to_string(),
            description: description.to_string(),
            parameters,
            required: names,
        };
        proof {
            assert(d@.required =~= Seq::new(required as nat, |i: int| parameters@[i].name@));
        }
        d
    }
}

/// The JSON schema of one argument.
pub open spec fn parameter_schema(p: ToolParameterModel) -> JsonModel {
    if p.choices.len() == 0 {
        JsonModel::Object(
            seq![
                entry("type"@, JsonModel::String("string"@)),
                entry("description"@, JsonModel::String(p.description)),
            ],
        )
    } else {
        JsonModel::Object(
            seq![
                entry("type"@, JsonModel::String("string"@)),
                entry("description"@, JsonModel::String(p.description)),
                entry("enum"@, JsonModel::Array(string_models(p.choices))),
            ],
        )
    }
}

/// The object that holds the schema of each argument under the argument's
/// name.
pub open spec fn properties(parameters: Seq<ToolParameterModel>) -> JsonModel {
    JsonModel::Object(
        Seq::new(
            parameters.len(),
            |i: int| entry(parameters[i].name, parameter_schema(parameters[i])),
        ),
    )
}

/// The JSON schema of a tool's arguments. The member `required` is there
/// only where the tool requires an argument.
pub open spec fn input_schema(d: ToolDescriptorModel) -> JsonModel {
    if d.required.len() == 0 {
        JsonModel::Object(
            seq![
                entry("type"@, JsonModel::String("object"@)),
                entry("properties"@, properties(d.parameters)),
            ],
        )
    } else {
        JsonModel::Object(
            seq![
                entry("type"@, JsonModel::String("object"@)),
                entry("properties"@, properties(d.parameters)),
                entry("required"@, JsonModel::Array(string_models(d.required))),
            ],
        )
    }
}

/// The document that lists one tool: its name, its description and the
/// schema of its arguments.
pub open spec fn descriptor_document(d: ToolDescriptorModel) -> JsonModel {
    JsonModel::Object(
        seq![
            entry("name"@, JsonModel::String(d.name)),
            entry("description"@, JsonModel::String(d.description)),
            entry("inputSchema"@, input_schema(d)),
        ],
    )
}

/// The documents of `tools`, one for one.
pub open spec fn descriptor_documents(tools: Seq<ToolDescriptorModel>) -> Seq<JsonModel> {
    Seq::new(tools.len(), |i: int| descriptor_document(tools[i]))
}

/// The result of listing `tools`: an object whose one member `tools` holds
/// the document of each tool, in order.
pub open spec fn tools_document(tools: Seq<ToolDescriptorModel>) -> JsonModel {
    JsonModel::Object(seq![entry("tools"@, JsonModel::Array(descriptor_documents(tools)))])
}

impl ToolParameter {
    /// The JSON schema of this argument.
    pub fn schema(&self) -> (doc: Json)
        ensures
            doc@ == parameter_schema(self@),
    {
        let kind = Member::new("type", Json::string("string"));
        let description = Member::new("description", Json::string(self.description.as_str()));
        if self.choices.len() == 0 {
            Json::object2(kind, description)
        } else {
            Json::object3(kind, description, Member::new("enum", Json::strings(&self.choices)))
        }
    }
}

impl ToolDescriptor {
    /// The JSON schema of this tool's arguments.
    pub fn input_schema(&self) -> (doc: Json)
        ensures
            doc@ == input_schema(self@),
    {
        let mut members: Vec<Member> = Vec::new();
        let mut i: usize = 0;
        while i < self.parameters.len()
            invariant
                i <= self.parameters.len(),
                members.len() == i,
                forall|k: int|
                    0 <= k < i ==> members@[k]@ == entry(
                        self.parameters@[k].name@,
                        parameter_schema(self.parameters@[k]@),
                    ),
            decreases self.parameters.len() - i,
        {
            members.push(
                Member::new(self.parameters[i].name.as_str(), self.parameters[i].schema()),
            );
            i += 1;
        }
        let schemas = Json::object(members);
        proof {
            assert(member_models(members@) =~= properties(self@.parameters)->Object_0);
        }
        let kind = Member::new("type", Json::string("object"));
        let schemas = Member::new("properties", schemas);
        if self.required.len() == 0 {
            Json::object2(kind, schemas)
        } else {
            Json::object3(kind, schemas, Member::new("required", Json::strings(&self.required)))
        }
    }

    /// The document that lists this tool.
    pub fn to_json(&self) -> (doc: Json)
        ensures
            doc@ == descriptor_document(self@),
    {
        Json::object3(
            Member::new("name", Json::string(self.name.as_str())),
            Member::new("description", Json::string(self.description.as_str())),
            Member::new("inputSchema", self.input_schema()),
        )
    }
}

/// The result of listing `list`.
pub fn tools_result(list: &Vec<ToolDescriptor>) -> (doc: Json)
    ensures
        doc@ == tools_document(descriptor_models(list@)),
{
    let mut items: Vec<Json> = Vec::new();
    let mut i: usize = 0;
    while i < list.len()
        invariant
            i <= list.len(),
            items.len() == i,
            forall|k: int| 0 <= k < i ==> items@[k]@ == descriptor_document(list@[k]@),
        decreases list.len() - i,
    {
        items.push(list[i].to_json());
        i += 1;
    }
    let array = Json::array(items);
    proof {
        assert(item_models(items@) =~= descriptor_documents(descriptor_models(list@)));
    }
    Json::object1(Member::new("tools", array))
}

/// Whether `list`, which is the catalog, holds a tool of this name.
pub fn has_tool(list: &Vec<ToolDescriptor>, name: &str) -> (found: bool)
    requires
        descriptor_models(list@) == catalog(),
    ensures
        found == is_registered(name@),
{
    let mut i: usize = 0;
    while i < list.len()
        invariant
            i <= list.len(),
            descriptor_models(list@) == catalog(),
            forall|k: int| 0 <= k < i ==> catalog()[k].name != name@,
        decreases list.len() - i,
    {
        proof {
            assert(descriptor_models(list@)[i as int] == list@[i as int]@);
        }
        if str_eq(list[i].name.as_str(), name) {
            proof {
                assert(catalog().len() == list.len());
                assert(catalog()[i as int].name == name@);
            }
            return true;
        }
        i += 1;
    }
    false
}

/// The catalog as a list of descriptors.
pub fn tools() -> (list: Vec<ToolDescriptor>)
    ensures
        descriptor_models(list@) == catalog(),
        list.len() == 11,
{
    let source = "Source identifier (commit hash, 'staged', or file path)";
    let mut list: Vec<ToolDescriptor> = Vec::new();

    let mut parameters: Vec<ToolParameter> = Vec::new();
    parameters.push(ToolParameter::new("source", source));
    let read_changes = ToolDescriptor::with_parameters(
        "read_changes",
        "Read extracted code changes from Git",
        parameters,
        1,
    );
    assert(read_changes@ == catalog()[0]) by {
        assert(read_changes@.parameters =~= catalog()[0].parameters);
        assert(read_changes@.required =~= catalog()[0].required);
    }
    list.push(read_changes);

    let mut parameters: Vec<ToolParameter> = Vec::new();
    parameters.push(ToolParameter::new("service", "Service name"));
    let get_service_mapping = ToolDescriptor::with_parameters(
        "get_service_mapping",
        "Get documentation location for a service",
        parameters,
        1,
    );
    assert(get_service_mapping@ == catalog()[1]) by {
        assert(get_service_mapping@.parameters =~= catalog()[1].parameters);
        assert(get_service_mapping@.required =~= catalog()[1].required);
    }
    list.push(get_service_mapping);

    list.push(ToolDescriptor::plain("list_services", "List all mapped services"));

    let mut parameters: Vec<ToolParameter> = Vec::new();
    parameters.push(ToolParameter::new("service", "Service name"));
    parameters.push(ToolParameter::new("changes", "JSON string of extracted changes"));
    parameters.push(
        ToolParameter::with_choices(
            "format",
            "Output format (markdown, json)",
            "markdown",
            "json",
        ),
    );
    let generate_documentation = ToolDescriptor::with_parameters(
        "generate_documentation",
        "Generate documentation from code changes",
        parameters,
        2,
    );
    assert(generate_documentation@ == catalog()[3]) by {
        assert(generate_documentation@.parameters =~= catalog()[3].parameters);
        assert(generate_documentation@.required =~= catalog()[3].required);
    }
    list.push(generate_documentation);

    let mut parameters: Vec<ToolParameter> = Vec::new();
    parameters.push(ToolParameter::new("service", "Service name"));
    parameters.push(ToolParameter::new("doc_path", "Path to documentation file"));
    parameters.push(ToolParameter::new("content", "Content to append/update"));
    let update_documentation = ToolDescriptor::with_parameters(
        "update_documentation",
        "Update existing documentation",
        parameters,
        3,
    );
    assert(update_documentation@ == catalog()[4]) by {
        assert(update_documentation@.parameters =~= catalog()[4].parameters);
        assert(update_documentation@.required =~= catalog()[4].required);
    }
    list.push(update_documentation);

    let mut parameters: Vec<ToolParameter> = Vec::new();
    parameters.push(ToolParameter::new("query", "Search query string"));
    let search_services = ToolDescriptor::with_parameters(
        "search_services",
        "Search services by query with relevance scoring",
        parameters,
        1,
    );
    assert(search_services@ == catalog()[5]) by {
        assert(search_services@.parameters =~= catalog()[5].parameters);
        assert(search_services@.required =~= catalog()[5].required);
    }
    list.push(search_services);

    let mut parameters: Vec<ToolParameter> = Vec::new();
    parameters.push(ToolParameter::new("feature", "Feature to search for"));
    let search_by_feature = ToolDescriptor::with_parameters(
        "search_by_feature",
        "Search services by specific feature or functionality",
        parameters,
        1,
    );
    assert(search_by_feature@ == catalog()[6]) by {
        assert(search_by_feature@.parameters =~= catalog()[6].parameters);
        assert(search_by_feature@.required =~= catalog()[6].required);
    }
    list.push(search_by_feature);

    let mut parameters: Vec<ToolParameter> = Vec::new();
    parameters.push(ToolParameter::new("keyword", "Keyword to search for"));
    let search_by_keyword = ToolDescriptor::with_parameters(
        "search_by_keyword",
        "Search services by keyword with flexible matching",
        parameters,
        1,
    );
    assert(search_by_keyword@ == catalog()[7]) by {
        assert(search_by_keyword@.parameters =~= catalog()[7].parameters);
        assert(search_by_keyword@.required =~= catalog()[7].required);
    }
    list.push(search_by_keyword);

    let mut parameters: Vec<ToolParameter> = Vec::new();
    parameters.push(ToolParameter::new("service", "Service name"));
    parameters.push(ToolParameter::new("source", source));
    let workflow = ToolDescriptor::with_parameters(
        "automated_documentation_workflow",
        "Automated workflow: extract changes → generate documentation → save to mapped location",
        parameters,
        2,
    );
    assert(workflow@ == catalog()[8]) by {
        assert(workflow@.parameters =~= catalog()[8].parameters);
        assert(workflow@.required =~= catalog()[8].required);
    }
    list.push(workflow);

    list.push(
        ToolDescriptor::plain(
            "detect_service_name",
            "Detect service name from current directory with AI fallback",
        ),
    );
    list.push(
        ToolDescriptor::plain(
            "get_repository_info",
            "Get information about the current Git repository and directory",
        ),
    );
    proof {
        assert(descriptor_models(list@) =~= catalog());
    }
    list
}

/// No two tools of the catalog have one name.
pub proof fn lemma_tool_names_differ()
    ensures
        catalog().len() == 11,
        forall|i: int, j: int|
            0 <= i < j < catalog().len() ==> (#[trigger] catalog()[i]).name != (
            #[trigger] catalog()[j]).name,
{
    reveal_strlit("read_changes");
    reveal_strlit("get_service_mapping");
    reveal_strlit("list_services");
    reveal_strlit("generate_documentation");
    reveal_strlit("update_documentation");
    reveal_strlit("search_services");
    reveal_strlit("search_by_feature");
    reveal_strlit("search_by_keyword");
    reveal_strlit("automated_documentation_workflow");
    reveal_strlit("detect_service_name");
    reveal_strlit("get_repository_info");
    assert("read_changes"@.len() == 12);
    assert("get_service_mapping"@.len() == 19);
    assert("list_services"@.len() == 13);
    assert("generate_documentation"@.len() == 22);
    assert("update_documentation"@.len() == 20);
    assert("search_services"@.len() == 15);
    assert("search_by_feature"@.len() == 17);
    assert("search_by_keyword"@.len() == 17);
    assert("automated_documentation_workflow"@.len() == 32);
    assert("detect_service_name"@.len() == 19);
    assert("get_repository_info"@.len() == 19);
    assert("get_service_mapping"@[0] == 'g');
    assert("detect_service_name"@[0] == 'd');
    assert("get_repository_info"@[0] == 'g');
    assert("get_service_mapping"@[4] == 's');
    assert("get_repository_info"@[4] == 'r');
    assert("search_by_feature"@[10] == 'f');
    assert("search_by_keyword"@[10] == 'k');
    assert forall|i: int, j: int| 0 <= i < j < catalog().len() implies (#[trigger] catalog()[i]).name
        != (#[trigger] catalog()[j]).name by {
        assert(catalog()[i].name.len() != catalog()[j].name.len() || catalog()[i].name[0]
            != catalog()[j].name[0] || catalog()[i].name[4] != catalog()[j].name[4]
            || catalog()[i].name[10] != catalog()[j].name[10]);
    }
}

/// A name is registered exactly where it is the name of one of the eleven
/// tools.
pub proof fn lemma_registered_names(name: Seq<char>)
    ensures
        is_registered(name) <==> (name == "read_changes"@ || name == "get_service_mapping"@ || name == "list_services"@ || name == "generate_documentation"@ || name == "update_documentation"@ || name == "search_services"@ || name == "search_by_feature"@ || name == "search_by_keyword"@ || name == "automated_documentation_workflow"@ || name == "detect_service_name"@ || name == "get_repository_info"@),
{
    if is_registered(name) {
        let i = choose|i: int| 0 <= i < catalog().len() && #[trigger] catalog()[i].name == name;
        assert(catalog()[i].name == name);
    }
    if name == "read_changes"@ {
        assert(catalog()[0].name == name);
    }
    if name == "get_service_mapping"@ {
        assert(catalog()[1].name == name);
    }
    if name == "list_services"@ {
        assert(catalog()[2].name == name);
    }
    if name == "generate_documentation"@ {
        assert(catalog()[3].name == name);
    }
    if name == "update_documentation"@ {
        assert(catalog()[4].name == name);
    }
    if name == "search_services"@ {
        assert(catalog()[5].name == name);
    }
    if name == "search_by_feature"@ {
        assert(catalog()[6].name == name);
    }
    if name == "search_by_keyword"@ {
        assert(catalog()[7].name == name);
    }
    if name == "automated_documentation_workflow"@ {
        assert(catalog()[8].name == name);
    }
    if name == "detect_service_name"@ {
        assert(catalog()[9].name == name);
    }
    if name == "get_repository_info"@ {
        assert(catalog()[10].name == name);
    }
}

} // verus!
