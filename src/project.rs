//! Project records, the GraphQL request that lists them, and the reading of
//! its response.
use vstd::prelude::*;
use crate::json::Json;

verus! {

/// Stands for a missing or non-string name or web URL.
pub const MISSING_TEXT: &'static str = "N/A";

/// Stands for a missing or non-string description.
pub const MISSING_DESCRIPTION: &'static str = "No description";

/// How many projects the query asks for, as the JSON number sent.
pub const PAGE_SIZE: &'static str = "100";

/// The GraphQL document sent to the server.
pub const PROJECTS_QUERY: &'static str = "
        query Projects($first: Int) {
            projects(first: $first) {
                nodes {
                    id
                    name
                    description
                    webUrl
                }
            }
        }
    ";

/// One project of the server, as shown to the user.
#[derive(Clone, Debug)]
pub struct Project {
    pub name: String,
    pub description: String,
    pub web_url: String,
}

impl View for Project {
    type V = (Seq<char>, Seq<char>, Seq<char>);

    open spec fn view(&self) -> (Seq<char>, Seq<char>, Seq<char>) {
        (self.name@, self.description@, self.web_url@)
    }
}

/// The text of `v` when it is a JSON string, else `default`.
pub open spec fn text_or(v: Option<Json>, default: Seq<char>) -> Seq<char> {
    match v {
        Some(Json::Str(s)) => s@,
        _ => default,
    }
}

/// The project that a node of the response describes: name, description and
/// web URL, each replaced by its placeholder when missing or not a string.
pub open spec fn project_of_node(node: Json) -> (Seq<char>, Seq<char>, Seq<char>) {
    (
        text_or(node.field("name"@), MISSING_TEXT@),
        text_or(node.field("description"@), MISSING_DESCRIPTION@),
        text_or(node.field("webUrl"@), MISSING_TEXT@),
    )
}

/// The array at `data.projects.nodes`, if the response has one there.
pub open spec fn nodes_at_path(response: Json) -> Option<Seq<Json>> {
    match response.field("data"@) {
        Some(data) => match data.field("projects"@) {
            Some(projects) => match projects.field("nodes"@) {
                Some(Json::Array(nodes)) => Some(nodes@),
                _ => None,
            },
            None => None,
        },
        None => None,
    }
}

/// The nodes of a response: those at `data.projects.nodes`, none when that
/// path is missing or does not hold an array.
pub open spec fn response_nodes(response: Json) -> Seq<Json> {
    match nodes_at_path(response) {
        Some(nodes) => nodes,
        None => Seq::empty(),
    }
}

/// The projects that a response lists, in the server's order.
pub open spec fn projects_of_response(response: Json) -> Seq<(Seq<char>, Seq<char>, Seq<char>)> {
    response_nodes(response).map_values(|n: Json| project_of_node(n))
}

/// A response whose `data.projects.nodes` is an array of N nodes lists
/// exactly N projects, the i-th read from the i-th node: each field is the
/// node's string when it has one, else `"N/A"` for the name and the web URL
/// and `"No description"` for the description.
pub proof fn lemma_projects_follow_nodes(response: Json, nodes: Seq<Json>)
    requires
        nodes_at_path(response) == Some(nodes),
    ensures
        projects_of_response(response).len() == nodes.len(),
        forall|i: int| 0 <= i < nodes.len() ==> {
            let p = #[trigger] projects_of_response(response)[i];
            &&& nodes[i].field("name"@) matches Some(Json::Str(s)) ==> p.0 == s@
            &&& !(nodes[i].field("name"@) matches Some(Json::Str(_))) ==> p.0 == "N/A"@
            &&& nodes[i].field("description"@) matches Some(Json::Str(s)) ==> p.1 == s@
            &&& !(nodes[i].field("description"@) matches Some(Json::Str(_))) ==> p.1 == "No description"@
            &&& nodes[i].field("webUrl"@) matches Some(Json::Str(s)) ==> p.2 == s@
            &&& !(nodes[i].field("webUrl"@) matches Some(Json::Str(_))) ==> p.2 == "N/A"@
        },
{
}

/// A response without an array at `data.projects.nodes` lists no project,
/// which is no error.
pub proof fn lemma_missing_nodes_list_nothing(response: Json)
    requires
        nodes_at_path(response) is None,
    ensures
        projects_of_response(response) =~= Seq::empty(),
{
}

/// The text of `v` when it is a JSON string, else `default`.
fn text_or_default(v: Option<&Json>, default: &str) -> (r: String)
    ensures
        v is None ==> r@ == default@,
        v is Some ==> r@ == text_or(Some(*v->0), default@),
{
    match v {
        Some(j) => match j.as_str() {
            Some(s) => s.to_owned(),
            None => default.to_owned(),
        },
        None => default.to_owned(),
    }
}

impl Project {
    /// Reads one node of the response.
    pub fn from_node(node: &Json) -> (r: Project)
        ensures
            r@ == project_of_node(*node),
    {
        let name = text_or_default(node.get("name"), MISSING_TEXT);
        let description = text_or_default(node.get("description"), MISSING_DESCRIPTION);
        let web_url = text_or_default(node.get("webUrl"), MISSING_TEXT);
        Project { name, description, web_url }
    }
}

/// Reads the projects out of a response of the GraphQL API, keeping the
/// server's order. A response without `data.projects.nodes` lists none.
pub fn parse_projects(response: &Json) -> (r: Vec<Project>)
    ensures
        r@.len() == projects_of_response(*response).len(),
        forall|i: int| 0 <= i < r@.len() ==> #[trigger] r@[i]@ == projects_of_response(*response)[i],
{
    let mut projects: Vec<Project> = Vec::new();
    let nodes_opt = match response.get("data") {
        Some(data) => match data.get("projects") {
            Some(p) => match p.get("nodes") {
                Some(n) => n.as_array(),
                None => None,
            },
            None => None,
        },
        None => None,
    };
    match nodes_opt {
        Some(nodes) => {
            assert(response_nodes(*response) == nodes@);
            let mut i: usize = 0;
            while i < nodes.len()
                invariant
                    i <= nodes@.len(),
                    response_nodes(*response) == nodes@,
                    projects@.len() == i,
                    forall|k: int| 0 <= k < i ==> #[trigger] projects@[k]@ == project_of_node(nodes@[k]),
                decreases nodes@.len() - i,
            {
                let p = Project::from_node(&nodes[i]);
                projects.push(p);
                i = i + 1;
            }
        },
        None => {
            assert(response_nodes(*response) == Seq::<Json>::empty());
        },
    }
    projects
}

/// Whether `body` is the request for the projects: the object
/// `{"query": PROJECTS_QUERY, "variables": {"first": PAGE_SIZE}}`.
pub open spec fn is_projects_request(body: Json) -> bool {
    match body {
        Json::Object(members) => {
            &&& members@.len() == 2
            &&& members@[0].0@ == "query"@
            &&& members@[0].1 matches Json::Str(q) && q@ == PROJECTS_QUERY@
            &&& members@[1].0@ == "variables"@
            &&& match members@[1].1 {
                Json::Object(vars) => {
                    &&& vars@.len() == 1
                    &&& vars@[0].0@ == "first"@
                    &&& vars@[0].1 matches Json::Number(n) && n@ == PAGE_SIZE@
                },
                _ => false,
            }
        },
        _ => false,
    }
}

/// The body of the request that lists the projects.
pub fn request_body() -> (r: Json)
    ensures
        is_projects_request(r),
{
    let vars = vec![("first".to_owned(), Json::Number(PAGE_SIZE.to_owned()))];
    let members = vec![
        ("query".to_owned(), Json::Str(PROJECTS_QUERY.to_owned())),
        ("variables".to_owned(), Json::Object(vars)),
    ];
    Json::Object(members)
}

/// The GraphQL endpoint of the server at `host`.
pub fn graphql_endpoint(host: &str) -> (r: String)
    ensures
        r@ == "https://"@ + host@ + "/api/graphql"@,
{
    let mut url = "https://".to_owned();
    url.append(host);
    url.append("/api/graphql");
    url
}

} // verus!
