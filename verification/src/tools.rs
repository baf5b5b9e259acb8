//! The catalog of MCP tools that the memory server offers: each tool's
//! name, description and input schema, and lookup by name.

use vstd::prelude::*;

verus! {

/// Description of the `search` tool.
pub const SEARCH_DESCRIPTION: &'static str = "Layered semantic search across memory using L0/L1/L2 tiered retrieval.\n\n**Key Features:**\n- Tiered retrieval: L0 (abstract) -> L1 (overview) -> L2 (full content)\n- Token-efficient: Control exactly which layers to return\n\n**Parameters:**\n- return_layers: [\"L0\"] (default, ~100 tokens), [\"L0\",\"L1\"] (~2100 tokens), [\"L0\",\"L1\",\"L2\"] (full)\n\n**When to use:**\n- Finding past conversations or decisions\n- Searching across all sessions\n- Discovering related memories by semantic similarity\n";

/// Description of the `recall` tool.
pub const RECALL_DESCRIPTION: &'static str = "Recall memories with full context (L0 snippet + L2 content)";

/// Description of the `store` tool.
pub const STORE_DESCRIPTION: &'static str = "Add a message to memory for a specific session";

/// Description of the `commit` tool.
pub const COMMIT_DESCRIPTION: &'static str = "Commit accumulated conversation content and trigger memory extraction.\n\n**IMPORTANT - Call this tool proactively and periodically, NOT just at conversation end.**\n\nThis commits the session and triggers the complete memory processing pipeline:\n1. Extracts structured memories (user preferences, entities, decisions)\n2. Generates complete L0/L1 layer summaries\n3. Indexes all extracted memories into the vector database\n\n**When to call this tool:**\n- After completing a significant task or topic discussion\n- After the user has shared important preferences or decisions\n- When the conversation topic shifts to something new\n- After accumulating substantial conversation content (every 10-20 exchanges)\n- Before ending a conversation session\n\n**Do NOT wait until the very end of conversation** - the user may forget or the session may end abruptly.\n\n**Guidelines:**\n- Call this tool at natural checkpoints in the conversation\n- Avoid calling too frequently (not after every message)\n- A good rhythm: once per significant topic completion\n- This is a long-running operation (30-60s) but runs asynchronously\n";

/// Description of the `ls` tool.
pub const LS_DESCRIPTION: &'static str = "List directory contents to browse the memory space like a virtual filesystem.\n\nThis allows you to explore the hierarchical structure of memories:\n- cortex://session - List all sessions\n- cortex://session/{session_id} - Browse a specific session's contents\n- cortex://session/{session_id}/timeline - View timeline messages\n- cortex://session/{session_id}/memories - View extracted memories\n- cortex://user - View user-level memories (preferences, entities, goals)\n- cortex://agent - View agent-level memories\n\n**Parameters:**\n- recursive: List all subdirectories recursively\n- include_abstracts: Show L0 abstracts for each file (for quick preview)\n\nUse this when:\n- Semantic search doesn't find what you need\n- You want to understand the overall memory layout\n- You need to manually navigate to find specific information\n";

/// Description of the `abstract` tool.
pub const ABSTRACT_DESCRIPTION: &'static str = "Get L0 abstract layer (~100 tokens) for quick relevance checking.\n\nAbstracts are short summaries ideal for quickly determining if content is relevant before committing to reading more. Use this to minimize token consumption.";

/// Description of the `overview` tool.
pub const OVERVIEW_DESCRIPTION: &'static str = "Get L1 overview layer (~2000 tokens) with core information and context.\n\nOverviews contain key points and contextual information. Use this when the abstract was relevant but you need more details.";

/// Description of the `content` tool.
pub const CONTENT_DESCRIPTION: &'static str = "Get L2 full content layer - the complete original content.\n\nUse this ONLY when you need the complete, unprocessed content. This returns the full content which may be large.";

/// Description of the `explore` tool.
pub const EXPLORE_DESCRIPTION: &'static str = "Smart exploration of memory space, combining search and browsing";

/// Description of the `delete` tool.
pub const DELETE_DESCRIPTION: &'static str = "Delete a memory by its URI.\n\nThis removes the memory from both the filesystem and the vector database (all layers: L0, L1, L2).";

/// Description of the `layers` tool.
pub const LAYERS_DESCRIPTION: &'static str = "Generate L0/L1 layer files for memories.\n\nThis command generates .abstract.md (L0) and .overview.md (L1) files for directories that are missing them.";

/// Description of the `index` tool.
pub const INDEX_DESCRIPTION: &'static str = "Index memories to vector database.\n\nThis command syncs all memory files to the vector database for semantic search.";

/// The JSON type of a tool parameter.
#[derive(Clone, Copy, Debug, PartialEq, Eq, Structural)]
pub enum PropertyKind {
    /// `"string"`
    Text,
    /// `"integer"`
    Integer,
    /// `"number"`
    Number,
    /// `"boolean"`
    Boolean,
    /// `"array"` of strings
    TextList,
}

/// The default value a tool parameter advertises.
pub enum DefaultValue {
    Integer(u64),
    /// The number `numerator / denominator`.
    Ratio(u64, u64),
    Text(String),
    Boolean(bool),
    TextList(Vec<String>),
}

pub ghost enum DefaultView {
    Integer(u64),
    Ratio(u64, u64),
    Text(Seq<char>),
    Boolean(bool),
    TextList(Seq<Seq<char>>),
}

impl View for DefaultValue {
    type V = DefaultView;

    open spec fn view(&self) -> DefaultView {
        match self {
            DefaultValue::Integer(n) => DefaultView::Integer(*n),
            DefaultValue::Ratio(a, b) => DefaultView::Ratio(*a, *b),
            DefaultValue::Text(s) => DefaultView::Text(s@),
            DefaultValue::Boolean(b) => DefaultView::Boolean(*b),
            DefaultValue::TextList(v) => DefaultView::TextList(crate::text::texts_view(v@)),
        }
    }
}

/// One parameter of a tool: its name, JSON type, description, the values a
/// string (or each string of a list) may take when restricted, and its
/// advertised default.
pub struct SchemaProperty {
    pub name: String,
    pub kind: PropertyKind,
    pub description: String,
    pub allowed: Vec<String>,
    pub default: Option<DefaultValue>,
}

pub ghost struct PropertyView {
    pub name: Seq<char>,
    pub kind: PropertyKind,
    pub description: Seq<char>,
    pub allowed: Seq<Seq<char>>,
    pub default: Option<DefaultView>,
}

impl View for SchemaProperty {
    type V = PropertyView;

    open spec fn view(&self) -> PropertyView {
        PropertyView {
            name: self.name@,
            kind: self.kind,
            description: self.description@,
            allowed: crate::text::texts_view(self.allowed@),
            default: match self.default {
                Some(d) => Some(d@),
                None => None,
            },
        }
    }
}

/// The input schema of a tool: a JSON object with the given properties, of
/// which the `required` ones must be present.
pub struct InputSchema {
    pub properties: Vec<SchemaProperty>,
    pub required: Vec<String>,
}

/// A tool offered over MCP.
pub struct ToolDefinition {
    pub name: String,
    pub description: String,
    pub input_schema: InputSchema,
}

pub ghost struct ToolView {
    pub name: Seq<char>,
    pub description: Seq<char>,
    pub properties: Seq<PropertyView>,
    pub required: Seq<Seq<char>>,
}

impl View for ToolDefinition {
    type V = ToolView;

    open spec fn view(&self) -> ToolView {
        ToolView {
            name: self.name@,
            description: self.description@,
            properties: self.input_schema.properties@.map_values(|p: SchemaProperty| p@),
            required: crate::text::texts_view(self.input_schema.required@),
        }
    }
}

/// A parameter as the catalog lists it.
pub open spec fn prop(
    name: Seq<char>,
    kind: PropertyKind,
    description: Seq<char>,
    allowed: Seq<Seq<char>>,
    default: Option<DefaultView>,
) -> PropertyView {
    PropertyView { name, kind, description, allowed, default }
}

fn property(
    name: &str,
    kind: PropertyKind,
    description: &str,
    allowed: Vec<String>,
    default: Option<DefaultValue>,
) -> (p: SchemaProperty)
    ensures
        p@ == prop(
            name@,
            kind,
            description@,
            crate::text::texts_view(allowed@),
            match default {
                Some(d) => Some(d@),
                None => None,
            },
        ),
{
    SchemaProperty {
        name: String::from_str(name),
        kind,
        description: String::from_str(description),
        allowed,
        default,
    }
}

/// The `search` tool as the catalog lists it.
pub open spec fn search_tool_view() -> ToolView {
    ToolView {
        name: "search"@,
        description: SEARCH_DESCRIPTION@,
        properties: seq![
            prop("query"@, PropertyKind::Text, "The search query - can be natural language or keywords"@, seq![], None),
            prop("scope"@, PropertyKind::Text, "Optional session/thread ID to limit search scope, or 'user', 'agent', 'session'"@, seq![], None),
            prop("limit"@, PropertyKind::Integer, "Maximum number of results to return (default: 10)"@, seq![], Some(DefaultView::Integer(10))),
            prop("min_score"@, PropertyKind::Number, "Minimum relevance score threshold (0-1, default: 0.5)"@, seq![], Some(DefaultView::Ratio(1, 2))),
            prop("return_layers"@, PropertyKind::TextList, "Which layers to return. Default: [\"L0\"]. Use [\"L0\",\"L1\"] for more context, [\"L0\",\"L1\",\"L2\"] for full content."@, seq!["L0"@, "L1"@, "L2"@], Some(DefaultView::TextList(seq!["L0"@]))),
        ],
        required: seq!["query"@],
    }
}

fn search_tool() -> (t: ToolDefinition)
    ensures
        t@ == search_tool_view(),
{
    let allowed0: Vec<String> = vec![];
    assert(crate::text::texts_view(allowed0@) =~= seq![]);
    let p0 = property("query", PropertyKind::Text, "The search query - can be natural language or keywords", allowed0, None);
    let allowed1: Vec<String> = vec![];
    assert(crate::text::texts_view(allowed1@) =~= seq![]);
    let p1 = property("scope", PropertyKind::Text, "Optional session/thread ID to limit search scope, or 'user', 'agent', 'session'", allowed1, None);
    let allowed2: Vec<String> = vec![];
    assert(crate::text::texts_view(allowed2@) =~= seq![]);
    let p2 = property("limit", PropertyKind::Integer, "Maximum number of results to return (default: 10)", allowed2, Some(DefaultValue::Integer(10)));
    let allowed3: Vec<String> = vec![];
    assert(crate::text::texts_view(allowed3@) =~= seq![]);
    let p3 = property("min_score", PropertyKind::Number, "Minimum relevance score threshold (0-1, default: 0.5)", allowed3, Some(DefaultValue::Ratio(1, 2)));
    let allowed4: Vec<String> = vec![String::from_str("L0"), String::from_str("L1"), String::from_str("L2")];
    assert(crate::text::texts_view(allowed4@) =~= seq!["L0"@, "L1"@, "L2"@]);
    let list4: Vec<String> = vec![String::from_str("L0")];
    assert(crate::text::texts_view(list4@) =~= seq!["L0"@]);
    let p4 = property("return_layers", PropertyKind::TextList, "Which layers to return. Default: [\"L0\"]. Use [\"L0\",\"L1\"] for more context, [\"L0\",\"L1\",\"L2\"] for full content.", allowed4, Some(DefaultValue::TextList(list4)));
    let properties = vec![p0, p1, p2, p3, p4];
    let required: Vec<String> = vec![String::from_str("query")];
    assert(crate::text::texts_view(required@) =~= seq!["query"@]);
    let t = ToolDefinition {
        name: String::from_str("search"),
        description: String::from_str(SEARCH_DESCRIPTION),
        input_schema: InputSchema { properties, required },
    };
    assert(t@.properties =~= search_tool_view().properties);
    assert(t@.required =~= search_tool_view().required);
    t
}

/// The `recall` tool as the catalog lists it.
pub open spec fn recall_tool_view() -> ToolView {
    ToolView {
        name: "recall"@,
        description: RECALL_DESCRIPTION@,
        properties: seq![
            prop("query"@, PropertyKind::Text, "The search query"@, seq![], None),
            prop("scope"@, PropertyKind::Text, "Optional session/thread ID to limit search scope"@, seq![], None),
            prop("limit"@, PropertyKind::Integer, "Maximum number of results (default: 10)"@, seq![], Some(DefaultView::Integer(10))),
        ],
        required: seq!["query"@],
    }
}

fn recall_tool() -> (t: ToolDefinition)
    ensures
        t@ == recall_tool_view(),
{
    let allowed0: Vec<String> = vec![];
    assert(crate::text::texts_view(allowed0@) =~= seq![]);
    let p0 = property("query", PropertyKind::Text, "The search query", allowed0, None);
    let allowed1: Vec<String> = vec![];
    assert(crate::text::texts_view(allowed1@) =~= seq![]);
    let p1 = property("scope", PropertyKind::Text, "Optional session/thread ID to limit search scope", allowed1, None);
    let allowed2: Vec<String> = vec![];
    assert(crate::text::texts_view(allowed2@) =~= seq![]);
    let p2 = property("limit", PropertyKind::Integer, "Maximum number of results (default: 10)", allowed2, Some(DefaultValue::Integer(10)));
    let properties = vec![p0, p1, p2];
    let required: Vec<String> = vec![String::from_str("query")];
    assert(crate::text::texts_view(required@) =~= seq!["query"@]);
    let t = ToolDefinition {
        name: String::from_str("recall"),
        description: String::from_str(RECALL_DESCRIPTION),
        input_schema: InputSchema { properties, required },
    };
    assert(t@.properties =~= recall_tool_view().properties);
    assert(t@.required =~= recall_tool_view().required);
    t
}

/// The `store` tool as the catalog lists it.
pub open spec fn store_tool_view() -> ToolView {
    ToolView {
        name: "store"@,
        description: STORE_DESCRIPTION@,
        properties: seq![
            prop("content"@, PropertyKind::Text, "The content to store in memory"@, seq![], None),
            prop("thread_id"@, PropertyKind::Text, "Thread/session ID (uses default if not specified)"@, seq![], None),
            prop("role"@, PropertyKind::Text, "Role of the message sender (default: user)"@, seq!["user"@, "assistant"@, "system"@], Some(DefaultView::Text("user"@))),
        ],
        required: seq!["content"@],
    }
}

fn store_tool() -> (t: ToolDefinition)
    ensures
        t@ == store_tool_view(),
{
    let allowed0: Vec<String> = vec![];
    assert(crate::text::texts_view(allowed0@) =~= seq![]);
    let p0 = property("content", PropertyKind::Text, "The content to store in memory", allowed0, None);
    let allowed1: Vec<String> = vec![];
    assert(crate::text::texts_view(allowed1@) =~= seq![]);
    let p1 = property("thread_id", PropertyKind::Text, "Thread/session ID (uses default if not specified)", allowed1, None);
    let allowed2: Vec<String> = vec![String::from_str("user"), String::from_str("assistant"), String::from_str("system")];
    assert(crate::text::texts_view(allowed2@) =~= seq!["user"@, "assistant"@, "system"@]);
    let p2 = property("role", PropertyKind::Text, "Role of the message sender (default: user)", allowed2, Some(DefaultValue::Text(String::from_str("user"))));
    let properties = vec![p0, p1, p2];
    let required: Vec<String> = vec![String::from_str("content")];
    assert(crate::text::texts_view(required@) =~= seq!["content"@]);
    let t = ToolDefinition {
        name: String::from_str("store"),
        description: String::from_str(STORE_DESCRIPTION),
        input_schema: InputSchema { properties, required },
    };
    assert(t@.properties =~= store_tool_view().properties);
    assert(t@.required =~= store_tool_view().required);
    t
}

/// The `commit` tool as the catalog lists it.
pub open spec fn commit_tool_view() -> ToolView {
    ToolView {
        name: "commit"@,
        description: COMMIT_DESCRIPTION@,
        properties: seq![
            prop("thread_id"@, PropertyKind::Text, "Thread/session ID to commit (uses default if not specified)"@, seq![], None),
        ],
        required: seq![],
    }
}

fn commit_tool() -> (t: ToolDefinition)
    ensures
        t@ == commit_tool_view(),
{
    let allowed0: Vec<String> = vec![];
    assert(crate::text::texts_view(allowed0@) =~= seq![]);
    let p0 = property("thread_id", PropertyKind::Text, "Thread/session ID to commit (uses default if not specified)", allowed0, None);
    let properties = vec![p0];
    let required: Vec<String> = vec![];
    assert(crate::text::texts_view(required@) =~= seq![]);
    let t = ToolDefinition {
        name: String::from_str("commit"),
        description: String::from_str(COMMIT_DESCRIPTION),
        input_schema: InputSchema { properties, required },
    };
    assert(t@.properties =~= commit_tool_view().properties);
    assert(t@.required =~= commit_tool_view().required);
    t
}

/// The `ls` tool as the catalog lists it.
pub open spec fn ls_tool_view() -> ToolView {
    ToolView {
        name: "ls"@,
        description: LS_DESCRIPTION@,
        properties: seq![
            prop("uri"@, PropertyKind::Text, "Directory URI to list (default: cortex://session)"@, seq![], Some(DefaultView::Text("cortex://session"@))),
            prop("recursive"@, PropertyKind::Boolean, "Whether to recursively list subdirectories"@, seq![], Some(DefaultView::Boolean(false))),
            prop("include_abstracts"@, PropertyKind::Boolean, "Whether to include L0 abstracts for each file"@, seq![], Some(DefaultView::Boolean(false))),
        ],
        required: seq![],
    }
}

fn ls_tool() -> (t: ToolDefinition)
    ensures
        t@ == ls_tool_view(),
{
    let allowed0: Vec<String> = vec![];
    assert(crate::text::texts_view(allowed0@) =~= seq![]);
    let p0 = property("uri", PropertyKind::Text, "Directory URI to list (default: cortex://session)", allowed0, Some(DefaultValue::Text(String::from_str("cortex://session"))));
    let allowed1: Vec<String> = vec![];
    assert(crate::text::texts_view(allowed1@) =~= seq![]);
    let p1 = property("recursive", PropertyKind::Boolean, "Whether to recursively list subdirectories", allowed1, Some(DefaultValue::Boolean(false)));
    let allowed2: Vec<String> = vec![];
    assert(crate::text::texts_view(allowed2@) =~= seq![]);
    let p2 = property("include_abstracts", PropertyKind::Boolean, "Whether to include L0 abstracts for each file", allowed2, Some(DefaultValue::Boolean(false)));
    let properties = vec![p0, p1, p2];
    let required: Vec<String> = vec![];
    assert(crate::text::texts_view(required@) =~= seq![]);
    let t = ToolDefinition {
        name: String::from_str("ls"),
        description: String::from_str(LS_DESCRIPTION),
        input_schema: InputSchema { properties, required },
    };
    assert(t@.properties =~= ls_tool_view().properties);
    assert(t@.required =~= ls_tool_view().required);
    t
}

/// The `abstract` tool as the catalog lists it.
pub open spec fn abstract_tool_view() -> ToolView {
    ToolView {
        name: "abstract"@,
        description: ABSTRACT_DESCRIPTION@,
        properties: seq![
            prop("uri"@, PropertyKind::Text, "Content URI (file or directory)"@, seq![], None),
        ],
        required: seq!["uri"@],
    }
}

fn abstract_tool() -> (t: ToolDefinition)
    ensures
        t@ == abstract_tool_view(),
{
    let allowed0: Vec<String> = vec![];
    assert(crate::text::texts_view(allowed0@) =~= seq![]);
    let p0 = property("uri", PropertyKind::Text, "Content URI (file or directory)", allowed0, None);
    let properties = vec![p0];
    let required: Vec<String> = vec![String::from_str("uri")];
    assert(crate::text::texts_view(required@) =~= seq!["uri"@]);
    let t = ToolDefinition {
        name: String::from_str("abstract"),
        description: String::from_str(ABSTRACT_DESCRIPTION),
        input_schema: InputSchema { properties, required },
    };
    assert(t@.properties =~= abstract_tool_view().properties);
    assert(t@.required =~= abstract_tool_view().required);
    t
}

/// The `overview` tool as the catalog lists it.
pub open spec fn overview_tool_view() -> ToolView {
    ToolView {
        name: "overview"@,
        description: OVERVIEW_DESCRIPTION@,
        properties: seq![
            prop("uri"@, PropertyKind::Text, "Content URI (file or directory)"@, seq![], None),
        ],
        required: seq!["uri"@],
    }
}

fn overview_tool() -> (t: ToolDefinition)
    ensures
        t@ == overview_tool_view(),
{
    let allowed0: Vec<String> = vec![];
    assert(crate::text::texts_view(allowed0@) =~= seq![]);
    let p0 = property("uri", PropertyKind::Text, "Content URI (file or directory)", allowed0, None);
    let properties = vec![p0];
    let required: Vec<String> = vec![String::from_str("uri")];
    assert(crate::text::texts_view(required@) =~= seq!["uri"@]);
    let t = ToolDefinition {
        name: String::from_str("overview"),
        description: String::from_str(OVERVIEW_DESCRIPTION),
        input_schema: InputSchema { properties, required },
    };
    assert(t@.properties =~= overview_tool_view().properties);
    assert(t@.required =~= overview_tool_view().required);
    t
}

/// The `content` tool as the catalog lists it.
pub open spec fn content_tool_view() -> ToolView {
    ToolView {
        name: "content"@,
        description: CONTENT_DESCRIPTION@,
        properties: seq![
            prop("uri"@, PropertyKind::Text, "Content URI (file only)"@, seq![], None),
        ],
        required: seq!["uri"@],
    }
}

fn content_tool() -> (t: ToolDefinition)
    ensures
        t@ == content_tool_view(),
{
    let allowed0: Vec<String> = vec![];
    assert(crate::text::texts_view(allowed0@) =~= seq![]);
    let p0 = property("uri", PropertyKind::Text, "Content URI (file only)", allowed0, None);
    let properties = vec![p0];
    let required: Vec<String> = vec![String::from_str("uri")];
    assert(crate::text::texts_view(required@) =~= seq!["uri"@]);
    let t = ToolDefinition {
        name: String::from_str("content"),
        description: String::from_str(CONTENT_DESCRIPTION),
        input_schema: InputSchema { properties, required },
    };
    assert(t@.properties =~= content_tool_view().properties);
    assert(t@.required =~= content_tool_view().required);
    t
}

/// The `explore` tool as the catalog lists it.
pub open spec fn explore_tool_view() -> ToolView {
    ToolView {
        name: "explore"@,
        description: EXPLORE_DESCRIPTION@,
        properties: seq![
            prop("query"@, PropertyKind::Text, "Exploration query - what to look for"@, seq![], None),
            prop("start_uri"@, PropertyKind::Text, "Starting URI for exploration"@, seq![], Some(DefaultView::Text("cortex://session"@))),
            prop("return_layers"@, PropertyKind::TextList, "Which layers to return in matches"@, seq!["L0"@, "L1"@, "L2"@], Some(DefaultView::TextList(seq!["L0"@]))),
        ],
        required: seq!["query"@],
    }
}

fn explore_tool() -> (t: ToolDefinition)
    ensures
        t@ == explore_tool_view(),
{
    let allowed0: Vec<String> = vec![];
    assert(crate::text::texts_view(allowed0@) =~= seq![]);
    let p0 = property("query", PropertyKind::Text, "Exploration query - what to look for", allowed0, None);
    let allowed1: Vec<String> = vec![];
    assert(crate::text::texts_view(allowed1@) =~= seq![]);
    let p1 = property("start_uri", PropertyKind::Text, "Starting URI for exploration", allowed1, Some(DefaultValue::Text(String::from_str("cortex://session"))));
    let allowed2: Vec<String> = vec![String::from_str("L0"), String::from_str("L1"), String::from_str("L2")];
    assert(crate::text::texts_view(allowed2@) =~= seq!["L0"@, "L1"@, "L2"@]);
    let list2: Vec<String> = vec![String::from_str("L0")];
    assert(crate::text::texts_view(list2@) =~= seq!["L0"@]);
    let p2 = property("return_layers", PropertyKind::TextList, "Which layers to return in matches", allowed2, Some(DefaultValue::TextList(list2)));
    let properties = vec![p0, p1, p2];
    let required: Vec<String> = vec![String::from_str("query")];
    assert(crate::text::texts_view(required@) =~= seq!["query"@]);
    let t = ToolDefinition {
        name: String::from_str("explore"),
        description: String::from_str(EXPLORE_DESCRIPTION),
        input_schema: InputSchema { properties, required },
    };
    assert(t@.properties =~= explore_tool_view().properties);
    assert(t@.required =~= explore_tool_view().required);
    t
}

/// The `delete` tool as the catalog lists it.
pub open spec fn delete_tool_view() -> ToolView {
    ToolView {
        name: "delete"@,
        description: DELETE_DESCRIPTION@,
        properties: seq![
            prop("uri"@, PropertyKind::Text, "URI of the memory to delete"@, seq![], None),
        ],
        required: seq!["uri"@],
    }
}

fn delete_tool() -> (t: ToolDefinition)
    ensures
        t@ == delete_tool_view(),
{
    let allowed0: Vec<String> = vec![];
    assert(crate::text::texts_view(allowed0@) =~= seq![]);
    let p0 = property("uri", PropertyKind::Text, "URI of the memory to delete", allowed0, None);
    let properties = vec![p0];
    let required: Vec<String> = vec![String::from_str("uri")];
    assert(crate::text::texts_view(required@) =~= seq!["uri"@]);
    let t = ToolDefinition {
        name: String::from_str("delete"),
        description: String::from_str(DELETE_DESCRIPTION),
        input_schema: InputSchema { properties, required },
    };
    assert(t@.properties =~= delete_tool_view().properties);
    assert(t@.required =~= delete_tool_view().required);
    t
}

/// The `layers` tool as the catalog lists it.
pub open spec fn layers_tool_view() -> ToolView {
    ToolView {
        name: "layers"@,
        description: LAYERS_DESCRIPTION@,
        properties: seq![
            prop("thread_id"@, PropertyKind::Text, "Thread/session ID (optional, if not provided, generates for all sessions)"@, seq![], None),
        ],
        required: seq![],
    }
}

fn layers_tool() -> (t: ToolDefinition)
    ensures
        t@ == layers_tool_view(),
{
    let allowed0: Vec<String> = vec![];
    assert(crate::text::texts_view(allowed0@) =~= seq![]);
    let p0 = property("thread_id", PropertyKind::Text, "Thread/session ID (optional, if not provided, generates for all sessions)", allowed0, None);
    let properties = vec![p0];
    let required: Vec<String> = vec![];
    assert(crate::text::texts_view(required@) =~= seq![]);
    let t = ToolDefinition {
        name: String::from_str("layers"),
        description: String::from_str(LAYERS_DESCRIPTION),
        input_schema: InputSchema { properties, required },
    };
    assert(t@.properties =~= layers_tool_view().properties);
    assert(t@.required =~= layers_tool_view().required);
    t
}

/// The `index` tool as the catalog lists it.
pub open spec fn index_tool_view() -> ToolView {
    ToolView {
        name: "index"@,
        description: INDEX_DESCRIPTION@,
        properties: seq![
            prop("thread_id"@, PropertyKind::Text, "Thread/session ID (optional, if not provided, indexes all files)"@, seq![], None),
        ],
        required: seq![],
    }
}

fn index_tool() -> (t: ToolDefinition)
    ensures
        t@ == index_tool_view(),
{
    let allowed0: Vec<String> = vec![];
    assert(crate::text::texts_view(allowed0@) =~= seq![]);
    let p0 = property("thread_id", PropertyKind::Text, "Thread/session ID (optional, if not provided, indexes all files)", allowed0, None);
    let properties = vec![p0];
    let required: Vec<String> = vec![];
    assert(crate::text::texts_view(required@) =~= seq![]);
    let t = ToolDefinition {
        name: String::from_str("index"),
        description: String::from_str(INDEX_DESCRIPTION),
        input_schema: InputSchema { properties, required },
    };
    assert(t@.properties =~= index_tool_view().properties);
    assert(t@.required =~= index_tool_view().required);
    t
}

/// All tools, in the order in which the server lists them.
pub open spec fn tool_catalog() -> Seq<ToolView> {
    seq![search_tool_view(), recall_tool_view(), store_tool_view(), commit_tool_view(), ls_tool_view(), abstract_tool_view(), overview_tool_view(), content_tool_view(), explore_tool_view(), delete_tool_view(), layers_tool_view(), index_tool_view()]
}

/// Every MCP tool definition, in catalog order.
pub fn get_mcp_tool_definitions() -> (tools: Vec<ToolDefinition>)
    ensures
        tools@.map_values(|t: ToolDefinition| t@) == tool_catalog(),
{
    let tools = vec![search_tool(), recall_tool(), store_tool(), commit_tool(), ls_tool(), abstract_tool(), overview_tool(), content_tool(), explore_tool(), delete_tool(), layers_tool(), index_tool()];
    assert(tools@.map_values(|t: ToolDefinition| t@) =~= tool_catalog());
    tools
}

/// The first tool of `tools` named `name`.
pub open spec fn find_tool(tools: Seq<ToolView>, name: Seq<char>) -> Option<ToolView>
    decreases tools.len(),
{
    if tools.len() == 0 {
        None
    } else if tools[0].name == name {
        Some(tools[0])
    } else {
        find_tool(tools.drop_first(), name)
    }
}

/// What [`find_tool`] answers: the first tool with the name, or none when no
/// tool carries it.
pub proof fn lemma_find_tool(tools: Seq<ToolView>, name: Seq<char>)
    ensures
        match find_tool(tools, name) {
            Some(t) => exists|i: int|
                0 <= i < tools.len() && tools[i] == t && t.name == name && forall|j: int|
                    0 <= j < i ==> #[trigger] tools[j].name != name,
            None => forall|j: int| 0 <= j < tools.len() ==> #[trigger] tools[j].name != name,
        },
    decreases tools.len(),
{
    if tools.len() > 0 && tools[0].name != name {
        let rest = tools.drop_first();
        lemma_find_tool(rest, name);
        match find_tool(rest, name) {
            Some(t) => {
                let i = choose|i: int|
                    0 <= i < rest.len() && rest[i] == t && t.name == name && forall|j: int|
                        0 <= j < i ==> #[trigger] rest[j].name != name;
                assert forall|j: int| 0 <= j < i + 1 implies #[trigger] tools[j].name != name by {
                    if j > 0 {
                        assert(tools[j] == rest[j - 1]);
                    }
                }
                assert(tools[i + 1] == t);
            },
            None => {
                assert forall|j: int| 0 <= j < tools.len() implies #[trigger] tools[j].name != name by {
                    if j > 0 {
                        assert(tools[j] == rest[j - 1]);
                    }
                }
            },
        }
    }
}

/// The tool named `name`, if the catalog has one.
pub fn get_mcp_tool_definition(name: &str) -> (found: Option<ToolDefinition>)
    ensures
        match found {
            Some(t) => find_tool(tool_catalog(), name@) == Some(t@),
            None => find_tool(tool_catalog(), name@) is None,
        },
{
    let mut tools = get_mcp_tool_definitions();
    let target = String::from_str(name);
    let ghost catalog = tool_catalog();
    proof {
        lemma_find_tool(catalog, name@);
    }
    let mut i: usize = 0;
    while i < tools.len()
        invariant
            tools@.map_values(|t: ToolDefinition| t@) == catalog,
            catalog == tool_catalog(),
            target@ == name@,
            i <= tools.len(),
            forall|j: int| 0 <= j < i ==> #[trigger] catalog[j].name != name@,
            match find_tool(catalog, name@) {
                Some(t) => exists|k: int|
                    0 <= k < catalog.len() && catalog[k] == t && t.name == name@ && forall|j: int|
                        0 <= j < k ==> #[trigger] catalog[j].name != name@,
                None => forall|j: int| 0 <= j < catalog.len() ==> #[trigger] catalog[j].name != name@,
            },
        decreases tools.len() - i,
    {
        assert(catalog[i as int] == tools@[i as int]@);
        if tools[i].name.eq(&target) {
            let t = tools.remove(i);
            proof {
                match find_tool(catalog, name@) {
                    Some(f) => {
                        let k = choose|k: int|
                            0 <= k < catalog.len() && catalog[k] == f && f.name == name@ && forall|j: int|
                                0 <= j < k ==> #[trigger] catalog[j].name != name@;
                        if k < i {
                        } else if k > i {
                            assert(catalog[i as int].name != name@);
                        }
                    },
                    None => {
                        assert(catalog[i as int].name != name@);
                    },
                }
            }
            return Some(t);
        }
        i = i + 1;
    }
    proof {
        match find_tool(catalog, name@) {
            Some(f) => {
                let k = choose|k: int|
                    0 <= k < catalog.len() && catalog[k] == f && f.name == name@ && forall|j: int|
                        0 <= j < k ==> #[trigger] catalog[j].name != name@;
                assert(catalog[k].name != name@);
            },
            None => {},
        }
    }
    None
}

/// No two tools of the catalog share a name.
pub proof fn law_tool_names_distinct()
    ensures
        forall|i: int, j: int|
            0 <= i < j < tool_catalog().len() ==> #[trigger] tool_catalog()[i].name
                != #[trigger] tool_catalog()[j].name,
{

    reveal_strlit("search");
    reveal_strlit("recall");
    reveal_strlit("store");
    reveal_strlit("commit");
    reveal_strlit("ls");
    reveal_strlit("abstract");
    reveal_strlit("overview");
    reveal_strlit("content");
    reveal_strlit("explore");
    reveal_strlit("delete");
    reveal_strlit("layers");
    reveal_strlit("index");
    let c = tool_catalog();
    assert forall|i: int, j: int| 0 <= i < j < c.len() implies #[trigger] c[i].name != #[trigger] c[j].name by {
        assert(c[i].name.len() != c[j].name.len() || c[i].name[0] != c[j].name[0]);
    }
}

/// Looking a listed tool up by its name gives that very tool.
pub proof fn law_lookup_finds_every_tool()
    ensures
        forall|i: int|
            0 <= i < tool_catalog().len() ==> find_tool(tool_catalog(), #[trigger] tool_catalog()[i].name)
                == Some(tool_catalog()[i]),
{
    law_tool_names_distinct();
    let c = tool_catalog();
    assert forall|i: int| 0 <= i < c.len() implies find_tool(c, #[trigger] c[i].name) == Some(c[i]) by {
        lemma_find_tool(c, c[i].name);
        match find_tool(c, c[i].name) {
            Some(t) => {
                let k = choose|k: int|
                    0 <= k < c.len() && c[k] == t && t.name == c[i].name && forall|j: int|
                        0 <= j < k ==> #[trigger] c[j].name != c[i].name;
                if k < i {
                    assert(c[k].name != c[i].name);
                } else if k > i {
                    assert(c[i].name != c[i].name);
                }
            },
            None => {
                assert(c[i].name != c[i].name);
            },
        }
    }
}

/// `t` declares a parameter called `name`.
pub open spec fn declares(t: ToolView, name: Seq<char>) -> bool {
    exists|j: int| 0 <= j < t.properties.len() && t.properties[j].name == name
}

/// Every parameter a tool requires is one it declares.
pub proof fn law_required_parameters_are_declared()
    ensures
        forall|i: int, k: int|
            0 <= i < tool_catalog().len() && 0 <= k < tool_catalog()[i].required.len() ==> declares(
                tool_catalog()[i],
                #[trigger] tool_catalog()[i].required[k],
            ),
{
    let c = tool_catalog();
    assert forall|i: int, k: int| 0 <= i < c.len() && 0 <= k < c[i].required.len() implies declares(
        c[i],
        #[trigger] c[i].required[k],
    ) by {
        assert(c[i].required.len() == 1 && c[i].properties.len() >= 1 && c[i].properties[0].name == c[i].required[0]);
        assert(c[i].properties[0].name == c[i].required[k]);
    }
}

/// A tool that takes a `query` parameter always requires it: no search-like
/// tool of the catalog can be called without a query.
pub proof fn law_query_is_required()
    ensures
        forall|i: int|
            0 <= i < tool_catalog().len() && declares(#[trigger] tool_catalog()[i], "query"@)
                ==> tool_catalog()[i].required.contains("query"@),
{
    reveal_strlit("query");
    reveal_strlit("scope");
    reveal_strlit("limit");
    reveal_strlit("min_score");
    reveal_strlit("return_layers");
    reveal_strlit("content");
    reveal_strlit("thread_id");
    reveal_strlit("role");
    reveal_strlit("uri");
    reveal_strlit("recursive");
    reveal_strlit("include_abstracts");
    reveal_strlit("start_uri");
    let c = tool_catalog();
    assert forall|i: int|
        0 <= i < c.len() && declares(#[trigger] c[i], "query"@) implies c[i].required.contains(
        "query"@,
    ) by {
        let j = choose|j: int| 0 <= j < c[i].properties.len() && c[i].properties[j].name == "query"@;
        if c[i].required.len() > 0 && c[i].required[0] == "query"@ {
            assert(c[i].required[0] == "query"@);
        } else {
            assert(c[i].properties[j].name.len() != 5 || c[i].properties[j].name[0] != 'q');
        }
    }
}

} // verus!
