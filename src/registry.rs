//! The tool registry: tool names mapped to their metadata and handlers, with
//! registration, lookup, listing and the two halves of a guarded call.
use vstd::prelude::*;
use crate::error::{McpError, message_of};
use crate::json::{JsonValue, copy_members, find_member, member, same_members};
use crate::protocol::{CallToolResult, ToolContent, ToolDefinition, ToolInputSchema};

verus! {

/// What a handler receives: the tool's name and the arguments of the call.
#[derive(Debug)]
pub struct ToolInput {
    pub name: String,
    pub arguments: Vec<(String, JsonValue)>,
}

/// What a handler returns. `is_error` flags an expected domain failure,
/// which is still a successful call at the protocol level.
#[derive(Debug)]
pub struct ToolResult {
    pub content: Vec<ToolContent>,
    pub is_error: bool,
}

/// A registered tool: its definition and its handler.
pub struct Tool<H> {
    pub definition: ToolDefinition,
    pub handler: H,
}

/// The tools of a server, at most one under each name.
pub struct ToolRegistry<H> {
    tools: Vec<Tool<H>>,
}

/// The name under which a tool is registered.
pub open spec fn tool_name<H>(t: Tool<H>) -> Seq<char> {
    t.definition.name@
}

/// No two tools share a name.
pub open spec fn names_unique<H>(tools: Seq<Tool<H>>) -> bool {
    forall|i: int, j: int|
        0 <= i < tools.len() && 0 <= j < tools.len() && i != j ==> tool_name(
            #[trigger] tools[i],
        ) != tool_name(#[trigger] tools[j])
}

/// Some tool is named `name`.
pub open spec fn has_tool<H>(tools: Seq<Tool<H>>, name: Seq<char>) -> bool {
    exists|i: int| 0 <= i < tools.len() && tool_name(#[trigger] tools[i]) == name
}

/// The position of the tool named `name`, where there is one.
pub open spec fn index_of<H>(tools: Seq<Tool<H>>, name: Seq<char>) -> int {
    choose|i: int| 0 <= i < tools.len() && tool_name(#[trigger] tools[i]) == name
}

/// The tools after registering `tool`: it takes the place of the tool of the
/// same name, or else joins the end.
pub open spec fn registered<H>(tools: Seq<Tool<H>>, tool: Tool<H>) -> Seq<Tool<H>> {
    if has_tool(tools, tool_name(tool)) {
        tools.update(index_of(tools, tool_name(tool)), tool)
    } else {
        tools.push(tool)
    }
}

/// The schema of a tool registered without one: any object.
pub open spec fn default_schema(s: ToolInputSchema) -> bool {
    &&& s.schema_type@ == "object"@
    &&& s.properties matches Some(p) && p@.len() == 0
    &&& s.required@.len() == 0
    &&& s.additional_properties == Some(true)
}

/// Whether `b` is a copy of the definition `a`.
pub open spec fn same_definition(a: ToolDefinition, b: ToolDefinition) -> bool {
    &&& a.name@ == b.name@
    &&& a.description@ == b.description@
    &&& a.input_schema.schema_type@ == b.input_schema.schema_type@
    &&& a.input_schema.required@.len() == b.input_schema.required@.len()
    &&& forall|i: int| 0 <= i < a.input_schema.required@.len()
        ==> #[trigger] a.input_schema.required@[i]@ == b.input_schema.required@[i]@
    &&& a.input_schema.additional_properties == b.input_schema.additional_properties
    &&& match a.input_schema.properties {
        None => b.input_schema.properties is None,
        Some(p) => b.input_schema.properties matches Some(q) && same_members(p@, q@),
    }
}

/// Registering keeps names unique, and afterwards a tool of that name exists.
pub proof fn lemma_registered_unique<H>(tools: Seq<Tool<H>>, tool: Tool<H>)
    requires
        names_unique(tools),
    ensures
        names_unique(registered(tools, tool)),
        has_tool(registered(tools, tool), tool_name(tool)),
{
    let after = registered(tools, tool);
    if has_tool(tools, tool_name(tool)) {
        let k = index_of(tools, tool_name(tool));
        assert(tool_name(after[k]) == tool_name(tool));
    } else {
        assert forall|a: int, b: int|
            0 <= a < after.len() && 0 <= b < after.len() && a != b implies tool_name(
                #[trigger] after[a],
            ) != tool_name(#[trigger] after[b]) by {
            if a == tools.len() as int {
                assert(tool_name(tools[b]) != tool_name(after[a]));
            } else if b == tools.len() as int {
                assert(tool_name(tools[a]) != tool_name(after[b]));
            }
        }
        assert(tool_name(after[tools.len() as int]) == tool_name(tool));
    }
}

/// Registering two tools under one name leaves exactly one tool of that
/// name: the second.
pub proof fn law_register_twice<H>(tools: Seq<Tool<H>>, first: Tool<H>, second: Tool<H>)
    requires
        names_unique(tools),
        tool_name(first) == tool_name(second),
    ensures
        ({
            let after = registered(registered(tools, first), second);
            exists|i: int|
                0 <= i < after.len() && after[i] == second && forall|j: int|
                    0 <= j < after.len() && j != i ==> tool_name(#[trigger] after[j]) != tool_name(
                        second,
                    )
        }),
{
    let middle = registered(tools, first);
    lemma_registered_unique(tools, first);
    let k = index_of(middle, tool_name(second));
    let after = registered(middle, second);
    assert(after == middle.update(k, second));
    assert forall|j: int| 0 <= j < after.len() && j != k implies tool_name(#[trigger] after[j])
        != tool_name(second) by {
        assert(after[j] == middle[j]);
        assert(tool_name(middle[k]) == tool_name(second));
    }
    assert(after[k] == second);
}

/// Registering `tool` under its name `n`: afterwards the tool found under `n`
/// is `tool`, every other name finds what it found before, and the count
/// grows by one only when `n` was new.
pub proof fn law_register_replaces<H>(tools: Seq<Tool<H>>, tool: Tool<H>)
    requires
        names_unique(tools),
    ensures
        ({
            let after = registered(tools, tool);
            let n = tool_name(tool);
            &&& has_tool(after, n)
            &&& after[index_of(after, n)] == tool
            &&& after.len() == tools.len() + (if has_tool(tools, n) { 0int } else { 1int })
            &&& forall|k: Seq<char>| k != n ==> #[trigger] has_tool(after, k) == has_tool(tools, k)
            &&& forall|k: Seq<char>|
                k != n && has_tool(tools, k) ==> after[#[trigger] index_of(after, k)]
                    == tools[index_of(tools, k)]
        }),
{
    let after = registered(tools, tool);
    let n = tool_name(tool);
    lemma_registered_unique(tools, tool);
    let j = index_of(after, n);
    if has_tool(tools, n) {
        let k0 = index_of(tools, n);
        assert(after == tools.update(k0, tool));
        if j != k0 {
            assert(tool_name(after[k0]) == n);
        }
    } else {
        assert(after == tools.push(tool));
        if j != tools.len() as int {
            assert(tool_name(after[j]) == tool_name(tools[j]));
            assert(has_tool(tools, n));
        }
    }
    assert(after[j] == tool);
    assert forall|k: Seq<char>| k != n implies #[trigger] has_tool(after, k) == has_tool(tools, k) by {
        if has_tool(tools, k) {
            let i = index_of(tools, k);
            assert(after[i] == tools[i]);
            assert(tool_name(after[i]) == k);
        }
        if has_tool(after, k) {
            let i = index_of(after, k);
            if i < tools.len() {
                assert(tool_name(tools[i]) == k);
            }
        }
    }
    assert forall|k: Seq<char>| k != n && has_tool(tools, k) implies after[#[trigger] index_of(
        after,
        k,
    )] == tools[index_of(tools, k)] by {
        let i = index_of(tools, k);
        let i2 = index_of(after, k);
        assert(after[i] == tools[i]);
        assert(tool_name(after[i]) == k);
        assert(has_tool(after, k));
        if i2 != i {
            assert(tool_name(after[i2]) == k);
        }
    }
}

impl ToolInput {
    /// The input of a call of tool `name`.
    pub fn new(name: String, arguments: Vec<(String, JsonValue)>) -> (r: Self)
        ensures
            r.name == name,
            r.arguments == arguments,
    {
        ToolInput { name, arguments }
    }

    /// The argument named `key`; a missing one is an invalid-params error.
    pub fn get_argument(&self, key: &str) -> (r: Result<&JsonValue, McpError>)
        ensures
            r matches Ok(v) ==> member(self.arguments@, key@) == Some(*v),
            r matches Err(e) ==> e matches McpError::InvalidParams { message }
                && message@ == "Missing required argument: "@ + key@,
            member(self.arguments@, key@) is Some <==> r is Ok,
    {
        match find_member(&self.arguments, key) {
            Some(i) => Ok(&self.arguments[i].1),
            None => {
                let mut message = String::from_str("Missing required argument: ");
                message.append(key);
                Err(McpError::InvalidParams { message })
            },
        }
    }

    /// The argument named `key`, if it was given.
    pub fn get_optional_argument(&self, key: &str) -> (r: Option<&JsonValue>)
        ensures
            r matches Some(v) ==> member(self.arguments@, key@) == Some(*v),
            r is None ==> member(self.arguments@, key@) is None,
    {
        match find_member(&self.arguments, key) {
            Some(i) => Some(&self.arguments[i].1),
            None => None,
        }
    }
}

impl ToolResult {
    /// A successful result with the given content.
    pub fn new(content: Vec<ToolContent>) -> (r: Self)
        ensures
            r.content == content,
            !r.is_error,
    {
        ToolResult { content, is_error: false }
    }

    /// A successful result holding one text item.
    pub fn text(text: String) -> (r: Self)
        ensures
            r.content@ == seq![ToolContent::Text { text }],
            !r.is_error,
    {
        let mut content = Vec::new();
        content.push(ToolContent::text(text));
        ToolResult::new(content)
    }

    /// A successful result holding one image item.
    pub fn image(data: String, mime_type: String) -> (r: Self)
        ensures
            r.content@ == seq![ToolContent::Image { data, mime_type }],
            !r.is_error,
    {
        let mut content = Vec::new();
        content.push(ToolContent::image(data, mime_type));
        ToolResult::new(content)
    }

    /// A successful result holding one resource reference.
    pub fn resource(uri: String) -> (r: Self)
        ensures
            r.content@.len() == 1,
            r.content@[0] matches ToolContent::Resource { resource } && resource.uri == uri
                && resource.text is None,
            !r.is_error,
    {
        let mut content = Vec::new();
        content.push(ToolContent::resource(uri));
        ToolResult::new(content)
    }

    /// A result flagged as a domain failure, holding one text item.
    pub fn error(message: String) -> (r: Self)
        ensures
            r.content@ == seq![ToolContent::Text { text: message }],
            r.is_error,
    {
        let mut content = Vec::new();
        content.push(ToolContent::text(message));
        ToolResult { content, is_error: true }
    }

    /// A successful result without content.
    pub fn empty() -> (r: Self)
        ensures
            r.content@.len() == 0,
            !r.is_error,
    {
        ToolResult::new(Vec::new())
    }

    /// The wire shape of this result: the flag is present only when set.
    pub fn into_call_result(self) -> (r: CallToolResult)
        ensures
            r.content == self.content,
            r.is_error == (if self.is_error { Some(true) } else { None::<bool> }),
    {
        CallToolResult { content: self.content, is_error: if self.is_error { Some(true) } else { None } }
    }
}

impl<H> Tool<H> {
    /// A tool that accepts any object as input.
    pub fn new(name: String, description: String, handler: H) -> (r: Self)
        ensures
            r.definition.name == name,
            r.definition.description == description,
            default_schema(r.definition.input_schema),
            r.handler == handler,
    {
        let input_schema = ToolInputSchema {
            schema_type: String::from_str("object"),
            properties: Some(Vec::new()),
            required: Vec::new(),
            additional_properties: Some(true),
        };
        Tool { definition: ToolDefinition { name, description, input_schema }, handler }
    }

    /// A tool with a given input schema.
    pub fn with_schema(name: String, description: String, input_schema: ToolInputSchema, handler: H) -> (r: Self)
        ensures
            r.definition.name == name,
            r.definition.description == description,
            r.definition.input_schema == input_schema,
            r.handler == handler,
    {
        Tool { definition: ToolDefinition { name, description, input_schema }, handler }
    }
}

/// A copy of a definition.
pub fn copy_definition(d: &ToolDefinition) -> (r: ToolDefinition)
    ensures
        same_definition(*d, r),
{
    let properties = match &d.input_schema.properties {
        None => None,
        Some(p) => Some(copy_members(p)),
    };
    let mut required: Vec<String> = Vec::new();
    let mut i: usize = 0;
    while i < d.input_schema.required.len()
        invariant
            i <= d.input_schema.required@.len(),
            required@.len() == i,
            forall|j: int| 0 <= j < i ==> #[trigger] d.input_schema.required@[j]@ == required@[j]@,
        decreases d.input_schema.required@.len() - i,
    {
        required.push(d.input_schema.required[i].clone());
        i = i + 1;
    }
    ToolDefinition {
        name: d.name.clone(),
        description: d.description.clone(),
        input_schema: ToolInputSchema {
            schema_type: d.input_schema.schema_type.clone(),
            properties,
            required,
            additional_properties: d.input_schema.additional_properties,
        },
    }
}

impl<H> View for ToolRegistry<H> {
    type V = Seq<Tool<H>>;

    closed spec fn view(&self) -> Seq<Tool<H>> {
        self.tools@
    }
}

impl<H> ToolRegistry<H> {
    #[verifier::type_invariant]
    spec fn inv(self) -> bool {
        names_unique(self.tools@)
    }

    /// An empty registry.
    pub fn new() -> (r: Self)
        ensures
            r@.len() == 0,
            names_unique(r@),
    {
        ToolRegistry { tools: Vec::new() }
    }

    /// The position of the tool named `name`, if one is registered.
    pub fn position(&self, name: &str) -> (r: Option<usize>)
        ensures
            r matches Some(i) ==> i < self@.len() && tool_name(self@[i as int]) == name@
                && index_of(self@, name@) == i,
            r is None ==> !has_tool(self@, name@),
    {
        proof {
            use_type_invariant(self);
        }
        let wanted = String::from_str(name);
        let mut i: usize = 0;
        while i < self.tools.len()
            invariant
                i <= self@.len(),
                self@ == self.tools@,
                wanted@ == name@,
                forall|j: int| 0 <= j < i ==> tool_name(#[trigger] self@[j]) != name@,
            decreases self@.len() - i,
        {
            if self.tools[i].definition.name == wanted {
                proof {
                    use_type_invariant(self);
                    let k = index_of(self@, name@);
                    assert(has_tool(self@, name@));
                    assert(tool_name(self@[k]) == name@);
                }
                return Some(i);
            }
            i = i + 1;
        }
        None
    }

    /// Registers `tool`, replacing any tool of the same name.
    pub fn register(&mut self, tool: Tool<H>)
        ensures
            names_unique(old(self)@),
            final(self)@ == registered(old(self)@, tool),
            names_unique(final(self)@),
    {
        proof {
            use_type_invariant(&*self);
        }
        let found = self.position(tool.definition.name.as_str());
        let mut tools: Vec<Tool<H>> = Vec::new();
        std::mem::swap(&mut tools, &mut self.tools);
        match found {
            Some(i) => {
                tools.set(i, tool);
            },
            None => {
                tools.push(tool);
            },
        }
        proof {
            lemma_registered_unique(old(self)@, tool);
        }
        std::mem::swap(&mut tools, &mut self.tools);
    }

    /// A copy of the definitions of all registered tools, in registration order.
    pub fn list_tools(&self) -> (r: Vec<ToolDefinition>)
        ensures
            r@.len() == self@.len(),
            forall|i: int| 0 <= i < r@.len() ==> same_definition(
                #[trigger] self@[i].definition,
                r@[i],
            ),
    {
        let mut r: Vec<ToolDefinition> = Vec::new();
        let mut i: usize = 0;
        while i < self.tools.len()
            invariant
                i <= self@.len(),
                self@ == self.tools@,
                r@.len() == i,
                forall|j: int| 0 <= j < i ==> same_definition(#[trigger] self@[j].definition, r@[j]),
            decreases self@.len() - i,
        {
            r.push(copy_definition(&self.tools[i].definition));
            i = i + 1;
        }
        r
    }

    /// The tool named `name`, matched exactly.
    pub fn get_tool(&self, name: &str) -> (r: Option<&Tool<H>>)
        ensures
            r matches Some(t) ==> has_tool(self@, name@) && *t == self@[index_of(self@, name@)],
            r is None ==> !has_tool(self@, name@),
    {
        match self.position(name) {
            Some(i) => Some(&self.tools[i]),
            None => None,
        }
    }

    /// The tool at position `i`.
    pub fn tool_at(&self, i: usize) -> (r: &Tool<H>)
        requires
            i < self@.len(),
        ensures
            *r == self@[i as int],
    {
        &self.tools[i]
    }

    /// The first half of a call: find the tool and build its input.
    /// An unknown name is a tool-not-found error.
    pub fn prepare_call(&self, name: String, arguments: Vec<(String, JsonValue)>) -> (r: Result<(usize, ToolInput), McpError>)
        ensures
            r matches Ok((i, input)) ==> has_tool(self@, name@) && i == index_of(self@, name@)
                && i < self@.len() && input.name@ == name@ && input.arguments == arguments,
            r matches Err(e) ==> !has_tool(self@, name@) && e == (McpError::ToolNotFound { tool_name: name }),
            r is Ok <==> has_tool(self@, name@),
    {
        match self.position(name.as_str()) {
            Some(i) => Ok((i, ToolInput::new(name, arguments))),
            None => Err(McpError::tool_not_found(name)),
        }
    }

    /// The second half of a call: a handler's failure becomes a tool-execution
    /// error that carries the tool's name and the failure's text.
    pub fn finish_call(name: String, outcome: Result<ToolResult, McpError>) -> (r: Result<ToolResult, McpError>)
        ensures
            outcome is Ok ==> r == outcome,
            outcome matches Err(e) ==> r matches Err(McpError::ToolExecutionError { tool_name, message })
                && tool_name == name && message@ == message_of(e),
    {
        match outcome {
            Ok(result) => Ok(result),
            Err(e) => Err(McpError::tool_execution_error(name, e.to_message())),
        }
    }

    /// The number of registered tools.
    pub fn len(&self) -> (r: usize)
        ensures
            r == self@.len(),
    {
        self.tools.len()
    }

    /// Whether no tool is registered.
    pub fn is_empty(&self) -> (r: bool)
        ensures
            r == (self@.len() == 0),
    {
        self.tools.len() == 0
    }

    /// The names of all registered tools, in registration order.
    pub fn tool_names(&self) -> (r: Vec<String>)
        ensures
            r@.len() == self@.len(),
            forall|i: int| 0 <= i < r@.len() ==> #[trigger] r@[i]@ == tool_name(self@[i]),
    {
        let mut r: Vec<String> = Vec::new();
        let mut i: usize = 0;
        while i < self.tools.len()
            invariant
                i <= self@.len(),
                self@ == self.tools@,
                r@.len() == i,
                forall|j: int| 0 <= j < i ==> #[trigger] r@[j]@ == tool_name(self@[j]),
            decreases self@.len() - i,
        {
            r.push(self.tools[i].definition.name.clone());
            i = i + 1;
        }
        r
    }
}

} // verus!
