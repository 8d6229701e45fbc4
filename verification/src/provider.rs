//! The calculator tool provider: it advertises one `add` capability,
//! validates invocation arguments against the advertised schema, and
//! answers an invocation with the sum rendered as decimal text.

use vstd::prelude::*;
use vstd::string::*;
use vstd::pervasive::unreached;
use crate::decimal::{dec_text, i64_dec_string};
use crate::schema::{
    ArgValue, InputSchema, Property, Tool, args_valid, lookup_arg, lookup_argument, lookup_prop,
    validate_args,
};

verus! {

/// Why an invocation request was not answered with a result.
#[derive(Clone, Copy, Debug, PartialEq, Eq)]
pub enum CallError {
    /// The requested tool name is not advertised.
    UnknownTool,
    /// The arguments do not satisfy the advertised input schema.
    InvalidArguments,
    /// The operands are numeric but their sum does not fit the numeric
    /// range the provider computes in.
    OutOfRange,
}

/// The advertised input schema of `add`: two numeric parameters `a`
/// and `b`, both required.
pub open spec fn add_schema_wf(s: InputSchema) -> bool {
    &&& s.properties@.len() == 2
    &&& s.properties@[0].name@ == "a"@
    &&& s.properties@[0].kind_name@ == "number"@
    &&& s.properties@[1].name@ == "b"@
    &&& s.properties@[1].kind_name@ == "number"@
    &&& s.required@.len() == 2
    &&& s.required@[0]@ == "a"@
    &&& s.required@[1]@ == "b"@
}

/// The one capability descriptor the provider advertises.
pub open spec fn add_tool_wf(t: Tool) -> bool {
    &&& t.name@ == "add"@
    &&& t.description@ == "Add two numbers"@
    &&& add_schema_wf(t.input_schema)
}

/// The numeric value supplied under `name`, if one was supplied and it
/// is numeric.
pub open spec fn num_arg(args: Seq<(String, ArgValue)>, name: Seq<char>) -> Option<int> {
    match lookup_arg(args, name) {
        Some(v) => match v {
            ArgValue::Num(x) => Some(x as int),
            _ => None,
        },
        None => None,
    }
}

/// What an invocation of `name` with `args` must come to: the exact sum
/// for a well-formed `add` request, and the exact error otherwise.
pub open spec fn call_outcome(name: Seq<char>, args: Seq<(String, ArgValue)>) -> Result<
    int,
    CallError,
> {
    if name != "add"@ {
        Err(CallError::UnknownTool)
    } else {
        match (num_arg(args, "a"@), num_arg(args, "b"@)) {
            (Some(a), Some(b)) => if i64::MIN <= a + b <= i64::MAX {
                Ok(a + b)
            } else {
                Err(CallError::OutOfRange)
            },
            _ => Err(CallError::InvalidArguments),
        }
    }
}

/// Whether `r` is the answer that `call_outcome` prescribes: the sum
/// rendered as decimal text on success, the prescribed error otherwise.
pub open spec fn call_result_matches(
    name: Seq<char>,
    args: Seq<(String, ArgValue)>,
    r: Result<String, CallError>,
) -> bool {
    match call_outcome(name, args) {
        Ok(sum) => r matches Ok(text) && text@ == dec_text(sum),
        Err(e) => r matches Err(e2) && e2 == e,
    }
}

/// Validation against the advertised `add` schema fails exactly when a
/// required field is missing or not numeric.
pub proof fn lemma_add_schema_validation(schema: InputSchema, args: Seq<(String, ArgValue)>)
    requires
        add_schema_wf(schema),
    ensures
        args_valid(schema, args) <==> (num_arg(args, "a"@) is Some && num_arg(args, "b"@) is Some),
{
    reveal_strlit("a");
    reveal_strlit("b");
    assert(schema.required@[0]@ == "a"@);
    assert(schema.required@[1]@ == "b"@);
    assert("a"@ != "b"@) by {
        assert("a"@[0] == 'a' && "b"@[0] == 'b');
        if "a"@ == "b"@ {
            assert("a"@[0] == "b"@[0]);
        }
    }
    assert(lookup_prop(schema.properties@, "a"@) == Some(schema.properties@[0]));
    assert(schema.properties@.drop_first().len() == 1);
    assert(schema.properties@.drop_first()[0] == schema.properties@[1]);
    assert(lookup_prop(schema.properties@.drop_first(), "b"@) == Some(schema.properties@[1]));
    assert(lookup_prop(schema.properties@, "b"@) == Some(schema.properties@[1]));
    if args_valid(schema, args) {
        assert(crate::schema::required_ok(schema, args, 0));
        assert(crate::schema::required_ok(schema, args, 1));
    }
    if num_arg(args, "a"@) is Some && num_arg(args, "b"@) is Some {
        assert forall|i: int| 0 <= i < schema.required@.len() implies #[trigger] crate::schema::required_ok(
            schema,
            args,
            i,
        ) by {
            if i == 0 {
                assert(crate::schema::required_ok(schema, args, 0));
            } else {
                assert(crate::schema::required_ok(schema, args, 1));
            }
        }
    }
}

/// Any two results that a provider may return for the same tool name
/// and the same arguments agree: one invocation repeated yields the
/// same answer both times.
pub proof fn lemma_call_deterministic(
    name: Seq<char>,
    args: Seq<(String, ArgValue)>,
    r1: Result<String, CallError>,
    r2: Result<String, CallError>,
)
    requires
        call_result_matches(name, args, r1),
        call_result_matches(name, args, r2),
    ensures
        r1 is Ok <==> r2 is Ok,
        r1 matches Ok(t1) ==> (r2 matches Ok(t2) && t1@ == t2@),
        r1 matches Err(e1) ==> (r2 matches Err(e2) && e1 == e2),
{
}

/// The metadata a provider reports during the initialization handshake.
pub struct ServerInfo {
    pub tools_enabled: bool,
    pub instructions: Option<String>,
}

/// The stateless calculator provider, holding its capability table.
pub struct Calculator {
    pub tools: Vec<Tool>,
}

impl Calculator {
    /// The capability table holds exactly the `add` descriptor.
    pub open spec fn wf(self) -> bool {
        self.tools@.len() == 1 && add_tool_wf(self.tools@[0])
    }

    /// Build the provider with its one registered capability.
    pub fn new() -> (c: Calculator)
        ensures
            c.wf(),
    {
        let mut properties: Vec<Property> = Vec::new();
        properties.push(
            Property { name: String::from_str("a"), kind_name: String::from_str("number") },
        );
        properties.push(
            Property { name: String::from_str("b"), kind_name: String::from_str("number") },
        );
        let mut required: Vec<String> = Vec::new();
        required.push(String::from_str("a"));
        required.push(String::from_str("b"));
        let mut tools: Vec<Tool> = Vec::new();
        tools.push(
            Tool {
                name: String::from_str("add"),
                description: String::from_str("Add two numbers"),
                input_schema: InputSchema { properties, required },
            },
        );
        Calculator { tools }
    }

    /// The capability listing: exactly one descriptor, named "add",
    /// requiring the two numeric fields `a` and `b`.
    pub fn list_tools(&self) -> (r: &Vec<Tool>)
        requires
            self.wf(),
        ensures
            r@.len() == 1,
            add_tool_wf(r@[0]),
    {
        &self.tools
    }

    /// The handshake metadata: tools are enabled, and the provider
    /// introduces itself as a simple calculator.
    pub fn get_info(&self) -> (r: ServerInfo)
        ensures
            r.tools_enabled,
            r.instructions matches Some(s) && s@ == "A simple calculator tool"@,
    {
        ServerInfo {
            tools_enabled: true,
            instructions: Some(String::from_str("A simple calculator tool")),
        }
    }

    /// The one registered operation: the sum of the two operands,
    /// rendered as its standard decimal text form.
    pub fn add(&self, a: i64, b: i64) -> (r: String)
        requires
            i64::MIN <= a as int + b as int <= i64::MAX,
        ensures
            r@ == dec_text(a as int + b as int),
    {
        i64_dec_string(a + b)
    }

    /// Answer one invocation request: validate the arguments against
    /// the advertised schema, then compute, exactly as `call_outcome`
    /// prescribes. A rejected request computes no result.
    pub fn handle_call(&self, name: &String, args: &Vec<(String, ArgValue)>) -> (r: Result<
        String,
        CallError,
    >)
        requires
            self.wf(),
        ensures
            call_result_matches(name@, args@, r),
    {
        let add_name = String::from_str("add");
        if !name.eq(&add_name) {
            return Err(CallError::UnknownTool);
        }
        let schema = &self.tools[0].input_schema;
        proof {
            lemma_add_schema_validation(*schema, args@);
        }
        if !validate_args(schema, args) {
            return Err(CallError::InvalidArguments);
        }
        let a_name = String::from_str("a");
        let b_name = String::from_str("b");
        let a = match lookup_argument(args, &a_name) {
            Some(v) => match v {
                ArgValue::Num(x) => *x,
                _ => unreached(),
            },
            None => unreached(),
        };
        let b = match lookup_argument(args, &b_name) {
            Some(v) => match v {
                ArgValue::Num(x) => *x,
                _ => unreached(),
            },
            None => unreached(),
        };
        let fits = if b >= 0 {
            a <= i64::MAX - b
        } else {
            a >= i64::MIN - b
        };
        if fits {
            Ok(self.add(a, b))
        } else {
            Err(CallError::OutOfRange)
        }
    }
}

} // verus!
