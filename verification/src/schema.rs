//! Capability descriptors, their input schemas, argument values, and
//! validation of invocation arguments against an advertised schema.

use vstd::prelude::*;
use vstd::string::*;

verus! {

/// One named parameter of a capability's input schema, with its JSON
/// schema type name (the calculator only advertises "number").
pub struct Property {
    pub name: String,
    pub kind_name: String,
}

/// The input schema of a capability: its declared parameters and the
/// subset of parameter names that a caller must supply.
pub struct InputSchema {
    pub properties: Vec<Property>,
    pub required: Vec<String>,
}

/// A capability advertised by a provider.
pub struct Tool {
    pub name: String,
    pub description: String,
    pub input_schema: InputSchema,
}

/// A capability descriptor reshaped for a model-facing function-calling
/// interface: `{type: "function", function: {name, description,
/// parameters: {type: "object", properties, required}}}`, with the two
/// constant envelope fields implied by the type itself.
pub struct FunctionSchema {
    pub name: String,
    pub description: String,
    pub parameters: InputSchema,
}

/// One argument value of an invocation request, as read from the wire.
pub enum ArgValue {
    Num(i64),
    Text(String),
    Flag(bool),
    Null,
}

/// The first property of `props` whose name reads `name`, if any.
pub open spec fn lookup_prop(props: Seq<Property>, name: Seq<char>) -> Option<Property>
    decreases props.len(),
{
    if props.len() == 0 {
        None
    } else if props[0].name@ == name {
        Some(props[0])
    } else {
        lookup_prop(props.drop_first(), name)
    }
}

/// The first argument of `args` whose key reads `name`, if any.
pub open spec fn lookup_arg(args: Seq<(String, ArgValue)>, name: Seq<char>) -> Option<ArgValue>
    decreases args.len(),
{
    if args.len() == 0 {
        None
    } else if args[0].0@ == name {
        Some(args[0].1)
    } else {
        lookup_arg(args.drop_first(), name)
    }
}

/// Whether a supplied value satisfies a declared schema type. The only
/// type the provider advertises is "number".
pub open spec fn value_matches_type(kind_name: Seq<char>, v: ArgValue) -> bool {
    kind_name == "number"@ && v is Num
}

/// Whether the `i`-th required parameter of `schema` is declared,
/// supplied, and supplied with a value of the declared type.
pub open spec fn required_ok(schema: InputSchema, args: Seq<(String, ArgValue)>, i: int) -> bool {
    match lookup_prop(schema.properties@, schema.required@[i]@) {
        Some(p) => match lookup_arg(args, schema.required@[i]@) {
            Some(v) => value_matches_type(p.kind_name@, v),
            None => false,
        },
        None => false,
    }
}

/// Whether `args` satisfies `schema`: every required parameter is
/// supplied with a value of its declared type.
pub open spec fn args_valid(schema: InputSchema, args: Seq<(String, ArgValue)>) -> bool {
    forall|i: int| 0 <= i < schema.required@.len() ==> #[trigger] required_ok(schema, args, i)
}

/// Two schemas that read the same, property by property and required
/// name by required name.
pub open spec fn schema_like(s1: InputSchema, s2: InputSchema) -> bool {
    &&& s1.properties@.len() == s2.properties@.len()
    &&& forall|i: int|
        0 <= i < s1.properties@.len() ==> #[trigger] s1.properties@[i].name@ == s2.properties@[
            i
        ].name@ && s1.properties@[i].kind_name@ == s2.properties@[i].kind_name@
    &&& s1.required@.len() == s2.required@.len()
    &&& forall|i: int| 0 <= i < s1.required@.len() ==> #[trigger] s1.required@[i]@ == s2.required@[i]@
}

/// The first property of `props` whose name equals `name`.
pub fn lookup_property<'a>(props: &'a Vec<Property>, name: &String) -> (r: Option<&'a Property>)
    ensures
        match r {
            Some(p) => lookup_prop(props@, name@) == Some(*p),
            None => lookup_prop(props@, name@) is None,
        },
{
    let n = props.len();
    let mut i: usize = 0;
    proof {
        assert(props@.skip(0) =~= props@);
    }
    while i < n
        invariant
            n == props@.len(),
            0 <= i <= n,
            lookup_prop(props@, name@) == lookup_prop(props@.skip(i as int), name@),
        decreases n - i,
    {
        proof {
            assert(props@.skip(i as int)[0] == props@[i as int]);
            assert(props@.skip(i as int).drop_first() =~= props@.skip(i as int + 1));
        }
        if props[i].name.eq(name) {
            return Some(&props[i]);
        }
        i += 1;
    }
    proof {
        assert(props@.skip(n as int).len() == 0);
    }
    None
}

/// The first argument of `args` whose key equals `name`.
pub fn lookup_argument<'a>(args: &'a Vec<(String, ArgValue)>, name: &String) -> (r: Option<
    &'a ArgValue,
>)
    ensures
        match r {
            Some(v) => lookup_arg(args@, name@) == Some(*v),
            None => lookup_arg(args@, name@) is None,
        },
{
    let n = args.len();
    let mut i: usize = 0;
    proof {
        assert(args@.skip(0) =~= args@);
    }
    while i < n
        invariant
            n == args@.len(),
            0 <= i <= n,
            lookup_arg(args@, name@) == lookup_arg(args@.skip(i as int), name@),
        decreases n - i,
    {
        proof {
            assert(args@.skip(i as int)[0] == args@[i as int]);
            assert(args@.skip(i as int).drop_first() =~= args@.skip(i as int + 1));
        }
        if args[i].0.eq(name) {
            return Some(&args[i].1);
        }
        i += 1;
    }
    proof {
        assert(args@.skip(n as int).len() == 0);
    }
    None
}

/// Whether a supplied value satisfies a declared schema type.
pub fn value_matches(kind_name: &String, v: &ArgValue) -> (r: bool)
    ensures
        r == value_matches_type(kind_name@, *v),
{
    let number = String::from_str("number");
    let is_number = kind_name.eq(&number);
    match v {
        ArgValue::Num(_) => is_number,
        _ => false,
    }
}

/// Whether `args` satisfies `schema`: every required parameter must be
/// supplied with a value of its declared type.
pub fn validate_args(schema: &InputSchema, args: &Vec<(String, ArgValue)>) -> (ok: bool)
    ensures
        ok == args_valid(*schema, args@),
{
    let n = schema.required.len();
    let mut i: usize = 0;
    while i < n
        invariant
            n == schema.required@.len(),
            0 <= i <= n,
            forall|j: int| 0 <= j < i ==> #[trigger] required_ok(*schema, args@, j),
        decreases n - i,
    {
        let name = &schema.required[i];
        match lookup_property(&schema.properties, name) {
            Some(p) => {
                match lookup_argument(args, name) {
                    Some(v) => {
                        if !value_matches(&p.kind_name, v) {
                            proof {
                                assert(!required_ok(*schema, args@, i as int));
                            }
                            return false;
                        }
                    },
                    None => {
                        proof {
                            assert(!required_ok(*schema, args@, i as int));
                        }
                        return false;
                    },
                }
            },
            None => {
                proof {
                    assert(!required_ok(*schema, args@, i as int));
                }
                return false;
            },
        }
        i += 1;
    }
    true
}

/// A function schema that reads the same as a capability descriptor.
pub open spec fn schema_of_tool(f: FunctionSchema, t: Tool) -> bool {
    &&& f.name@ == t.name@
    &&& f.description@ == t.description@
    &&& schema_like(f.parameters, t.input_schema)
}

fn copy_properties(props: &Vec<Property>) -> (r: Vec<Property>)
    ensures
        r@.len() == props@.len(),
        forall|i: int|
            0 <= i < props@.len() ==> #[trigger] r@[i].name@ == props@[i].name@ && r@[
                i
            ].kind_name@ == props@[i].kind_name@,
{
    let n = props.len();
    let mut r: Vec<Property> = Vec::new();
    let mut i: usize = 0;
    while i < n
        invariant
            n == props@.len(),
            0 <= i <= n,
            r@.len() == i,
            forall|j: int|
                0 <= j < i ==> #[trigger] r@[j].name@ == props@[j].name@ && r@[j].kind_name@
                    == props@[j].kind_name@,
        decreases n - i,
    {
        r.push(
            Property { name: props[i].name.clone(), kind_name: props[i].kind_name.clone() },
        );
        i += 1;
    }
    r
}

fn copy_required(required: &Vec<String>) -> (r: Vec<String>)
    ensures
        r@.len() == required@.len(),
        forall|i: int| 0 <= i < required@.len() ==> #[trigger] r@[i]@ == required@[i]@,
{
    let n = required.len();
    let mut r: Vec<String> = Vec::new();
    let mut i: usize = 0;
    while i < n
        invariant
            n == required@.len(),
            0 <= i <= n,
            r@.len() == i,
            forall|j: int| 0 <= j < i ==> #[trigger] r@[j]@ == required@[j]@,
        decreases n - i,
    {
        r.push(required[i].clone());
        i += 1;
    }
    r
}

/// Reshape each advertised capability descriptor into the function
/// schema a chat-completion endpoint accepts, keeping the name, the
/// description and the whole input schema of each.
pub fn format_tools(tools: &Vec<Tool>) -> (r: Vec<FunctionSchema>)
    ensures
        r@.len() == tools@.len(),
        forall|i: int| 0 <= i < tools@.len() ==> #[trigger] schema_of_tool(r@[i], tools@[i]),
{
    let n = tools.len();
    let mut r: Vec<FunctionSchema> = Vec::new();
    let mut i: usize = 0;
    while i < n
        invariant
            n == tools@.len(),
            0 <= i <= n,
            r@.len() == i,
            forall|j: int| 0 <= j < i ==> #[trigger] schema_of_tool(r@[j], tools@[j]),
        decreases n - i,
    {
        let t = &tools[i];
        r.push(
            FunctionSchema {
                name: t.name.clone(),
                description: t.description.clone(),
                parameters: InputSchema {
                    properties: copy_properties(&t.input_schema.properties),
                    required: copy_required(&t.input_schema.required),
                },
            },
        );
        i += 1;
    }
    r
}

} // verus!
