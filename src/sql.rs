use vstd::prelude::*;

verus! {

/// Start of the schema query for one table; the table's name follows.
pub const SCHEMA_QUERY_HEAD: &'static str = "SELECT m.name as table_name, p.* \n                                 FROM sqlite_master m\n                                 JOIN pragma_table_info(m.name) p\n                                 WHERE m.type = 'table' AND m.name = '";

/// End of the schema query for one table.
pub const SCHEMA_QUERY_TAIL: &'static str = "'\n                                 ORDER BY m.name, p.cid";

/// The schema query over every table.
pub const SCHEMA_QUERY_ALL: &'static str = "SELECT m.name as table_name, p.* \n                                 FROM sqlite_master m\n                                 JOIN pragma_table_info(m.name) p\n                                 WHERE m.type = 'table'\n                                 ORDER BY m.name, p.cid";

/// What a `tools/call` request carries, as far as the handler reads it.
pub struct CallParams {
    /// `name`, when it is a string.
    pub name: Option<String>,
    /// Whether `arguments` is an object.
    pub arguments_is_object: bool,
    /// `arguments.query`, when it is a string.
    pub query: Option<String>,
    /// `arguments.table`, when it is a string.
    pub table: Option<String>,
}

/// Why a request is refused.
#[derive(Debug, PartialEq, Eq)]
pub enum HandlerError {
    MissingParameters,
    MissingToolName,
    MissingArguments,
    MissingQuery,
    UnknownTool(String),
    UnknownMethod(String),
}

/// What answering a request takes.
#[derive(Debug, PartialEq, Eq)]
pub enum Plan {
    /// Answer with the list of the two tools.
    ListTools,
    /// Post this SQL to the query service and return its answer.
    PostQuery(String),
    /// Post this schema query and group the rows it returns.
    PostSchema(String),
}

/// The schema query: filtered on `table`, inserted verbatim, or over every
/// table.
pub open spec fn schema_query_spec(table: Option<Seq<char>>) -> Seq<char> {
    match table {
        Some(t) => SCHEMA_QUERY_HEAD@ + t + SCHEMA_QUERY_TAIL@,
        None => SCHEMA_QUERY_ALL@,
    }
}

pub open spec fn opt_view(s: Option<String>) -> Option<Seq<char>> {
    match s {
        Some(t) => Some(t@),
        None => None,
    }
}

/// The answer to `method` with `params`, checked in this order: the method,
/// the parameters, the tool's name, the arguments, then the tool's own input.
pub open spec fn plan_spec(
    method: Seq<char>,
    params: Option<CallParams>,
    r: Result<Plan, HandlerError>,
) -> bool {
    if method == "tools/list"@ {
        r == Ok::<Plan, HandlerError>(Plan::ListTools)
    } else if method == "tools/call"@ {
        match params {
            None => r == Err::<Plan, HandlerError>(HandlerError::MissingParameters),
            Some(p) => match p.name {
                None => r == Err::<Plan, HandlerError>(HandlerError::MissingToolName),
                Some(name) => if !p.arguments_is_object {
                    r == Err::<Plan, HandlerError>(HandlerError::MissingArguments)
                } else if name@ == "query"@ {
                    match p.query {
                        None => r == Err::<Plan, HandlerError>(HandlerError::MissingQuery),
                        Some(q) => (r matches Ok(Plan::PostQuery(s)) && s@ == q@),
                    }
                } else if name@ == "schema"@ {
                    (r matches Ok(Plan::PostSchema(s)) && s@ == schema_query_spec(
                        opt_view(p.table),
                    ))
                } else {
                    (r matches Err(HandlerError::UnknownTool(n)) && n@ == name@)
                },
            },
        }
    } else {
        (r matches Err(HandlerError::UnknownMethod(m)) && m@ == method)
    }
}

fn str_is(s: &str, lit: &str) -> (r: bool)
    ensures
        r == (s@ == lit@),
{
    s.to_owned() == lit.to_owned()
}

/// The schema query for `table`, or for every table.
pub fn schema_query(table: Option<&str>) -> (q: String)
    ensures
        q@ == schema_query_spec(
            match table {
                Some(t) => Some(t@),
                None => None,
            },
        ),
{
    match table {
        Some(t) => {
            let mut q = SCHEMA_QUERY_HEAD.to_owned();
            q.append(t);
            q.append(SCHEMA_QUERY_TAIL);
            q
        },
        None => SCHEMA_QUERY_ALL.to_owned(),
    }
}

/// Decides how to answer a request for `method`.
pub fn plan_method(method: &str, params: Option<CallParams>) -> (r: Result<Plan, HandlerError>)
    ensures
        plan_spec(method@, params, r),
{
    if str_is(method, "tools/list") {
        return Ok(Plan::ListTools);
    }
    if !str_is(method, "tools/call") {
        return Err(HandlerError::UnknownMethod(method.to_owned()));
    }
    let p = match params {
        Some(p) => p,
        None => return Err(HandlerError::MissingParameters),
    };
    let name = match p.name {
        Some(n) => n,
        None => return Err(HandlerError::MissingToolName),
    };
    if !p.arguments_is_object {
        return Err(HandlerError::MissingArguments);
    }
    if str_is(name.as_str(), "query") {
        match p.query {
            Some(q) => Ok(Plan::PostQuery(q)),
            None => Err(HandlerError::MissingQuery),
        }
    } else if str_is(name.as_str(), "schema") {
        match p.table {
            Some(t) => Ok(Plan::PostSchema(schema_query(Some(t.as_str())))),
            None => Ok(Plan::PostSchema(schema_query(None))),
        }
    } else {
        Err(HandlerError::UnknownTool(name))
    }
}

} // verus!
