//! The subscriber-command endpoint: validation, request shape, and
//! batch response semantics.
use vstd::prelude::*;
use crate::batch::interpret_batch_counts;
use crate::batch::spec_partial_failure_message;
use crate::config::Config;
use crate::error::Error;
use crate::request::Method;
use crate::request::PreparedRequest;
use crate::request::RequestBody;
use crate::text::contains_char;
use crate::types::CommandData;
use crate::url::build_url;
use crate::url::spec_build_url;

verus! {

/// A single command is well-formed: its email holds an `'@'` and its
/// query is non-empty.
pub open spec fn spec_command_ok(c: CommandData) -> bool {
    c.email@.contains('@') && c.query@.len() > 0
}

/// `j` is the first place in `commands` where validation fails.
pub open spec fn spec_first_invalid_command(commands: Seq<CommandData>, j: int) -> bool {
    &&& 0 <= j < commands.len()
    &&& !spec_command_ok(commands[j])
    &&& forall|k: int| 0 <= k < j ==> spec_command_ok(#[trigger] commands[k])
}

/// The error reported for a command list that fails validation: an empty
/// list is an invalid request; otherwise the first offending command
/// decides — a malformed email is reported as `InvalidEmail` carrying
/// that email, then an empty query as `InvalidRequest`.
pub open spec fn spec_subscriber_command_error(commands: Seq<CommandData>, e: Error) -> bool {
    if commands.len() == 0 {
        e matches Error::InvalidRequest(m) && m@ == "No commands provided"@
    } else {
        exists|j: int|
            #![trigger spec_first_invalid_command(commands, j)]
            {
                &&& spec_first_invalid_command(commands, j)
                &&& (!commands[j].email@.contains('@') ==> (e matches Error::InvalidEmail(m) && m@
                    == commands[j].email@))
                &&& (commands[j].email@.contains('@') ==> (e matches Error::InvalidRequest(m)
                    && m@ == "Command query is required"@))
            }
    }
}

/// Validate `commands` and prepare the request that executes them on
/// subscribers. Fails — before anything would be sent — when the list is
/// empty or when any command has a malformed email or an empty query; the
/// first offending command decides the error. On success the request
/// posts the whole list to `/fetch/commands`.
pub fn subscriber_command_request(config: &Config, commands: Vec<CommandData>) -> (r: Result<
    PreparedRequest,
    Error,
>)
    ensures
        r is Ok <==> commands@.len() > 0 && (forall|i: int|
            0 <= i < commands@.len() ==> spec_command_ok(#[trigger] commands@[i])),
        r matches Ok(p) ==> {
            &&& p.method is Post
            &&& p.url@ == spec_build_url(config.base_url@, config.site_uuid@, "/fetch/commands"@)
            &&& p.query@ == Seq::<(String, String)>::empty()
            &&& p.body matches Some(b) && b matches RequestBody::Commands(cs) && cs == commands
        },
        r matches Err(e) ==> spec_subscriber_command_error(commands@, e),
{
    if commands.len() == 0 {
        return Err(Error::InvalidRequest("No commands provided".to_owned()));
    }
    let n = commands.len();
    let mut i: usize = 0;
    while i < n
        invariant
            n == commands@.len(),
            i <= n,
            forall|k: int| 0 <= k < i ==> spec_command_ok(#[trigger] commands@[k]),
        decreases n - i,
    {
        if !contains_char(commands[i].email.as_str(), '@') {
            assert(spec_first_invalid_command(commands@, i as int));
            return Err(Error::InvalidEmail(commands[i].email.clone()));
        }
        if commands[i].query.as_str().is_empty() {
            assert(spec_first_invalid_command(commands@, i as int));
            return Err(Error::InvalidRequest("Command query is required".to_owned()));
        }
        i = i + 1;
    }
    let url = build_url(config, "/fetch/commands");
    let query: Vec<(String, String)> = Vec::new();
    assert(query@ =~= Seq::<(String, String)>::empty());
    Ok(PreparedRequest {
        method: Method::Post,
        url,
        query,
        body: Some(RequestBody::Commands(commands)),
    })
}

/// Interpret the `{results, failed}` envelope of a command call: any
/// failed command turns the whole call into `UnexpectedResponse` carrying
/// both counts.
pub fn subscriber_command_response(results: u32, failed: u32) -> (r: Result<(), Error>)
    ensures
        r is Ok <==> failed == 0,
        failed > 0 ==> (r matches Err(e) && e matches Error::UnexpectedResponse(m)
            && m@ == spec_partial_failure_message("Command execution"@, results, failed)),
{
    interpret_batch_counts("Command execution", results, failed)
}

} // verus!
